//! Paths as text: how a path falls into components, which names are meant
//! for this host, and where in the home directory a repository file is linked.

use vstd::prelude::*;
use crate::text::{
    append, begins_with, chars_of, join, joined, lemma_first_piece_is_a_prefix,
    lemma_joined_begins_with_first, lemma_joined_of_two, lemma_pieces_behind_a_char,
    lemma_pieces_count, lemma_pieces_of_joined, lemma_pieces_of_two, lemma_pieces_rejoin, pieces,
    same_text, slice, split, string_of, views,
};
use crate::{get_home, get_repo, get_this, Host, Session, SessionView, This};

verus! {

/// One managed link: where it stands in the home directory and what it points to.
#[derive(Debug)]
pub struct DotEntry {
    pub link: String,
    pub target: String,
}

/// A pair of texts, the model of a [`DotEntry`].
pub ghost struct DotEntryView {
    pub link: Seq<char>,
    pub target: Seq<char>,
}

impl View for DotEntry {
    type V = DotEntryView;

    open spec fn view(&self) -> DotEntryView {
        DotEntryView { link: self.link@, target: self.target@ }
    }
}

/// A path could not be mapped to the place of its link.
#[derive(Clone, Copy, Debug, PartialEq, Eq, Structural)]
pub struct PathError;

impl PathError {
    /// What went wrong, in words.
    pub fn message(&self) -> (text: String)
        ensures
            text@ == "Trouble parsing path for links"@,
    {
        "Trouble parsing path for links".to_owned()
    }
}

/// The identity of a file: the device it lives on and its number there.
#[derive(Clone, Copy, Debug, PartialEq, Eq, Structural)]
pub struct FileId {
    pub dev: u64,
    pub ino: u64,
}

/// What kind of thing stands at a path, not following a symbolic link.
#[derive(Clone, Copy, Debug, PartialEq, Eq, Structural)]
pub enum FileKind {
    Symlink,
    Directory,
    File,
    Other,
}

/// Whether two identities name the same file: same device, same number.
pub fn is_identical(a: &FileId, b: &FileId) -> (same: bool)
    ensures
        same == (*a == *b),
        same == (a.dev == b.dev && a.ino == b.ino),
{
    a.dev == b.dev && a.ino == b.ino
}

/// The components of a path: the pieces between its separators, empty ones
/// included. A path without a separator is its own single component.
pub open spec fn components(path: Seq<char>) -> Seq<Seq<char>> {
    pieces(path, '/')
}

/// The final name of a path: the text after its last separator.
pub open spec fn file_name(path: Seq<char>) -> Seq<char> {
    components(path).last()
}

/// A base path extended by `rel`: `rel` alone where it is absolute, else the
/// two with one separator between them.
pub open spec fn path_joined(base: Seq<char>, rel: Seq<char>) -> Seq<char> {
    if rel.len() > 0 && rel[0] == '/' {
        rel
    } else if base.len() == 0 || base.last() == '/' {
        base + rel
    } else {
        base.push('/') + rel
    }
}

/// What is left of `path` below `prefix`; `None` where `path` is not the
/// prefix itself nor anything below it.
pub open spec fn prefix_stripped(path: Seq<char>, prefix: Seq<char>) -> Option<Seq<char>> {
    if prefix.len() == 0 {
        Some(path)
    } else if path == prefix {
        Some(Seq::<char>::empty())
    } else if prefix.is_prefix_of(path) && prefix.last() == '/' {
        Some(path.skip(prefix.len() as int))
    } else if prefix.is_prefix_of(path) && path[prefix.len() as int] == '/' {
        Some(path.skip(prefix.len() as int + 1))
    } else {
        None
    }
}

/// The directory that holds the final name of `path`: `None` where the path
/// has no final name, the empty path for a bare name, the root for a name
/// directly below it.
pub open spec fn parent_of(path: Seq<char>) -> Option<Seq<char>> {
    let name = file_name(path);
    if name.len() == 0 {
        None
    } else if name.len() == path.len() {
        Some(Seq::<char>::empty())
    } else if name.len() + 1 == path.len() {
        Some(path.take(1))
    } else {
        Some(path.take(path.len() - name.len() - 1))
    }
}

/// The name under which a file is kept when a link takes its place.
pub open spec fn backup_name(path: Seq<char>) -> Seq<char> {
    path + ".bak"@
}

/// Extends `base` by `rel`.
fn join_path(base: &Vec<char>, rel: &Vec<char>) -> (out: Vec<char>)
    ensures
        out@ == path_joined(base@, rel@),
{
    if rel.len() > 0 && rel[0] == '/' {
        slice(rel, 0, rel.len())
    } else {
        let mut out = slice(base, 0, base.len());
        if base.len() > 0 && base[base.len() - 1] != '/' {
            out.push('/');
        }
        append(&mut out, rel);
        out
    }
}

/// What is left of `path` below `prefix`, if it lies there.
pub(crate) fn strip_prefix(path: &Vec<char>, prefix: &Vec<char>) -> (rest: Option<Vec<char>>)
    ensures
        match rest {
            Some(rest) => prefix_stripped(path@, prefix@) == Some(rest@),
            None => prefix_stripped(path@, prefix@) is None,
        },
{
    if prefix.len() == 0 {
        return Some(slice(path, 0, path.len()));
    }
    if !begins_with(path, prefix) {
        assert(path@ != prefix@) by {
            assert(prefix@.subrange(0, prefix@.len() as int) == prefix@);
        }
        return None;
    }
    if path.len() == prefix.len() {
        assert(path@ == prefix@) by {
            assert(path@.subrange(0, prefix@.len() as int) == path@);
        }
        Some(Vec::new())
    } else if prefix[prefix.len() - 1] == '/' {
        Some(slice(path, prefix.len(), path.len()))
    } else if path[prefix.len()] == '/' {
        Some(slice(path, prefix.len() + 1, path.len()))
    } else {
        None
    }
}

/// The mark that a name carries when it is meant for the host called `tag`.
pub open spec fn label(tag: Seq<char>) -> Seq<char> {
    seq!['_'] + tag
}

/// The generic mark that stands for this host's platform in a link's name.
pub open spec fn platform_label() -> Seq<char> {
    "_platform"@
}

/// The generic mark that stands for this machine in a link's name.
pub open spec fn machine_label() -> Seq<char> {
    "_machine"@
}

/// A name is conditional when it begins with an underscore.
pub open spec fn name_is_conditional(name: Seq<char>) -> bool {
    name.len() > 0 && name[0] == '_'
}

/// Whether a name carries the mark of this platform or of this machine.
pub open spec fn name_matches_host(name: Seq<char>, host: Host) -> bool {
    label(host.platform).is_prefix_of(name) || label(host.machine).is_prefix_of(name)
}

/// A conditional name that is meant for some other host.
pub open spec fn name_invalid_to_target(name: Seq<char>, host: Host) -> bool {
    name_is_conditional(name) && !name_matches_host(name, host)
}

/// A name with this host's mark replaced by the generic one: the platform's
/// mark first, else the machine's, else the name as it is.
pub open spec fn name_rewritten(name: Seq<char>, host: Host) -> Seq<char> {
    if label(host.platform).is_prefix_of(name) {
        platform_label() + name.skip(label(host.platform).len() as int)
    } else if label(host.machine).is_prefix_of(name) {
        machine_label() + name.skip(label(host.machine).len() as int)
    } else {
        name
    }
}

/// A conditional name that carries neither generic mark.
pub open spec fn name_has_bad_underscore(name: Seq<char>) -> bool {
    name_is_conditional(name) && !(machine_label().is_prefix_of(name)
        || platform_label().is_prefix_of(name))
}

/// A path is invalid to target when one of its components is meant for another host.
pub open spec fn invalid_to_target(path: Seq<char>, host: Host) -> bool {
    exists|i: int|
        0 <= i < components(path).len() && name_invalid_to_target(
            #[trigger] components(path)[i],
            host,
        )
}

/// A path with every component rewritten to the generic marks.
pub open spec fn labels_replaced(path: Seq<char>, host: Host) -> Seq<char> {
    joined(components(path).map_values(|name: Seq<char>| name_rewritten(name, host)), '/')
}

/// A name with a generic mark replaced by this host's own: the inverse of
/// [`name_rewritten`] on names meant for this host.
pub open spec fn name_restored(name: Seq<char>, host: Host) -> Seq<char> {
    if platform_label().is_prefix_of(name) {
        label(host.platform) + name.skip(platform_label().len() as int)
    } else if machine_label().is_prefix_of(name) {
        label(host.machine) + name.skip(machine_label().len() as int)
    } else {
        name
    }
}

/// A path with every generic mark replaced by this host's own.
pub open spec fn labels_restored(path: Seq<char>, host: Host) -> Seq<char> {
    joined(components(path).map_values(|name: Seq<char>| name_restored(name, host)), '/')
}

/// The text behind an optional string.
pub open spec fn text_of(s: Option<&str>) -> Option<Seq<char>> {
    match s {
        Some(s) => Some(s@),
        None => None,
    }
}

/// The home directory itself, or the place below it that `prefix` names.
pub open spec fn dot_path(home: Seq<char>, prefix: Option<Seq<char>>) -> Seq<char> {
    match prefix {
        Some(prefix) => path_joined(home, prefix),
        None => home,
    }
}

/// Where in the home directory the link for a repository path belongs,
/// before any mark is rewritten: `strip` is taken off the front, a dot is put
/// before what is left, and the result is placed below `home`. `None` where
/// the path does not lie below `strip`.
pub open spec fn link_location(path: Seq<char>, strip: Option<Seq<char>>, home: Seq<char>)
    -> Option<Seq<char>> {
    let below = match strip {
        Some(prefix) => prefix_stripped(path, prefix),
        None => Some(path),
    };
    match below {
        Some(below) => Some(path_joined(home, seq!['.'] + below)),
        None => None,
    }
}

/// The link that belongs to a repository path on this host: its location
/// with this host's marks rewritten to the generic ones.
pub open spec fn final_link(path: Seq<char>, strip: Option<Seq<char>>, session: SessionView)
    -> Option<Seq<char>> {
    match link_location(path, strip, session.home) {
        Some(link) => Some(labels_replaced(link, session.host)),
        None => None,
    }
}

/// Where in the repository a path comes from that is linked below the home
/// directory: what lies below `config` comes from the tree of that name,
/// everything else from the tree `home`.
pub open spec fn source_below(below: Seq<char>, repo: Seq<char>) -> Seq<char> {
    if components(below).len() >= 2 && components(below)[0] == "config"@ {
        path_joined(repo, below)
    } else {
        path_joined(path_joined(repo, "home"@), below)
    }
}

/// The repository path that a link in the home directory stands for: the
/// link's path below the home directory, the generic marks restored to this
/// host's own and the leading dot taken off, below `config` in the
/// repository for what lies below `.config` and below `home` for everything
/// else. `None` where the link is not a dotted path below the home directory.
pub open spec fn matching_source(link: Seq<char>, session: SessionView) -> Option<Seq<char>> {
    match prefix_stripped(link, session.home) {
        Some(rel) => if rel.len() > 0 && rel[0] == '.' {
            Some(source_below(labels_restored(rel, session.host).skip(1), session.repo))
        } else {
            None
        },
        None => None,
    }
}

/// The mark of the host called `tag`, as characters.
fn label_of(tag: &String) -> (mark: Vec<char>)
    ensures
        mark@ == label(tag@),
{
    let mut mark: Vec<char> = Vec::new();
    mark.push('_');
    let name = chars_of(tag.as_str());
    append(&mut mark, &name);
    mark
}

/// Whether `name` is meant for a host other than `this`.
fn name_invalid(name: &Vec<char>, this: &This) -> (b: bool)
    ensures
        b == name_invalid_to_target(name@, this@),
{
    if name.len() > 0 && name[0] == '_' {
        let platform = label_of(this.platform());
        let machine = label_of(this.machine());
        !(begins_with(name, &platform) || begins_with(name, &machine))
    } else {
        false
    }
}

/// `name` with the mark of `this` replaced by the generic one.
fn rewrite_name(name: &Vec<char>, this: &This) -> (out: Vec<char>)
    ensures
        out@ == name_rewritten(name@, this@),
{
    let platform = label_of(this.platform());
    let machine = label_of(this.machine());
    if begins_with(name, &platform) {
        let mut out = chars_of("_platform");
        let rest = slice(name, platform.len(), name.len());
        append(&mut out, &rest);
        out
    } else if begins_with(name, &machine) {
        let mut out = chars_of("_machine");
        let rest = slice(name, machine.len(), name.len());
        append(&mut out, &rest);
        out
    } else {
        slice(name, 0, name.len())
    }
}

/// The final name of `word`: the text after its last separator, the whole of
/// `word` where it holds none.
pub fn file_name_as_str(word: &str) -> (name: String)
    ensures
        name@ == file_name(word@),
{
    let parts = split(&chars_of(word), '/');
    string_of(&parts[parts.len() - 1])
}

/// Whether the final name of `path` begins with an underscore and yet with
/// neither `_machine` nor `_platform`.
pub fn has_bad_underscore(path: &str) -> (bad: bool)
    ensures
        bad == name_has_bad_underscore(file_name(path@)),
{
    let parts = split(&chars_of(path), '/');
    let name = &parts[parts.len() - 1];
    if name.len() > 0 && name[0] == '_' {
        let machine = chars_of("_machine");
        let platform = chars_of("_platform");
        !(begins_with(name, &machine) || begins_with(name, &platform))
    } else {
        false
    }
}

/// Whether some component of `entry` is marked for a host other than `this`.
pub fn is_invalid_to_target(entry: &str, this: &This) -> (invalid: bool)
    ensures
        invalid == invalid_to_target(entry@, this@),
{
    let parts = split(&chars_of(entry), '/');
    let mut i: usize = 0;
    while i < parts.len()
        invariant
            i <= parts.len(),
            views(parts@) == components(entry@),
            forall|j: int| 0 <= j < i ==> !name_invalid_to_target(components(entry@)[j], this@),
        decreases parts.len() - i,
    {
        assert(views(parts@)[i as int] == parts@[i as int]@);
        if name_invalid(&parts[i], this) {
            return true;
        }
        i += 1;
    }
    false
}

/// `name` with a generic mark replaced by that of `this`.
fn restore_name(name: &Vec<char>, this: &This) -> (out: Vec<char>)
    ensures
        out@ == name_restored(name@, this@),
{
    let platform = chars_of("_platform");
    let machine = chars_of("_machine");
    if begins_with(name, &platform) {
        let mut out = label_of(this.platform());
        let rest = slice(name, platform.len(), name.len());
        append(&mut out, &rest);
        out
    } else if begins_with(name, &machine) {
        let mut out = label_of(this.machine());
        let rest = slice(name, machine.len(), name.len());
        append(&mut out, &rest);
        out
    } else {
        slice(name, 0, name.len())
    }
}

/// A component after the rewrite to the generic marks, or, with `restore`,
/// after the rewrite back.
pub open spec fn name_changed(name: Seq<char>, host: Host, restore: bool) -> Seq<char> {
    if restore {
        name_restored(name, host)
    } else {
        name_rewritten(name, host)
    }
}

/// `path` with every component rewritten, or, with `restore`, rewritten back.
fn change_labels(path: &Vec<char>, this: &This, restore: bool) -> (out: Vec<char>)
    ensures
        out@ == joined(
            components(path@).map_values(|name: Seq<char>| name_changed(name, this@, restore)),
            '/',
        ),
{
    let parts = split(path, '/');
    let mut renamed: Vec<Vec<char>> = Vec::new();
    let mut i: usize = 0;
    while i < parts.len()
        invariant
            i <= parts.len(),
            renamed.len() == i,
            forall|j: int|
                0 <= j < i ==> (#[trigger] renamed@[j])@ == name_changed(
                    parts@[j]@,
                    this@,
                    restore,
                ),
        decreases parts.len() - i,
    {
        let name = if restore {
            restore_name(&parts[i], this)
        } else {
            rewrite_name(&parts[i], this)
        };
        renamed.push(name);
        i += 1;
    }
    assert(views(renamed@) =~= components(path@).map_values(
        |name: Seq<char>| name_changed(name, this@, restore),
    )) by {
        assert forall|j: int| 0 <= j < parts.len() implies views(renamed@)[j] == name_changed(
            components(path@)[j],
            this@,
            restore,
        ) by {
        }
    }
    join(&renamed, '/')
}

/// Rewrites every component of `entry` that carries this host's mark to the
/// generic form.
pub fn replace_this_labels(entry: &str, this: &This) -> (out: String)
    ensures
        out@ == labels_replaced(entry@, this@),
{
    let out = change_labels(&chars_of(entry), this, false);
    assert(components(entry@).map_values(|name: Seq<char>| name_changed(name, this@, false))
        =~= components(entry@).map_values(|name: Seq<char>| name_rewritten(name, this@)));
    string_of(&out)
}

/// The home directory, or the place below it that `prefix` names.
pub fn get_dot_path(prefix: Option<&str>, session: &Session) -> (path: String)
    ensures
        path@ == dot_path(session@.home, text_of(prefix)),
{
    match prefix {
        Some(prefix) => string_of(
            &join_path(&chars_of(get_home(session).as_str()), &chars_of(prefix)),
        ),
        None => get_home(session).clone(),
    }
}

/// Where in the home directory the link for `dot_path` belongs, before any
/// mark is rewritten. Fails where `dot_path` does not lie below
/// `prefix_to_strip`.
pub fn link_from_dot_path(dot_path: &str, prefix_to_strip: Option<&str>, session: &Session) -> (link:
    Result<String, PathError>)
    ensures
        match link {
            Ok(link) => link_location(dot_path@, text_of(prefix_to_strip), session@.home) == Some(
                link@,
            ),
            Err(_) => link_location(dot_path@, text_of(prefix_to_strip), session@.home) is None,
        },
{
    let path = chars_of(dot_path);
    let below = match prefix_to_strip {
        Some(prefix) => match strip_prefix(&path, &chars_of(prefix)) {
            Some(below) => below,
            None => {
                return Err(PathError);
            },
        },
        None => path,
    };
    let mut dotted: Vec<char> = Vec::new();
    dotted.push('.');
    append(&mut dotted, &below);
    Ok(string_of(&join_path(&chars_of(get_home(session).as_str()), &dotted)))
}

/// The link that belongs to the repository path `path` on this host. Fails
/// where `path` does not lie below `prefix_to_strip`.
pub fn final_link_name(path: &str, prefix_to_strip: Option<&str>, session: &Session) -> (link:
    Result<String, PathError>)
    ensures
        match link {
            Ok(link) => final_link(path@, text_of(prefix_to_strip), session@) == Some(link@),
            Err(_) => final_link(path@, text_of(prefix_to_strip), session@) is None,
        },
{
    match link_from_dot_path(path, prefix_to_strip, session) {
        Ok(link) => Ok(replace_this_labels(link.as_str(), get_this(session))),
        Err(e) => Err(e),
    }
}

/// What a link to the repository path `path` points to: the canonical form
/// of the path where the file system gave one, else the path as it stands
/// below the repository root.
pub fn final_target_name(path: &str, canonical: Option<String>, session: &Session) -> (target:
    String)
    ensures
        target@ == match canonical {
            Some(canonical) => canonical@,
            None => path_joined(session@.repo, path@),
        },
{
    match canonical {
        Some(canonical) => canonical,
        None => string_of(&join_path(&chars_of(get_repo(session).as_str()), &chars_of(path))),
    }
}

/// Whether `path` lies below the home directory under a name that begins
/// with a dot.
pub fn home_path_starts_with_dot(path: &str, session: &Session) -> (dotted: bool)
    ensures
        dotted == match prefix_stripped(path@, session@.home) {
            Some(rel) => rel.len() > 0 && rel[0] == '.',
            None => false,
        },
{
    match strip_prefix(&chars_of(path), &chars_of(get_home(session).as_str())) {
        Some(rel) => rel.len() > 0 && rel[0] == '.',
        None => false,
    }
}

/// The name under which the file at `path` is kept when a link takes its
/// place: the path with `.bak` behind it, which adds `.bak` to the extension
/// of a name that has one and makes `bak` the extension of one that has none.
pub fn name_with_bak(path: &str) -> (backup: String)
    ensures
        backup@ == backup_name(path@),
{
    let mut backup = chars_of(path);
    append(&mut backup, &chars_of(".bak"));
    string_of(&backup)
}

/// The directory that holds the final name of `path`, if the path has one.
pub fn parent(path: &str) -> (dir: Option<String>)
    ensures
        match dir {
            Some(dir) => parent_of(path@) == Some(dir@),
            None => parent_of(path@) is None,
        },
{
    let whole = chars_of(path);
    let parts = split(&whole, '/');
    let name = &parts[parts.len() - 1];
    proof {
        lemma_name_is_suffix(path@);
    }
    if name.len() == 0 {
        None
    } else if name.len() == whole.len() {
        Some(String::new())
    } else if name.len() + 1 == whole.len() {
        Some(string_of(&slice(&whole, 0, 1)))
    } else {
        Some(string_of(&slice(&whole, 0, whole.len() - name.len() - 1)))
    }
}

/// The repository path that the link `link` stands for, if it is a dotted
/// path below the home directory.
pub fn matching_target(link: &str, session: &Session) -> (source: Option<String>)
    ensures
        match source {
            Some(source) => matching_source(link@, session@) == Some(source@),
            None => matching_source(link@, session@) is None,
        },
{
    let rel = match strip_prefix(&chars_of(link), &chars_of(get_home(session).as_str())) {
        Some(rel) => rel,
        None => {
            return None;
        },
    };
    if rel.len() == 0 || rel[0] != '.' {
        return None;
    }
    let restored = change_labels(&rel, get_this(session), true);
    assert(components(rel@).map_values(|name: Seq<char>| name_changed(name, session@.host, true))
        =~= components(rel@).map_values(|name: Seq<char>| name_restored(name, session@.host)));
    proof {
        lemma_restoring_keeps_the_dot(rel@, session@.host);
    }
    let below = slice(&restored, 1, restored.len());
    let parts = split(&below, '/');
    let repo = chars_of(get_repo(session).as_str());
    if parts.len() >= 2 && same_text(&parts[0], &chars_of("config")) {
        Some(string_of(&join_path(&repo, &below)))
    } else {
        let home = join_path(&repo, &chars_of("home"));
        Some(string_of(&join_path(&home, &below)))
    }
}

/// One entry of a directory, as the file system lists it.
#[derive(Debug)]
pub struct Listed {
    /// The entry's path.
    pub path: String,
    /// Whether the entry itself is a symbolic link.
    pub is_symlink: bool,
    /// Whether the path leads to a directory, links followed.
    pub is_dir: bool,
}

impl Listed {
    /// An entry is visited as a leaf when it is a symbolic link, whatever it
    /// leads to, or anything that is not a directory.
    pub open spec fn is_leaf(&self) -> bool {
        self.is_symlink || !self.is_dir
    }
}

/// What a walk does with one directory's entries.
#[derive(Debug)]
pub struct Walk {
    /// The entries to visit, in the order listed.
    pub visit: Vec<String>,
    /// The directories to walk in turn, in the order listed.
    pub descend: Vec<String>,
}

/// The views of a list of strings.
pub open spec fn texts(list: Seq<String>) -> Seq<Seq<char>> {
    list.map_values(|s: String| s@)
}

/// The paths of the entries that are leaves, or, with `leaf` false, of
/// those that are directories, in the order listed.
pub open spec fn paths_of(entries: Seq<Listed>, leaf: bool) -> Seq<Seq<char>>
    decreases entries.len(),
{
    if entries.len() == 0 {
        Seq::<Seq<char>>::empty()
    } else {
        let before = paths_of(entries.drop_last(), leaf);
        if entries.last().is_leaf() == leaf {
            before.push(entries.last().path@)
        } else {
            before
        }
    }
}

/// Sorts the entries of one directory into those to visit and those to walk
/// in turn. A symbolic link is always visited, never walked into. A
/// directory is walked into when `recurse` is set, and passed over otherwise.
pub fn walk_dir(entries: &Vec<Listed>, recurse: bool) -> (walk: Walk)
    ensures
        texts(walk.visit@) == paths_of(entries@, true),
        texts(walk.descend@) == if recurse {
            paths_of(entries@, false)
        } else {
            Seq::<Seq<char>>::empty()
        },
{
    let mut visit: Vec<String> = Vec::new();
    let mut descend: Vec<String> = Vec::new();
    let mut i: usize = 0;
    while i < entries.len()
        invariant
            i <= entries.len(),
            texts(visit@) == paths_of(entries@.take(i as int), true),
            texts(descend@) == if recurse {
                paths_of(entries@.take(i as int), false)
            } else {
                Seq::<Seq<char>>::empty()
            },
        decreases entries.len() - i,
    {
        let entry = &entries[i];
        assert(entries@.take(i + 1).drop_last() == entries@.take(i as int));
        if entry.is_symlink || !entry.is_dir {
            visit.push(entry.path.clone());
        } else if recurse {
            descend.push(entry.path.clone());
        }
        i += 1;
    }
    assert(entries@.take(entries.len() as int) == entries@);
    Walk { visit, descend }
}

/// Whether some entry of the given kind has the path `path`.
pub open spec fn lists(entries: Seq<Listed>, leaf: bool, path: Seq<char>) -> bool {
    exists|i: int|
        0 <= i < entries.len() && (#[trigger] entries[i]).is_leaf() == leaf && entries[i].path@
            == path
}

/// A walk sorts out exactly the paths of the entries of the right kind: a
/// path is among those to visit just when a leaf has it, and among the
/// directories just when an entry that is no leaf has it. So a symbolic
/// link is visited and never walked into.
pub proof fn lemma_walk_sorts_entries(entries: Seq<Listed>, leaf: bool)
    ensures
        forall|path: Seq<char>| #[trigger]
            paths_of(entries, leaf).contains(path) <==> lists(entries, leaf, path),
    decreases entries.len(),
{
    let now = paths_of(entries, leaf);
    if entries.len() > 0 {
        let shorter = entries.drop_last();
        let before = paths_of(shorter, leaf);
        let last = entries.last();
        lemma_walk_sorts_entries(shorter, leaf);
        assert forall|path: Seq<char>| #[trigger] now.contains(path) implies lists(
            entries,
            leaf,
            path,
        ) by {
            let k = choose|k: int| 0 <= k < now.len() && now[k] == path;
            if k < before.len() {
                assert(before[k] == path);
                assert(before.contains(path));
                let i = choose|i: int|
                    0 <= i < shorter.len() && (#[trigger] shorter[i]).is_leaf() == leaf
                        && shorter[i].path@ == path;
                assert(entries[i] == shorter[i]);
            } else {
                assert(entries[entries.len() - 1].path@ == path);
            }
        }
        assert forall|path: Seq<char>| lists(entries, leaf, path) implies #[trigger] now.contains(
            path,
        ) by {
            let i = choose|i: int|
                0 <= i < entries.len() && (#[trigger] entries[i]).is_leaf() == leaf
                    && entries[i].path@ == path;
            if i < shorter.len() {
                assert(shorter[i] == entries[i]);
                assert(lists(shorter, leaf, path));
                assert(before.contains(path));
                let k = choose|k: int| 0 <= k < before.len() && before[k] == path;
                assert(now[k] == path);
            } else {
                assert(now[now.len() - 1] == path);
            }
        }
    } else {
        assert forall|path: Seq<char>| #[trigger] now.contains(path) <==> lists(
            entries,
            leaf,
            path,
        ) by {}
    }
}

/// What is known of a directory when asked whether it is empty.
#[derive(Clone, Copy, Debug, PartialEq, Eq, Structural)]
pub enum DirState {
    /// There is no directory at the path.
    NotADirectory,
    /// The directory is there and could not be read.
    Unreadable,
    /// The directory holds this many entries.
    Holds(usize),
}

/// Whether a directory is known to be there and to hold nothing.
pub fn is_empty(state: &DirState) -> (empty: bool)
    ensures
        empty == (*state == DirState::Holds(0)),
{
    match state {
        DirState::Holds(n) => *n == 0,
        _ => false,
    }
}

/// A repository file found by a walk, with what a link to it points to.
#[derive(Debug)]
pub struct Source {
    /// The file's path, as the walk gives it.
    pub path: String,
    /// The target of a link to the file.
    pub target: String,
}

/// The entries for a list of repository files: for each its link on this
/// host and its target. `None` where one of the paths does not lie below
/// `strip`.
pub open spec fn entries_for(sources: Seq<Source>, strip: Option<Seq<char>>, session: SessionView)
    -> Option<Seq<DotEntryView>>
    decreases sources.len(),
{
    if sources.len() == 0 {
        Some(Seq::<DotEntryView>::empty())
    } else {
        match (
            entries_for(sources.drop_last(), strip, session),
            final_link(sources.last().path@, strip, session),
        ) {
            (Some(before), Some(link)) => Some(
                before.push(DotEntryView { link, target: sources.last().target@ }),
            ),
            _ => None,
        }
    }
}

/// The views of a list of entries.
pub open spec fn entry_views(entries: Seq<DotEntry>) -> Seq<DotEntryView> {
    entries.map_values(|e: DotEntry| e@)
}

/// Turns the repository files that a walk found into entries to install:
/// each with the link that belongs to it on this host. Fails where a path
/// does not lie below `prefix_to_strip`.
pub fn find_targets_for_linking(
    sources: &Vec<Source>,
    prefix_to_strip: Option<&str>,
    session: &Session,
) -> (found: Result<Vec<DotEntry>, PathError>)
    ensures
        match found {
            Ok(entries) => entries_for(sources@, text_of(prefix_to_strip), session@) == Some(
                entry_views(entries@),
            ),
            Err(_) => entries_for(sources@, text_of(prefix_to_strip), session@) is None,
        },
{
    let mut entries: Vec<DotEntry> = Vec::new();
    let mut i: usize = 0;
    while i < sources.len()
        invariant
            i <= sources.len(),
            entries_for(sources@.take(i as int), text_of(prefix_to_strip), session@) == Some(
                entry_views(entries@),
            ),
        decreases sources.len() - i,
    {
        let source = &sources[i];
        assert(sources@.take(i + 1).drop_last() == sources@.take(i as int));
        match final_link_name(source.path.as_str(), prefix_to_strip, session) {
            Ok(link) => {
                entries.push(DotEntry { link, target: source.target.clone() });
            },
            Err(e) => {
                proof {
                    lemma_entries_fail_for_good(
                        sources@,
                        i + 1,
                        text_of(prefix_to_strip),
                        session@,
                    );
                }
                return Err(e);
            },
        }
        i += 1;
    }
    assert(sources@.take(sources.len() as int) == sources@);
    Ok(entries)
}

/// Once a path fails to map, the whole list fails.
proof fn lemma_entries_fail_for_good(
    sources: Seq<Source>,
    n: int,
    strip: Option<Seq<char>>,
    session: SessionView,
)
    requires
        0 <= n <= sources.len(),
        entries_for(sources.take(n), strip, session) is None,
    ensures
        entries_for(sources, strip, session) is None,
    decreases sources.len() - n,
{
    if n < sources.len() {
        assert(sources.take(n + 1).drop_last() == sources.take(n));
        lemma_entries_fail_for_good(sources, n + 1, strip, session);
    } else {
        assert(sources.take(n) == sources);
    }
}

/// A symbolic link found in the home directory, with the text stored in it.
#[derive(Debug)]
pub struct Found {
    /// The link's path.
    pub path: String,
    /// What the link points to, as stored.
    pub stored: String,
}

impl Found {
    /// A found link is this system's business when what it points to lies
    /// in the repository and, with `dotted_only`, its own name begins with a dot.
    pub open spec fn in_scope(&self, dotted_only: bool, session: SessionView) -> bool {
        &&& prefix_stripped(self.stored@, session.repo) is Some
        &&& dotted_only ==> file_name(self.path@).len() > 0 && file_name(self.path@)[0] == '.'
    }
}

/// The entries for the found links that are in scope, in the order found.
pub open spec fn links_in_scope(found: Seq<Found>, dotted_only: bool, session: SessionView)
    -> Seq<DotEntryView>
    decreases found.len(),
{
    if found.len() == 0 {
        Seq::<DotEntryView>::empty()
    } else {
        let before = links_in_scope(found.drop_last(), dotted_only, session);
        if found.last().in_scope(dotted_only, session) {
            before.push(DotEntryView { link: found.last().path@, target: found.last().stored@ })
        } else {
            before
        }
    }
}

/// Picks from the links that a walk found those that cleanup has to look
/// at: the ones that point into the repository. With `dotted_only`, a link
/// whose name does not begin with a dot is left out too.
pub fn find_links_to_targets(found: &Vec<Found>, dotted_only: bool, session: &Session) -> (entries:
    Vec<DotEntry>)
    ensures
        entry_views(entries@) == links_in_scope(found@, dotted_only, session@),
{
    let repo = chars_of(get_repo(session).as_str());
    let mut entries: Vec<DotEntry> = Vec::new();
    let mut i: usize = 0;
    while i < found.len()
        invariant
            i <= found.len(),
            repo@ == session@.repo,
            entry_views(entries@) == links_in_scope(found@.take(i as int), dotted_only, session@),
        decreases found.len() - i,
    {
        let link = &found[i];
        assert(found@.take(i + 1).drop_last() == found@.take(i as int));
        let inside = strip_prefix(&chars_of(link.stored.as_str()), &repo).is_some();
        let named = if dotted_only {
            let parts = split(&chars_of(link.path.as_str()), '/');
            let name = &parts[parts.len() - 1];
            name.len() > 0 && name[0] == '.'
        } else {
            true
        };
        if inside && named {
            entries.push(DotEntry { link: link.path.clone(), target: link.stored.clone() });
        }
        i += 1;
    }
    assert(found@.take(found.len() as int) == found@);
    entries
}

/// Restoring the marks of a path that begins with a dot leaves the dot in place.
pub proof fn lemma_restoring_keeps_the_dot(path: Seq<char>, host: Host)
    requires
        path.len() > 0,
        path[0] == '.',
    ensures
        labels_restored(path, host).len() > 0,
        labels_restored(path, host)[0] == '.',
{
    lemma_generic_marks();
    let parts = components(path);
    let changed = parts.map_values(|name: Seq<char>| name_restored(name, host));
    lemma_pieces_count(path, '/');
    lemma_first_piece_is_a_prefix(path, '/');
    let first = parts[0];
    assert(first.len() > 0 && first[0] == '.') by {
        lemma_pieces_rejoin(path, '/');
        if first.len() == 0 {
            if parts.len() == 1 {
                assert(joined(parts, '/') == parts[0]);
            } else {
                lemma_joined_begins_with_first(parts, '/');
                assert(joined(parts, '/')[0] == '/');
            }
        } else {
            assert(path.subrange(0, first.len() as int)[0] == first[0]);
        }
    }
    assert(name_restored(first, host) == first) by {
        if platform_label().is_prefix_of(first) {
            assert(first.subrange(0, platform_label().len() as int)[0] == platform_label()[0]);
        }
        if machine_label().is_prefix_of(first) {
            assert(first.subrange(0, machine_label().len() as int)[0] == machine_label()[0]);
        }
    }
    assert(changed[0] == first);
    lemma_joined_begins_with_first(changed, '/');
    assert(joined(changed, '/').subrange(0, first.len() as int)[0] == first[0]);
}

/// What the two generic marks are made of: each begins with an underscore
/// and holds no separator, and neither begins with the other.
proof fn lemma_generic_marks()
    ensures
        platform_label().len() == 9,
        machine_label().len() == 8,
        platform_label()[0] == '_',
        machine_label()[0] == '_',
        platform_label()[1] == 'p',
        machine_label()[1] == 'm',
        !platform_label().contains('/'),
        !machine_label().contains('/'),
{
    reveal_strlit("_platform");
    reveal_strlit("_machine");
}

/// A name that is meant for this host has no bad underscore once it is
/// rewritten: what installation links is nothing that cleanup takes for a
/// leftover of another host.
pub proof fn lemma_valid_name_rewrites_soundly(name: Seq<char>, host: Host)
    requires
        !name_invalid_to_target(name, host),
    ensures
        !name_has_bad_underscore(name_rewritten(name, host)),
{
    lemma_generic_marks();
    if label(host.platform).is_prefix_of(name) {
        let rest = name.skip(label(host.platform).len() as int);
        assert((platform_label() + rest).subrange(0, platform_label().len() as int)
            == platform_label());
    } else if label(host.machine).is_prefix_of(name) {
        let rest = name.skip(label(host.machine).len() as int);
        assert((machine_label() + rest).subrange(0, machine_label().len() as int)
            == machine_label());
    }
}

/// Restoring undoes rewriting: a name that is meant for this host comes
/// back as it was.
pub proof fn lemma_restoring_undoes_rewriting(name: Seq<char>, host: Host)
    requires
        !name_invalid_to_target(name, host),
    ensures
        name_restored(name_rewritten(name, host), host) == name,
{
    lemma_generic_marks();
    let platform = platform_label();
    let machine = machine_label();
    if label(host.platform).is_prefix_of(name) {
        let mark = label(host.platform);
        let rest = name.skip(mark.len() as int);
        let changed = platform + rest;
        assert(changed.subrange(0, platform.len() as int) == platform);
        assert(changed.skip(platform.len() as int) == rest);
        assert(mark + rest == name) by {
            assert(name.subrange(0, mark.len() as int) == mark);
        }
    } else if label(host.machine).is_prefix_of(name) {
        let mark = label(host.machine);
        let rest = name.skip(mark.len() as int);
        let changed = machine + rest;
        assert(changed.subrange(0, machine.len() as int) == machine);
        assert(changed.skip(machine.len() as int) == rest);
        assert(!platform.is_prefix_of(changed)) by {
            if platform.is_prefix_of(changed) {
                assert(changed.subrange(0, platform.len() as int)[1] == platform[1]);
                assert(changed[1] == machine[1]);
            }
        }
        assert(mark + rest == name) by {
            assert(name.subrange(0, mark.len() as int) == mark);
        }
    } else {
        assert(!platform.is_prefix_of(name)) by {
            if platform.is_prefix_of(name) {
                assert(name.subrange(0, platform.len() as int)[0] == platform[0]);
            }
        }
        assert(!machine.is_prefix_of(name)) by {
            if machine.is_prefix_of(name) {
                assert(name.subrange(0, machine.len() as int)[0] == machine[0]);
            }
        }
    }
}

/// Rewriting a name brings no separator into it.
proof fn lemma_rewritten_name_is_one_piece(name: Seq<char>, host: Host)
    requires
        !name.contains('/'),
    ensures
        !name_rewritten(name, host).contains('/'),
{
    lemma_generic_marks();
    let changed = name_rewritten(name, host);
    if changed.contains('/') {
        let i = choose|i: int| 0 <= i < changed.len() && changed[i] == '/';
        if label(host.platform).is_prefix_of(name) {
            if i < platform_label().len() {
                assert(platform_label()[i] == '/');
            } else {
                assert(name[i - platform_label().len() + label(host.platform).len()] == '/');
            }
        } else if label(host.machine).is_prefix_of(name) {
            if i < machine_label().len() {
                assert(machine_label()[i] == '/');
            } else {
                assert(name[i - machine_label().len() + label(host.machine).len()] == '/');
            }
        }
    }
}

/// Rewriting keeps the shape of a path: the rewritten path has the
/// components of the path, each rewritten, and so its final name is the
/// rewritten final name of the path.
pub proof fn lemma_rewriting_keeps_the_shape(path: Seq<char>, host: Host)
    ensures
        components(labels_replaced(path, host)) == components(path).map_values(
            |name: Seq<char>| name_rewritten(name, host),
        ),
        file_name(labels_replaced(path, host)) == name_rewritten(file_name(path), host),
{
    let parts = components(path);
    let changed = parts.map_values(|name: Seq<char>| name_rewritten(name, host));
    lemma_pieces_count(path, '/');
    lemma_pieces_rejoin(path, '/');
    assert forall|i: int| 0 <= i < changed.len() implies !(#[trigger] changed[i]).contains(
        '/',
    ) by {
        assert(!parts[i].contains('/')) by {
            if parts[i].contains('/') {
                let j = choose|j: int| 0 <= j < parts[i].len() && parts[i][j] == '/';
                assert(parts[i][j] != '/');
            }
        }
        lemma_rewritten_name_is_one_piece(parts[i], host);
    }
    lemma_pieces_of_joined(changed, '/');
}

/// The final name of two texts put together: that of the second where it
/// holds a separator, else that of the first with the second behind it.
pub proof fn lemma_name_of_joined_texts(first: Seq<char>, second: Seq<char>)
    ensures
        file_name(first + second) == if second.contains('/') {
            file_name(second)
        } else {
            file_name(first) + second
        },
    decreases second.len(),
{
    if second.len() == 0 {
        assert(first + second == first);
        assert(file_name(first) + second == file_name(first));
    } else {
        let shorter = second.drop_last();
        let c = second.last();
        assert((first + second).drop_last() == first + shorter);
        assert((first + second).last() == c);
        lemma_name_of_joined_texts(first, shorter);
        lemma_pieces_count(first + shorter, '/');
        lemma_pieces_count(shorter, '/');
        if c == '/' {
            assert(second[second.len() - 1] == '/');
        } else {
            if shorter.contains('/') {
                let i = choose|i: int| 0 <= i < shorter.len() && shorter[i] == '/';
                assert(second[i] == '/');
            } else {
                assert(!second.contains('/')) by {
                    if second.contains('/') {
                        let i = choose|i: int| 0 <= i < second.len() && second[i] == '/';
                        assert(shorter[i] == '/');
                    }
                }
                assert((file_name(first) + shorter).push(c) == file_name(first) + second);
            }
        }
    }
}

/// What is left of a path below a prefix is a tail of the path.
proof fn lemma_stripped_is_a_tail(path: Seq<char>, strip: Option<Seq<char>>)
    requires
        strip is Some ==> prefix_stripped(path, strip->0) is Some,
    ensures
        ({
            let below = match strip {
                Some(prefix) => prefix_stripped(path, prefix)->0,
                None => path,
            };
            below.len() <= path.len() && below =~= path.skip(path.len() - below.len())
        }),
{
    match strip {
        Some(prefix) => {
            if prefix.len() > 0 && path != prefix {
                assert(prefix.is_prefix_of(path));
                if prefix.len() == path.len() {
                    assert(path.subrange(0, prefix.len() as int) =~= path);
                }
            }
        },
        None => {},
    }
}

/// The link that installation places for a repository path which is meant
/// for this host has no bad underscore in its name: cleanup finds no such
/// fault with what installation has just linked.
pub proof fn lemma_installed_link_has_no_bad_underscore(
    path: Seq<char>,
    strip: Option<Seq<char>>,
    session: SessionView,
)
    requires
        !invalid_to_target(path, session.host),
        final_link(path, strip, session) is Some,
    ensures
        !name_has_bad_underscore(file_name(final_link(path, strip, session)->0)),
{
    let host = session.host;
    let home = session.home;
    let below = match strip {
        Some(prefix) => prefix_stripped(path, prefix)->0,
        None => path,
    };
    let dotted = seq!['.'] + below;
    let place = link_location(path, strip, home)->0;
    assert(place == path_joined(home, dotted));
    lemma_rewriting_keeps_the_shape(place, host);
    lemma_generic_marks();
    let front = if home.len() == 0 || home.last() == '/' {
        home
    } else {
        home.push('/')
    };
    assert(place == front + dotted);
    lemma_name_of_joined_texts(front, dotted);
    lemma_name_of_joined_texts(seq!['.'], below);
    if below.contains('/') {
        let i = choose|i: int| 0 <= i < below.len() && below[i] == '/';
        assert(dotted[i + 1] == '/');
        let cut = path.len() - below.len();
        assert(path.take(cut) + below == path) by {
            lemma_stripped_is_a_tail(path, strip);
        }
        lemma_name_of_joined_texts(path.take(cut), below);
        assert(file_name(place) == file_name(path));
        lemma_pieces_count(path, '/');
        assert(!name_invalid_to_target(components(path)[components(path).len() - 1], host));
        lemma_valid_name_rewrites_soundly(file_name(path), host);
    } else {
        assert(!dotted.contains('/')) by {
            if dotted.contains('/') {
                let i = choose|i: int| 0 <= i < dotted.len() && dotted[i] == '/';
                assert(below[i - 1] == '/');
            }
        }
        assert(file_name(front).len() == 0) by {
            lemma_pieces_count(home, '/');
            if home.len() > 0 && home.last() != '/' {
                assert(front.drop_last() == home);
            }
        }
        assert(file_name(place) == dotted);
        assert(!name_is_conditional(dotted));
        assert(!label(host.platform).is_prefix_of(dotted)) by {
            if label(host.platform).is_prefix_of(dotted) {
                assert(dotted.subrange(0, label(host.platform).len() as int)[0] == '_');
            }
        }
        assert(!label(host.machine).is_prefix_of(dotted)) by {
            if label(host.machine).is_prefix_of(dotted) {
                assert(dotted.subrange(0, label(host.machine).len() as int)[0] == '_');
            }
        }
    }
}

/// What is left of a path that is meant for this host, below a prefix, is
/// meant for this host too.
proof fn lemma_stripped_stays_valid(path: Seq<char>, strip: Option<Seq<char>>, host: Host)
    requires
        strip is Some ==> prefix_stripped(path, strip->0) is Some,
        !invalid_to_target(path, host),
    ensures
        !invalid_to_target(
            match strip {
                Some(prefix) => prefix_stripped(path, prefix)->0,
                None => path,
            },
            host,
        ),
{
    let below = match strip {
        Some(prefix) => prefix_stripped(path, prefix)->0,
        None => path,
    };
    lemma_stripped_is_a_tail(path, strip);
    let cut = path.len() - below.len();
    if below.len() == 0 {
        assert(below =~= Seq::<char>::empty());
        assert(components(below) == seq![Seq::<char>::empty()]);
    } else if cut > 0 {
        let prefix = strip->0;
        assert(path[cut - 1] == '/') by {
            assert(prefix.len() > 0 && path != prefix && prefix.is_prefix_of(path));
            if prefix.last() == '/' {
                assert(below.len() == path.len() - prefix.len());
                assert(path.subrange(0, prefix.len() as int)[prefix.len() - 1] == prefix.last());
            } else {
                assert(path.len() > prefix.len()) by {
                    if path.len() == prefix.len() {
                        assert(path.subrange(0, prefix.len() as int) =~= path);
                    }
                }
                assert(below.len() == path.len() - prefix.len() - 1);
            }
        }
        let first = path.take(cut - 1);
        assert(first.push('/') + below == path);
        lemma_pieces_of_two(first, below, '/');
        if invalid_to_target(below, host) {
            let i = choose|i: int|
                0 <= i < components(below).len() && name_invalid_to_target(
                    #[trigger] components(below)[i],
                    host,
                );
            assert(components(path)[components(first).len() + i] == components(below)[i]);
        }
    } else {
        assert(below == path);
    }
}

/// The link that installation places for a repository path is read back by
/// cleanup as that very path: where the home directory is a plain path
/// without a mark of this host, and the path placed is meant for this host,
/// the repository path that the link stands for is the path that was
/// placed, in the tree it was taken from. So cleanup finds a link that
/// installation has just placed to be no orphan.
pub proof fn lemma_link_stands_for_its_source(
    path: Seq<char>,
    strip: Option<Seq<char>>,
    session: SessionView,
)
    requires
        session.home.len() > 0,
        session.home.last() != '/',
        labels_replaced(session.home, session.host) == session.home,
        !invalid_to_target(path, session.host),
        final_link(path, strip, session) is Some,
    ensures
        matching_source(final_link(path, strip, session)->0, session) == Some(
            source_below(
                match strip {
                    Some(prefix) => prefix_stripped(path, prefix)->0,
                    None => path,
                },
                session.repo,
            ),
        ),
{
    let host = session.host;
    let home = session.home;
    let below = match strip {
        Some(prefix) => prefix_stripped(path, prefix)->0,
        None => path,
    };
    let dotted = seq!['.'] + below;
    let place = link_location(path, strip, home)->0;
    let link = final_link(path, strip, session)->0;
    let rewrite = |name: Seq<char>| name_rewritten(name, host);
    let restore = |name: Seq<char>| name_restored(name, host);
    lemma_generic_marks();

    // The components of the place are those of the home directory and of
    // the dotted path.
    assert(place == home.push('/') + dotted);
    let above = components(home);
    let parts = components(dotted);
    lemma_pieces_of_two(home, dotted, '/');
    lemma_pieces_count(home, '/');
    lemma_pieces_count(dotted, '/');
    assert(components(place) == above + parts);

    // So the link is the home directory with the rewritten dotted path below it.
    let changed = labels_replaced(dotted, host);
    assert((above + parts).map_values(rewrite) =~= above.map_values(rewrite) + parts.map_values(
        rewrite,
    ));
    lemma_joined_of_two(above.map_values(rewrite), parts.map_values(rewrite), '/');
    assert(link == home.push('/') + changed);
    assert(home.is_prefix_of(link)) by {
        assert(link.subrange(0, home.len() as int) =~= home);
    }
    assert(link[home.len() as int] == '/');
    assert(prefix_stripped(link, home) == Some(changed)) by {
        assert(link.skip(home.len() as int + 1) =~= changed);
    }

    // The first component of the dotted path begins with the dot and is
    // left alone by rewriting; the others are those of the path itself.
    lemma_pieces_behind_a_char('.', below, '/');
    let first = parts[0];
    assert(first == seq!['.'] + components(below)[0]);
    assert(first.len() > 0 && first[0] == '.');
    assert(!name_is_conditional(first));
    assert(name_rewritten(first, host) == first) by {
        if label(host.platform).is_prefix_of(first) {
            assert(first.subrange(0, label(host.platform).len() as int)[0] == '_');
        }
        if label(host.machine).is_prefix_of(first) {
            assert(first.subrange(0, label(host.machine).len() as int)[0] == '_');
        }
    }
    lemma_joined_begins_with_first(parts.map_values(rewrite), '/');
    assert(changed.len() > 0 && changed[0] == '.') by {
        assert(changed.subrange(0, first.len() as int)[0] == first[0]);
    }

    // Restoring undoes the rewriting, component by component.
    lemma_rewriting_keeps_the_shape(dotted, host);
    lemma_stripped_stays_valid(path, strip, host);
    assert(components(changed).map_values(restore) =~= parts) by {
        assert forall|i: int| 0 <= i < parts.len() implies name_restored(
            name_rewritten(parts[i], host),
            host,
        ) == parts[i] by {
            if i > 0 {
                assert(parts[i] == components(below)[i]);
                assert(!name_invalid_to_target(components(below)[i], host));
            }
            lemma_restoring_undoes_rewriting(parts[i], host);
        }
    }
    lemma_pieces_rejoin(dotted, '/');
    assert(labels_restored(changed, host) == dotted);
    assert(dotted.skip(1) =~= below);
}

/// The final name of a path is its tail: the path is whatever comes before,
/// then the name.
pub proof fn lemma_name_is_suffix(path: Seq<char>)
    ensures
        file_name(path).len() <= path.len(),
        file_name(path) == path.skip(path.len() - file_name(path).len()),
        file_name(path).len() < path.len() ==> path[path.len() - file_name(path).len() - 1] == '/',
    decreases path.len(),
{
    lemma_pieces_count(path, '/');
    if path.len() > 0 {
        let shorter = path.drop_last();
        lemma_name_is_suffix(shorter);
        lemma_pieces_count(shorter, '/');
        if path.last() != '/' {
            let name = file_name(shorter);
            assert(file_name(path) == name.push(path.last()));
            assert(name.push(path.last()) =~= path.skip(path.len() - name.len() - 1));
        } else {
            assert(file_name(path) =~= path.skip(path.len() as int));
        }
    } else {
        assert(file_name(path) =~= path.skip(0));
    }
}

} // verus!
