//! Removal: when a link has to go, how the user is asked, and what is done
//! to what stands in its place.

use vstd::prelude::*;
use crate::fs::{
    dot_path, get_dot_path, has_bad_underscore, file_name, invalid_to_target,
    is_invalid_to_target, name_has_bad_underscore, DotEntry, FileKind,
};
use crate::messages::Reply;
use crate::{get_delete_all, get_this, Session, SessionView};

verus! {

/// How a removal is to be carried out.
#[derive(Clone, Copy, Debug)]
pub struct DeleteOptions<'a> {
    /// Remove whatever is found, warranted or not.
    pub implode: bool,
    /// Approve without asking.
    pub without_prompting: bool,
    /// The verb for what is done, with `%` where its ending belongs.
    pub verb_template: &'a str,
}

impl<'a> Default for DeleteOptions<'a> {
    fn default() -> (options: Self)
        ensures
            !options.implode,
            !options.without_prompting,
            options.verb_template@ == ""@,
    {
        DeleteOptions { implode: false, without_prompting: false, verb_template: "" }
    }
}

impl<'a> DeleteOptions<'a> {
    /// Whether the options hold exactly these values.
    pub open spec fn holds(&self, implode: bool, without_prompting: bool, template: Seq<char>)
        -> bool {
        &&& self.implode == implode
        &&& self.without_prompting == without_prompting
        &&& self.verb_template@ == template
    }
}

/// What cleanup has to know of the file system about one entry.
#[derive(Clone, Copy, Debug, PartialEq, Eq, Structural)]
pub struct CleanupProbe {
    /// Whether the entry's target can be looked up.
    pub target_exists: bool,
    /// Whether the repository path that the link stands for can be looked up.
    pub source_exists: bool,
    /// What stands at the entry's link, the link itself not followed;
    /// `None` where nothing does.
    pub kind: Option<FileKind>,
}

/// Why a link has to go.
#[derive(Clone, Copy, Debug, PartialEq, Eq, Structural)]
pub enum Reason {
    /// Everything is being torn down.
    Implode,
    /// The target is meant for another host.
    InvalidToTarget,
    /// The link's name begins with an underscore and carries no generic mark.
    BadUnderscore,
    /// The target cannot be looked up.
    TargetMissing,
    /// The repository path that the link stands for is gone.
    Orphan,
}

/// The first reason, in this order, for which a link has to go: teardown, a
/// target for another host, a bad underscore in the link's name, a target
/// that cannot be looked up, a repository path that is gone. `None` where
/// there is none, and the link stays.
pub open spec fn delete_reason(
    implode: bool,
    invalid: bool,
    bad_underscore: bool,
    probe: CleanupProbe,
) -> Option<Reason> {
    if implode {
        Some(Reason::Implode)
    } else if invalid {
        Some(Reason::InvalidToTarget)
    } else if bad_underscore {
        Some(Reason::BadUnderscore)
    } else if !probe.target_exists {
        Some(Reason::TargetMissing)
    } else if !probe.source_exists {
        Some(Reason::Orphan)
    } else {
        None
    }
}

/// Decides whether the link of `entry` has to go, and why.
pub fn decide_delete(
    entry: &DotEntry,
    delete_options: &DeleteOptions,
    probe: &CleanupProbe,
    session: &Session,
) -> (reason: Option<Reason>)
    ensures
        reason == delete_reason(
            delete_options.implode,
            invalid_to_target(entry@.target, session@.host),
            name_has_bad_underscore(file_name(entry@.link)),
            *probe,
        ),
{
    if delete_options.implode {
        Some(Reason::Implode)
    } else if is_invalid_to_target(entry.target.as_str(), get_this(session)) {
        Some(Reason::InvalidToTarget)
    } else if has_bad_underscore(entry.link.as_str()) {
        Some(Reason::BadUnderscore)
    } else if !probe.target_exists {
        Some(Reason::TargetMissing)
    } else if !probe.source_exists {
        Some(Reason::Orphan)
    } else {
        None
    }
}

/// What is done to what stands in a link's place.
#[derive(Clone, Copy, Debug, PartialEq, Eq, Structural)]
pub enum Removal {
    /// Remove the symbolic link.
    Unlink,
    /// Remove the directory, which fails unless it is empty.
    RemoveDir,
    /// Keep the file under its backup name.
    Backup,
}

/// What is done to a thing of the given kind: a symbolic link is removed, a
/// directory is removed if it is empty, a file is kept under another name.
/// Anything else, and nothing at all, is left alone.
pub open spec fn removal_of(kind: Option<FileKind>) -> Option<Removal> {
    match kind {
        Some(FileKind::Symlink) => Some(Removal::Unlink),
        Some(FileKind::Directory) => Some(Removal::RemoveDir),
        Some(FileKind::File) => Some(Removal::Backup),
        Some(FileKind::Other) => None,
        None => None,
    }
}

/// What is done to a thing of the given kind.
pub fn removal_for(kind: Option<FileKind>) -> (removal: Option<Removal>)
    ensures
        removal == removal_of(kind),
{
    match kind {
        Some(FileKind::Symlink) => Some(Removal::Unlink),
        Some(FileKind::Directory) => Some(Removal::RemoveDir),
        Some(FileKind::File) => Some(Removal::Backup),
        Some(FileKind::Other) => None,
        None => None,
    }
}

/// How a question stands.
#[derive(Clone, Copy, Debug, PartialEq, Eq, Structural)]
pub enum Confirmation {
    /// Go ahead.
    Approved,
    /// Leave it.
    Denied,
    /// The question has to be put.
    Ask,
    /// The answers have to be explained and the question put again.
    Explain,
    /// The run is over.
    Quit,
}

/// How a question stands, given whether the options approve without asking,
/// whether the user has approved everything, whether the run is over, and
/// the answer, if one was given. A run that is over stays over. Approval
/// without asking reads no answer.
pub open spec fn confirmation(auto: bool, all: bool, halted: bool, reply: Option<Reply>)
    -> Confirmation {
    if halted {
        Confirmation::Quit
    } else if auto || all {
        Confirmation::Approved
    } else {
        match reply {
            None => Confirmation::Ask,
            Some(Reply::Yes) => Confirmation::Approved,
            Some(Reply::All) => Confirmation::Approved,
            Some(Reply::Quit) => Confirmation::Quit,
            Some(Reply::Help) => Confirmation::Explain,
            Some(Reply::No) => Confirmation::Denied,
        }
    }
}

/// Whether the answer is read at all: not when the run is over, nor when
/// approval is given without asking.
pub open spec fn answer_counts(auto: bool, session: SessionView) -> bool {
    !session.halted && !auto && !session.delete_all
}

/// The session after a question: an `all` that was read approves everything
/// from now on, a `quit` that was read ends the run, and nothing else
/// changes anything.
pub open spec fn session_after(auto: bool, session: SessionView, reply: Option<Reply>)
    -> SessionView {
    SessionView {
        delete_all: session.delete_all || (answer_counts(auto, session) && reply == Some(
            Reply::All,
        )),
        halted: session.halted || (answer_counts(auto, session) && reply == Some(Reply::Quit)),
        ..session
    }
}

/// Settles a question about a removal. Where `auto` or the session approves
/// without asking, no answer is needed and none is read. Otherwise the
/// answer decides, and without one the question has to be put.
pub fn confirm(auto: bool, session: &mut Session, reply: Option<Reply>) -> (result: Confirmation)
    ensures
        result == confirmation(auto, old(session)@.delete_all, old(session)@.halted, reply),
        final(session)@ == session_after(auto, old(session)@, reply),
{
    if session.is_halted() {
        return Confirmation::Quit;
    }
    if get_delete_all(session) || auto {
        return Confirmation::Approved;
    }
    match reply {
        None => Confirmation::Ask,
        Some(Reply::Yes) => Confirmation::Approved,
        Some(Reply::All) => {
            session.approve_all();
            Confirmation::Approved
        },
        Some(Reply::Quit) => {
            session.halt();
            Confirmation::Quit
        },
        Some(Reply::Help) => Confirmation::Explain,
        Some(Reply::No) => Confirmation::Denied,
    }
}

/// How a question stands before it is put: approved where `auto` or the
/// session approves without asking, to be put otherwise, and out of the
/// question in a run that is over. The session stays as it is.
pub fn foresee(auto: bool, session: &Session) -> (result: Confirmation)
    ensures
        result == confirmation(auto, session@.delete_all, session@.halted, None),
        session_after(auto, session@, None) == session@,
{
    if session.is_halted() {
        Confirmation::Quit
    } else if get_delete_all(session) || auto {
        Confirmation::Approved
    } else {
        Confirmation::Ask
    }
}

/// Settles a question about a removal that goes by `options`: approved
/// without asking where the options say so or the user has approved
/// everything, else by the answer, and to be put where there is none.
pub fn delete_prompt(options: &DeleteOptions, session: &mut Session, reply: Option<Reply>) -> (result:
    Confirmation)
    ensures
        result == confirmation(
            options.without_prompting,
            old(session)@.delete_all,
            old(session)@.halted,
            reply,
        ),
        final(session)@ == session_after(options.without_prompting, old(session)@, reply),
{
    confirm(options.without_prompting, session, reply)
}

/// One sweep of cleanup over a directory.
#[derive(Debug)]
pub struct Pass<'a> {
    /// The directory to walk.
    pub dir: String,
    /// Whether to walk into the directories below it.
    pub recurse: bool,
    /// Whether to look only at names that begin with a dot.
    pub dotted_only: bool,
    /// How links are removed.
    pub options: DeleteOptions<'a>,
    /// How a directory that a removal left empty is removed; `None` where
    /// such directories stay.
    pub dir_options: Option<DeleteOptions<'a>>,
}

/// The two sweeps of cleanup.
#[derive(Debug)]
pub struct Cleanup<'a> {
    /// Over the home directory itself.
    pub home: Pass<'a>,
    /// Over the configuration directory below it.
    pub config: Pass<'a>,
}

/// Plans a cleanup. The home directory itself is swept flat, looking only at
/// dotted names; `.config` below it is swept in depth, and a directory that
/// a removal leaves empty is removed too. With `without_prompting` every
/// removal of the run is approved from the start.
pub fn run(implode: bool, without_prompting: bool, session: &mut Session) -> (plan: Cleanup<
    'static,
>)
    ensures
        final(session)@ == (SessionView {
            delete_all: old(session)@.delete_all || without_prompting,
            ..old(session)@
        }),
        plan.home.dir@ == dot_path(old(session)@.home, None),
        !plan.home.recurse,
        plan.home.dotted_only,
        plan.home.options.holds(implode, without_prompting, "delet%"@),
        plan.home.dir_options is None,
        plan.config.dir@ == dot_path(old(session)@.home, Some(".config"@)),
        plan.config.recurse,
        !plan.config.dotted_only,
        plan.config.options.holds(implode, without_prompting, "delet%"@),
        plan.config.dir_options is Some,
        plan.config.dir_options->0.holds(false, without_prompting, "remov% empty directory"@),
{
    if without_prompting {
        session.approve_all();
    }
    let delete_options = DeleteOptions { implode, without_prompting, verb_template: "delet%" };
    let dir_delete_options = DeleteOptions {
        implode: false,
        without_prompting,
        verb_template: "remov% empty directory",
    };
    Cleanup {
        home: Pass {
            dir: get_dot_path(None, session),
            recurse: false,
            dotted_only: true,
            options: delete_options,
            dir_options: None,
        },
        config: Pass {
            dir: get_dot_path(Some(".config"), session),
            recurse: true,
            dotted_only: false,
            options: delete_options,
            dir_options: Some(dir_delete_options),
        },
    }
}

} // verus!
