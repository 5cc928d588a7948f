//! Installation: what to do about one repository file and the place in the
//! home directory where its link belongs.

use vstd::prelude::*;
use crate::fs::{invalid_to_target, is_identical, is_invalid_to_target, DotEntry, FileId, FileKind};
use crate::delete::DeleteOptions;
use crate::messages::opt_text;
use crate::text::{append, chars_of, string_of};
use crate::This;

verus! {

/// What was found at the place where a link belongs.
#[derive(Debug)]
pub struct LinkState {
    /// What stands there, the link itself not followed.
    pub kind: FileKind,
    /// The identity of what the path leads to, links followed; `None` where
    /// it leads nowhere.
    pub resolved: Option<FileId>,
    /// The text stored in the link, where it is a symbolic link that can be read.
    pub points_to: Option<String>,
}

/// What the file system shows of one entry before installation.
#[derive(Debug)]
pub struct LinkProbe {
    /// The identity of the entry's target, or why it could not be looked up.
    pub target: Result<FileId, String>,
    /// What stands at the entry's link; `None` where nothing does.
    pub link: Option<LinkState>,
}

impl LinkProbe {
    /// The identity of the target, where the lookup succeeded.
    pub open spec fn target_id(&self) -> Option<FileId> {
        match self.target {
            Ok(id) => Some(id),
            Err(_) => None,
        }
    }

    /// What stands at the link, if anything does.
    pub open spec fn link_kind(&self) -> Option<FileKind> {
        match self.link {
            Some(state) => Some(state.kind),
            None => None,
        }
    }

    /// Where something stands at the link: the identity it leads to, if any.
    pub open spec fn link_id(&self) -> Option<Option<FileId>> {
        match self.link {
            Some(state) => Some(state.resolved),
            None => None,
        }
    }
}

/// The courses open to installation for one entry.
#[derive(Clone, Copy, Debug, PartialEq, Eq, Structural)]
pub enum LinkDecision {
    /// The target is meant for another host: leave everything as it is.
    Ignore,
    /// The target cannot be looked up: leave everything as it is.
    Skip,
    /// Nothing stands at the link: create it.
    Create,
    /// The link already leads to the target: nothing to do.
    NoOp,
    /// Something else, alive, stands at the link: ask, then replace it.
    ReplaceWithPrompt,
    /// A dead link stands there: replace it without asking.
    ReplaceAutomatically,
}

/// The decision for one entry, from the facts alone. The first rule that
/// applies decides: a target for another host is ignored; a target that
/// cannot be looked up is skipped; an empty place gets a link; a place that
/// leads to the very file of the target is left alone; anything else is
/// replaced, after a question when it leads somewhere, else at once.
pub open spec fn link_decision(
    invalid: bool,
    target: Option<FileId>,
    link: Option<Option<FileId>>,
) -> LinkDecision {
    if invalid {
        LinkDecision::Ignore
    } else if target is None {
        LinkDecision::Skip
    } else if link is None {
        LinkDecision::Create
    } else if link->0 == target {
        LinkDecision::NoOp
    } else if link->0 is Some {
        LinkDecision::ReplaceWithPrompt
    } else {
        LinkDecision::ReplaceAutomatically
    }
}

/// Decides what installation does about `entry`, given what `probe` found.
pub fn decide_link(entry: &DotEntry, probe: &LinkProbe, this: &This) -> (decision: LinkDecision)
    ensures
        decision == link_decision(
            invalid_to_target(entry@.target, this@),
            probe.target_id(),
            probe.link_id(),
        ),
{
    if is_invalid_to_target(entry.target.as_str(), this) {
        return LinkDecision::Ignore;
    }
    let new_target = match &probe.target {
        Ok(id) => id,
        Err(_) => {
            return LinkDecision::Skip;
        },
    };
    let state = match &probe.link {
        Some(state) => state,
        None => {
            return LinkDecision::Create;
        },
    };
    match &state.resolved {
        Some(current) => {
            if is_identical(new_target, current) {
                LinkDecision::NoOp
            } else {
                LinkDecision::ReplaceWithPrompt
            }
        },
        None => LinkDecision::ReplaceAutomatically,
    }
}

impl LinkState {
    /// What the link points to, where it is a symbolic link that could be read.
    pub open spec fn old_target(&self) -> Option<Seq<char>> {
        if self.kind == FileKind::Symlink {
            opt_text(self.points_to)
        } else {
            None
        }
    }
}

/// What is said of something that stands in a link's way: of a link, where
/// it points and whether it is dead; of anything else, that it will be kept
/// under another name.
pub open spec fn conflict_note(state: LinkState) -> Seq<char> {
    match state.old_target() {
        Some(old) => "Link already exists and points elsewhere: "@ + old + " "@ + if state.resolved is Some {
            ""@
        } else {
            "(dead: auto-replacing)"@
        },
        None => "File exists and is not a link, a .bak will be made"@,
    }
}

/// What is said of a target that cannot be looked up.
pub open spec fn broken_note(error: Seq<char>) -> Seq<char> {
    "Broken link: "@ + error
}

/// What there is to add when the decision on an entry is announced.
pub open spec fn install_note(decision: LinkDecision, probe: LinkProbe) -> Option<Seq<char>> {
    match decision {
        LinkDecision::Skip => match probe.target {
            Err(error) => Some(broken_note(error@)),
            Ok(_) => None,
        },
        LinkDecision::ReplaceWithPrompt | LinkDecision::ReplaceAutomatically => match probe.link {
            Some(state) => Some(conflict_note(state)),
            None => None,
        },
        _ => None,
    }
}

/// What there is to add when `decision` on an entry is announced.
pub fn note_for(decision: LinkDecision, probe: &LinkProbe) -> (note: Option<String>)
    ensures
        opt_text(note) == install_note(decision, *probe),
{
    match decision {
        LinkDecision::Skip => match &probe.target {
            Err(error) => {
                let mut out = chars_of("Broken link: ");
                append(&mut out, &chars_of(error.as_str()));
                Some(string_of(&out))
            },
            Ok(_) => None,
        },
        LinkDecision::ReplaceWithPrompt | LinkDecision::ReplaceAutomatically => match &probe.link {
            Some(state) => {
                let old = match state.kind {
                    FileKind::Symlink => match &state.points_to {
                        Some(old) => Some(old),
                        None => None,
                    },
                    _ => None,
                };
                match old {
                    Some(old) => {
                        let mut out = chars_of("Link already exists and points elsewhere: ");
                        append(&mut out, &chars_of(old.as_str()));
                        append(&mut out, &chars_of(" "));
                        if state.resolved.is_some() {
                            append(&mut out, &chars_of(""));
                        } else {
                            append(&mut out, &chars_of("(dead: auto-replacing)"));
                        }
                        Some(string_of(&out))
                    },
                    None => Some("File exists and is not a link, a .bak will be made".to_owned()),
                }
            },
            None => None,
        },
        _ => None,
    }
}

/// One sweep of installation over a directory of the repository.
#[derive(Debug)]
pub struct Sweep {
    /// The directory to walk, relative to the repository root.
    pub dir: String,
    /// Whether to walk into the directories below it.
    pub recurse: bool,
    /// What is taken off the front of a path before its link is placed.
    pub strip: Option<String>,
}

/// The two sweeps of installation, and how what is in a link's way is removed.
#[derive(Debug)]
pub struct Install<'a> {
    /// Over `home`, whose files are linked flat into the home directory.
    pub home: Sweep,
    /// Over `config`, whose files are linked in depth below `.config`.
    pub config: Sweep,
    /// How something alive in a link's way is replaced: after a question.
    pub replace_options: DeleteOptions<'a>,
    /// How a dead link in a link's way is replaced: at once.
    pub auto_replace_options: DeleteOptions<'a>,
}

/// Plans an installation.
pub fn run() -> (plan: Install<'static>)
    ensures
        plan.home.dir@ == "home"@,
        !plan.home.recurse,
        plan.home.strip is Some,
        plan.home.strip->0@ == "home"@,
        plan.config.dir@ == "config"@,
        plan.config.recurse,
        plan.config.strip is None,
        plan.replace_options.holds(true, false, "replac%"@),
        plan.auto_replace_options.holds(true, true, "autoreplac%"@),
{
    Install {
        home: Sweep { dir: "home".to_owned(), recurse: false, strip: Some("home".to_owned()) },
        config: Sweep { dir: "config".to_owned(), recurse: true, strip: None },
        replace_options: DeleteOptions {
            implode: true,
            without_prompting: false,
            verb_template: "replac%",
        },
        auto_replace_options: DeleteOptions {
            implode: true,
            without_prompting: true,
            verb_template: "autoreplac%",
        },
    }
}

} // verus!
