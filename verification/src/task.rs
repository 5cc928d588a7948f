//! The work on one entry, as a machine that is driven from outside: it asks
//! for one thing at a time, is told what came of it, and asks for the next.
//! The machine never acts itself, so what it asks for is all that happens.

use vstd::prelude::*;
use crate::delete::{
    confirm, confirmation, decide_delete, delete_reason, foresee, removal_for, removal_of,
    session_after, CleanupProbe, Confirmation, DeleteOptions, Reason, Removal,
};
use crate::fs::{
    backup_name, file_name, invalid_to_target, is_empty, name_has_bad_underscore, name_with_bak,
    parent, parent_of, DirState, DotEntry, DotEntryView, FileKind,
};
use crate::install::{
    decide_link, install_note, link_decision, note_for, LinkDecision, LinkProbe,
};
use crate::messages::{
    conjugated, display_delete_prompt, help_words, line_joined, opt_text, question, shown, LogLevel,
    Message, MessageBuilder, Reply, Said, TemplateError,
};
use crate::{get_this, Session, SessionView};

verus! {

/// What a question or a removal is about.
#[derive(Clone, Copy, Debug, PartialEq, Eq, Structural)]
pub enum Subject {
    /// The entry's link.
    Link,
    /// The directory that holds the link.
    Parent,
}

/// Where the work on an entry stands.
#[derive(Clone, Copy, Debug, PartialEq, Eq, Structural)]
pub enum Stage {
    /// A question has been put and waits for its answer.
    Asking(Subject),
    /// A removal has been asked for and waits for its outcome.
    Removing(Subject),
    /// The state of the link's directory has been asked for.
    Inspecting,
    /// The creation of the link has been asked for.
    Linking,
    /// Nothing more is to be done.
    Finished,
}

/// What the machine asks of its surroundings.
#[derive(Clone, Copy, Debug, PartialEq, Eq, Structural)]
pub enum Request {
    /// Put the question about the subject and hand back the answer.
    Ask(Subject),
    /// Carry out the removal on the subject and report whether it succeeded.
    Remove(Subject, Removal),
    /// Report the state of the directory that holds the link.
    Inspect,
    /// Create the directories above the link and then the link, and report
    /// whether that succeeded.
    Link,
    /// Nothing: the work on this entry is over.
    Done,
    /// Nothing, for this entry or any other: the run is over.
    Quit,
}

/// What the surroundings report.
#[derive(Clone, Copy, Debug, PartialEq, Eq, Structural)]
pub enum Event {
    /// The user's answer to the question.
    Answer(Reply),
    /// Whether what was asked for has been done.
    Completed(bool),
    /// The state of the directory that holds the link.
    Inspected(DirState),
}

/// What there is to say to the user.
#[derive(Clone, Copy, Debug, PartialEq, Eq, Structural)]
pub enum Notice {
    /// The target is meant for another host.
    Ignoring,
    /// The target cannot be looked up.
    BrokenLink,
    /// A link is being created where nothing stood.
    Linking,
    /// The link is in place already.
    AlreadyLinked,
    /// Something stands in the link's way.
    Found,
    /// The removal of the subject goes ahead.
    Approved(Subject),
    /// The removal of the subject was declined.
    Skipping(Subject),
    /// The user ended the run.
    Quitting,
    /// The answers on offer.
    Help,
    /// What stands at the link is nothing that can be removed.
    Unexpected,
    /// What was asked for of the subject could not be done.
    Failed(Subject),
}

/// What the course of the work depends on.
pub ghost struct Course {
    /// What stands at the link.
    pub kind: Option<FileKind>,
    /// Whether the link's removal is approved without asking.
    pub auto_link: bool,
    /// Whether a directory that the removal leaves empty is removed too,
    /// and if so, whether that is approved without asking.
    pub cascade: Option<bool>,
    /// Whether the link is created anew once its place is free.
    pub relink: bool,
    /// Whether the link has a directory that holds it.
    pub has_parent: bool,
    /// Where the work stands.
    pub stage: Stage,
}

/// One turn of the machine: where the work stands after it, the session
/// after it, what is said, and what is asked for.
pub ghost struct Turn {
    pub stage: Stage,
    pub session: SessionView,
    pub notices: Seq<Notice>,
    pub request: Request,
}

impl Course {
    /// Whether a removal of the subject is approved without asking.
    pub open spec fn auto_for(self, subject: Subject) -> bool {
        match subject {
            Subject::Link => self.auto_link,
            Subject::Parent => self.cascade == Some(true),
        }
    }

    /// What is done to the subject once its removal is approved: to the
    /// link, what its kind calls for; to the directory, its removal, which
    /// fails unless it is empty.
    pub open spec fn removal(self, subject: Subject) -> Option<Removal> {
        match subject {
            Subject::Link => removal_of(self.kind),
            Subject::Parent => Some(Removal::RemoveDir),
        }
    }
}

/// The turn that ends the work on the entry.
pub open spec fn finished(session: SessionView, notices: Seq<Notice>) -> Turn {
    Turn { stage: Stage::Finished, session, notices, request: Request::Done }
}

/// The turn that ends the run.
pub open spec fn stopped(session: SessionView, notices: Seq<Notice>) -> Turn {
    Turn { stage: Stage::Finished, session, notices, request: Request::Quit }
}

/// The turn in which a question about `subject` comes up, with `reply`
/// `None`, or is answered. `said` is what has been said in this turn so far.
pub open spec fn settled(
    course: Course,
    session: SessionView,
    subject: Subject,
    reply: Option<Reply>,
    said: Seq<Notice>,
) -> Turn {
    let auto = course.auto_for(subject);
    let after = session_after(auto, session, reply);
    match confirmation(auto, session.delete_all, session.halted, reply) {
        Confirmation::Approved => {
            let said = said.push(Notice::Approved(subject));
            match course.removal(subject) {
                Some(removal) => Turn {
                    stage: Stage::Removing(subject),
                    session: after,
                    notices: said,
                    request: Request::Remove(subject, removal),
                },
                None => finished(after, said.push(Notice::Unexpected)),
            }
        },
        Confirmation::Denied => finished(after, said.push(Notice::Skipping(subject))),
        Confirmation::Ask => Turn {
            stage: Stage::Asking(subject),
            session: after,
            notices: said,
            request: Request::Ask(subject),
        },
        Confirmation::Explain => Turn {
            stage: Stage::Asking(subject),
            session: after,
            notices: said.push(Notice::Help),
            request: Request::Ask(subject),
        },
        Confirmation::Quit => stopped(after, said.push(Notice::Quitting)),
    }
}

/// The turn that an event brings about. In a run that is over nothing
/// happens any more. An answer settles the open question. A removal of the
/// link that succeeded is followed by the creation of the new link, where
/// one is due; else, where empty directories are to go and the link was not
/// merely renamed, by a look at the directory that held it. A directory
/// found empty is asked about like a link. Whatever fails ends the work on
/// the entry, and so does an event that answers nothing that was asked.
pub open spec fn next(course: Course, session: SessionView, event: Event) -> Turn {
    let none = Seq::<Notice>::empty();
    if session.halted {
        stopped(session, none)
    } else {
        match (course.stage, event) {
            (Stage::Asking(subject), Event::Answer(reply)) => settled(
                course,
                session,
                subject,
                Some(reply),
                none,
            ),
            (Stage::Removing(Subject::Link), Event::Completed(true)) => {
                if course.relink {
                    Turn { stage: Stage::Linking, session, notices: none, request: Request::Link }
                } else if course.cascade is Some && course.has_parent && removal_of(course.kind) != Some(
                    Removal::Backup,
                ) {
                    Turn {
                        stage: Stage::Inspecting,
                        session,
                        notices: none,
                        request: Request::Inspect,
                    }
                } else {
                    finished(session, none)
                }
            },
            (Stage::Removing(Subject::Parent), Event::Completed(true)) => finished(session, none),
            (Stage::Removing(subject), Event::Completed(false)) => finished(
                session,
                none.push(Notice::Failed(subject)),
            ),
            (Stage::Linking, Event::Completed(true)) => finished(session, none),
            (Stage::Linking, Event::Completed(false)) => finished(
                session,
                none.push(Notice::Failed(Subject::Link)),
            ),
            (Stage::Inspecting, Event::Inspected(state)) => {
                if state == DirState::Holds(0) {
                    settled(course, session, Subject::Parent, None, none)
                } else {
                    finished(session, none)
                }
            },
            _ => finished(session, none),
        }
    }
}

/// The first turn of an installation, from the decision on the entry: a
/// target for another host, one that cannot be looked up, and a link that
/// is in place end the work at once; an empty place gets its link; anything
/// in the way is announced and its removal settled.
pub open spec fn install_start(course: Course, session: SessionView, decision: LinkDecision) -> Turn {
    let none = Seq::<Notice>::empty();
    if session.halted {
        stopped(session, none)
    } else {
        match decision {
            LinkDecision::Ignore => finished(session, none.push(Notice::Ignoring)),
            LinkDecision::Skip => finished(session, none.push(Notice::BrokenLink)),
            LinkDecision::NoOp => finished(session, none.push(Notice::AlreadyLinked)),
            LinkDecision::Create => Turn {
                stage: Stage::Linking,
                session,
                notices: none.push(Notice::Linking),
                request: Request::Link,
            },
            LinkDecision::ReplaceWithPrompt => settled(
                course,
                session,
                Subject::Link,
                None,
                none.push(Notice::Found),
            ),
            LinkDecision::ReplaceAutomatically => settled(
                course,
                session,
                Subject::Link,
                None,
                none.push(Notice::Found),
            ),
        }
    }
}

/// The first turn of a cleanup: a link that has no reason to go is left
/// alone, and the removal of any other is settled.
pub open spec fn cleanup_start(course: Course, session: SessionView, reason: Option<Reason>) -> Turn {
    let none = Seq::<Notice>::empty();
    if session.halted {
        stopped(session, none)
    } else if reason is None {
        finished(session, none)
    } else {
        settled(course, session, Subject::Link, None, none)
    }
}

/// What the machine hands back in one turn.
#[derive(Debug)]
pub struct Step {
    /// What is to be said, in order, before anything is done.
    pub notices: Vec<Notice>,
    /// What is to be done next.
    pub request: Request,
}

impl Step {
    /// Whether the step hands back what the turn holds.
    pub open spec fn holds(&self, turn: Turn) -> bool {
        self.notices@ == turn.notices && self.request == turn.request
    }
}

/// The model of a [`Task`].
pub ghost struct TaskView {
    pub entry: DotEntryView,
    pub kind: Option<FileKind>,
    pub auto_link: bool,
    pub link_template: Seq<char>,
    pub cascade: Option<bool>,
    pub dir_template: Option<Seq<char>>,
    pub relink: bool,
    pub note: Option<Seq<char>>,
    pub stage: Stage,
}

impl TaskView {
    /// What the course of the work depends on.
    pub open spec fn course(self) -> Course {
        Course {
            kind: self.kind,
            auto_link: self.auto_link,
            cascade: self.cascade,
            relink: self.relink,
            has_parent: parent_of(self.entry.link) is Some,
            stage: self.stage,
        }
    }
}

/// What is to be done, with the paths it is to be done to.
#[derive(Debug, PartialEq, Eq)]
pub enum Operation {
    /// Show the prompt and read a line.
    Ask { prompt: String },
    /// Remove the symbolic link at the path.
    Unlink { path: String },
    /// Remove the directory at the path, which fails unless it is empty.
    RemoveDir { path: String },
    /// Rename the file.
    Rename { from: String, to: String },
    /// Find out whether the directory is empty.
    Inspect { dir: String },
    /// Create the parent directory with all that is missing above it, then
    /// the link to the target.
    Symlink { parent: Option<String>, target: String, link: String },
    /// Nothing.
    Nothing,
}

/// The model of an [`Operation`].
pub ghost enum Deed {
    Ask { prompt: Seq<char> },
    Unlink { path: Seq<char> },
    RemoveDir { path: Seq<char> },
    Rename { from: Seq<char>, to: Seq<char> },
    Inspect { dir: Seq<char> },
    Symlink { parent: Option<Seq<char>>, target: Seq<char>, link: Seq<char> },
    Nothing,
}

impl View for Operation {
    type V = Deed;

    open spec fn view(&self) -> Deed {
        match *self {
            Operation::Ask { prompt } => Deed::Ask { prompt: prompt@ },
            Operation::Unlink { path } => Deed::Unlink { path: path@ },
            Operation::RemoveDir { path } => Deed::RemoveDir { path: path@ },
            Operation::Rename { from, to } => Deed::Rename { from: from@, to: to@ },
            Operation::Inspect { dir } => Deed::Inspect { dir: dir@ },
            Operation::Symlink { parent, target, link } => Deed::Symlink {
                parent: opt_text(parent),
                target: target@,
                link: link@,
            },
            Operation::Nothing => Deed::Nothing,
        }
    }
}

impl TaskView {
    /// The path of the subject: the link, or the directory that holds it.
    pub open spec fn path_of(self, subject: Subject) -> Option<Seq<char>> {
        match subject {
            Subject::Link => Some(self.entry.link),
            Subject::Parent => parent_of(self.entry.link),
        }
    }

    /// The verb template for a removal of the subject.
    pub open spec fn template_of(self, subject: Subject) -> Option<Seq<char>> {
        match subject {
            Subject::Link => Some(self.link_template),
            Subject::Parent => self.dir_template,
        }
    }

    /// What a request comes to for this entry: a question is asked about the
    /// subject's path with the subject's verb; a removal is done to the
    /// subject's path, a file being renamed to its backup name and nothing
    /// else; the directory looked at is the one that holds the link; the
    /// link is created at the entry's link and points to its target. `None`
    /// where a question cannot be worded because the verb template holds no `%`.
    pub open spec fn deed(self, request: Request, home: Seq<char>) -> Option<Deed> {
        match request {
            Request::Ask(subject) => match (self.path_of(subject), self.template_of(subject)) {
                (Some(path), Some(template)) => match question(template, path, home) {
                    Some(prompt) => Some(Deed::Ask { prompt }),
                    None => None,
                },
                _ => Some(Deed::Nothing),
            },
            Request::Remove(subject, removal) => match self.path_of(subject) {
                Some(path) => Some(
                    match removal {
                        Removal::Unlink => Deed::Unlink { path },
                        Removal::RemoveDir => Deed::RemoveDir { path },
                        Removal::Backup => Deed::Rename { from: path, to: backup_name(path) },
                    },
                ),
                None => Some(Deed::Nothing),
            },
            Request::Inspect => match parent_of(self.entry.link) {
                Some(dir) => Some(Deed::Inspect { dir }),
                None => Some(Deed::Nothing),
            },
            Request::Link => Some(
                Deed::Symlink {
                    parent: parent_of(self.entry.link),
                    target: self.entry.target,
                    link: self.entry.link,
                },
            ),
            Request::Done => Some(Deed::Nothing),
            Request::Quit => Some(Deed::Nothing),
        }
    }

    /// What a notice comes to for this entry: its weight, its verb, and the
    /// path it is about as the user is shown it, with what there is to add.
    /// `None` where the verb cannot be formed because its template holds no `%`.
    pub open spec fn said(self, notice: Notice, home: Seq<char>) -> Option<Said> {
        let link = Some(shown(self.entry.link, home));
        match notice {
            Notice::Ignoring => Some(
                Said { level: LogLevel::Normal, verb: "ignoring"@, text: line_joined(link, None) },
            ),
            Notice::BrokenLink => Some(
                Said {
                    level: LogLevel::Warning,
                    verb: "skipping"@,
                    text: line_joined(link, self.note),
                },
            ),
            Notice::Linking => Some(
                Said { level: LogLevel::Success, verb: "linking"@, text: line_joined(link, None) },
            ),
            Notice::AlreadyLinked => Some(
                Said {
                    level: LogLevel::Normal,
                    verb: Seq::<char>::empty(),
                    text: line_joined(link, None),
                },
            ),
            Notice::Found => Some(
                Said { level: LogLevel::Warning, verb: "found"@, text: line_joined(link, self.note) },
            ),
            Notice::Approved(subject) => match (self.path_of(subject), self.template_of(subject)) {
                (Some(path), Some(template)) => match conjugated(template, "ing"@) {
                    Some(verb) => Some(
                        Said {
                            level: LogLevel::Success,
                            verb,
                            text: line_joined(Some(shown(path, home)), None),
                        },
                    ),
                    None => None,
                },
                _ => Some(self.wordless()),
            },
            Notice::Skipping(subject) => match self.path_of(subject) {
                Some(path) => Some(
                    Said {
                        level: LogLevel::Warning,
                        verb: "skipping"@,
                        text: line_joined(Some(shown(path, home)), None),
                    },
                ),
                None => Some(self.wordless()),
            },
            Notice::Quitting => Some(
                Said {
                    level: LogLevel::Normal,
                    verb: "quitting"@,
                    text: line_joined(None, Some("per user"@)),
                },
            ),
            Notice::Help => Some(
                Said { level: LogLevel::Normal, verb: Seq::<char>::empty(), text: help_words() },
            ),
            Notice::Unexpected => Some(
                Said {
                    level: LogLevel::Error,
                    verb: "error"@,
                    text: line_joined(link, Some("neither a link, a directory nor a file"@)),
                },
            ),
            Notice::Failed(subject) => match self.path_of(subject) {
                Some(path) => Some(
                    Said {
                        level: LogLevel::Error,
                        verb: "error"@,
                        text: line_joined(Some(shown(path, home)), Some("could not be done"@)),
                    },
                ),
                None => Some(self.wordless()),
            },
        }
    }

    /// The message about a subject that the entry does not have.
    pub open spec fn wordless(self) -> Said {
        Said { level: LogLevel::Normal, verb: Seq::<char>::empty(), text: Seq::<char>::empty() }
    }
}

/// The work on one entry.
#[derive(Debug)]
pub struct Task<'a> {
    entry: DotEntry,
    kind: Option<FileKind>,
    link_options: DeleteOptions<'a>,
    dir_options: Option<DeleteOptions<'a>>,
    relink: bool,
    note: Option<String>,
    stage: Stage,
}

impl<'a> View for Task<'a> {
    type V = TaskView;

    closed spec fn view(&self) -> TaskView {
        TaskView {
            entry: self.entry@,
            kind: self.kind,
            auto_link: self.link_options.without_prompting,
            link_template: self.link_options.verb_template@,
            cascade: match self.dir_options {
                Some(options) => Some(options.without_prompting),
                None => None,
            },
            dir_template: match self.dir_options {
                Some(options) => Some(options.verb_template@),
                None => None,
            },
            relink: self.relink,
            note: opt_text(self.note),
            stage: self.stage,
        }
    }
}

impl<'a> Task<'a> {
    /// Ends the work on the entry.
    fn finish(&mut self, session: &Session, notices: Vec<Notice>) -> (step: Step)
        ensures
            final(self)@ == (TaskView { stage: Stage::Finished, ..old(self)@ }),
            step.holds(finished(session@, notices@)),
    {
        self.stage = Stage::Finished;
        Step { notices, request: Request::Done }
    }

    /// Ends the work on the entry because the run is over.
    fn stop(&mut self, session: &Session, notices: Vec<Notice>) -> (step: Step)
        ensures
            final(self)@ == (TaskView { stage: Stage::Finished, ..old(self)@ }),
            step.holds(stopped(session@, notices@)),
    {
        self.stage = Stage::Finished;
        Step { notices, request: Request::Quit }
    }

    /// Whether a removal of the subject is approved without asking.
    fn auto_for(&self, subject: Subject) -> (auto: bool)
        ensures
            auto == self@.course().auto_for(subject),
    {
        match subject {
            Subject::Link => self.link_options.without_prompting,
            Subject::Parent => match &self.dir_options {
                Some(options) => options.without_prompting,
                None => false,
            },
        }
    }

    /// Acts on how a question about the subject stands.
    fn resolve(
        &mut self,
        session: &Session,
        subject: Subject,
        verdict: Confirmation,
        said: Vec<Notice>,
    ) -> (step: Step)
        ensures
            forall|before: SessionView, reply: Option<Reply>|
                verdict == confirmation(
                    old(self)@.course().auto_for(subject),
                    before.delete_all,
                    before.halted,
                    reply,
                ) && session@ == session_after(
                    old(self)@.course().auto_for(subject),
                    before,
                    reply,
                ) ==> {
                    let turn = #[trigger] settled(
                        old(self)@.course(),
                        before,
                        subject,
                        reply,
                        said@,
                    );
                    &&& final(self)@ == (TaskView { stage: turn.stage, ..old(self)@ })
                    &&& session@ == turn.session
                    &&& step.holds(turn)
                },
    {
        let mut said = said;
        match verdict {
            Confirmation::Approved => {
                said.push(Notice::Approved(subject));
                let removal = match subject {
                    Subject::Link => removal_for(self.kind),
                    Subject::Parent => Some(Removal::RemoveDir),
                };
                match removal {
                    Some(removal) => {
                        self.stage = Stage::Removing(subject);
                        Step { notices: said, request: Request::Remove(subject, removal) }
                    },
                    None => {
                        said.push(Notice::Unexpected);
                        self.finish(session, said)
                    },
                }
            },
            Confirmation::Denied => {
                said.push(Notice::Skipping(subject));
                self.finish(session, said)
            },
            Confirmation::Ask => {
                self.stage = Stage::Asking(subject);
                Step { notices: said, request: Request::Ask(subject) }
            },
            Confirmation::Explain => {
                said.push(Notice::Help);
                self.stage = Stage::Asking(subject);
                Step { notices: said, request: Request::Ask(subject) }
            },
            Confirmation::Quit => {
                said.push(Notice::Quitting);
                self.stop(session, said)
            },
        }
    }

    /// Settles an open question about the subject by the answer given.
    fn settle(
        &mut self,
        session: &mut Session,
        subject: Subject,
        reply: Option<Reply>,
        said: Vec<Notice>,
    ) -> (step: Step)
        ensures
            ({
                let turn = settled(old(self)@.course(), old(session)@, subject, reply, said@);
                &&& final(self)@ == (TaskView { stage: turn.stage, ..old(self)@ })
                &&& final(session)@ == turn.session
                &&& step.holds(turn)
            }),
    {
        let ghost before = session@;
        let verdict = confirm(self.auto_for(subject), session, reply);
        let step = self.resolve(session, subject, verdict, said);
        assert(settled(old(self)@.course(), before, subject, reply, said@).session == session@);
        step
    }

    /// Brings up the question about the subject.
    fn raise(&mut self, session: &Session, subject: Subject, said: Vec<Notice>) -> (step: Step)
        ensures
            ({
                let turn = settled(old(self)@.course(), session@, subject, None, said@);
                &&& final(self)@ == (TaskView { stage: turn.stage, ..old(self)@ })
                &&& session@ == turn.session
                &&& step.holds(turn)
            }),
    {
        let verdict = foresee(self.auto_for(subject), session);
        let step = self.resolve(session, subject, verdict, said);
        assert(settled(old(self)@.course(), session@, subject, None, said@).session == session@);
        step
    }

    /// Begins the installation of `entry`, given what `probe` found. The
    /// link's removal, where one is due, goes by `replace_options` when
    /// what stands there is alive and by `auto_replace_options` when it is dead.
    pub fn install(
        entry: DotEntry,
        probe: &LinkProbe,
        replace_options: DeleteOptions<'a>,
        auto_replace_options: DeleteOptions<'a>,
        session: &Session,
    ) -> (begun: (Task<'a>, Step))
        ensures
            ({
                let decision = link_decision(
                    invalid_to_target(entry@.target, session@.host),
                    probe.target_id(),
                    probe.link_id(),
                );
                let options = if decision == LinkDecision::ReplaceAutomatically {
                    auto_replace_options
                } else {
                    replace_options
                };
                let task = begun.0@;
                &&& task.entry == entry@
                &&& task.kind == probe.link_kind()
                &&& task.auto_link == options.without_prompting
                &&& task.link_template == options.verb_template@
                &&& task.cascade is None
                &&& task.dir_template is None
                &&& task.relink
                &&& task.note == install_note(decision, *probe)
                &&& {
                    let turn = install_start(task.course(), session@, decision);
                    &&& task.stage == turn.stage
                    &&& session@ == turn.session
                    &&& begun.1.holds(turn)
                }
            }),
    {
        let decision = decide_link(&entry, probe, get_this(session));
        let kind = match &probe.link {
            Some(state) => Some(state.kind),
            None => None,
        };
        let link_options = match decision {
            LinkDecision::ReplaceAutomatically => auto_replace_options,
            _ => replace_options,
        };
        let mut task = Task {
            entry,
            kind,
            link_options,
            dir_options: None,
            relink: true,
            note: note_for(decision, probe),
            stage: Stage::Finished,
        };
        let mut said: Vec<Notice> = Vec::new();
        if session.is_halted() {
            let step = task.stop(session, said);
            return (task, step);
        }
        let step = match decision {
            LinkDecision::Ignore => {
                said.push(Notice::Ignoring);
                task.finish(session, said)
            },
            LinkDecision::Skip => {
                said.push(Notice::BrokenLink);
                task.finish(session, said)
            },
            LinkDecision::NoOp => {
                said.push(Notice::AlreadyLinked);
                task.finish(session, said)
            },
            LinkDecision::Create => {
                said.push(Notice::Linking);
                task.stage = Stage::Linking;
                Step { notices: said, request: Request::Link }
            },
            LinkDecision::ReplaceWithPrompt => {
                said.push(Notice::Found);
                task.raise(session, Subject::Link, said)
            },
            LinkDecision::ReplaceAutomatically => {
                said.push(Notice::Found);
                task.raise(session, Subject::Link, said)
            },
        };
        (task, step)
    }

    /// Begins the cleanup of `entry`, given what `probe` found. The link is
    /// removed by `options`; a directory that its removal leaves empty is
    /// removed by `dir_options`, and stays where there are none.
    pub fn cleanup(
        entry: DotEntry,
        probe: &CleanupProbe,
        options: DeleteOptions<'a>,
        dir_options: Option<DeleteOptions<'a>>,
        session: &Session,
    ) -> (begun: (Task<'a>, Step))
        ensures
            ({
                let reason = delete_reason(
                    options.implode,
                    invalid_to_target(entry@.target, session@.host),
                    name_has_bad_underscore(file_name(entry@.link)),
                    *probe,
                );
                let task = begun.0@;
                &&& task.entry == entry@
                &&& task.kind == probe.kind
                &&& task.auto_link == options.without_prompting
                &&& task.link_template == options.verb_template@
                &&& task.cascade == match dir_options {
                    Some(dir) => Some(dir.without_prompting),
                    None => None,
                }
                &&& task.dir_template == match dir_options {
                    Some(dir) => Some(dir.verb_template@),
                    None => None,
                }
                &&& !task.relink
                &&& task.note is None
                &&& {
                    let turn = cleanup_start(task.course(), session@, reason);
                    &&& task.stage == turn.stage
                    &&& session@ == turn.session
                    &&& begun.1.holds(turn)
                }
            }),
    {
        let reason = decide_delete(&entry, &options, probe, session);
        let mut task = Task {
            entry,
            kind: probe.kind,
            link_options: options,
            dir_options,
            relink: false,
            note: None,
            stage: Stage::Finished,
        };
        let said: Vec<Notice> = Vec::new();
        let step = if session.is_halted() {
            task.stop(session, said)
        } else if reason.is_none() {
            task.finish(session, said)
        } else {
            task.raise(session, Subject::Link, said)
        };
        (task, step)
    }

    /// Takes the work one turn further, on what the surroundings report.
    pub fn step(&mut self, session: &mut Session, event: Event) -> (step: Step)
        ensures
            ({
                let turn = next(old(self)@.course(), old(session)@, event);
                &&& final(self)@ == (TaskView { stage: turn.stage, ..old(self)@ })
                &&& final(session)@ == turn.session
                &&& step.holds(turn)
            }),
    {
        let said: Vec<Notice> = Vec::new();
        if session.is_halted() {
            return self.stop(session, said);
        }
        match (self.stage, event) {
            (Stage::Asking(subject), Event::Answer(reply)) => self.settle(
                session,
                subject,
                Some(reply),
                said,
            ),
            (Stage::Removing(Subject::Link), Event::Completed(true)) => {
                let renamed = match removal_for(self.kind) {
                    Some(Removal::Backup) => true,
                    _ => false,
                };
                if self.relink {
                    self.stage = Stage::Linking;
                    Step { notices: said, request: Request::Link }
                } else if self.dir_options.is_some() && parent(
                    self.entry.link.as_str(),
                ).is_some() && !renamed {
                    self.stage = Stage::Inspecting;
                    Step { notices: said, request: Request::Inspect }
                } else {
                    self.finish(session, said)
                }
            },
            (Stage::Removing(Subject::Parent), Event::Completed(true)) => self.finish(
                session,
                said,
            ),
            (Stage::Removing(subject), Event::Completed(false)) => {
                let mut said = said;
                said.push(Notice::Failed(subject));
                self.finish(session, said)
            },
            (Stage::Linking, Event::Completed(true)) => self.finish(session, said),
            (Stage::Linking, Event::Completed(false)) => {
                let mut said = said;
                said.push(Notice::Failed(Subject::Link));
                self.finish(session, said)
            },
            (Stage::Inspecting, Event::Inspected(state)) => {
                if is_empty(&state) {
                    self.settle(session, Subject::Parent, None, said)
                } else {
                    self.finish(session, said)
                }
            },
            _ => self.finish(session, said),
        }
    }

    /// What there is to add to the announcement of the decision.
    fn note(&self) -> (note: Option<String>)
        ensures
            opt_text(note) == self@.note,
    {
        match &self.note {
            Some(note) => Some(note.clone()),
            None => None,
        }
    }

    /// The path of the subject, if the entry has one.
    fn path_for(&self, subject: Subject) -> (path: Option<String>)
        ensures
            opt_text(path) == self@.path_of(subject),
    {
        match subject {
            Subject::Link => Some(self.entry.link.clone()),
            Subject::Parent => parent(self.entry.link.as_str()),
        }
    }

    /// The options by which the subject is removed, if there are any.
    fn options_for(&self, subject: Subject) -> (options: Option<DeleteOptions<'a>>)
        ensures
            match options {
                Some(options) => self@.template_of(subject) == Some(options.verb_template@),
                None => self@.template_of(subject) is None,
            },
    {
        match subject {
            Subject::Link => Some(self.link_options),
            Subject::Parent => self.dir_options,
        }
    }

    /// What `request` comes to for this entry, with the paths spelled out.
    /// Fails where a question cannot be worded because the verb template
    /// holds no `%`.
    pub fn operation(&self, request: Request, session: &Session) -> (operation: Result<
        Operation,
        TemplateError,
    >)
        ensures
            match operation {
                Ok(operation) => self@.deed(request, session@.home) == Some(operation@),
                Err(_) => self@.deed(request, session@.home) is None,
            },
    {
        match request {
            Request::Ask(subject) => match (self.path_for(subject), self.options_for(subject)) {
                (Some(path), Some(options)) => match display_delete_prompt(
                    path.as_str(),
                    &options,
                    session,
                ) {
                    Ok(prompt) => Ok(Operation::Ask { prompt }),
                    Err(e) => Err(e),
                },
                _ => Ok(Operation::Nothing),
            },
            Request::Remove(subject, removal) => match self.path_for(subject) {
                Some(path) => Ok(
                    match removal {
                        Removal::Unlink => Operation::Unlink { path },
                        Removal::RemoveDir => Operation::RemoveDir { path },
                        Removal::Backup => {
                            let to = name_with_bak(path.as_str());
                            Operation::Rename { from: path, to }
                        },
                    },
                ),
                None => Ok(Operation::Nothing),
            },
            Request::Inspect => match parent(self.entry.link.as_str()) {
                Some(dir) => Ok(Operation::Inspect { dir }),
                None => Ok(Operation::Nothing),
            },
            Request::Link => Ok(
                Operation::Symlink {
                    parent: parent(self.entry.link.as_str()),
                    target: self.entry.target.clone(),
                    link: self.entry.link.clone(),
                },
            ),
            Request::Done => Ok(Operation::Nothing),
            Request::Quit => Ok(Operation::Nothing),
        }
    }

    /// The message that `notice` comes to for this entry. Fails where its
    /// verb cannot be formed because the verb template holds no `%`.
    pub fn announce(&self, notice: Notice, session: &Session) -> (message: Result<
        Message,
        TemplateError,
    >)
        ensures
            match message {
                Ok(message) => self@.said(notice, session@.home) == Some(message@),
                Err(_) => self@.said(notice, session@.home) is None,
            },
    {
        let link = self.entry.link.as_str();
        let wordless = Message {
            level: LogLevel::Normal,
            verb: String::new(),
            text: String::new(),
        };
        match notice {
            Notice::Ignoring => Ok(
                MessageBuilder::new().with_path(link, session).with_verb("ignoring").log(None),
            ),
            Notice::BrokenLink => Ok(
                MessageBuilder::new().with_verb("skipping").with_path(link, session).warning(
                    self.note(),
                ),
            ),
            Notice::Linking => Ok(
                MessageBuilder::new().with_verb("linking").with_path(link, session).success(None),
            ),
            Notice::AlreadyLinked => Ok(MessageBuilder::new().with_path(link, session).log(None)),
            Notice::Found => Ok(
                MessageBuilder::new().with_verb("found").with_path(link, session).warning(
                    self.note(),
                ),
            ),
            Notice::Approved(subject) => match (self.path_for(subject), self.options_for(subject)) {
                (Some(path), Some(options)) => match MessageBuilder::new().with_verb(
                    options.verb_template,
                ).conjugate_with("ing") {
                    Ok(builder) => Ok(builder.with_path(path.as_str(), session).success(None)),
                    Err(e) => Err(e),
                },
                _ => Ok(wordless),
            },
            Notice::Skipping(subject) => match self.path_for(subject) {
                Some(path) => Ok(
                    MessageBuilder::new().with_verb("skipping").with_path(
                        path.as_str(),
                        session,
                    ).warning(None),
                ),
                None => Ok(wordless),
            },
            Notice::Quitting => Ok(
                MessageBuilder::new().with_verb("quitting").log(Some("per user".to_owned())),
            ),
            Notice::Help => Ok(
                Message {
                    level: LogLevel::Normal,
                    verb: String::new(),
                    text: "y - yes , n - no, a - all, q - quit".to_owned(),
                },
            ),
            Notice::Unexpected => Ok(
                MessageBuilder::new().with_path(link, session).error(
                    Some("neither a link, a directory nor a file".to_owned()),
                ),
            ),
            Notice::Failed(subject) => match self.path_for(subject) {
                Some(path) => Ok(
                    MessageBuilder::new().with_path(path.as_str(), session).error(
                        Some("could not be done".to_owned()),
                    ),
                ),
                None => Ok(wordless),
            },
        }
    }

    /// Where the work stands.
    pub fn stage(&self) -> (stage: Stage)
        ensures
            stage == self@.stage,
    {
        self.stage
    }

    /// The entry that the work is on.
    pub fn entry(&self) -> (entry: &DotEntry)
        ensures
            entry@ == self@.entry,
    {
        &self.entry
    }
}

} // verus!
