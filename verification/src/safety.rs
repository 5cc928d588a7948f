//! What holds of the machine whatever it is told: the guarantees that make
//! it safe to let it loose on a home directory.

use vstd::prelude::*;
use crate::delete::{answer_counts, delete_reason, removal_of, CleanupProbe, Reason, Removal};
use crate::fs::{backup_name, lemma_name_is_suffix, parent_of, DirState, FileId, FileKind};
use crate::install::{link_decision, LinkDecision};
use crate::messages::Reply;
use crate::task::{
    cleanup_start, finished, install_start, next, stopped, Course, Deed, Event, Notice,
    Request, Stage, Subject, TaskView, Turn,
};
use crate::SessionView;

verus! {

/// Whether `turn` is one that the machine can take from `course` and
/// `session`: its first turn, of an installation or of a cleanup, or the
/// turn that some event brings about.
pub open spec fn is_turn(course: Course, session: SessionView, turn: Turn) -> bool {
    ||| exists|decision: LinkDecision| turn == install_start(course, session, decision)
    ||| exists|reason: Option<Reason>| turn == cleanup_start(course, session, reason)
    ||| exists|event: Event| turn == next(course, session, event)
}

/// An entry whose target is meant for this host and can be looked up, and
/// whose link already leads to the very file of the target, is left alone:
/// installation says that the link is in place, asks for nothing, and
/// leaves the session as it was. So a second installation over an unchanged
/// home directory puts no question and changes nothing.
pub proof fn lemma_linked_entry_is_left_alone(course: Course, session: SessionView, id: FileId)
    requires
        !session.halted,
    ensures
        link_decision(false, Some(id), Some(Some(id))) == LinkDecision::NoOp,
        install_start(course, session, LinkDecision::NoOp) == finished(
            session,
            seq![Notice::AlreadyLinked],
        ),
{
    assert(Seq::<Notice>::empty().push(Notice::AlreadyLinked) == seq![Notice::AlreadyLinked]);
}

/// A target that is meant for another host is never linked and always a
/// candidate for removal: whatever the file system shows, installation
/// ignores the entry without asking for anything, and cleanup finds a
/// reason for the link to go.
pub proof fn lemma_foreign_target_is_ignored_and_removed(
    course: Course,
    session: SessionView,
    target: Option<FileId>,
    link: Option<Option<FileId>>,
    implode: bool,
    bad_underscore: bool,
    probe: CleanupProbe,
)
    requires
        !session.halted,
    ensures
        link_decision(true, target, link) == LinkDecision::Ignore,
        install_start(course, session, LinkDecision::Ignore).request == Request::Done,
        delete_reason(implode, true, bad_underscore, probe) is Some,
{
}

/// A link whose target or whose repository path is gone has to go, and
/// where removals are approved without asking, cleanup asks for the link to
/// be removed in its first turn, without a question.
pub proof fn lemma_orphan_is_removed_unasked(
    course: Course,
    session: SessionView,
    invalid: bool,
    bad_underscore: bool,
    probe: CleanupProbe,
)
    requires
        !session.halted,
        !probe.target_exists || !probe.source_exists,
        course.kind == Some(FileKind::Symlink),
        course.auto_link || session.delete_all,
    ensures
        delete_reason(false, invalid, bad_underscore, probe) is Some,
        cleanup_start(
            course,
            session,
            delete_reason(false, invalid, bad_underscore, probe),
        ).request == Request::Remove(Subject::Link, Removal::Unlink),
{
}

/// Whatever stands at a link is only ever treated as its kind calls for. In
/// particular a file is never removed: the one thing that the machine ever
/// asks to be done to it is to keep it under its backup name.
pub proof fn lemma_link_removal_goes_by_kind(course: Course, session: SessionView, turn: Turn)
    requires
        is_turn(course, session, turn),
    ensures
        forall|removal: Removal|
            turn.request == Request::Remove(Subject::Link, removal) ==> Some(removal)
                == removal_of(course.kind),
        course.kind == Some(FileKind::File) ==> forall|removal: Removal|
            turn.request == Request::Remove(Subject::Link, removal) ==> removal
                == Removal::Backup,
{
}

/// For an entry whose link is a file, nothing that the machine asks for
/// removes the path of the link: the file is renamed to its path with
/// `.bak` behind it, and the only other removal there can be is that of the
/// directory above it.
pub proof fn lemma_file_is_backed_up(task: TaskView, session: SessionView, turn: Turn)
    requires
        is_turn(task.course(), session, turn),
        task.kind == Some(FileKind::File),
    ensures
        turn.request is Remove ==> {
            ||| task.deed(turn.request, session.home) == Some(
                Deed::Rename { from: task.entry.link, to: backup_name(task.entry.link) },
            )
            ||| task.deed(turn.request, session.home) == Some(Deed::Nothing)
            ||| exists|dir: Seq<char>|
                dir != task.entry.link && task.deed(turn.request, session.home) == Some(
                    Deed::RemoveDir { path: dir },
                )
        },
        task.deed(turn.request, session.home) != Some(Deed::Unlink { path: task.entry.link }),
        task.deed(turn.request, session.home) != Some(Deed::RemoveDir { path: task.entry.link }),
{
    lemma_link_removal_goes_by_kind(task.course(), session, turn);
    lemma_parent_is_shorter(task.entry.link);
    match turn.request {
        Request::Remove(Subject::Parent, removal) => {
            assert(removal == Removal::RemoveDir);
            if parent_of(task.entry.link) is Some {
                let dir = parent_of(task.entry.link)->0;
                assert(task.deed(turn.request, session.home) == Some(
                    Deed::RemoveDir { path: dir },
                ));
            }
        },
        _ => {},
    }
}

/// The directory that holds a path is never the path itself.
pub proof fn lemma_parent_is_shorter(path: Seq<char>)
    ensures
        parent_of(path) is Some ==> parent_of(path)->0.len() < path.len(),
{
    lemma_name_is_suffix(path);
}

/// An `all` that is read approves everything from then on: the session
/// remembers it.
pub proof fn lemma_all_is_remembered(course: Course, session: SessionView, subject: Subject)
    requires
        course.stage == Stage::Asking(subject),
        answer_counts(course.auto_for(subject), session),
    ensures
        next(course, session, Event::Answer(Reply::All)).session.delete_all,
        !next(course, session, Event::Answer(Reply::All)).session.halted,
{
}

/// Once everything is approved, no question is put any more, about this
/// entry or any other, about a link or about a directory: no turn asks, and
/// none takes the approval back.
pub proof fn lemma_approval_of_all_lasts(course: Course, session: SessionView, turn: Turn)
    requires
        is_turn(course, session, turn),
        session.delete_all,
    ensures
        !(turn.request is Ask),
        turn.stage !is Asking,
        !turn.notices.contains(Notice::Help),
        turn.session.delete_all,
{
}

/// No turn takes an approval of everything back, and no turn revives a run
/// that is over.
pub proof fn lemma_session_only_grows(course: Course, session: SessionView, turn: Turn)
    requires
        is_turn(course, session, turn),
    ensures
        session.delete_all ==> turn.session.delete_all,
        session.halted ==> turn.session.halted,
        turn.session.home == session.home,
        turn.session.repo == session.repo,
        turn.session.host == session.host,
{
}

/// After the removal of a link that was neither a file nor part of an
/// installation, a cleanup that removes empty directories looks at the
/// directory that held the link; and when that is reported empty, its
/// removal is settled like that of a link: asked about, or, where removals
/// are approved without asking, asked for at once.
pub proof fn lemma_empty_directory_follows(course: Course, session: SessionView)
    requires
        !session.halted,
        !course.relink,
        course.cascade is Some,
        course.has_parent,
        removal_of(course.kind) != Some(Removal::Backup),
    ensures
        course.stage == Stage::Removing(Subject::Link) ==> next(
            course,
            session,
            Event::Completed(true),
        ).request == Request::Inspect,
        course.stage == Stage::Inspecting ==> {
            let turn = next(course, session, Event::Inspected(DirState::Holds(0)));
            if course.cascade == Some(true) || session.delete_all {
                turn.request == Request::Remove(Subject::Parent, Removal::RemoveDir)
            } else {
                turn.request == Request::Ask(Subject::Parent)
            }
        },
{
}

/// A directory that is not reported empty is left alone: the turn that
/// learns of it ends the work on the entry.
pub proof fn lemma_full_directory_stays(course: Course, session: SessionView, state: DirState)
    requires
        course.stage == Stage::Inspecting,
        state != DirState::Holds(0),
    ensures
        !(next(course, session, Event::Inspected(state)).request is Remove),
        !(next(course, session, Event::Inspected(state)).request is Ask),
        next(course, session, Event::Inspected(state)).stage == Stage::Finished,
{
}

/// Where the work on an entry stands after a series of events, and the
/// session then.
pub open spec fn after(course: Course, session: SessionView, events: Seq<Event>) -> (Stage, SessionView)
    decreases events.len(),
{
    if events.len() == 0 {
        (course.stage, session)
    } else {
        let (stage, session) = after(course, session, events.drop_last());
        let turn = next(Course { stage, ..course }, session, events.last());
        (turn.stage, turn.session)
    }
}

/// The turn that the last of a series of events brings about.
pub open spec fn last_turn(course: Course, session: SessionView, events: Seq<Event>) -> Turn
    recommends
        events.len() > 0,
{
    let (stage, session) = after(course, session, events.drop_last());
    next(Course { stage, ..course }, session, events.last())
}

/// Whether the work stands where a first turn can leave it: it has not got
/// to the directory above the link.
pub open spec fn fresh(stage: Stage) -> bool {
    stage != Stage::Asking(Subject::Parent) && stage != Stage::Removing(Subject::Parent)
        && stage != Stage::Inspecting
}

/// A first turn never gets to the directory above the link.
pub proof fn lemma_first_turn_is_fresh(
    course: Course,
    session: SessionView,
    decision: LinkDecision,
    reason: Option<Reason>,
)
    ensures
        fresh(install_start(course, session, decision).stage),
        fresh(cleanup_start(course, session, reason).stage),
        !(install_start(course, session, decision).request matches Request::Remove(
            Subject::Parent,
            _,
        )),
        !(cleanup_start(course, session, reason).request matches Request::Remove(
            Subject::Parent,
            _,
        )),
{
}

/// A directory is removed only after it was reported empty, and only where
/// the removal of the link was not followed by a new link: however the
/// events fall after a first turn, the machine asks for the directory above
/// the link to be removed only if one of the events so far reported it
/// empty, and then asks for no more than a removal that fails on a
/// directory that holds something.
pub proof fn lemma_directory_removed_only_when_empty(
    course: Course,
    session: SessionView,
    events: Seq<Event>,
)
    requires
        fresh(course.stage),
        events.len() > 0,
    ensures
        forall|removal: Removal| #[trigger]
            last_turn(course, session, events).request == Request::Remove(
                Subject::Parent,
                removal,
            ) ==> removal == Removal::RemoveDir && events.contains(
                Event::Inspected(DirState::Holds(0)),
            ) && !course.relink && course.cascade is Some,
{
    lemma_directory_is_reached_through_inspection(course, session, events.drop_last());
    let (stage, before) = after(course, session, events.drop_last());
    let turn = last_turn(course, session, events);
    if turn.request matches Request::Remove(Subject::Parent, _) {
        if stage == Stage::Inspecting {
            assert(events.last() == Event::Inspected(DirState::Holds(0)));
            assert(events[events.len() - 1] == Event::Inspected(DirState::Holds(0)));
        } else {
            assert(stage == Stage::Asking(Subject::Parent));
            let i = choose|i: int|
                0 <= i < events.drop_last().len() && events.drop_last()[i] == Event::Inspected(
                    DirState::Holds(0),
                );
            assert(events[i] == Event::Inspected(DirState::Holds(0)));
        }
    }
}

/// The work gets to the directory above the link only through a look at it:
/// it waits for that look only in a cleanup that removes empty directories,
/// and it has a question open about the directory, or its removal under
/// way, only after the directory was reported empty.
pub proof fn lemma_directory_is_reached_through_inspection(
    course: Course,
    session: SessionView,
    events: Seq<Event>,
)
    requires
        fresh(course.stage),
    ensures
        !fresh(after(course, session, events).0) ==> !course.relink && course.cascade is Some,
        after(course, session, events).0 == Stage::Asking(Subject::Parent) || after(
            course,
            session,
            events,
        ).0 == Stage::Removing(Subject::Parent) ==> events.contains(
            Event::Inspected(DirState::Holds(0)),
        ),
    decreases events.len(),
{
    if events.len() > 0 {
        let shorter = events.drop_last();
        lemma_directory_is_reached_through_inspection(course, session, shorter);
        let (stage, before) = after(course, session, shorter);
        let now = after(course, session, events).0;
        if now == Stage::Asking(Subject::Parent) || now == Stage::Removing(Subject::Parent) {
            if stage == Stage::Inspecting {
                assert(events[events.len() - 1] == Event::Inspected(DirState::Holds(0)));
            } else {
                assert(stage == Stage::Asking(Subject::Parent));
                let i = choose|i: int|
                    0 <= i < shorter.len() && shorter[i] == Event::Inspected(DirState::Holds(0));
                assert(events[i] == Event::Inspected(DirState::Holds(0)));
            }
        }
    }
}

/// A `quit` that is read ends the run: the turn asks for nothing but the
/// end, says so, and the session remembers it.
pub proof fn lemma_quit_ends_the_run(course: Course, session: SessionView, subject: Subject)
    requires
        course.stage == Stage::Asking(subject),
        answer_counts(course.auto_for(subject), session),
    ensures
        next(course, session, Event::Answer(Reply::Quit)) == stopped(
            SessionView { halted: true, ..session },
            seq![Notice::Quitting],
        ),
{
    assert(Seq::<Notice>::empty().push(Notice::Quitting) == seq![Notice::Quitting]);
}

/// In a run that is over nothing is touched any more: every turn, the first
/// on a new entry as well as the next on one under way, says nothing, asks
/// for nothing but the end, and leaves the session as it is.
pub proof fn lemma_nothing_follows_a_quit(course: Course, session: SessionView, turn: Turn)
    requires
        is_turn(course, session, turn),
        session.halted,
    ensures
        turn == stopped(session, Seq::<Notice>::empty()),
{
}

/// After a `quit` that was read, whatever events follow, the machine asks
/// for nothing but the end of the run.
pub proof fn lemma_quit_is_final(
    course: Course,
    session: SessionView,
    subject: Subject,
    events: Seq<Event>,
)
    requires
        course.stage == Stage::Asking(subject),
        answer_counts(course.auto_for(subject), session),
        events.len() > 0,
        events[0] == Event::Answer(Reply::Quit),
    ensures
        after(course, session, events).1.halted,
        last_turn(course, session, events).request == Request::Quit,
    decreases events.len(),
{
    if events.len() == 1 {
        assert(events.drop_last() == Seq::<Event>::empty());
        assert(events.last() == events[0]);
    } else {
        let shorter = events.drop_last();
        assert(shorter[0] == events[0]);
        lemma_quit_is_final(course, session, subject, shorter);
    }
}

/// After an `all` that was read, whatever events follow, the machine puts
/// no further question about the entry or the directory above it, and the
/// session keeps the approval.
pub proof fn lemma_all_is_final(
    course: Course,
    session: SessionView,
    subject: Subject,
    events: Seq<Event>,
)
    requires
        course.stage == Stage::Asking(subject),
        answer_counts(course.auto_for(subject), session),
        events.len() > 0,
        events[0] == Event::Answer(Reply::All),
    ensures
        after(course, session, events).1.delete_all,
        !(last_turn(course, session, events).request is Ask),
        after(course, session, events).0 !is Asking,
    decreases events.len(),
{
    if events.len() == 1 {
        assert(events.drop_last() == Seq::<Event>::empty());
        assert(events.last() == events[0]);
    } else {
        let shorter = events.drop_last();
        assert(shorter[0] == events[0]);
        lemma_all_is_final(course, session, subject, shorter);
    }
}

} // verus!
