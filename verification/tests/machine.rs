use link_o_matic::delete::{CleanupProbe, DeleteOptions, Removal};
use link_o_matic::fs::{DirState, DotEntry, FileId, FileKind};
use link_o_matic::install::{LinkProbe, LinkState};
use link_o_matic::messages::{LogLevel, Reply, TemplateError};
use link_o_matic::task::{Event, Notice, Operation, Request, Stage, Subject, Task};
use link_o_matic::{get_delete_all, Session, This};

fn session() -> Session {
    Session::new(
        "/home/u".to_string(),
        "/home/u/dotfiles".to_string(),
        This::new("mac".to_string(), "studio".to_string()),
    )
}

fn entry(link: &str, target: &str) -> DotEntry {
    DotEntry { link: link.to_string(), target: target.to_string() }
}

const TARGET: FileId = FileId { dev: 7, ino: 100 };
const OTHER: FileId = FileId { dev: 7, ino: 200 };

const REPLACE: DeleteOptions<'static> =
    DeleteOptions { implode: true, without_prompting: false, verb_template: "replac%" };
const AUTO_REPLACE: DeleteOptions<'static> =
    DeleteOptions { implode: true, without_prompting: true, verb_template: "autoreplac%" };
const DELETE: DeleteOptions<'static> =
    DeleteOptions { implode: false, without_prompting: false, verb_template: "delet%" };
const DIRS: DeleteOptions<'static> =
    DeleteOptions { implode: false, without_prompting: false, verb_template: "remov% empty directory" };

fn probe(kind: Option<FileKind>, resolved: Option<FileId>, points_to: Option<&str>) -> LinkProbe {
    LinkProbe {
        target: Ok(TARGET),
        link: kind.map(|kind| LinkState { kind, resolved, points_to: points_to.map(|p| p.to_string()) }),
    }
}

fn install<'a>(e: DotEntry, p: &LinkProbe, s: &mut Session) -> (Task<'a>, link_o_matic::task::Step) {
    Task::install(e, p, REPLACE, AUTO_REPLACE, s)
}

const STALE: CleanupProbe =
    CleanupProbe { target_exists: false, source_exists: true, kind: Some(FileKind::Symlink) };

fn bashrc() -> DotEntry {
    entry("/home/u/.bashrc", "/home/u/dotfiles/home/bashrc")
}

fn nested() -> DotEntry {
    entry("/home/u/.config/app/rc", "/home/u/dotfiles/config/app/rc")
}

#[test]
fn installing_into_an_empty_place() {
    let mut s = session();
    let (mut task, step) = install(bashrc(), &probe(None, None, None), &mut s);
    assert_eq!(step.notices, vec![Notice::Linking]);
    assert_eq!(step.request, Request::Link);
    assert_eq!(task.stage(), Stage::Linking);
    assert_eq!(
        task.operation(step.request, &s),
        Ok(Operation::Symlink {
            parent: Some("/home/u".to_string()),
            target: "/home/u/dotfiles/home/bashrc".to_string(),
            link: "/home/u/.bashrc".to_string(),
        })
    );
    let done = task.step(&mut s, Event::Completed(true));
    assert!(done.notices.is_empty());
    assert_eq!(done.request, Request::Done);
    assert_eq!(task.stage(), Stage::Finished);
}

#[test]
fn a_second_installation_changes_nothing() {
    let mut s = session();
    let linked = probe(Some(FileKind::Symlink), Some(TARGET), Some("/home/u/dotfiles/home/bashrc"));
    let (task, step) = install(bashrc(), &linked, &mut s);
    assert_eq!(step.notices, vec![Notice::AlreadyLinked]);
    assert_eq!(step.request, Request::Done);
    assert_eq!(task.stage(), Stage::Finished);
    assert_eq!(task.operation(step.request, &s), Ok(Operation::Nothing));
    assert!(!get_delete_all(&s));
}

#[test]
fn a_foreign_target_is_announced_and_left() {
    let mut s = session();
    let e = entry("/home/u/.config/_linux/app.conf", "/home/u/dotfiles/config/_linux/app.conf");
    let (task, step) = install(e, &probe(None, None, None), &mut s);
    assert_eq!(step.notices, vec![Notice::Ignoring]);
    assert_eq!(step.request, Request::Done);
    let said = task.announce(Notice::Ignoring, &s).unwrap();
    assert_eq!(said.level, LogLevel::Normal);
    assert_eq!(said.verb, "ignoring");
    assert_eq!(said.text, ".config/_linux/app.conf");
}

#[test]
fn a_broken_target_is_announced_and_left() {
    let mut s = session();
    let broken = LinkProbe { target: Err("No such file".to_string()), link: None };
    let (task, step) = install(bashrc(), &broken, &mut s);
    assert_eq!(step.notices, vec![Notice::BrokenLink]);
    assert_eq!(step.request, Request::Done);
    let said = task.announce(Notice::BrokenLink, &s).unwrap();
    assert_eq!(said.level, LogLevel::Warning);
    assert_eq!(said.verb, "skipping");
    assert_eq!(said.text, ".bashrc | Broken link: No such file");
}

#[test]
fn a_file_in_the_way_is_backed_up_never_removed() {
    let mut s = session();
    let (mut task, step) = install(bashrc(), &probe(Some(FileKind::File), Some(OTHER), None), &mut s);
    assert_eq!(step.notices, vec![Notice::Found]);
    assert_eq!(step.request, Request::Ask(Subject::Link));
    assert_eq!(
        task.operation(step.request, &s),
        Ok(Operation::Ask { prompt: "replace .bashrc ? [y, n, a, q] ".to_string() })
    );
    let found = task.announce(Notice::Found, &s).unwrap();
    assert_eq!(found.text, ".bashrc | File exists and is not a link, a .bak will be made");

    let step = task.step(&mut s, Event::Answer(Reply::Yes));
    assert_eq!(step.notices, vec![Notice::Approved(Subject::Link)]);
    assert_eq!(step.request, Request::Remove(Subject::Link, Removal::Backup));
    assert_eq!(
        task.operation(step.request, &s),
        Ok(Operation::Rename {
            from: "/home/u/.bashrc".to_string(),
            to: "/home/u/.bashrc.bak".to_string(),
        })
    );
    let said = task.announce(Notice::Approved(Subject::Link), &s).unwrap();
    assert_eq!(said.level, LogLevel::Success);
    assert_eq!(said.verb, "replacing");
    assert_eq!(said.text, ".bashrc");

    let step = task.step(&mut s, Event::Completed(true));
    assert_eq!(step.request, Request::Link);
    let step = task.step(&mut s, Event::Completed(true));
    assert_eq!(step.request, Request::Done);
}

#[test]
fn a_declined_replacement_leaves_everything() {
    let mut s = session();
    let (mut task, _) = install(bashrc(), &probe(Some(FileKind::File), Some(OTHER), None), &mut s);
    let step = task.step(&mut s, Event::Answer(Reply::No));
    assert_eq!(step.notices, vec![Notice::Skipping(Subject::Link)]);
    assert_eq!(step.request, Request::Done);
    assert_eq!(task.stage(), Stage::Finished);
    let said = task.announce(Notice::Skipping(Subject::Link), &s).unwrap();
    assert_eq!(said.level, LogLevel::Warning);
    assert_eq!(said.verb, "skipping");
    assert_eq!(said.text, ".bashrc");
}

#[test]
fn a_dead_link_is_replaced_without_a_question() {
    let mut s = session();
    let dead = probe(Some(FileKind::Symlink), None, Some("/gone"));
    let (mut task, step) = install(bashrc(), &dead, &mut s);
    assert_eq!(step.notices, vec![Notice::Found, Notice::Approved(Subject::Link)]);
    assert_eq!(step.request, Request::Remove(Subject::Link, Removal::Unlink));
    assert_eq!(
        task.operation(step.request, &s),
        Ok(Operation::Unlink { path: "/home/u/.bashrc".to_string() })
    );
    assert_eq!(task.announce(Notice::Approved(Subject::Link), &s).unwrap().verb, "autoreplacing");
    assert_eq!(
        task.announce(Notice::Found, &s).unwrap().text,
        ".bashrc | Link already exists and points elsewhere: /gone (dead: auto-replacing)"
    );
    assert!(!get_delete_all(&s));
    let step = task.step(&mut s, Event::Completed(true));
    assert_eq!(step.request, Request::Link);
}

#[test]
fn a_directory_in_the_way_is_removed_only_by_rmdir() {
    let mut s = session();
    let (mut task, _) = install(bashrc(), &probe(Some(FileKind::Directory), Some(OTHER), None), &mut s);
    let step = task.step(&mut s, Event::Answer(Reply::Yes));
    assert_eq!(step.request, Request::Remove(Subject::Link, Removal::RemoveDir));
    assert_eq!(
        task.operation(step.request, &s),
        Ok(Operation::RemoveDir { path: "/home/u/.bashrc".to_string() })
    );
    let step = task.step(&mut s, Event::Completed(false));
    assert_eq!(step.notices, vec![Notice::Failed(Subject::Link)]);
    assert_eq!(step.request, Request::Done);
    let said = task.announce(Notice::Failed(Subject::Link), &s).unwrap();
    assert_eq!(said.level, LogLevel::Error);
    assert_eq!(said.verb, "error");
}

#[test]
fn an_unexpected_kind_is_refused() {
    let mut s = session();
    let (mut task, _) = install(bashrc(), &probe(Some(FileKind::Other), Some(OTHER), None), &mut s);
    let step = task.step(&mut s, Event::Answer(Reply::Yes));
    assert_eq!(step.notices, vec![Notice::Approved(Subject::Link), Notice::Unexpected]);
    assert_eq!(step.request, Request::Done);
    assert_eq!(task.stage(), Stage::Finished);
    assert_eq!(task.announce(Notice::Unexpected, &s).unwrap().level, LogLevel::Error);
}

#[test]
fn help_explains_and_asks_again() {
    let mut s = session();
    let (mut task, _) = install(bashrc(), &probe(Some(FileKind::File), Some(OTHER), None), &mut s);
    let step = task.step(&mut s, Event::Answer(Reply::Help));
    assert_eq!(step.notices, vec![Notice::Help]);
    assert_eq!(step.request, Request::Ask(Subject::Link));
    assert_eq!(task.stage(), Stage::Asking(Subject::Link));
    assert_eq!(
        task.announce(Notice::Help, &s).unwrap().text,
        "y - yes , n - no, a - all, q - quit"
    );
    let step = task.step(&mut s, Event::Answer(Reply::Help));
    assert_eq!(step.request, Request::Ask(Subject::Link));
    let step = task.step(&mut s, Event::Answer(Reply::Yes));
    assert_eq!(step.request, Request::Remove(Subject::Link, Removal::Backup));
}

#[test]
fn a_sound_link_is_left_by_cleanup() {
    let mut s = session();
    let sound = CleanupProbe { target_exists: true, source_exists: true, kind: Some(FileKind::Symlink) };
    let (task, step) = Task::cleanup(bashrc(), &sound, DELETE, None, &mut s);
    assert!(step.notices.is_empty());
    assert_eq!(step.request, Request::Done);
    assert_eq!(task.stage(), Stage::Finished);
    assert_eq!(task.entry().link, "/home/u/.bashrc");
}

#[test]
fn an_orphan_is_removed_without_prompting() {
    let mut s = session();
    let plan = link_o_matic::delete::run(false, true, &mut s);
    let orphan = CleanupProbe { target_exists: true, source_exists: false, kind: Some(FileKind::Symlink) };
    let (mut task, step) = Task::cleanup(bashrc(), &orphan, plan.home.options, plan.home.dir_options, &mut s);
    assert_eq!(step.notices, vec![Notice::Approved(Subject::Link)]);
    assert_eq!(step.request, Request::Remove(Subject::Link, Removal::Unlink));
    assert_eq!(task.announce(Notice::Approved(Subject::Link), &s).unwrap().verb, "deleting");
    let step = task.step(&mut s, Event::Completed(true));
    assert!(step.notices.is_empty());
    assert_eq!(step.request, Request::Done);
}

#[test]
fn all_approves_every_later_question() {
    let mut s = session();
    let (mut first, step) = Task::cleanup(bashrc(), &STALE, DELETE, None, &mut s);
    assert_eq!(step.request, Request::Ask(Subject::Link));
    let step = first.step(&mut s, Event::Answer(Reply::All));
    assert_eq!(step.request, Request::Remove(Subject::Link, Removal::Unlink));
    assert!(get_delete_all(&s));
    first.step(&mut s, Event::Completed(true));

    let (mut second, step) = Task::cleanup(nested(), &STALE, DELETE, Some(DIRS), &mut s);
    assert_eq!(step.notices, vec![Notice::Approved(Subject::Link)]);
    assert_eq!(step.request, Request::Remove(Subject::Link, Removal::Unlink));
    let step = second.step(&mut s, Event::Completed(true));
    assert_eq!(step.request, Request::Inspect);
    let step = second.step(&mut s, Event::Inspected(DirState::Holds(0)));
    assert_eq!(step.notices, vec![Notice::Approved(Subject::Parent)]);
    assert_eq!(step.request, Request::Remove(Subject::Parent, Removal::RemoveDir));

    let file = probe(Some(FileKind::File), Some(OTHER), None);
    let (_, step) = install(entry("/home/u/.profile", "/home/u/dotfiles/home/profile"), &file, &mut s);
    assert_eq!(step.notices, vec![Notice::Found, Notice::Approved(Subject::Link)]);
    assert_eq!(step.request, Request::Remove(Subject::Link, Removal::Backup));
}

#[test]
fn the_last_link_takes_its_directory_along() {
    let mut s = session();
    let (mut task, step) = Task::cleanup(nested(), &STALE, DELETE, Some(DIRS), &mut s);
    assert_eq!(step.request, Request::Ask(Subject::Link));
    assert_eq!(
        task.operation(step.request, &s),
        Ok(Operation::Ask { prompt: "delete .config/app/rc ? [y, n, a, q] ".to_string() })
    );
    let step = task.step(&mut s, Event::Answer(Reply::Yes));
    assert_eq!(step.request, Request::Remove(Subject::Link, Removal::Unlink));
    let step = task.step(&mut s, Event::Completed(true));
    assert_eq!(step.request, Request::Inspect);
    assert_eq!(
        task.operation(step.request, &s),
        Ok(Operation::Inspect { dir: "/home/u/.config/app".to_string() })
    );
    let step = task.step(&mut s, Event::Inspected(DirState::Holds(0)));
    assert!(step.notices.is_empty());
    assert_eq!(step.request, Request::Ask(Subject::Parent));
    assert_eq!(
        task.operation(step.request, &s),
        Ok(Operation::Ask { prompt: "remove empty directory .config/app ? [y, n, a, q] ".to_string() })
    );
    let step = task.step(&mut s, Event::Answer(Reply::Yes));
    assert_eq!(step.notices, vec![Notice::Approved(Subject::Parent)]);
    assert_eq!(step.request, Request::Remove(Subject::Parent, Removal::RemoveDir));
    assert_eq!(
        task.operation(step.request, &s),
        Ok(Operation::RemoveDir { path: "/home/u/.config/app".to_string() })
    );
    let said = task.announce(Notice::Approved(Subject::Parent), &s).unwrap();
    assert_eq!(said.verb, "removing empty directory");
    assert_eq!(said.text, ".config/app");
    let step = task.step(&mut s, Event::Completed(true));
    assert_eq!(step.request, Request::Done);
    assert_eq!(task.stage(), Stage::Finished);
}

#[test]
fn a_directory_that_holds_something_stays() {
    for state in [DirState::Holds(1), DirState::Holds(12), DirState::Unreadable, DirState::NotADirectory] {
        let mut s = session();
        let (mut task, _) = Task::cleanup(nested(), &STALE, DELETE, Some(DIRS), &mut s);
        task.step(&mut s, Event::Answer(Reply::Yes));
        let step = task.step(&mut s, Event::Completed(true));
        assert_eq!(step.request, Request::Inspect);
        let step = task.step(&mut s, Event::Inspected(state));
        assert!(step.notices.is_empty());
        assert_eq!(step.request, Request::Done);
        assert_eq!(task.stage(), Stage::Finished);
    }
}

#[test]
fn a_declined_directory_stays() {
    let mut s = session();
    let (mut task, _) = Task::cleanup(nested(), &STALE, DELETE, Some(DIRS), &mut s);
    task.step(&mut s, Event::Answer(Reply::Yes));
    task.step(&mut s, Event::Completed(true));
    task.step(&mut s, Event::Inspected(DirState::Holds(0)));
    let step = task.step(&mut s, Event::Answer(Reply::No));
    assert_eq!(step.notices, vec![Notice::Skipping(Subject::Parent)]);
    assert_eq!(step.request, Request::Done);
    assert_eq!(task.announce(Notice::Skipping(Subject::Parent), &s).unwrap().text, ".config/app");
}

#[test]
fn no_directory_is_looked_at_without_the_option() {
    let mut s = session();
    let (mut task, _) = Task::cleanup(nested(), &STALE, DELETE, None, &mut s);
    task.step(&mut s, Event::Answer(Reply::Yes));
    let step = task.step(&mut s, Event::Completed(true));
    assert_eq!(step.request, Request::Done);
}

#[test]
fn a_backup_does_not_take_the_directory_along() {
    let mut s = session();
    let file = CleanupProbe { target_exists: false, source_exists: true, kind: Some(FileKind::File) };
    let (mut task, _) = Task::cleanup(nested(), &file, DELETE, Some(DIRS), &mut s);
    let step = task.step(&mut s, Event::Answer(Reply::Yes));
    assert_eq!(step.request, Request::Remove(Subject::Link, Removal::Backup));
    assert_eq!(
        task.operation(step.request, &s),
        Ok(Operation::Rename {
            from: "/home/u/.config/app/rc".to_string(),
            to: "/home/u/.config/app/rc.bak".to_string(),
        })
    );
    let step = task.step(&mut s, Event::Completed(true));
    assert_eq!(step.request, Request::Done);
}

#[test]
fn a_failed_removal_ends_the_entry() {
    let mut s = session();
    let (mut task, _) = Task::cleanup(nested(), &STALE, DELETE, Some(DIRS), &mut s);
    task.step(&mut s, Event::Answer(Reply::Yes));
    let step = task.step(&mut s, Event::Completed(false));
    assert_eq!(step.notices, vec![Notice::Failed(Subject::Link)]);
    assert_eq!(step.request, Request::Done);
    assert_eq!(
        task.announce(Notice::Failed(Subject::Link), &s).unwrap().text,
        ".config/app/rc | could not be done"
    );
}

#[test]
fn quit_halts_everything() {
    let mut s = session();
    let (mut task, step) = Task::cleanup(bashrc(), &STALE, DELETE, None, &mut s);
    assert_eq!(step.request, Request::Ask(Subject::Link));
    let step = task.step(&mut s, Event::Answer(Reply::Quit));
    assert_eq!(step.notices, vec![Notice::Quitting]);
    assert_eq!(step.request, Request::Quit);
    assert_eq!(task.stage(), Stage::Finished);
    assert!(s.is_halted());
    let said = task.announce(Notice::Quitting, &s).unwrap();
    assert_eq!(said.verb, "quitting");
    assert_eq!(said.text, "per user");

    let step = task.step(&mut s, Event::Answer(Reply::Yes));
    assert!(step.notices.is_empty());
    assert_eq!(step.request, Request::Quit);

    let (_, step) = Task::cleanup(nested(), &STALE, DELETE, Some(DIRS), &mut s);
    assert!(step.notices.is_empty());
    assert_eq!(step.request, Request::Quit);
    let (_, step) = install(bashrc(), &probe(None, None, None), &mut s);
    assert!(step.notices.is_empty());
    assert_eq!(step.request, Request::Quit);
}

#[test]
fn an_event_out_of_turn_ends_the_entry() {
    let mut s = session();
    let (mut task, step) = Task::cleanup(bashrc(), &STALE, DELETE, None, &mut s);
    assert_eq!(step.request, Request::Ask(Subject::Link));
    let step = task.step(&mut s, Event::Completed(true));
    assert_eq!(step.request, Request::Done);
    assert_eq!(task.stage(), Stage::Finished);
    let step = task.step(&mut s, Event::Answer(Reply::Yes));
    assert_eq!(step.request, Request::Done);
}

#[test]
fn a_template_without_placeholder_fails_the_wording() {
    let mut s = session();
    let bad = DeleteOptions { implode: false, without_prompting: false, verb_template: "delete" };
    let (task, step) = Task::cleanup(bashrc(), &STALE, bad, None, &mut s);
    assert_eq!(step.request, Request::Ask(Subject::Link));
    assert_eq!(task.operation(step.request, &s), Err(TemplateError));
    assert_eq!(task.announce(Notice::Approved(Subject::Link), &s), Err(TemplateError));
}

#[test]
fn a_link_at_the_top_has_no_directory_to_remove() {
    let mut s = session();
    let (mut task, _) = Task::cleanup(entry("/", "/home/u/dotfiles/x"), &STALE, DELETE, Some(DIRS), &mut s);
    task.step(&mut s, Event::Answer(Reply::Yes));
    let step = task.step(&mut s, Event::Completed(true));
    assert_eq!(step.request, Request::Done);
    assert_eq!(task.operation(Request::Inspect, &s), Ok(Operation::Nothing));
    assert_eq!(task.operation(Request::Ask(Subject::Parent), &s), Ok(Operation::Nothing));
}

#[test]
fn a_file_is_only_ever_backed_up() {
    for reply in [Reply::Yes, Reply::All] {
        let mut s = session();
        let file = CleanupProbe { target_exists: false, source_exists: false, kind: Some(FileKind::File) };
        let (mut task, step) = Task::cleanup(bashrc(), &file, DELETE, Some(DIRS), &s);
        assert_eq!(step.request, Request::Ask(Subject::Link));
        let step = task.step(&mut s, Event::Answer(reply));
        assert_eq!(step.request, Request::Remove(Subject::Link, Removal::Backup));

        let mut s = session();
        let (mut task, _) = install(bashrc(), &probe(Some(FileKind::File), Some(OTHER), None), &mut s);
        let step = task.step(&mut s, Event::Answer(reply));
        assert_eq!(step.request, Request::Remove(Subject::Link, Removal::Backup));
    }
}

#[test]
fn once_all_is_approved_nothing_is_asked() {
    let mut s = session();
    s.approve_all();
    for kind in [FileKind::Symlink, FileKind::Directory, FileKind::File, FileKind::Other] {
        let stale = CleanupProbe { target_exists: false, source_exists: true, kind: Some(kind) };
        let (mut task, step) = Task::cleanup(nested(), &stale, DELETE, Some(DIRS), &s);
        assert!(!matches!(step.request, Request::Ask(_)));
        let mut request = step.request;
        for event in [Event::Completed(true), Event::Inspected(DirState::Holds(0)), Event::Completed(true)] {
            if matches!(request, Request::Done) {
                break;
            }
            request = task.step(&mut s, event).request;
            assert!(!matches!(request, Request::Ask(_)));
        }
        assert!(get_delete_all(&s));
    }
}

#[test]
fn quit_at_the_directory_question_halts_too() {
    let mut s = session();
    let (mut task, _) = Task::cleanup(nested(), &STALE, DELETE, Some(DIRS), &s);
    task.step(&mut s, Event::Answer(Reply::Yes));
    task.step(&mut s, Event::Completed(true));
    let step = task.step(&mut s, Event::Inspected(DirState::Holds(0)));
    assert_eq!(step.request, Request::Ask(Subject::Parent));
    let step = task.step(&mut s, Event::Answer(Reply::Quit));
    assert_eq!(step.request, Request::Quit);
    assert!(s.is_halted());
}

#[test]
fn all_at_the_directory_question_is_remembered() {
    let mut s = session();
    let (mut task, _) = Task::cleanup(nested(), &STALE, DELETE, Some(DIRS), &s);
    task.step(&mut s, Event::Answer(Reply::Yes));
    task.step(&mut s, Event::Completed(true));
    task.step(&mut s, Event::Inspected(DirState::Holds(0)));
    let step = task.step(&mut s, Event::Answer(Reply::All));
    assert_eq!(step.request, Request::Remove(Subject::Parent, Removal::RemoveDir));
    assert!(get_delete_all(&s));
    let (_, step) = Task::cleanup(bashrc(), &STALE, DELETE, None, &s);
    assert_eq!(step.request, Request::Remove(Subject::Link, Removal::Unlink));
}

#[test]
fn plain_announcements() {
    let mut s = session();
    let linked = probe(Some(FileKind::Symlink), Some(TARGET), None);
    let (task, _) = install(bashrc(), &linked, &mut s);
    let said = task.announce(Notice::AlreadyLinked, &s).unwrap();
    assert_eq!(said.level, LogLevel::Normal);
    assert_eq!(said.verb, "");
    assert_eq!(said.text, ".bashrc");
    let said = task.announce(Notice::Linking, &s).unwrap();
    assert_eq!(said.level, LogLevel::Success);
    assert_eq!(said.verb, "linking");
    assert_eq!(said.text, ".bashrc");
    let said = task.announce(Notice::Unexpected, &s).unwrap();
    assert_eq!(said.verb, "error");
    assert_eq!(said.text, ".bashrc | neither a link, a directory nor a file");
}
