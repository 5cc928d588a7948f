use link_o_matic::delete::{
    decide_delete, delete_prompt, removal_for, CleanupProbe, Confirmation, DeleteOptions, Reason,
    Removal,
};
use link_o_matic::fs::{DotEntry, FileId, FileKind};
use link_o_matic::install::{decide_link, note_for, LinkDecision, LinkProbe, LinkState};
use link_o_matic::messages::Reply;
use link_o_matic::{command_named, get_delete_all, run, CleanupMode, Command, Session, This};

fn session() -> Session {
    Session::new(
        "/home/u".to_string(),
        "/home/u/dotfiles".to_string(),
        This::new("mac".to_string(), "studio".to_string()),
    )
}

fn entry(link: &str, target: &str) -> DotEntry {
    DotEntry { link: link.to_string(), target: target.to_string() }
}

const TARGET: FileId = FileId { dev: 7, ino: 100 };
const OTHER: FileId = FileId { dev: 7, ino: 200 };

fn state(kind: FileKind, resolved: Option<FileId>, points_to: Option<&str>) -> Option<LinkState> {
    Some(LinkState { kind, resolved, points_to: points_to.map(|p| p.to_string()) })
}

fn this() -> This {
    This::new("mac".to_string(), "studio".to_string())
}

#[test]
fn a_foreign_target_is_ignored_whatever_is_found() {
    let e = entry("/home/u/.config/_linux/app.conf", "/home/u/dotfiles/config/_linux/app.conf");
    let missing = LinkProbe { target: Ok(TARGET), link: None };
    assert_eq!(decide_link(&e, &missing, &this()), LinkDecision::Ignore);
    let linked = LinkProbe { target: Ok(TARGET), link: state(FileKind::Symlink, Some(TARGET), None) };
    assert_eq!(decide_link(&e, &linked, &this()), LinkDecision::Ignore);
    let broken = LinkProbe { target: Err("gone".to_string()), link: None };
    assert_eq!(decide_link(&e, &broken, &this()), LinkDecision::Ignore);
}

#[test]
fn the_own_platform_is_installed() {
    let e = entry("/home/u/.config/_platform/app.conf", "/home/u/dotfiles/config/_mac/app.conf");
    let probe = LinkProbe { target: Ok(TARGET), link: None };
    assert_eq!(decide_link(&e, &probe, &this()), LinkDecision::Create);
}

#[test]
fn an_unreadable_target_is_skipped() {
    let e = entry("/home/u/.bashrc", "/home/u/dotfiles/home/bashrc");
    let probe = LinkProbe { target: Err("No such file".to_string()), link: None };
    assert_eq!(decide_link(&e, &probe, &this()), LinkDecision::Skip);
    let occupied = LinkProbe {
        target: Err("No such file".to_string()),
        link: state(FileKind::File, Some(OTHER), None),
    };
    assert_eq!(decide_link(&e, &occupied, &this()), LinkDecision::Skip);
}

#[test]
fn an_empty_place_gets_a_link() {
    let e = entry("/home/u/.bashrc", "/home/u/dotfiles/home/bashrc");
    let probe = LinkProbe { target: Ok(TARGET), link: None };
    assert_eq!(decide_link(&e, &probe, &this()), LinkDecision::Create);
}

#[test]
fn a_link_in_place_is_left() {
    let e = entry("/home/u/.bashrc", "/home/u/dotfiles/home/bashrc");
    let probe = LinkProbe {
        target: Ok(TARGET),
        link: state(FileKind::Symlink, Some(TARGET), Some("/home/u/dotfiles/home/bashrc")),
    };
    assert_eq!(decide_link(&e, &probe, &this()), LinkDecision::NoOp);
    let hard = LinkProbe { target: Ok(TARGET), link: state(FileKind::File, Some(TARGET), None) };
    assert_eq!(decide_link(&e, &hard, &this()), LinkDecision::NoOp);
}

#[test]
fn a_live_conflict_is_asked_about() {
    let e = entry("/home/u/.bashrc", "/home/u/dotfiles/home/bashrc");
    let file = LinkProbe { target: Ok(TARGET), link: state(FileKind::File, Some(OTHER), None) };
    assert_eq!(decide_link(&e, &file, &this()), LinkDecision::ReplaceWithPrompt);
    let elsewhere = LinkProbe {
        target: Ok(TARGET),
        link: state(FileKind::Symlink, Some(OTHER), Some("/opt/x")),
    };
    assert_eq!(decide_link(&e, &elsewhere, &this()), LinkDecision::ReplaceWithPrompt);
    let same_number_other_device = LinkProbe {
        target: Ok(TARGET),
        link: state(FileKind::File, Some(FileId { dev: 8, ino: 100 }), None),
    };
    assert_eq!(decide_link(&e, &same_number_other_device, &this()), LinkDecision::ReplaceWithPrompt);
}

#[test]
fn a_dead_link_is_replaced_unasked() {
    let e = entry("/home/u/.bashrc", "/home/u/dotfiles/home/bashrc");
    let dead = LinkProbe { target: Ok(TARGET), link: state(FileKind::Symlink, None, Some("/gone")) };
    assert_eq!(decide_link(&e, &dead, &this()), LinkDecision::ReplaceAutomatically);
}

#[test]
fn notes_on_what_is_in_the_way() {
    let live = LinkProbe {
        target: Ok(TARGET),
        link: state(FileKind::Symlink, Some(OTHER), Some("/opt/x")),
    };
    assert_eq!(
        note_for(LinkDecision::ReplaceWithPrompt, &live),
        Some("Link already exists and points elsewhere: /opt/x ".to_string())
    );
    let dead = LinkProbe { target: Ok(TARGET), link: state(FileKind::Symlink, None, Some("/gone")) };
    assert_eq!(
        note_for(LinkDecision::ReplaceAutomatically, &dead),
        Some("Link already exists and points elsewhere: /gone (dead: auto-replacing)".to_string())
    );
    let file = LinkProbe { target: Ok(TARGET), link: state(FileKind::File, Some(OTHER), None) };
    assert_eq!(
        note_for(LinkDecision::ReplaceWithPrompt, &file),
        Some("File exists and is not a link, a .bak will be made".to_string())
    );
    let unread = LinkProbe { target: Ok(TARGET), link: state(FileKind::Symlink, Some(OTHER), None) };
    assert_eq!(
        note_for(LinkDecision::ReplaceWithPrompt, &unread),
        Some("File exists and is not a link, a .bak will be made".to_string())
    );
}

#[test]
fn notes_on_a_broken_target_and_on_nothing() {
    let broken = LinkProbe { target: Err("No such file".to_string()), link: None };
    assert_eq!(note_for(LinkDecision::Skip, &broken), Some("Broken link: No such file".to_string()));
    assert_eq!(note_for(LinkDecision::Create, &broken), None);
    assert_eq!(note_for(LinkDecision::NoOp, &broken), None);
    assert_eq!(note_for(LinkDecision::Ignore, &broken), None);
    assert_eq!(note_for(LinkDecision::ReplaceWithPrompt, &broken), None);
}

fn options(implode: bool) -> DeleteOptions<'static> {
    DeleteOptions { implode, without_prompting: false, verb_template: "delet%" }
}

const SOUND: CleanupProbe =
    CleanupProbe { target_exists: true, source_exists: true, kind: Some(FileKind::Symlink) };

#[test]
fn a_sound_link_stays() {
    let e = entry("/home/u/.bashrc", "/home/u/dotfiles/home/bashrc");
    assert_eq!(decide_delete(&e, &options(false), &SOUND, &session()), None);
    let marked = entry("/home/u/.config/_platform/x", "/home/u/dotfiles/config/_mac/x");
    assert_eq!(decide_delete(&marked, &options(false), &SOUND, &session()), None);
}

#[test]
fn implode_removes_everything() {
    let e = entry("/home/u/.bashrc", "/home/u/dotfiles/home/bashrc");
    assert_eq!(decide_delete(&e, &options(true), &SOUND, &session()), Some(Reason::Implode));
}

#[test]
fn a_foreign_target_has_to_go() {
    let e = entry("/home/u/.config/app.conf", "/home/u/dotfiles/config/_linux/app.conf");
    assert_eq!(decide_delete(&e, &options(false), &SOUND, &session()), Some(Reason::InvalidToTarget));
}

#[test]
fn a_bad_underscore_has_to_go() {
    let e = entry("/home/u/.config/_linux.conf", "/home/u/dotfiles/config/shared.conf");
    assert_eq!(decide_delete(&e, &options(false), &SOUND, &session()), Some(Reason::BadUnderscore));
}

#[test]
fn a_vanished_target_has_to_go() {
    let e = entry("/home/u/.bashrc", "/home/u/dotfiles/home/bashrc");
    let probe = CleanupProbe { target_exists: false, ..SOUND };
    assert_eq!(decide_delete(&e, &options(false), &probe, &session()), Some(Reason::TargetMissing));
}

#[test]
fn an_orphan_has_to_go() {
    let e = entry("/home/u/.bashrc", "/home/u/dotfiles/shared/bashrc");
    let probe = CleanupProbe { source_exists: false, ..SOUND };
    assert_eq!(decide_delete(&e, &options(false), &probe, &session()), Some(Reason::Orphan));
}

#[test]
fn the_first_reason_is_reported() {
    let e = entry("/home/u/.config/_linux.conf", "/home/u/dotfiles/config/_linux.conf");
    let probe = CleanupProbe { target_exists: false, source_exists: false, kind: None };
    assert_eq!(decide_delete(&e, &options(true), &probe, &session()), Some(Reason::Implode));
    assert_eq!(decide_delete(&e, &options(false), &probe, &session()), Some(Reason::InvalidToTarget));
    let bad = entry("/home/u/.config/_linux.conf", "/home/u/dotfiles/config/x");
    assert_eq!(decide_delete(&bad, &options(false), &probe, &session()), Some(Reason::BadUnderscore));
    let plain = entry("/home/u/.config/x", "/home/u/dotfiles/config/x");
    assert_eq!(decide_delete(&plain, &options(false), &probe, &session()), Some(Reason::TargetMissing));
}

#[test]
fn removal_goes_by_kind() {
    assert_eq!(removal_for(Some(FileKind::Symlink)), Some(Removal::Unlink));
    assert_eq!(removal_for(Some(FileKind::Directory)), Some(Removal::RemoveDir));
    assert_eq!(removal_for(Some(FileKind::File)), Some(Removal::Backup));
    assert_eq!(removal_for(Some(FileKind::Other)), None);
    assert_eq!(removal_for(None), None);
}

#[test]
fn a_question_is_put_when_nothing_approves() {
    let mut s = session();
    assert_eq!(delete_prompt(&options(false), &mut s, None), Confirmation::Ask);
    assert!(!get_delete_all(&s));
    assert!(!s.is_halted());
}

#[test]
fn answers_settle_a_question() {
    let mut s = session();
    assert_eq!(delete_prompt(&options(false), &mut s, Some(Reply::Yes)), Confirmation::Approved);
    assert!(!get_delete_all(&s));
    assert_eq!(delete_prompt(&options(false), &mut s, Some(Reply::No)), Confirmation::Denied);
    assert_eq!(delete_prompt(&options(false), &mut s, Some(Reply::Help)), Confirmation::Explain);
    assert!(!get_delete_all(&s));
    assert!(!s.is_halted());
}

#[test]
fn all_is_remembered() {
    let mut s = session();
    assert_eq!(delete_prompt(&options(false), &mut s, Some(Reply::All)), Confirmation::Approved);
    assert!(get_delete_all(&s));
    assert_eq!(delete_prompt(&options(false), &mut s, None), Confirmation::Approved);
    assert_eq!(delete_prompt(&options(false), &mut s, Some(Reply::No)), Confirmation::Approved);
    assert_eq!(delete_prompt(&options(false), &mut s, Some(Reply::Quit)), Confirmation::Approved);
    assert!(get_delete_all(&s));
    assert!(!s.is_halted());
}

#[test]
fn options_can_approve_without_asking() {
    let mut s = session();
    let auto = DeleteOptions { implode: true, without_prompting: true, verb_template: "autoreplac%" };
    assert_eq!(delete_prompt(&auto, &mut s, None), Confirmation::Approved);
    assert_eq!(delete_prompt(&auto, &mut s, Some(Reply::All)), Confirmation::Approved);
    assert!(!get_delete_all(&s));
    assert_eq!(delete_prompt(&options(false), &mut s, None), Confirmation::Ask);
}

#[test]
fn quit_ends_the_run() {
    let mut s = session();
    assert_eq!(delete_prompt(&options(false), &mut s, Some(Reply::Quit)), Confirmation::Quit);
    assert!(s.is_halted());
    assert_eq!(delete_prompt(&options(false), &mut s, Some(Reply::Yes)), Confirmation::Quit);
    assert_eq!(delete_prompt(&options(false), &mut s, None), Confirmation::Quit);
    assert!(!get_delete_all(&s));
}

#[test]
fn cleanup_is_planned_in_two_sweeps() {
    let mut s = session();
    let plan = link_o_matic::delete::run(false, false, &mut s);
    assert!(!get_delete_all(&s));
    assert_eq!(plan.home.dir, "/home/u");
    assert!(!plan.home.recurse);
    assert!(plan.home.dotted_only);
    assert!(!plan.home.options.implode);
    assert!(!plan.home.options.without_prompting);
    assert_eq!(plan.home.options.verb_template, "delet%");
    assert!(plan.home.dir_options.is_none());
    assert_eq!(plan.config.dir, "/home/u/.config");
    assert!(plan.config.recurse);
    assert!(!plan.config.dotted_only);
    assert_eq!(plan.config.options.verb_template, "delet%");
    let dirs = plan.config.dir_options.unwrap();
    assert!(!dirs.implode);
    assert!(!dirs.without_prompting);
    assert_eq!(dirs.verb_template, "remov% empty directory");
}

#[test]
fn cleanup_without_prompting_approves_everything() {
    let mut s = session();
    let plan = link_o_matic::delete::run(false, true, &mut s);
    assert!(get_delete_all(&s));
    assert!(plan.home.options.without_prompting);
    assert!(plan.config.options.without_prompting);
    assert!(plan.config.dir_options.unwrap().without_prompting);
    assert!(!plan.home.options.implode);
}

#[test]
fn implode_is_planned_for_links_only() {
    let mut s = session();
    let plan = link_o_matic::delete::run(true, false, &mut s);
    assert!(!get_delete_all(&s));
    assert!(plan.home.options.implode);
    assert!(plan.config.options.implode);
    assert!(!plan.config.dir_options.unwrap().implode);
}

#[test]
fn installation_is_planned_in_two_sweeps() {
    let plan = link_o_matic::install::run();
    assert_eq!(plan.home.dir, "home");
    assert!(!plan.home.recurse);
    assert_eq!(plan.home.strip, Some("home".to_string()));
    assert_eq!(plan.config.dir, "config");
    assert!(plan.config.recurse);
    assert_eq!(plan.config.strip, None);
    assert!(plan.replace_options.implode);
    assert!(!plan.replace_options.without_prompting);
    assert_eq!(plan.replace_options.verb_template, "replac%");
    assert!(plan.auto_replace_options.implode);
    assert!(plan.auto_replace_options.without_prompting);
    assert_eq!(plan.auto_replace_options.verb_template, "autoreplac%");
}

fn args(words: &[&str]) -> Vec<String> {
    words.iter().map(|w| w.to_string()).collect()
}

#[test]
fn commands_are_named() {
    assert_eq!(command_named("install"), Some(Command::Install));
    assert_eq!(command_named("cleanup"), Some(Command::Cleanup));
    assert_eq!(command_named("sync"), Some(Command::Sync));
    assert_eq!(command_named("autocleanup"), Some(Command::AutoCleanup));
    assert_eq!(command_named("implode"), Some(Command::Implode));
    assert_eq!(command_named("Install"), None);
    assert_eq!(command_named("installs"), None);
    assert_eq!(command_named("instal"), None);
    assert_eq!(command_named(""), None);
}

#[test]
fn the_command_is_the_second_argument() {
    assert_eq!(run(&args(&["lom", "install"])), Some(Command::Install));
    assert_eq!(run(&args(&["lom", "sync", "extra"])), Some(Command::Sync));
    assert_eq!(run(&args(&["install", "implode"])), Some(Command::Implode));
}

#[test]
fn the_command_is_read_in_lower_case() {
    assert_eq!(run(&args(&["lom", "INSTALL"])), Some(Command::Install));
    assert_eq!(run(&args(&["lom", "AutoCleanup"])), Some(Command::AutoCleanup));
}

#[test]
fn no_command_means_usage() {
    assert_eq!(run(&args(&["lom"])), None);
    assert_eq!(run(&args(&[])), None);
    assert_eq!(run(&args(&["lom", "remove"])), None);
    assert_eq!(run(&args(&["lom", ""])), None);
}

#[test]
fn what_the_commands_do() {
    let ask = Some(CleanupMode { implode: false, without_prompting: false });
    assert!(Command::Install.installs());
    assert_eq!(Command::Install.cleans(), None);
    assert!(!Command::Cleanup.installs());
    assert_eq!(Command::Cleanup.cleans(), ask);
    assert!(Command::Sync.installs());
    assert_eq!(Command::Sync.cleans(), ask);
    assert!(!Command::AutoCleanup.installs());
    assert_eq!(
        Command::AutoCleanup.cleans(),
        Some(CleanupMode { implode: false, without_prompting: true })
    );
    assert!(!Command::Implode.installs());
    assert_eq!(
        Command::Implode.cleans(),
        Some(CleanupMode { implode: true, without_prompting: false })
    );
}
