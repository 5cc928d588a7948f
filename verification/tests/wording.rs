use link_o_matic::delete::DeleteOptions;
use link_o_matic::messages::{
    conjugate_with, delete_prompt_help, display_delete_prompt, join_line, read_reply,
    line_of, relative_dot_file, reply_for, unreadable, LogLevel, Message, MessageBuilder,
    Messenger, Reply, TemplateError,
};
use link_o_matic::text::{chars_of, string_of};
use link_o_matic::{Session, This};

fn session() -> Session {
    Session::new(
        "/home/u".to_string(),
        "/home/u/dotfiles".to_string(),
        This::new("mac".to_string(), "studio".to_string()),
    )
}

#[test]
fn conjugation_fills_the_placeholder() {
    assert_eq!(conjugate_with("delet%", "e"), Ok("delete".to_string()));
    assert_eq!(conjugate_with("delet%", "ing"), Ok("deleting".to_string()));
    assert_eq!(
        conjugate_with("remov% empty directory", "ing"),
        Ok("removing empty directory".to_string())
    );
    assert_eq!(conjugate_with("%", "x"), Ok("x".to_string()));
    assert_eq!(conjugate_with("a%b", ""), Ok("ab".to_string()));
}

#[test]
fn conjugation_fails_without_a_placeholder() {
    assert_eq!(conjugate_with("delete", "e"), Err(TemplateError));
    assert_eq!(conjugate_with("", "e"), Err(TemplateError));
    assert_eq!(TemplateError.message(), "template must contain a %");
}

#[test]
fn conjugation_stops_at_a_second_placeholder() {
    assert_eq!(conjugate_with("a%b%c", "X"), Ok("aXb".to_string()));
    assert_eq!(conjugate_with("%%", "X"), Ok("X".to_string()));
}

#[test]
fn lines_are_joined_with_a_bar() {
    assert_eq!(join_line([Some("a".to_string()), Some("b".to_string())]), "a | b");
    assert_eq!(join_line([Some("a".to_string()), None]), "a");
    assert_eq!(join_line([None, Some("b".to_string())]), "b");
    assert_eq!(join_line([None, None]), "");
}

#[test]
fn paths_are_shown_relative_to_home() {
    let s = session();
    assert_eq!(relative_dot_file("/home/u/.config/app.conf", &s), ".config/app.conf");
    assert_eq!(relative_dot_file("/home/u/.bashrc", &s), ".bashrc");
    assert_eq!(relative_dot_file("/home/u", &s), "");
    assert_eq!(relative_dot_file("/etc/passwd", &s), "/etc/passwd");
    assert_eq!(relative_dot_file("/home/user/.bashrc", &s), "/home/user/.bashrc");
}

#[test]
fn the_prompt_has_its_form() {
    let s = session();
    let options = DeleteOptions { implode: false, without_prompting: false, verb_template: "delet%" };
    assert_eq!(
        display_delete_prompt("/home/u/.bashrc", &options, &s),
        Ok("delete .bashrc ? [y, n, a, q] ".to_string())
    );
    let dirs = DeleteOptions {
        implode: false,
        without_prompting: false,
        verb_template: "remov% empty directory",
    };
    assert_eq!(
        display_delete_prompt("/home/u/.config/app", &dirs, &s),
        Ok("remove empty directory .config/app ? [y, n, a, q] ".to_string())
    );
}

#[test]
fn the_prompt_fails_without_a_placeholder() {
    let s = session();
    let options = DeleteOptions { implode: false, without_prompting: false, verb_template: "delete" };
    assert_eq!(display_delete_prompt("/home/u/.bashrc", &options, &s), Err(TemplateError));
    assert_eq!(display_delete_prompt("/home/u/.bashrc", &DeleteOptions::default(), &s), Err(TemplateError));
}

#[test]
fn default_options_ask_and_spare() {
    let options = DeleteOptions::default();
    assert!(!options.implode);
    assert!(!options.without_prompting);
    assert_eq!(options.verb_template, "");
}

#[test]
fn the_help_line_is_yellow() {
    assert_eq!(delete_prompt_help(), "\u{1b}[33my - yes , n - no, a - all, q - quit\u{1b}[39m");
}

fn message(level: LogLevel, verb: &str, text: &str) -> Message {
    Message { level, verb: verb.to_string(), text: text.to_string() }
}

#[test]
fn a_log_line_is_painted_by_weight() {
    let messenger = Messenger::init();
    assert_eq!(
        messenger.log_message(&message(LogLevel::Success, "deleting", ".bashrc")),
        "\u{1b}[1m\u{1b}[34m deleting\u{1b}[0m\u{1b}[0m .bashrc\n"
    );
    assert_eq!(
        messenger.log_message(&message(LogLevel::Warning, "skipping", ".config | why")),
        "\u{1b}[1m\u{1b}[32m skipping\u{1b}[0m\u{1b}[0m .config | why\n"
    );
    assert_eq!(
        messenger.log_message(&message(LogLevel::Error, "error", "x")),
        "\u{1b}[1m\u{1b}[31m    error\u{1b}[0m\u{1b}[0m x\n"
    );
    assert_eq!(
        messenger.log_message(&message(LogLevel::Normal, "", ".bashrc")),
        "\u{1b}[1m\u{1b}[37m         \u{1b}[0m\u{1b}[0m .bashrc\n"
    );
}

#[test]
fn a_long_verb_is_not_cut() {
    let messenger = Messenger::init();
    assert_eq!(
        messenger.log_message(&message(LogLevel::Success, "autoreplacing", ".x")),
        "\u{1b}[1m\u{1b}[34mautoreplacing\u{1b}[0m\u{1b}[0m .x\n"
    );
}

#[test]
fn a_line_is_head_blank_rest_and_newline() {
    assert_eq!(line_of("head", "rest"), "head rest\n");
    assert_eq!(line_of("", ""), " \n");
}

#[test]
fn the_messenger_starts_a_plain_message() {
    let message = Messenger::new().with_verb("quitting").log(Some("per user".to_string()));
    assert_eq!(message.level, LogLevel::Normal);
    assert_eq!(message.verb, "quitting");
    assert_eq!(message.text, "per user");
}

#[test]
fn replies_by_first_character() {
    assert_eq!(reply_for(Some('y')), Reply::Yes);
    assert_eq!(reply_for(Some('a')), Reply::All);
    assert_eq!(reply_for(Some('q')), Reply::Quit);
    assert_eq!(reply_for(Some('?')), Reply::Help);
    assert_eq!(reply_for(Some('n')), Reply::No);
    assert_eq!(reply_for(Some('Y')), Reply::No);
    assert_eq!(reply_for(Some('x')), Reply::No);
    assert_eq!(reply_for(None), Reply::No);
}

#[test]
fn replies_are_read_from_a_line() {
    assert_eq!(read_reply("y\n"), Reply::Yes);
    assert_eq!(read_reply("yes\n"), Reply::Yes);
    assert_eq!(read_reply("a\n"), Reply::All);
    assert_eq!(read_reply("q\n"), Reply::Quit);
    assert_eq!(read_reply("?\n"), Reply::Help);
    assert_eq!(read_reply("n\n"), Reply::No);
    assert_eq!(read_reply("no way\n"), Reply::No);
}

#[test]
fn empty_input_means_no() {
    assert_eq!(read_reply(""), Reply::No);
    assert_eq!(read_reply("\n"), Reply::No);
    assert_eq!(read_reply("   \t\r\n"), Reply::No);
}

#[test]
fn white_space_before_the_answer_is_passed_over() {
    assert_eq!(read_reply("  y\n"), Reply::Yes);
    assert_eq!(read_reply("\t a"), Reply::All);
    assert_eq!(read_reply("\u{a0}q"), Reply::Quit);
    assert_eq!(read_reply(" x y"), Reply::No);
}

#[test]
fn a_message_is_built_in_steps() {
    let s = session();
    let message = MessageBuilder::new()
        .with_verb("delet%")
        .conjugate_with("ing")
        .unwrap()
        .with_path("/home/u/.bashrc", &s)
        .success(None);
    assert_eq!(message.level, LogLevel::Success);
    assert_eq!(message.verb, "deleting");
    assert_eq!(message.text, ".bashrc");
}

#[test]
fn a_message_carries_what_is_added() {
    let s = session();
    let message = MessageBuilder::new()
        .with_verb("skipping")
        .with_path("/home/u/.config", &s)
        .warning(Some("couldn't read: denied".to_string()));
    assert_eq!(message.level, LogLevel::Warning);
    assert_eq!(message.verb, "skipping");
    assert_eq!(message.text, ".config | couldn't read: denied");
}

#[test]
fn a_plain_message_keeps_its_weight() {
    let s = session();
    let message = MessageBuilder::new().with_path("/home/u/.bashrc", &s).log(None);
    assert_eq!(message.level, LogLevel::Normal);
    assert_eq!(message.verb, "");
    assert_eq!(message.text, ".bashrc");
}

#[test]
fn an_error_without_a_verb_is_called_error() {
    let message = MessageBuilder::new().error(Some("template must contain a %".to_string()));
    assert_eq!(message.level, LogLevel::Error);
    assert_eq!(message.verb, "error");
    assert_eq!(message.text, "template must contain a %");
    let named = MessageBuilder::new().with_verb("Error").error(Some("reading".to_string()));
    assert_eq!(named.verb, "Error");
    assert_eq!(named.text, "reading");
}

#[test]
fn a_verb_without_placeholder_cannot_be_conjugated() {
    assert!(MessageBuilder::new().with_verb("delete").conjugate_with("ing").is_err());
}

#[test]
fn text_goes_to_characters_and_back() {
    assert_eq!(chars_of("a/é"), vec!['a', '/', 'é']);
    assert_eq!(string_of(&vec!['.', 'b', 'a', 'k']), ".bak");
    assert_eq!(string_of(&chars_of("/home/ü/.config")), "/home/ü/.config");
    assert_eq!(string_of(&Vec::new()), "");
}

#[test]
fn an_unreadable_directory_is_passed_over() {
    let s = session();
    let message = unreadable("/home/u/.config/private", "Permission denied", &s);
    assert_eq!(message.level, LogLevel::Warning);
    assert_eq!(message.verb, "skipping");
    assert_eq!(message.text, ".config/private | couldn't read: Permission denied");
}
