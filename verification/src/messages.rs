//! What is said to the user: the parts of a log line and its colours, the
//! question put before a removal, and the reading of the answer.

use owo_colors::{OwoColorize, Style};
use vstd::prelude::*;
use crate::fs::{prefix_stripped, strip_prefix};
use crate::text::{
    append, chars_of, is_white_space, lemma_pieces_count, lemma_pieces_of_none,
    lemma_pieces_of_two, pieces, split, string_of, views, white_space,
};
use crate::delete::DeleteOptions;
use crate::{get_home, Session};

verus! {

/// How much a message matters.
#[derive(Clone, Copy, Debug, PartialEq, Eq, Structural)]
pub enum LogLevel {
    Normal,
    Warning,
    Error,
    Success,
}

/// A verb template without the `%` where its ending belongs.
#[derive(Clone, Copy, Debug, PartialEq, Eq, Structural)]
pub struct TemplateError;

impl TemplateError {
    /// What went wrong, in words.
    pub fn message(&self) -> (text: String)
        ensures
            text@ == "template must contain a %"@,
    {
        "template must contain a %".to_owned()
    }
}

/// A verb template with `ending` in the place of its first `%`: what stands
/// before the first `%`, the ending, and what stands between the first `%`
/// and the second, or the end. `None` for a template without a `%`.
pub open spec fn conjugated(template: Seq<char>, ending: Seq<char>) -> Option<Seq<char>> {
    let parts = pieces(template, '%');
    if parts.len() >= 2 {
        Some(parts[0] + ending + parts[1])
    } else {
        None
    }
}

/// Puts `ending` in the place of the `%` in `template`. Fails where the
/// template holds no `%`.
pub fn conjugate_with(template: &str, ending: &str) -> (verb: Result<String, TemplateError>)
    ensures
        verb is Err <==> !template@.contains('%'),
        match verb {
            Ok(verb) => conjugated(template@, ending@) == Some(verb@),
            Err(_) => conjugated(template@, ending@) is None,
        },
{
    let parts = split(&chars_of(template), '%');
    proof {
        lemma_pieces_count(template@, '%');
    }
    if parts.len() < 2 {
        return Err(TemplateError);
    }
    let verb = chars_of(ending);
    let mut out: Vec<char> = Vec::new();
    append(&mut out, &parts[0]);
    append(&mut out, &verb);
    append(&mut out, &parts[1]);
    Ok(string_of(&out))
}

/// A template with one `%` is conjugated by putting the ending where the
/// `%` stands.
pub proof fn lemma_conjugation_fills_placeholder(
    before: Seq<char>,
    after: Seq<char>,
    ending: Seq<char>,
)
    requires
        !before.contains('%'),
        !after.contains('%'),
    ensures
        conjugated(before.push('%') + after, ending) == Some(before + ending + after),
{
    lemma_pieces_of_two(before, after, '%');
    lemma_pieces_of_none(before, '%');
    lemma_pieces_of_none(after, '%');
}

/// The parts of a line that are there, with a bar between them.
pub open spec fn line_joined(first: Option<Seq<char>>, second: Option<Seq<char>>) -> Seq<char> {
    match (first, second) {
        (Some(first), Some(second)) => first + " | "@ + second,
        (Some(first), None) => first,
        (None, Some(second)) => second,
        (None, None) => Seq::<char>::empty(),
    }
}

/// The text behind an optional string.
pub open spec fn opt_text(s: Option<String>) -> Option<Seq<char>> {
    match s {
        Some(s) => Some(s@),
        None => None,
    }
}

/// Joins the parts of a line that are there, with ` | ` between them.
pub fn join_line(list: [Option<String>; 2]) -> (line: String)
    ensures
        line@ == line_joined(opt_text(list[0]), opt_text(list[1])),
{
    let mut out: Vec<char> = Vec::new();
    match &list[0] {
        Some(first) => {
            append(&mut out, &chars_of(first.as_str()));
        },
        None => {},
    }
    match &list[1] {
        Some(second) => {
            if list[0].is_some() {
                append(&mut out, &chars_of(" | "));
            }
            append(&mut out, &chars_of(second.as_str()));
        },
        None => {},
    }
    string_of(&out)
}

/// A path as it is shown: what is left of it below the home directory, and
/// the path itself where it does not lie there.
pub open spec fn shown(path: Seq<char>, home: Seq<char>) -> Seq<char> {
    match prefix_stripped(path, home) {
        Some(rel) => rel,
        None => path,
    }
}

/// The form in which `entry` is shown to the user: relative to the home
/// directory.
pub fn relative_dot_file(entry: &str, session: &Session) -> (rel: String)
    ensures
        rel@ == shown(entry@, session@.home),
{
    let path = chars_of(entry);
    match strip_prefix(&path, &chars_of(get_home(session).as_str())) {
        Some(rel) => string_of(&rel),
        None => string_of(&path),
    }
}

/// The question put before a removal: the verb as it is asked, the path as
/// it is shown, and the answers on offer.
pub open spec fn question(template: Seq<char>, path: Seq<char>, home: Seq<char>) -> Option<
    Seq<char>,
> {
    match conjugated(template, "e"@) {
        Some(verb) => Some(verb + " "@ + shown(path, home) + " ? [y, n, a, q] "@),
        None => None,
    }
}

/// The question to display before `name` is removed. Fails where the verb
/// template of `options` holds no `%`.
pub fn display_delete_prompt(name: &str, options: &DeleteOptions, session: &Session) -> (prompt:
    Result<String, TemplateError>)
    ensures
        prompt is Err <==> !options.verb_template@.contains('%'),
        match prompt {
            Ok(prompt) => question(options.verb_template@, name@, session@.home) == Some(prompt@),
            Err(_) => question(options.verb_template@, name@, session@.home) is None,
        },
{
    let verb = match conjugate_with(options.verb_template, "e") {
        Ok(verb) => verb,
        Err(e) => {
            return Err(e);
        },
    };
    let mut out = chars_of(verb.as_str());
    append(&mut out, &chars_of(" "));
    append(&mut out, &chars_of(relative_dot_file(name, session).as_str()));
    append(&mut out, &chars_of(" ? [y, n, a, q] "));
    Ok(string_of(&out))
}

/// The words that explain the answers on offer.
pub open spec fn help_words() -> Seq<char> {
    "y - yes , n - no, a - all, q - quit"@
}

/// A text as it stands out on the terminal: in yellow, with the escape
/// sequences that `owo_colors` writes around it.
pub uninterp spec fn highlighted(text: Seq<char>) -> Seq<char>;

/// Sets `text` in yellow, by `OwoColorize::yellow` of `owo_colors`.
///
/// Trusted: the result is the text that [`highlighted`] names. Nothing is
/// claimed about the escape sequences in it.
#[verifier::external_body]
fn highlight(text: &str) -> (out: String)
    ensures
        out@ == highlighted(text@),
{
    format!("{}", text.yellow())
}

/// The line that explains the answers on offer, in yellow.
pub fn delete_prompt_help() -> (help: String)
    ensures
        help@ == highlighted(help_words()),
{
    highlight("y - yes , n - no, a - all, q - quit")
}

/// What the user can answer to a question.
#[derive(Clone, Copy, Debug, PartialEq, Eq, Structural)]
pub enum Reply {
    /// Yes, this once.
    Yes,
    /// Yes, and to every question still to come.
    All,
    /// Stop the run.
    Quit,
    /// Explain the answers and ask again.
    Help,
    /// No.
    No,
}

/// The first character of a line that is not white space.
pub open spec fn first_visible(line: Seq<char>) -> Option<char>
    decreases line.len(),
{
    if line.len() == 0 {
        None
    } else if !white_space(line[0]) {
        Some(line[0])
    } else {
        first_visible(line.drop_first())
    }
}

/// The answer that a first character stands for: `y`, `a`, `q` and `?` have
/// their meanings, anything else, and nothing at all, means no.
pub open spec fn reply_to(first: Option<char>) -> Reply {
    if first == Some('y') {
        Reply::Yes
    } else if first == Some('a') {
        Reply::All
    } else if first == Some('q') {
        Reply::Quit
    } else if first == Some('?') {
        Reply::Help
    } else {
        Reply::No
    }
}

/// The answer that the character `first` stands for.
pub fn reply_for(first: Option<char>) -> (reply: Reply)
    ensures
        reply == reply_to(first),
{
    match first {
        Some('y') => Reply::Yes,
        Some('a') => Reply::All,
        Some('q') => Reply::Quit,
        Some('?') => Reply::Help,
        _ => Reply::No,
    }
}

/// Reads the answer out of a line of input: its first character that is not
/// white space decides.
pub fn read_reply(line: &str) -> (reply: Reply)
    ensures
        reply == reply_to(first_visible(line@)),
{
    let chars = chars_of(line);
    let mut i: usize = 0;
    assert(chars@.skip(0) == chars@);
    while i < chars.len()
        invariant
            i <= chars.len(),
            chars@ == line@,
            first_visible(line@) == first_visible(chars@.skip(i as int)),
        decreases chars.len() - i,
    {
        assert(chars@.skip(i as int).drop_first() == chars@.skip(i + 1));
        if !is_white_space(chars[i]) {
            return reply_for(Some(chars[i]));
        }
        i += 1;
    }
    reply_for(None)
}

/// The model of a message in the making.
pub ghost struct MessageView {
    pub level: LogLevel,
    pub path: Option<Seq<char>>,
    pub verb: Seq<char>,
}

/// A message in the making: its weight, the path it is about, and its verb.
#[derive(Debug)]
pub struct MessageBuilder {
    log_level: LogLevel,
    path: Option<String>,
    verb: String,
}

/// A finished message: its weight, its verb, and the rest of its line.
#[derive(Debug, PartialEq, Eq)]
pub struct Message {
    pub level: LogLevel,
    pub verb: String,
    pub text: String,
}

/// The model of a [`Message`].
pub ghost struct Said {
    pub level: LogLevel,
    pub verb: Seq<char>,
    pub text: Seq<char>,
}

impl View for Message {
    type V = Said;

    open spec fn view(&self) -> Said {
        Said { level: self.level, verb: self.verb@, text: self.text@ }
    }
}

/// The colours of a log line.
#[derive(Clone, Copy, Debug, PartialEq, Eq, Structural)]
pub enum Colour {
    White,
    Blue,
    Green,
    Red,
}

/// A verb as it stands at the head of a log line: in bold and in the given
/// colour, set to the right of nine columns, with the escape sequences that
/// `owo_colors` writes around it.
pub uninterp spec fn painted(verb: Seq<char>, colour: Colour) -> Seq<char>;

/// Paints `verb` for the head of a log line, by `Style::white`, `blue`,
/// `green` or `red`, `OwoColorize::style` and `OwoColorize::bold` of
/// `owo_colors`, set to the right of nine columns.
///
/// Trusted: the result is the text that [`painted`] names. Nothing is
/// claimed about the escape sequences or the padding in it.
#[verifier::external_body]
fn paint(verb: &str, colour: Colour) -> (out: String)
    ensures
        out@ == painted(verb@, colour),
{
    let style = match colour {
        Colour::White => Style::new().white(),
        Colour::Blue => Style::new().blue(),
        Colour::Green => Style::new().green(),
        Colour::Red => Style::new().red(),
    };
    format!("{:>9}", verb.style(style).bold())
}

/// A log line: its head, a blank, the rest, and the end of the line.
pub open spec fn line_text(head: Seq<char>, text: Seq<char>) -> Seq<char> {
    head + " "@ + text + "\n"@
}

/// Puts a log line together from its painted head and the rest.
pub fn line_of(head: &str, text: &str) -> (line: String)
    ensures
        line@ == line_text(head@, text@),
{
    let mut out = chars_of(head);
    append(&mut out, &chars_of(" "));
    append(&mut out, &chars_of(text));
    append(&mut out, &chars_of("\n"));
    string_of(&out)
}

/// What prints the messages: the colour for each weight of message.
#[derive(Clone, Copy, Debug, PartialEq, Eq, Structural)]
pub struct Messenger {
    normal_style: Colour,
    success_style: Colour,
    warning_style: Colour,
    error_style: Colour,
}

impl Messenger {
    /// The colour in which this messenger prints a message of the given weight.
    pub closed spec fn colour_for(&self, level: LogLevel) -> Colour {
        match level {
            LogLevel::Normal => self.normal_style,
            LogLevel::Warning => self.warning_style,
            LogLevel::Success => self.success_style,
            LogLevel::Error => self.error_style,
        }
    }

    /// The messenger with the usual colours: white for what is plain, blue
    /// for a success, green for a warning, red for an error.
    pub fn init() -> (messenger: Messenger)
        ensures
            messenger.colour_for(LogLevel::Normal) == Colour::White,
            messenger.colour_for(LogLevel::Success) == Colour::Blue,
            messenger.colour_for(LogLevel::Warning) == Colour::Green,
            messenger.colour_for(LogLevel::Error) == Colour::Red,
    {
        Messenger {
            normal_style: Colour::White,
            success_style: Colour::Blue,
            warning_style: Colour::Green,
            error_style: Colour::Red,
        }
    }

    /// An empty message of normal weight, to be built up.
    pub fn new() -> (builder: MessageBuilder)
        ensures
            builder@ == (MessageView {
                level: LogLevel::Normal,
                path: None,
                verb: Seq::<char>::empty(),
            }),
    {
        MessageBuilder::new()
    }

    /// The line that prints `message`: its verb, painted in the colour of
    /// its weight, then the rest.
    pub fn log_message(&self, message: &Message) -> (line: String)
        ensures
            line@ == line_text(
                painted(message.verb@, self.colour_for(message.level)),
                message.text@,
            ),
    {
        let colour = match message.level {
            LogLevel::Normal => self.normal_style,
            LogLevel::Warning => self.warning_style,
            LogLevel::Success => self.success_style,
            LogLevel::Error => self.error_style,
        };
        let head = paint(message.verb.as_str(), colour);
        line_of(head.as_str(), message.text.as_str())
    }
}

impl View for MessageBuilder {
    type V = MessageView;

    closed spec fn view(&self) -> MessageView {
        MessageView { level: self.log_level, path: opt_text(self.path), verb: self.verb@ }
    }
}

impl MessageBuilder {
    /// An empty message of normal weight.
    pub fn new() -> (builder: Self)
        ensures
            builder@ == (MessageView {
                level: LogLevel::Normal,
                path: None,
                verb: Seq::<char>::empty(),
            }),
    {
        MessageBuilder { log_level: LogLevel::Normal, path: None, verb: String::new() }
    }

    /// The message with `path` as what it is about, in the form shown to the user.
    pub fn with_path(self, path: &str, session: &Session) -> (builder: Self)
        ensures
            builder@ == (MessageView { path: Some(shown(path@, session@.home)), ..self@ }),
    {
        MessageBuilder {
            log_level: self.log_level,
            path: Some(relative_dot_file(path, session)),
            verb: self.verb,
        }
    }

    /// The message with `verb` as its verb.
    pub fn with_verb(self, verb: &str) -> (builder: Self)
        ensures
            builder@ == (MessageView { verb: verb@, ..self@ }),
    {
        MessageBuilder { log_level: self.log_level, path: self.path, verb: verb.to_owned() }
    }

    /// The message with `ending` in the place of the `%` in its verb. Fails
    /// where the verb holds no `%`.
    pub fn conjugate_with(self, ending: &str) -> (builder: Result<Self, TemplateError>)
        ensures
            builder is Err <==> !self@.verb.contains('%'),
            match builder {
                Ok(builder) => conjugated(self@.verb, ending@) == Some(builder@.verb)
                    && builder@ == (MessageView { verb: builder@.verb, ..self@ }),
                Err(_) => conjugated(self@.verb, ending@) is None,
            },
    {
        match conjugate_with(self.verb.as_str(), ending) {
            Ok(verb) => Ok(MessageBuilder { log_level: self.log_level, path: self.path, verb }),
            Err(e) => Err(e),
        }
    }

    /// The finished message, as an error. A message without a verb gets the
    /// verb `error`.
    pub fn error(self, rest: Option<String>) -> (message: Message)
        ensures
            message.level == LogLevel::Error,
            message.verb@ == if self@.verb.len() < 1 {
                "error"@
            } else {
                self@.verb
            },
            message.text@ == line_joined(self@.path, opt_text(rest)),
    {
        let verb = if self.verb.as_str().unicode_len() < 1 {
            "error".to_owned()
        } else {
            self.verb
        };
        Message { level: LogLevel::Error, verb, text: join_line([self.path, rest]) }
    }

    /// The finished message, as a warning.
    pub fn warning(self, rest: Option<String>) -> (message: Message)
        ensures
            message.level == LogLevel::Warning,
            message.verb@ == self@.verb,
            message.text@ == line_joined(self@.path, opt_text(rest)),
    {
        Message { level: LogLevel::Warning, verb: self.verb, text: join_line([self.path, rest]) }
    }

    /// The finished message, as a success.
    pub fn success(self, rest: Option<String>) -> (message: Message)
        ensures
            message.level == LogLevel::Success,
            message.verb@ == self@.verb,
            message.text@ == line_joined(self@.path, opt_text(rest)),
    {
        Message { level: LogLevel::Success, verb: self.verb, text: join_line([self.path, rest]) }
    }

    /// The finished message, at the weight it has.
    pub fn log(self, rest: Option<String>) -> (message: Message)
        ensures
            message.level == self@.level,
            message.verb@ == self@.verb,
            message.text@ == line_joined(self@.path, opt_text(rest)),
    {
        Message { level: self.log_level, verb: self.verb, text: join_line([self.path, rest]) }
    }
}

/// What is said of a directory that a walk cannot read: that it is passed
/// over, and why.
pub fn unreadable(dir: &str, error: &str, session: &Session) -> (message: Message)
    ensures
        message@ == (Said {
            level: LogLevel::Warning,
            verb: "skipping"@,
            text: line_joined(Some(shown(dir@, session@.home)), Some("couldn't read: "@ + error@)),
        }),
{
    let mut rest = chars_of("couldn't read: ");
    append(&mut rest, &chars_of(error));
    MessageBuilder::new().with_verb("skipping").with_path(dir, session).warning(
        Some(string_of(&rest)),
    )
}

} // verus!
