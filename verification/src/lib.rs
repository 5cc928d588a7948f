//! Keeps a home directory in step with a repository of configuration files
//! by deciding which symbolic links to create, replace, back up or remove.
//!
//! The library decides; it never touches the file system or the terminal.
//! Its callers observe the file system, hand the observations in as plain
//! values, and carry out what the library asks for.
//!
//! - [`fs`] maps repository paths to links and tells which names are meant
//!   for this host.
//! - [`install`] and [`delete`] decide what is done about one entry.
//! - [`messages`] words and colours what is said and reads what is answered.
//! - [`task`] takes one entry from its first step to its last, and
//!   [`safety`] proves what holds of every step.
//! - [`text`] holds the text routines underneath.

use vstd::prelude::*;
use crate::text::{chars_of, lowercase, same_text, to_lowercase};

pub mod delete;
pub mod fs;
pub mod install;
pub mod messages;
pub mod safety;
pub mod task;
pub mod text;

verus! {

/// The identity of a host, as two sequences of characters.
pub ghost struct Host {
    pub platform: Seq<char>,
    pub machine: Seq<char>,
}

/// What this host is: its platform tag and its machine name.
#[derive(Debug)]
pub struct This {
    platform: String,
    machine: String,
}

impl View for This {
    type V = Host;

    closed spec fn view(&self) -> Host {
        Host { platform: self.platform@, machine: self.machine@ }
    }
}

/// The platform tag for an operating system's name: `linux` for `linux`,
/// `mac` for `macos`, and `unknown` for any other.
pub open spec fn platform_tag(os: Seq<char>) -> Seq<char> {
    if os == "linux"@ {
        "linux"@
    } else if os == "macos"@ {
        "mac"@
    } else {
        "unknown"@
    }
}

impl This {
    /// The host that runs the operating system called `os` under the
    /// machine name `machine`.
    pub fn on(os: &str, machine: String) -> (this: This)
        ensures
            this@.platform == platform_tag(os@),
            this@.machine == machine@,
    {
        let os = chars_of(os);
        let platform = if same_text(&os, &chars_of("linux")) {
            "linux"
        } else if same_text(&os, &chars_of("macos")) {
            "mac"
        } else {
            "unknown"
        };
        This { platform: platform.to_owned(), machine }
    }

    /// The host with the given platform tag and machine name.
    pub fn new(platform: String, machine: String) -> (this: This)
        ensures
            this@.platform == platform@,
            this@.machine == machine@,
    {
        This { platform, machine }
    }

    /// The platform tag.
    pub fn platform(&self) -> (tag: &String)
        ensures
            tag@ == self@.platform,
    {
        &self.platform
    }

    /// The machine name.
    pub fn machine(&self) -> (name: &String)
        ensures
            name@ == self@.machine,
    {
        &self.machine
    }
}

/// The model of a [`Session`].
pub ghost struct SessionView {
    pub home: Seq<char>,
    pub repo: Seq<char>,
    pub host: Host,
    pub delete_all: bool,
    pub halted: bool,
}

/// What one run knows and remembers: the home directory, the repository,
/// the host, whether the user has approved every removal that is still to
/// come, and whether the user has asked to stop.
#[derive(Debug)]
pub struct Session {
    home: String,
    repo: String,
    this: This,
    delete_all: bool,
    halted: bool,
}

impl View for Session {
    type V = SessionView;

    closed spec fn view(&self) -> SessionView {
        SessionView {
            home: self.home@,
            repo: self.repo@,
            host: self.this@,
            delete_all: self.delete_all,
            halted: self.halted,
        }
    }
}

impl Session {
    /// A fresh session: nothing approved yet, not halted.
    pub fn new(home: String, repo: String, this: This) -> (session: Session)
        ensures
            session@ == (SessionView {
                home: home@,
                repo: repo@,
                host: this@,
                delete_all: false,
                halted: false,
            }),
    {
        Session { home, repo, this, delete_all: false, halted: false }
    }

    /// Records that every removal still to come is approved.
    pub fn approve_all(&mut self)
        ensures
            final(self)@ == (SessionView { delete_all: true, ..old(self)@ }),
    {
        self.delete_all = true;
    }

    /// Records that the user asked to stop.
    pub fn halt(&mut self)
        ensures
            final(self)@ == (SessionView { halted: true, ..old(self)@ }),
    {
        self.halted = true;
    }

    /// Whether the user asked to stop.
    pub fn is_halted(&self) -> (halted: bool)
        ensures
            halted == self@.halted,
    {
        self.halted
    }
}

/// The home directory of the session.
pub fn get_home(session: &Session) -> (home: &String)
    ensures
        home@ == session@.home,
{
    &session.home
}

/// The repository root of the session.
pub fn get_repo(session: &Session) -> (repo: &String)
    ensures
        repo@ == session@.repo,
{
    &session.repo
}

/// Whether every removal still to come is approved.
pub fn get_delete_all(session: &Session) -> (all: bool)
    ensures
        all == session@.delete_all,
{
    session.delete_all
}

/// The host of the session.
pub fn get_this(session: &Session) -> (this: &This)
    ensures
        this@ == session@.host,
{
    &session.this
}

/// What a run can be asked to do.
#[derive(Clone, Copy, Debug, PartialEq, Eq, Structural)]
pub enum Command {
    /// Create the links that are missing.
    Install,
    /// Remove the links that have to go, asking first.
    Cleanup,
    /// Install, then clean up.
    Sync,
    /// Remove the links that have to go, without asking.
    AutoCleanup,
    /// Remove every link, whether it has to go or not.
    Implode,
}

/// How a cleanup is run.
#[derive(Clone, Copy, Debug, PartialEq, Eq, Structural)]
pub struct CleanupMode {
    pub implode: bool,
    pub without_prompting: bool,
}

impl Command {
    /// Whether the command installs.
    pub open spec fn installs_spec(&self) -> bool {
        *self == Command::Install || *self == Command::Sync
    }

    /// How the command cleans up, if it does.
    pub open spec fn cleans_spec(&self) -> Option<CleanupMode> {
        match *self {
            Command::Install => None,
            Command::Cleanup => Some(CleanupMode { implode: false, without_prompting: false }),
            Command::Sync => Some(CleanupMode { implode: false, without_prompting: false }),
            Command::AutoCleanup => Some(CleanupMode { implode: false, without_prompting: true }),
            Command::Implode => Some(CleanupMode { implode: true, without_prompting: false }),
        }
    }

    /// Whether the command installs. Where it also cleans up, it installs first.
    #[verifier::when_used_as_spec(installs_spec)]
    pub fn installs(&self) -> (yes: bool)
        ensures
            yes == self.installs_spec(),
    {
        match self {
            Command::Install => true,
            Command::Sync => true,
            _ => false,
        }
    }

    /// How the command cleans up, if it does.
    #[verifier::when_used_as_spec(cleans_spec)]
    pub fn cleans(&self) -> (mode: Option<CleanupMode>)
        ensures
            mode == self.cleans_spec(),
    {
        match self {
            Command::Install => None,
            Command::Cleanup => Some(CleanupMode { implode: false, without_prompting: false }),
            Command::Sync => Some(CleanupMode { implode: false, without_prompting: false }),
            Command::AutoCleanup => Some(CleanupMode { implode: false, without_prompting: true }),
            Command::Implode => Some(CleanupMode { implode: true, without_prompting: false }),
        }
    }
}

/// The command that a word names, if it names one.
pub open spec fn command_of(word: Seq<char>) -> Option<Command> {
    if word == "install"@ {
        Some(Command::Install)
    } else if word == "cleanup"@ {
        Some(Command::Cleanup)
    } else if word == "sync"@ {
        Some(Command::Sync)
    } else if word == "autocleanup"@ {
        Some(Command::AutoCleanup)
    } else if word == "implode"@ {
        Some(Command::Implode)
    } else {
        None
    }
}

/// The command that `word` names, if it names one. The word is taken as it
/// stands: `Install` names nothing.
pub fn command_named(word: &str) -> (command: Option<Command>)
    ensures
        command == command_of(word@),
{
    let word = chars_of(word);
    if same_text(&word, &chars_of("install")) {
        Some(Command::Install)
    } else if same_text(&word, &chars_of("cleanup")) {
        Some(Command::Cleanup)
    } else if same_text(&word, &chars_of("sync")) {
        Some(Command::Sync)
    } else if same_text(&word, &chars_of("autocleanup")) {
        Some(Command::AutoCleanup)
    } else if same_text(&word, &chars_of("implode")) {
        Some(Command::Implode)
    } else {
        None
    }
}

/// Reads the command out of the arguments of the program: the word after the
/// program's name, in lower case. `None` where there is no such word or it
/// names no command; the caller then explains how the program is used.
pub fn run(args: &Vec<String>) -> (command: Option<Command>)
    ensures
        command == if args.len() < 2 {
            None
        } else {
            command_of(lowercase(args[1]@))
        },
{
    if args.len() < 2 {
        return None;
    }
    let input = to_lowercase(args[1].as_str());
    command_named(input.as_str())
}

} // verus!
