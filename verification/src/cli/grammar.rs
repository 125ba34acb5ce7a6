//! The grammar of the command line.
//!
//! A command line is the name of the program, a command, and then the command's
//! options in any order. An option that takes a value is followed by the value as
//! the next word. The one word that is no option is the target of `run`.

use crate::cli::args::{RunArgs, RunArgsView, ServeArgs, ServeArgsView};
use crate::cli::commands::{Cli, Commands, CommandsView};
use crate::cli::number::{number_in, parse_number};
use crate::engine::config::{
    BindInterface, DEFAULT_BIND_INTERFACE, DEFAULT_CHUNK_SIZE, DEFAULT_CONNECTION_TIMEOUT,
    DEFAULT_MAX_CONNECTIONS, DEFAULT_MAX_RETRIES, DEFAULT_PING_COUNT, DEFAULT_PORT,
    DEFAULT_TEST_DURATION,
};
use crate::engine::text::{join2, same_text};
use vstd::prelude::*;
use vstd::string::{StrSliceExecFns, StringExecFns};

verus! {

/// Why a command line was not read into a command.
#[derive(Debug, Clone)]
pub enum CliError {
    /// No command was given.
    MissingCommand,
    /// The command is none that netbeat knows.
    UnknownCommand(String),
    /// `run` was given no target.
    MissingTarget,
    /// A word that is no option stands where none is expected.
    UnexpectedArgument(String),
    /// The option is none that the command knows.
    UnknownOption(String),
    /// The option was given twice.
    DuplicateOption(String),
    /// The option takes a value and none follows it.
    MissingValue(String),
    /// The value is none that the option accepts.
    InvalidValue { option: String, value: String },
    /// Help was asked for.
    HelpRequested,
    /// The version was asked for.
    VersionRequested,
}

/// Why a command line was not read, as mathematical values.
pub enum CliErrorView {
    MissingCommand,
    UnknownCommand(Seq<char>),
    MissingTarget,
    UnexpectedArgument(Seq<char>),
    UnknownOption(Seq<char>),
    DuplicateOption(Seq<char>),
    MissingValue(Seq<char>),
    InvalidValue { option: Seq<char>, value: Seq<char> },
    HelpRequested,
    VersionRequested,
}

impl View for CliError {
    type V = CliErrorView;

    open spec fn view(&self) -> CliErrorView {
        match self {
            CliError::MissingCommand => CliErrorView::MissingCommand,
            CliError::UnknownCommand(word) => CliErrorView::UnknownCommand(word@),
            CliError::MissingTarget => CliErrorView::MissingTarget,
            CliError::UnexpectedArgument(word) => CliErrorView::UnexpectedArgument(word@),
            CliError::UnknownOption(word) => CliErrorView::UnknownOption(word@),
            CliError::DuplicateOption(word) => CliErrorView::DuplicateOption(word@),
            CliError::MissingValue(word) => CliErrorView::MissingValue(word@),
            CliError::InvalidValue { option, value } => CliErrorView::InvalidValue {
                option: option@,
                value: value@,
            },
            CliError::HelpRequested => CliErrorView::HelpRequested,
            CliError::VersionRequested => CliErrorView::VersionRequested,
        }
    }
}

impl CliErrorView {
    /// The status with which the process ends: success where help or the version was
    /// asked for, the status of a misuse of the command line otherwise.
    pub open spec fn exit_code(self) -> u8 {
        match self {
            CliErrorView::HelpRequested => 0,
            CliErrorView::VersionRequested => 0,
            _ => 2,
        }
    }
}

impl CliError {
    /// The status with which the process ends.
    pub fn exit_code(&self) -> (code: u8)
        ensures
            code == self@.exit_code(),
    {
        match self {
            CliError::HelpRequested => 0,
            CliError::VersionRequested => 0,
            _ => 2,
        }
    }

    /// One line that says what is wrong with the command line.
    pub fn to_string(&self) -> (line: String)
        ensures
            line@ == match self@ {
                CliErrorView::MissingCommand => "a command is required: run or serve"@,
                CliErrorView::UnknownCommand(word) => "unrecognized command: "@ + word,
                CliErrorView::MissingTarget => "the required argument <TARGET> was not provided"@,
                CliErrorView::UnexpectedArgument(word) => "unexpected argument: "@ + word,
                CliErrorView::UnknownOption(word) => "unexpected option: "@ + word,
                CliErrorView::DuplicateOption(word) => "option used more than once: "@ + word,
                CliErrorView::MissingValue(word) => "a value is required for "@ + word,
                CliErrorView::InvalidValue { option, value } => "invalid value for "@ + option
                    + ": "@ + value,
                CliErrorView::HelpRequested => "help was asked for"@,
                CliErrorView::VersionRequested => "the version was asked for"@,
            },
    {
        match self {
            CliError::MissingCommand => String::from_str("a command is required: run or serve"),
            CliError::UnknownCommand(word) => join2("unrecognized command: ", word.as_str()),
            CliError::MissingTarget => String::from_str(
                "the required argument <TARGET> was not provided",
            ),
            CliError::UnexpectedArgument(word) => join2("unexpected argument: ", word.as_str()),
            CliError::UnknownOption(word) => join2("unexpected option: ", word.as_str()),
            CliError::DuplicateOption(word) => join2(
                "option used more than once: ",
                word.as_str(),
            ),
            CliError::MissingValue(word) => join2("a value is required for ", word.as_str()),
            CliError::InvalidValue { option, value } => join2(
                "invalid value for ",
                option.as_str(),
            ).concat(": ").concat(value.as_str()),
            CliError::HelpRequested => String::from_str("help was asked for"),
            CliError::VersionRequested => String::from_str("the version was asked for"),
        }
    }
}

/// The two commands.
#[derive(Debug, Clone, Copy, PartialEq, Eq, Structural)]
pub enum Verb {
    Run,
    Serve,
}

/// The options of the command line.
#[derive(Debug, Clone, Copy, PartialEq, Eq, Structural)]
pub enum Flag {
    Port,
    Time,
    Data,
    ChunkSize,
    PingCount,
    Json,
    Timeout,
    Retries,
    Quiet,
    Verbose,
    Interface,
    Connections,
    Help,
    Version,
}

/// The option that a word names, by its long name or by its letter.
pub open spec fn flag_named(word: Seq<char>) -> Option<Flag> {
    if word == "-p"@ || word == "--port"@ {
        Some(Flag::Port)
    } else if word == "-t"@ || word == "--time"@ {
        Some(Flag::Time)
    } else if word == "-d"@ || word == "--data"@ {
        Some(Flag::Data)
    } else if word == "-c"@ || word == "--chunk-size"@ {
        Some(Flag::ChunkSize)
    } else if word == "--ping-count"@ {
        Some(Flag::PingCount)
    } else if word == "-j"@ || word == "--json"@ {
        Some(Flag::Json)
    } else if word == "--timeout"@ {
        Some(Flag::Timeout)
    } else if word == "--retries"@ {
        Some(Flag::Retries)
    } else if word == "-q"@ || word == "--quiet"@ {
        Some(Flag::Quiet)
    } else if word == "-v"@ || word == "--verbose"@ {
        Some(Flag::Verbose)
    } else if word == "-i"@ || word == "--interface"@ {
        Some(Flag::Interface)
    } else if word == "--connections"@ {
        Some(Flag::Connections)
    } else if word == "-h"@ || word == "--help"@ {
        Some(Flag::Help)
    } else if word == "-V"@ || word == "--version"@ {
        Some(Flag::Version)
    } else {
        None
    }
}

/// Whether a word has the shape of an option: it begins with a dash.
pub open spec fn dashed(word: Seq<char>) -> bool {
    word.len() > 0 && word[0] == '-'
}

/// The interface that a word names.
pub open spec fn interface_named(word: Seq<char>) -> Option<BindInterface> {
    if word == "all"@ {
        Some(BindInterface::All)
    } else if word == "localhost"@ {
        Some(BindInterface::Localhost)
    } else {
        None
    }
}

impl Flag {
    /// Whether the command knows the option.
    pub open spec fn known_to(self, verb: Verb) -> bool {
        match self {
            Flag::Port => true,
            Flag::ChunkSize => true,
            Flag::Quiet => true,
            Flag::Verbose => true,
            Flag::Help => true,
            Flag::Interface => verb == Verb::Serve,
            Flag::Connections => verb == Verb::Serve,
            Flag::Version => false,
            _ => verb == Verb::Run,
        }
    }

    /// Whether the option is a switch: it takes no value.
    pub open spec fn is_switch(self) -> bool {
        self == Flag::Json || self == Flag::Quiet || self == Flag::Verbose
    }

    /// The least and the greatest number that the option accepts, for an option
    /// that takes a number.
    pub open spec fn range(self) -> Option<(u64, u64)> {
        match self {
            Flag::Port => Some((1, 65535)),
            Flag::Time => Some((1, 3600)),
            Flag::PingCount => Some((1, 1000)),
            Flag::Timeout => Some((0, u64::MAX)),
            Flag::Retries => Some((0, 0xffff_ffff)),
            Flag::Connections => Some((0, 0xffff_ffff)),
            _ => None,
        }
    }

    /// Whether the command knows the option.
    pub fn is_known_to(self, verb: Verb) -> (known: bool)
        ensures
            known == self.known_to(verb),
    {
        match self {
            Flag::Port => true,
            Flag::ChunkSize => true,
            Flag::Quiet => true,
            Flag::Verbose => true,
            Flag::Help => true,
            Flag::Interface => verb == Verb::Serve,
            Flag::Connections => verb == Verb::Serve,
            Flag::Version => false,
            _ => verb == Verb::Run,
        }
    }

    /// The least and the greatest number that the option accepts.
    pub fn limits(self) -> (range: Option<(u64, u64)>)
        ensures
            range == self.range(),
    {
        match self {
            Flag::Port => Some((1, 65535)),
            Flag::Time => Some((1, 3600)),
            Flag::PingCount => Some((1, 1000)),
            Flag::Timeout => Some((0, u64::MAX)),
            Flag::Retries => Some((0, 0xffff_ffff)),
            Flag::Connections => Some((0, 0xffff_ffff)),
            _ => None,
        }
    }
}

/// The option that a word names.
pub fn read_flag(word: &str) -> (flag: Option<Flag>)
    ensures
        flag == flag_named(word@),
{
    if same_text(word, "-p") || same_text(word, "--port") {
        Some(Flag::Port)
    } else if same_text(word, "-t") || same_text(word, "--time") {
        Some(Flag::Time)
    } else if same_text(word, "-d") || same_text(word, "--data") {
        Some(Flag::Data)
    } else if same_text(word, "-c") || same_text(word, "--chunk-size") {
        Some(Flag::ChunkSize)
    } else if same_text(word, "--ping-count") {
        Some(Flag::PingCount)
    } else if same_text(word, "-j") || same_text(word, "--json") {
        Some(Flag::Json)
    } else if same_text(word, "--timeout") {
        Some(Flag::Timeout)
    } else if same_text(word, "--retries") {
        Some(Flag::Retries)
    } else if same_text(word, "-q") || same_text(word, "--quiet") {
        Some(Flag::Quiet)
    } else if same_text(word, "-v") || same_text(word, "--verbose") {
        Some(Flag::Verbose)
    } else if same_text(word, "-i") || same_text(word, "--interface") {
        Some(Flag::Interface)
    } else if same_text(word, "--connections") {
        Some(Flag::Connections)
    } else if same_text(word, "-h") || same_text(word, "--help") {
        Some(Flag::Help)
    } else if same_text(word, "-V") || same_text(word, "--version") {
        Some(Flag::Version)
    } else {
        None
    }
}

/// Whether a word has the shape of an option.
pub fn is_dashed(word: &str) -> (dashed: bool)
    ensures
        dashed == self::dashed(word@),
{
    word.unicode_len() > 0 && word.get_char(0) == '-'
}

/// The interface that a word names.
pub fn read_interface(word: &str) -> (interface: Option<BindInterface>)
    ensures
        interface == interface_named(word@),
{
    if same_text(word, "all") {
        Some(BindInterface::All)
    } else if same_text(word, "localhost") {
        Some(BindInterface::Localhost)
    } else {
        None
    }
}

/// What has been read of a command's words so far.
#[derive(Debug)]
pub struct Draft {
    pub target: Option<String>,
    pub port: Option<u64>,
    pub time: Option<u64>,
    pub data: Option<String>,
    pub chunk_size: Option<String>,
    pub ping_count: Option<u64>,
    pub json: bool,
    pub timeout: Option<u64>,
    pub retries: Option<u64>,
    pub quiet: bool,
    pub verbose: bool,
    pub interface: Option<BindInterface>,
    pub connections: Option<u64>,
}

/// What has been read of a command's words so far, as mathematical values.
pub struct DraftView {
    pub target: Option<Seq<char>>,
    pub port: Option<u64>,
    pub time: Option<u64>,
    pub data: Option<Seq<char>>,
    pub chunk_size: Option<Seq<char>>,
    pub ping_count: Option<u64>,
    pub json: bool,
    pub timeout: Option<u64>,
    pub retries: Option<u64>,
    pub quiet: bool,
    pub verbose: bool,
    pub interface: Option<BindInterface>,
    pub connections: Option<u64>,
}

/// The text that an optional string holds.
pub open spec fn text_of(setting: Option<String>) -> Option<Seq<char>> {
    match setting {
        Some(text) => Some(text@),
        None => None,
    }
}

impl View for Draft {
    type V = DraftView;

    open spec fn view(&self) -> DraftView {
        DraftView {
            target: text_of(self.target),
            port: self.port,
            time: self.time,
            data: text_of(self.data),
            chunk_size: text_of(self.chunk_size),
            ping_count: self.ping_count,
            json: self.json,
            timeout: self.timeout,
            retries: self.retries,
            quiet: self.quiet,
            verbose: self.verbose,
            interface: self.interface,
            connections: self.connections,
        }
    }
}

impl DraftView {
    /// Nothing read yet.
    pub open spec fn blank() -> DraftView {
        DraftView {
            target: None,
            port: None,
            time: None,
            data: None,
            chunk_size: None,
            ping_count: None,
            json: false,
            timeout: None,
            retries: None,
            quiet: false,
            verbose: false,
            interface: None,
            connections: None,
        }
    }

    /// What holds of every draft: each number lies in the range of its option.
    pub open spec fn wf(self) -> bool {
        &&& self.port matches Some(n) ==> 1 <= n <= 65535
        &&& self.ping_count matches Some(n) ==> 1 <= n <= 1000
        &&& self.retries matches Some(n) ==> n <= 0xffff_ffff
        &&& self.connections matches Some(n) ==> n <= 0xffff_ffff
    }

    /// Whether the option has been given already.
    pub open spec fn has(self, flag: Flag) -> bool {
        match flag {
            Flag::Port => self.port is Some,
            Flag::Time => self.time is Some,
            Flag::Data => self.data is Some,
            Flag::ChunkSize => self.chunk_size is Some,
            Flag::PingCount => self.ping_count is Some,
            Flag::Json => self.json,
            Flag::Timeout => self.timeout is Some,
            Flag::Retries => self.retries is Some,
            Flag::Quiet => self.quiet,
            Flag::Verbose => self.verbose,
            Flag::Interface => self.interface is Some,
            Flag::Connections => self.connections is Some,
            _ => false,
        }
    }

    /// The draft with a switch turned on.
    pub open spec fn switched(self, flag: Flag) -> DraftView {
        match flag {
            Flag::Json => DraftView { json: true, ..self },
            Flag::Quiet => DraftView { quiet: true, ..self },
            Flag::Verbose => DraftView { verbose: true, ..self },
            _ => self,
        }
    }

    /// The draft with the value of an option taken in; `None` where the option does
    /// not accept the value.
    pub open spec fn valued(self, flag: Flag, value: Seq<char>) -> Option<DraftView> {
        match flag {
            Flag::Data => Some(DraftView { data: Some(value), ..self }),
            Flag::ChunkSize => Some(DraftView { chunk_size: Some(value), ..self }),
            Flag::Interface => match interface_named(value) {
                Some(interface) => Some(DraftView { interface: Some(interface), ..self }),
                None => None,
            },
            _ => match flag.range() {
                None => None,
                Some((low, high)) => match number_in(value, low, high) {
                    None => None,
                    Some(n) => Some(
                        match flag {
                            Flag::Port => DraftView { port: Some(n), ..self },
                            Flag::Time => DraftView { time: Some(n), ..self },
                            Flag::PingCount => DraftView { ping_count: Some(n), ..self },
                            Flag::Timeout => DraftView { timeout: Some(n), ..self },
                            Flag::Retries => DraftView { retries: Some(n), ..self },
                            _ => DraftView { connections: Some(n), ..self },
                        },
                    ),
                },
            },
        }
    }

    /// The arguments of `run` that the draft stands for: every option that was not
    /// given takes its default.
    pub open spec fn run_args(self) -> RunArgsView {
        RunArgsView {
            target: self.target->0,
            port: match self.port {
                Some(n) => n as u16,
                None => DEFAULT_PORT,
            },
            time: match self.time {
                Some(n) => n,
                None => DEFAULT_TEST_DURATION,
            },
            data: self.data,
            chunk_size: match self.chunk_size {
                Some(text) => text,
                None => DEFAULT_CHUNK_SIZE@,
            },
            ping_count: match self.ping_count {
                Some(n) => n as u32,
                None => DEFAULT_PING_COUNT,
            },
            json: self.json,
            timeout: match self.timeout {
                Some(n) => n,
                None => DEFAULT_CONNECTION_TIMEOUT,
            },
            retries: match self.retries {
                Some(n) => n as u32,
                None => DEFAULT_MAX_RETRIES,
            },
            quiet: self.quiet,
            verbose: self.verbose,
        }
    }

    /// The arguments of `serve` that the draft stands for: every option that was
    /// not given takes its default.
    pub open spec fn serve_args(self) -> ServeArgsView {
        ServeArgsView {
            interface: match self.interface {
                Some(interface) => interface,
                None => DEFAULT_BIND_INTERFACE,
            },
            port: match self.port {
                Some(n) => n as u16,
                None => DEFAULT_PORT,
            },
            chunk_size: match self.chunk_size {
                Some(text) => text,
                None => DEFAULT_CHUNK_SIZE@,
            },
            connections: match self.connections {
                Some(n) => n as u32,
                None => DEFAULT_MAX_CONNECTIONS,
            },
            quiet: self.quiet,
            verbose: self.verbose,
        }
    }
}

/// The draft after the words from `from` on have been read, or what is wrong with
/// the first word that cannot be read.
pub open spec fn settled(verb: Verb, words: Seq<Seq<char>>, from: int, draft: DraftView) -> Result<
    DraftView,
    CliErrorView,
>
    decreases words.len() - from,
{
    if from < 0 || from >= words.len() {
        Ok(draft)
    } else {
        let word = words[from];
        match flag_named(word) {
            Some(flag) => if !flag.known_to(verb) {
                Err(CliErrorView::UnknownOption(word))
            } else if flag == Flag::Help {
                Err(CliErrorView::HelpRequested)
            } else if draft.has(flag) {
                Err(CliErrorView::DuplicateOption(word))
            } else if flag.is_switch() {
                settled(verb, words, from + 1, draft.switched(flag))
            } else if from + 1 >= words.len() {
                Err(CliErrorView::MissingValue(word))
            } else {
                match draft.valued(flag, words[from + 1]) {
                    Some(next) => settled(verb, words, from + 2, next),
                    None => Err(
                        CliErrorView::InvalidValue { option: word, value: words[from + 1] },
                    ),
                }
            },
            None => if dashed(word) {
                Err(CliErrorView::UnknownOption(word))
            } else if verb == Verb::Run && draft.target is None {
                settled(verb, words, from + 1, DraftView { target: Some(word), ..draft })
            } else {
                Err(CliErrorView::UnexpectedArgument(word))
            },
        }
    }
}

/// The command that a command line denotes, or what is wrong with it. The first word
/// is the name of the program, the second the command, the rest its options.
pub open spec fn parsed(words: Seq<Seq<char>>) -> Result<CommandsView, CliErrorView> {
    if words.len() < 2 {
        Err(CliErrorView::MissingCommand)
    } else {
        let word = words[1];
        if word == "run"@ {
            match settled(Verb::Run, words, 2, DraftView::blank()) {
                Err(error) => Err(error),
                Ok(draft) => if draft.target is None {
                    Err(CliErrorView::MissingTarget)
                } else {
                    Ok(CommandsView::Run(draft.run_args()))
                },
            }
        } else if word == "serve"@ {
            match settled(Verb::Serve, words, 2, DraftView::blank()) {
                Err(error) => Err(error),
                Ok(draft) => Ok(CommandsView::Serve(draft.serve_args())),
            }
        } else if word == "help"@ || flag_named(word) == Some(Flag::Help) {
            Err(CliErrorView::HelpRequested)
        } else if flag_named(word) == Some(Flag::Version) {
            Err(CliErrorView::VersionRequested)
        } else if dashed(word) {
            Err(CliErrorView::UnknownOption(word))
        } else {
            Err(CliErrorView::UnknownCommand(word))
        }
    }
}

/// The words of a command line as texts.
pub open spec fn texts(args: Seq<&str>) -> Seq<Seq<char>> {
    Seq::new(args.len(), |i: int| args[i]@)
}

impl Draft {
    /// Nothing read yet.
    pub fn blank() -> (draft: Draft)
        ensures
            draft@ == DraftView::blank(),
            draft@.wf(),
    {
        Draft {
            target: None,
            port: None,
            time: None,
            data: None,
            chunk_size: None,
            ping_count: None,
            json: false,
            timeout: None,
            retries: None,
            quiet: false,
            verbose: false,
            interface: None,
            connections: None,
        }
    }

    /// Whether the option has been given already.
    pub fn has(&self, flag: Flag) -> (given: bool)
        ensures
            given == self@.has(flag),
    {
        match flag {
            Flag::Port => self.port.is_some(),
            Flag::Time => self.time.is_some(),
            Flag::Data => self.data.is_some(),
            Flag::ChunkSize => self.chunk_size.is_some(),
            Flag::PingCount => self.ping_count.is_some(),
            Flag::Json => self.json,
            Flag::Timeout => self.timeout.is_some(),
            Flag::Retries => self.retries.is_some(),
            Flag::Quiet => self.quiet,
            Flag::Verbose => self.verbose,
            Flag::Interface => self.interface.is_some(),
            Flag::Connections => self.connections.is_some(),
            _ => false,
        }
    }

    /// Turns a switch on.
    pub fn switch(&mut self, flag: Flag)
        requires
            old(self)@.wf(),
        ensures
            final(self)@ == old(self)@.switched(flag),
            final(self)@.wf(),
    {
        match flag {
            Flag::Json => {
                self.json = true;
            },
            Flag::Quiet => {
                self.quiet = true;
            },
            Flag::Verbose => {
                self.verbose = true;
            },
            _ => {},
        }
    }

    /// Takes in the value of an option, and says whether the option accepts it; the
    /// draft is left as it was where it does not.
    pub fn set(&mut self, flag: Flag, value: &str) -> (accepted: bool)
        requires
            old(self)@.wf(),
        ensures
            match old(self)@.valued(flag, value@) {
                Some(next) => accepted && final(self)@ == next,
                None => !accepted && final(self)@ == old(self)@,
            },
            final(self)@.wf(),
    {
        match flag {
            Flag::Data => {
                self.data = Some(String::from_str(value));
                true
            },
            Flag::ChunkSize => {
                self.chunk_size = Some(String::from_str(value));
                true
            },
            Flag::Interface => match read_interface(value) {
                Some(interface) => {
                    self.interface = Some(interface);
                    true
                },
                None => false,
            },
            _ => match flag.limits() {
                None => false,
                Some((low, high)) => match parse_number(value, low, high) {
                    None => false,
                    Some(n) => {
                        match flag {
                            Flag::Port => {
                                self.port = Some(n);
                            },
                            Flag::Time => {
                                self.time = Some(n);
                            },
                            Flag::PingCount => {
                                self.ping_count = Some(n);
                            },
                            Flag::Timeout => {
                                self.timeout = Some(n);
                            },
                            Flag::Retries => {
                                self.retries = Some(n);
                            },
                            _ => {
                                self.connections = Some(n);
                            },
                        }
                        true
                    },
                },
            },
        }
    }

    /// The arguments of `run` that the draft stands for.
    pub fn into_run_args(self) -> (args: RunArgs)
        requires
            self@.wf(),
            self@.target is Some,
        ensures
            args@ == self@.run_args(),
    {
        RunArgs {
            target: match self.target {
                Some(target) => target,
                None => String::new(),
            },
            port: match self.port {
                Some(n) => n as u16,
                None => DEFAULT_PORT,
            },
            time: match self.time {
                Some(n) => n,
                None => DEFAULT_TEST_DURATION,
            },
            data: self.data,
            chunk_size: match self.chunk_size {
                Some(text) => text,
                None => String::from_str(DEFAULT_CHUNK_SIZE),
            },
            ping_count: match self.ping_count {
                Some(n) => n as u32,
                None => DEFAULT_PING_COUNT,
            },
            json: self.json,
            timeout: match self.timeout {
                Some(n) => n,
                None => DEFAULT_CONNECTION_TIMEOUT,
            },
            retries: match self.retries {
                Some(n) => n as u32,
                None => DEFAULT_MAX_RETRIES,
            },
            quiet: self.quiet,
            verbose: self.verbose,
        }
    }

    /// The arguments of `serve` that the draft stands for.
    pub fn into_serve_args(self) -> (args: ServeArgs)
        requires
            self@.wf(),
        ensures
            args@ == self@.serve_args(),
    {
        ServeArgs {
            interface: match self.interface {
                Some(interface) => interface,
                None => DEFAULT_BIND_INTERFACE,
            },
            port: match self.port {
                Some(n) => n as u16,
                None => DEFAULT_PORT,
            },
            chunk_size: match self.chunk_size {
                Some(text) => text,
                None => String::from_str(DEFAULT_CHUNK_SIZE),
            },
            connections: match self.connections {
                Some(n) => n as u32,
                None => DEFAULT_MAX_CONNECTIONS,
            },
            quiet: self.quiet,
            verbose: self.verbose,
        }
    }
}

/// Reads the options of a command: the words from the third on.
pub fn settle(verb: Verb, args: &[&str]) -> (r: Result<Draft, CliError>)
    ensures
        match settled(verb, texts(args@), 2, DraftView::blank()) {
            Ok(view) => r matches Ok(draft) && draft@ == view && draft@.wf(),
            Err(view) => r matches Err(error) && error@ == view,
        },
{
    let ghost words = texts(args@);
    let mut draft = Draft::blank();
    let mut i: usize = 2;
    while i < args.len()
        invariant
            2 <= i,
            words == texts(args@),
            draft@.wf(),
            settled(verb, words, 2, DraftView::blank()) == settled(verb, words, i as int, draft@),
        decreases args@.len() - i,
    {
        let word: &str = args[i];
        match read_flag(word) {
            Some(flag) => {
                if !flag.is_known_to(verb) {
                    return Err(CliError::UnknownOption(String::from_str(word)));
                }
                match flag {
                    Flag::Help => {
                        return Err(CliError::HelpRequested);
                    },
                    _ => {},
                }
                if draft.has(flag) {
                    return Err(CliError::DuplicateOption(String::from_str(word)));
                }
                match flag {
                    Flag::Json | Flag::Quiet | Flag::Verbose => {
                        draft.switch(flag);
                        i = i + 1;
                    },
                    _ => {
                        if i + 1 >= args.len() {
                            return Err(CliError::MissingValue(String::from_str(word)));
                        }
                        let value: &str = args[i + 1];
                        if !draft.set(flag, value) {
                            return Err(
                                CliError::InvalidValue {
                                    option: String::from_str(word),
                                    value: String::from_str(value),
                                },
                            );
                        }
                        i = i + 2;
                    },
                }
            },
            None => {
                if is_dashed(word) {
                    return Err(CliError::UnknownOption(String::from_str(word)));
                }
                let free = match verb {
                    Verb::Run => draft.target.is_none(),
                    Verb::Serve => false,
                };
                if !free {
                    return Err(CliError::UnexpectedArgument(String::from_str(word)));
                }
                draft.target = Some(String::from_str(word));
                i = i + 1;
            },
        }
    }
    Ok(draft)
}

impl Cli {
    /// Reads a command line: the name of the program, a command, and its options.
    pub fn try_parse_from(args: &[&str]) -> (r: Result<Cli, CliError>)
        ensures
            match parsed(texts(args@)) {
                Ok(view) => r matches Ok(cli) && cli@ == view,
                Err(view) => r matches Err(error) && error@ == view,
            },
    {
        if args.len() < 2 {
            return Err(CliError::MissingCommand);
        }
        let word: &str = args[1];
        if same_text(word, "run") {
            match settle(Verb::Run, args) {
                Err(error) => Err(error),
                Ok(draft) => if draft.target.is_none() {
                    Err(CliError::MissingTarget)
                } else {
                    Ok(Cli { command: Commands::Run(draft.into_run_args()) })
                },
            }
        } else if same_text(word, "serve") {
            match settle(Verb::Serve, args) {
                Err(error) => Err(error),
                Ok(draft) => Ok(Cli { command: Commands::Serve(draft.into_serve_args()) }),
            }
        } else {
            let flag = read_flag(word);
            let help = match flag {
                Some(Flag::Help) => true,
                _ => false,
            };
            let version = match flag {
                Some(Flag::Version) => true,
                _ => false,
            };
            if same_text(word, "help") || help {
                Err(CliError::HelpRequested)
            } else if version {
                Err(CliError::VersionRequested)
            } else if is_dashed(word) {
                Err(CliError::UnknownOption(String::from_str(word)))
            } else {
                Err(CliError::UnknownCommand(String::from_str(word)))
            }
        }
    }
}

} // verus!
