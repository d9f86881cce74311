//! The configuration resolution protocol: a state machine that decides
//! every step of locating, creating or loading the config file.  The
//! surrounding program performs the action each state calls for (look up
//! the home directory, create the directory, read or write the file, show
//! the prompt) and feeds the outcome back as an event; every decision in
//! between is made, and verified, here.

use vstd::prelude::*;
use crate::config::{config_valid, default_theme_model, ConfigModel, InitConfig};
use crate::document::{
    emit_config, emit_document, line_free, model_line_free, parse_config, parse_document,
    theme_values,
};
use crate::error::ConfigError;
use crate::input::{trim_spec, validate_music_database_path};

verus! {

/// Where the resolution stands, and what action it asks for next.
#[derive(Debug, PartialEq)]
pub enum ResolveState {
    /// Look up the home directory.
    Locate,
    /// Make sure `dir` exists, creating it and its ancestors if absent.
    EnsureDir { dir: String, file: String },
    /// Tell whether `file` exists.
    CheckFile { file: String },
    /// Show the music-folder prompt and read one line.
    AwaitInput { file: String },
    /// Create `file` and write `text` to it.
    WriteFile { file: String, text: String, config: InitConfig },
    /// Open `file` and read its whole text.
    ReadFile { file: String },
    /// The resolved configuration; terminal.
    Done { config: InitConfig },
    /// A terminal failure.
    Failed { error: ConfigError },
}

/// The outcome of the action a state asked for.
#[derive(Debug, PartialEq)]
pub enum ResolveEvent {
    /// The home directory, if one could be determined.
    HomeFound(Option<String>),
    /// Whether the directory now exists.
    DirEnsured(bool),
    /// Whether the file exists.
    FileFound(bool),
    /// The line the user entered at the prompt, or nothing if standard
    /// input could not be read.
    LineRead(Option<String>),
    /// Whether creating and writing the file succeeded.
    FileWritten(bool),
    /// The text of the file, or nothing if it could not be opened or read.
    FileRead(Option<String>),
}

/// The mathematical model of a state.
#[verifier::ext_equal]
pub ghost enum StateModel {
    Locate,
    EnsureDir { dir: Seq<char>, file: Seq<char> },
    CheckFile { file: Seq<char> },
    AwaitInput { file: Seq<char> },
    WriteFile { file: Seq<char>, text: Seq<char>, config: ConfigModel },
    ReadFile { file: Seq<char> },
    Done { config: ConfigModel },
    Failed { error: ConfigError },
}

/// The mathematical model of an event.
#[verifier::ext_equal]
pub ghost enum EventModel {
    HomeFound(Option<Seq<char>>),
    DirEnsured(bool),
    FileFound(bool),
    LineRead(Option<Seq<char>>),
    FileWritten(bool),
    FileRead(Option<Seq<char>>),
}

impl View for ResolveState {
    type V = StateModel;

    open spec fn view(&self) -> StateModel {
        match self {
            ResolveState::Locate => StateModel::Locate,
            ResolveState::EnsureDir { dir, file } => StateModel::EnsureDir {
                dir: dir@,
                file: file@,
            },
            ResolveState::CheckFile { file } => StateModel::CheckFile { file: file@ },
            ResolveState::AwaitInput { file } => StateModel::AwaitInput { file: file@ },
            ResolveState::WriteFile { file, text, config } => StateModel::WriteFile {
                file: file@,
                text: text@,
                config: config@,
            },
            ResolveState::ReadFile { file } => StateModel::ReadFile { file: file@ },
            ResolveState::Done { config } => StateModel::Done { config: config@ },
            ResolveState::Failed { error } => StateModel::Failed { error: *error },
        }
    }
}

impl View for ResolveEvent {
    type V = EventModel;

    open spec fn view(&self) -> EventModel {
        match self {
            ResolveEvent::HomeFound(h) => EventModel::HomeFound(
                match h {
                    Some(p) => Some(p@),
                    None => None,
                },
            ),
            ResolveEvent::DirEnsured(ok) => EventModel::DirEnsured(*ok),
            ResolveEvent::FileFound(found) => EventModel::FileFound(*found),
            ResolveEvent::LineRead(entry) => EventModel::LineRead(
                match entry {
                    Some(line) => Some(line@),
                    None => None,
                },
            ),
            ResolveEvent::FileWritten(ok) => EventModel::FileWritten(*ok),
            ResolveEvent::FileRead(text) => EventModel::FileRead(
                match text {
                    Some(t) => Some(t@),
                    None => None,
                },
            ),
        }
    }
}

/// The configuration directory: `<home>/.config/music_player`.
pub open spec fn config_dir_model(home: Seq<char>) -> Seq<char> {
    home + "/.config/music_player"@
}

/// The configuration file: `<home>/.config/music_player/config.yml`.
pub open spec fn config_file_model(home: Seq<char>) -> Seq<char> {
    home + "/.config/music_player/config.yml"@
}

/// Which event answers which state's action.
pub open spec fn accepts(s: StateModel, e: EventModel) -> bool {
    match (s, e) {
        (StateModel::Locate, EventModel::HomeFound(_)) => true,
        (StateModel::EnsureDir { .. }, EventModel::DirEnsured(_)) => true,
        (StateModel::CheckFile { .. }, EventModel::FileFound(_)) => true,
        (StateModel::AwaitInput { .. }, EventModel::LineRead(_)) => true,
        (StateModel::WriteFile { .. }, EventModel::FileWritten(_)) => true,
        (StateModel::ReadFile { .. }, EventModel::FileRead(_)) => true,
        _ => false,
    }
}

/// The transition from state and event to the next state: the whole
/// resolution protocol, every failure mapped to its error.
pub open spec fn step_model(s: StateModel, e: EventModel) -> StateModel {
    match (s, e) {
        (StateModel::Locate, EventModel::HomeFound(h)) => match h {
            None => StateModel::Failed { error: ConfigError::EnvironmentError },
            Some(home) => StateModel::EnsureDir {
                dir: config_dir_model(home),
                file: config_file_model(home),
            },
        },
        (StateModel::EnsureDir { dir: _, file }, EventModel::DirEnsured(ok)) => if ok {
            StateModel::CheckFile { file }
        } else {
            StateModel::Failed { error: ConfigError::IOError }
        },
        (StateModel::CheckFile { file }, EventModel::FileFound(found)) => if found {
            StateModel::ReadFile { file }
        } else {
            StateModel::AwaitInput { file }
        },
        (StateModel::AwaitInput { file }, EventModel::LineRead(entry)) => match entry {
            None => StateModel::Failed { error: ConfigError::IOError },
            Some(line) => {
                let t = trim_spec(line);
                if t.len() == 0 || !line_free(t) {
                    StateModel::Failed { error: ConfigError::ValidationError }
                } else {
                    let config = ConfigModel { music_database: t, theme: default_theme_model() };
                    StateModel::WriteFile { file, text: emit_document(config), config }
                }
            },
        },
        (StateModel::WriteFile { file: _, text: _, config }, EventModel::FileWritten(ok)) => if ok {
            StateModel::Done { config }
        } else {
            StateModel::Failed { error: ConfigError::IOError }
        },
        (StateModel::ReadFile { file: _ }, EventModel::FileRead(content)) => match content {
            None => StateModel::Failed { error: ConfigError::IOError },
            Some(text) => match parse_document(text) {
                Some(config) => StateModel::Done { config },
                None => StateModel::Failed { error: ConfigError::ParseError },
            },
        },
        _ => s,
    }
}

/// The state every resolution starts from.
pub fn resolve_start() -> (s: ResolveState)
    ensures
        s@ == StateModel::Locate,
{
    ResolveState::Locate
}

/// The directory that must hold the configuration file.
pub fn config_dir_for(home: &str) -> (r: String)
    ensures
        r@ == config_dir_model(home@),
{
    String::from_str(home).concat("/.config/music_player")
}

/// The location of the configuration file under `home`.
pub fn config_file_for(home: &str) -> (r: String)
    ensures
        r@ == config_file_model(home@),
{
    String::from_str(home).concat("/.config/music_player/config.yml")
}

/// Performs one step of the resolution: from the current state and the
/// outcome of its action to the next state, exactly as `step_model` says.
#[verifier::rlimit(50)]
pub fn resolve_step(state: ResolveState, event: ResolveEvent) -> (next: ResolveState)
    requires
        accepts(state@, event@),
    ensures
        next@ == step_model(state@, event@),
{
    let ghost s0 = state@;
    let ghost e0 = event@;
    let next = match (state, event) {
        (ResolveState::Locate, ResolveEvent::HomeFound(h)) => match h {
            None => ResolveState::Failed { error: ConfigError::EnvironmentError },
            Some(home) => {
                let dir = config_dir_for(home.as_str());
                let file = config_file_for(home.as_str());
                ResolveState::EnsureDir { dir, file }
            },
        },
        (ResolveState::EnsureDir { dir: _, file }, ResolveEvent::DirEnsured(ok)) => if ok {
            ResolveState::CheckFile { file }
        } else {
            ResolveState::Failed { error: ConfigError::IOError }
        },
        (ResolveState::CheckFile { file }, ResolveEvent::FileFound(found)) => if found {
            ResolveState::ReadFile { file }
        } else {
            ResolveState::AwaitInput { file }
        },
        (ResolveState::AwaitInput { file }, ResolveEvent::LineRead(None)) => {
            ResolveState::Failed { error: ConfigError::IOError }
        },
        (ResolveState::AwaitInput { file }, ResolveEvent::LineRead(Some(line))) => {
            match validate_music_database_path(line.as_str()) {
                Err(error) => ResolveState::Failed { error },
                Ok(path) => {
                    let config = InitConfig::with_default_theme(path);
                    let text = emit_config(&config);
                    proof {
                        assert(config@ =~= ConfigModel {
                            music_database: trim_spec(line@),
                            theme: default_theme_model(),
                        });
                    }
                    ResolveState::WriteFile { file, text, config }
                },
            }
        },
        (ResolveState::WriteFile { file: _, text: _, config }, ResolveEvent::FileWritten(ok)) => if ok {
            ResolveState::Done { config }
        } else {
            ResolveState::Failed { error: ConfigError::IOError }
        },
        (ResolveState::ReadFile { file: _ }, ResolveEvent::FileRead(content)) => match content {
            None => ResolveState::Failed { error: ConfigError::IOError },
            Some(text) => match parse_config(text.as_str()) {
                Ok(config) => ResolveState::Done { config },
                Err(error) => ResolveState::Failed { error },
            },
        },
        (other, _) => other,
    };
    proof {
        assert(next@ =~= step_model(s0, e0));
    }
    next
}

/// The prompt shown before reading the music folder path.
pub open spec fn prompt_text() -> Seq<char> {
    "Please enter the path for the music folder"@
}

/// The prompt shown before reading the music folder path.
pub fn prompt_message() -> (r: String)
    ensures
        r@ == prompt_text(),
{
    String::from_str("Please enter the path for the music folder")
}

/// The confirmation printed after the file is first created.
pub open spec fn creation_notice_model(path: Seq<char>) -> Seq<char> {
    "Default config file created at "@ + path
}

/// The confirmation printed after the file is first created.
pub fn creation_notice(path: &str) -> (r: String)
    ensures
        r@ == creation_notice_model(path@),
{
    String::from_str("Default config file created at ").concat(path)
}

/// No default color holds a newline, so a configuration built from any
/// newline-free music database path fits the document lines.
#[verifier::rlimit(50)]
proof fn lemma_default_model_line_free(mdb: Seq<char>)
    requires
        line_free(mdb),
    ensures
        model_line_free(ConfigModel { music_database: mdb, theme: default_theme_model() }),
{
    reveal_strlit("#ffaaff");
    reveal_strlit("#ffb747");
    reveal_strlit("#ffffff");
    reveal_strlit("#eee4c4");
    reveal_strlit("#f07178");
    reveal_strlit("#c3e88d");
    reveal_strlit("#ec998b");
    reveal_strlit("#c3eead");
    reveal_strlit("#81a8fd");
    reveal_strlit("#beb2ec");
    reveal_strlit("#eee188");
    reveal_strlit("#e0d7ca");
    reveal_strlit("#a9c34f");
    reveal_strlit("#b2e2e4");
    reveal_strlit("#d15aa7");
    reveal_strlit("#d8ce2e");
    reveal_strlit("#9998af");
    reveal_strlit("#dcd8da");
    reveal_strlit("#cece68");
    reveal_strlit("#abcc7e");
    reveal_strlit("#fa4d70");
    let vs = theme_values(default_theme_model());
    assert forall|k: int| 0 <= k < vs.len() implies line_free(#[trigger] vs[k]) by {
        if k == 0 {
            assert(line_free(vs[0]));
        } else if k == 1 {
            assert(line_free(vs[1]));
        } else if k == 2 {
            assert(line_free(vs[2]));
        } else if k == 3 {
            assert(line_free(vs[3]));
        } else if k == 4 {
            assert(line_free(vs[4]));
        } else if k == 5 {
            assert(line_free(vs[5]));
        } else if k == 6 {
            assert(line_free(vs[6]));
        } else if k == 7 {
            assert(line_free(vs[7]));
        } else if k == 8 {
            assert(line_free(vs[8]));
        } else if k == 9 {
            assert(line_free(vs[9]));
        } else if k == 10 {
            assert(line_free(vs[10]));
        } else if k == 11 {
            assert(line_free(vs[11]));
        } else if k == 12 {
            assert(line_free(vs[12]));
        } else if k == 13 {
            assert(line_free(vs[13]));
        } else if k == 14 {
            assert(line_free(vs[14]));
        } else if k == 15 {
            assert(line_free(vs[15]));
        } else if k == 16 {
            assert(line_free(vs[16]));
        } else if k == 17 {
            assert(line_free(vs[17]));
        } else if k == 18 {
            assert(line_free(vs[18]));
        } else if k == 19 {
            assert(line_free(vs[19]));
        } else if k == 20 {
            assert(line_free(vs[20]));
        } else if k == 21 {
            assert(line_free(vs[21]));
        } else if k == 22 {
            assert(line_free(vs[22]));
        } else if k == 23 {
            assert(line_free(vs[23]));
        } else if k == 24 {
            assert(line_free(vs[24]));
        } else if k == 25 {
            assert(line_free(vs[25]));
        } else if k == 26 {
            assert(line_free(vs[26]));
        } else if k == 27 {
            assert(line_free(vs[27]));
        } else if k == 28 {
            assert(line_free(vs[28]));
        } else if k == 29 {
            assert(line_free(vs[29]));
        } else if k == 30 {
            assert(line_free(vs[30]));
        } else {
            assert(line_free(vs[31]));
        }
    }
}

/// On a fresh environment — the file absent — any one-line entry whose
/// trimmed text is non-empty leads, once the file is written, to exactly
/// the configuration holding that path and the default theme.
pub proof fn lemma_fresh_run(file: Seq<char>, line: Seq<char>)
    requires
        trim_spec(line).len() > 0,
        line_free(trim_spec(line)),
    ensures
        ({
            let s1 = step_model(StateModel::CheckFile { file }, EventModel::FileFound(false));
            let s2 = step_model(s1, EventModel::LineRead(Some(line)));
            let s3 = step_model(s2, EventModel::FileWritten(true));
            let c = ConfigModel { music_database: trim_spec(line), theme: default_theme_model() };
            &&& s1 == StateModel::AwaitInput { file }
            &&& s2 == StateModel::WriteFile { file, text: emit_document(c), config: c }
            &&& s3 == StateModel::Done { config: c }
            &&& config_valid(c)
        }),
{
}

/// An empty or white-space-only entry fails with `ValidationError`, and the
/// failure is terminal: no event is accepted after it, so no file is ever
/// written.
pub proof fn lemma_empty_input_rejected(file: Seq<char>, line: Seq<char>)
    requires
        trim_spec(line).len() == 0,
    ensures
        step_model(StateModel::AwaitInput { file }, EventModel::LineRead(Some(line))) == (
        StateModel::Failed { error: ConfigError::ValidationError }),
        (forall|e: EventModel|
            !accepts(StateModel::Failed { error: ConfigError::ValidationError }, e)),
{
}

/// When no home directory can be determined the resolution fails with
/// `EnvironmentError` before any directory or file is touched, and the
/// failure is terminal.
pub proof fn lemma_missing_home_fails()
    ensures
        step_model(StateModel::Locate, EventModel::HomeFound(None)) == (
        StateModel::Failed { error: ConfigError::EnvironmentError }),
        (forall|e: EventModel|
            !accepts(StateModel::Failed { error: ConfigError::EnvironmentError }, e)),
{
}

/// When the configuration directory cannot be created the resolution fails
/// with `IOError`, terminally.
pub proof fn lemma_dir_failure_fails(dir: Seq<char>, file: Seq<char>)
    ensures
        step_model(StateModel::EnsureDir { dir, file }, EventModel::DirEnsured(false)) == (
        StateModel::Failed { error: ConfigError::IOError }),
        (forall|e: EventModel| !accepts(StateModel::Failed { error: ConfigError::IOError }, e)),
{
}

/// Two resolutions that read the same on-disk text end alike — resolving is
/// idempotent while the file is unchanged — and a successful one returns
/// exactly what the text parses to.
pub proof fn lemma_resolve_idempotent(file1: Seq<char>, file2: Seq<char>, text: Seq<char>)
    ensures
        ({
            let r1 = step_model(
                step_model(StateModel::CheckFile { file: file1 }, EventModel::FileFound(true)),
                EventModel::FileRead(Some(text)),
            );
            let r2 = step_model(
                step_model(StateModel::CheckFile { file: file2 }, EventModel::FileFound(true)),
                EventModel::FileRead(Some(text)),
            );
            &&& r1 == r2
            &&& (r1 matches StateModel::Done { config } ==> parse_document(text) == Some(config)
                && config_valid(config))
            &&& (r1 is Failed <==> parse_document(text) is None)
        }),
{
    crate::document::lemma_parse_normalizes(text);
}

/// A configuration resolved from disk is valid — its music database path
/// is never empty — and saving it again produces a file that the next
/// resolution loads back to the very same configuration.
pub proof fn lemma_loaded_config_is_stable(file: Seq<char>, text: Seq<char>)
    ensures
        (step_model(StateModel::ReadFile { file }, EventModel::FileRead(Some(text)))
            matches StateModel::Done { config } ==> config_valid(config) && step_model(
            StateModel::ReadFile { file },
            EventModel::FileRead(Some(emit_document(config))),
        ) == (StateModel::Done { config })),
{
    crate::document::lemma_parse_normalizes(text);
}

/// Round trip through the disk: the text written on a fresh run parses back
/// to the very configuration that was returned, so the next resolution
/// yields a deep-equal value.
pub proof fn lemma_written_file_reads_back(file: Seq<char>, line: Seq<char>)
    requires
        trim_spec(line).len() > 0,
        line_free(trim_spec(line)),
    ensures
        ({
            let c = ConfigModel { music_database: trim_spec(line), theme: default_theme_model() };
            step_model(
                StateModel::ReadFile { file },
                EventModel::FileRead(Some(emit_document(c))),
            ) == StateModel::Done { config: c }
        }),
{
    let c = ConfigModel { music_database: trim_spec(line), theme: default_theme_model() };
    lemma_default_model_line_free(trim_spec(line));
    crate::document::lemma_document_round_trip(c);
}

} // verus!
