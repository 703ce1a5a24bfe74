//! The startup controller: which window becomes visible at launch, and the
//! promote-to-main command. Both are decisions from plain values to plain
//! values; the host performs the actions and feeds back what it read.
use vstd::prelude::*;
use crate::document::{
    flag_is_set, with_flag, bool_text, keys_with, member_true, text_keys, text_is_json, text_is_object, text_members,
    DocumentError,
};

verus! {

/// Where the configuration document lives, relative to the working directory.
pub const CONFIG_FILE_PATH: &'static str = "program.json";

/// The member of the configuration document that asks for the welcome flow.
pub const SHOW_WELCOME_KEY: &'static str = "showWelcome";

/// The windows that the controller knows by name.
#[derive(Clone, Copy, Debug, PartialEq, Eq, Structural)]
pub enum WindowName {
    Splash,
    Main,
    Welcome,
}

impl WindowName {
    /// The label under which the window host knows the window.
    pub fn label(&self) -> (r: &'static str)
        ensures
            r@ == self.label_spec(),
    {
        match self {
            WindowName::Splash => "splash",
            WindowName::Main => "main",
            WindowName::Welcome => "welcome",
        }
    }

    pub open spec fn label_spec(&self) -> Seq<char> {
        match self {
            WindowName::Splash => "splash"@,
            WindowName::Main => "main"@,
            WindowName::Welcome => "welcome"@,
        }
    }
}

/// A diagnostic line sent to the splash window's log stream.
#[derive(Clone, Copy, Debug, PartialEq, Eq, Structural)]
pub enum LogLine {
    StartInitializing,
    ReadProgramData,
    LoadingUi,
    /// The configuration document could not be read.
    CannotRead,
    /// The configuration document could not be parsed.
    CannotParse,
    /// The configuration document could not be rewritten.
    CannotUpdate,
}

/// What the host is asked to do, in order.
#[derive(Clone, Copy, Debug, PartialEq, Eq, Structural)]
pub enum Action {
    /// Emit a log event to the splash window.
    Log(LogLine),
    Show(WindowName),
    Close(WindowName),
    /// Read the configuration document and report back with an event.
    ReadConfig,
    /// Stop the process: the startup cannot go on.
    Abort,
}

/// Where a startup pass stands.
#[derive(Clone, Copy, Debug, PartialEq, Eq, Structural)]
pub enum Phase {
    /// Only the splash window is visible.
    Initial,
    /// Waiting for the configuration document.
    AwaitingConfig,
    WelcomeShown,
    MainShown,
    Failed(StartupError),
}

/// Fatal startup conditions, each told apart from the others.
#[derive(Clone, Copy, Debug, PartialEq, Eq, Structural)]
pub enum StartupError {
    /// The configuration document is missing or unreadable.
    ConfigUnreadable,
    /// The configuration document is not well-formed JSON.
    ConfigMalformed,
    /// The configuration document is well-formed but not an object.
    ConfigNotAnObject,
    /// The updated configuration document could not be rendered; the contract
    /// of `open_main_window` shows that this does not happen.
    ConfigUnrenderable,
}

impl StartupError {
    /// The log line that reports the failure before the process stops.
    pub fn log_line(&self) -> (r: LogLine)
        ensures
            r == (match self {
                StartupError::ConfigUnreadable => LogLine::CannotRead,
                StartupError::ConfigMalformed => LogLine::CannotParse,
                _ => LogLine::CannotUpdate,
            }),
    {
        match self {
            StartupError::ConfigUnreadable => LogLine::CannotRead,
            StartupError::ConfigMalformed => LogLine::CannotParse,
            _ => LogLine::CannotUpdate,
        }
    }
}

/// What the host reports to the controller.
pub enum Event {
    Launched,
    /// The configuration document was read and holds this text.
    ConfigRead(String),
    /// The configuration document could not be read.
    ConfigUnreadable,
}

impl LogLine {
    /// The text of the log event; the two failure lines name the document.
    pub fn text(&self) -> (r: String)
        ensures
            r@ == self.text_spec(),
    {
        match self {
            LogLine::StartInitializing => String::from_str("Start initializing..."),
            LogLine::ReadProgramData => String::from_str("Read program data..."),
            LogLine::LoadingUi => String::from_str("Loading UI..."),
            LogLine::CannotRead => String::from_str("Can't read file: ").concat(CONFIG_FILE_PATH),
            LogLine::CannotParse => String::from_str("Can't parse ").concat(CONFIG_FILE_PATH),
            LogLine::CannotUpdate => String::from_str("Can't update ").concat(CONFIG_FILE_PATH),
        }
    }

    pub open spec fn text_spec(&self) -> Seq<char> {
        match self {
            LogLine::StartInitializing => "Start initializing..."@,
            LogLine::ReadProgramData => "Read program data..."@,
            LogLine::LoadingUi => "Loading UI..."@,
            LogLine::CannotRead => "Can't read file: "@ + CONFIG_FILE_PATH@,
            LogLine::CannotParse => "Can't parse "@ + CONFIG_FILE_PATH@,
            LogLine::CannotUpdate => "Can't update "@ + CONFIG_FILE_PATH@,
        }
    }
}

/// Whether a configuration text asks for the welcome flow.
pub open spec fn wants_welcome(text: Seq<char>) -> bool {
    member_true(text_members(text), SHOW_WELCOME_KEY@)
}

/// The phase and actions that follow `event` in `phase`. Events that do not
/// belong to the phase leave it as it is and ask for nothing.
pub open spec fn step_spec(phase: Phase, event: Event) -> (Phase, Seq<Action>) {
    match (phase, event) {
        (Phase::Initial, Event::Launched) => (
            Phase::AwaitingConfig,
            seq![
                Action::Log(LogLine::StartInitializing),
                Action::Log(LogLine::ReadProgramData),
                Action::ReadConfig,
            ],
        ),
        (Phase::AwaitingConfig, Event::ConfigUnreadable) => (
            Phase::Failed(StartupError::ConfigUnreadable),
            seq![Action::Log(LogLine::CannotRead), Action::Abort],
        ),
        (Phase::AwaitingConfig, Event::ConfigRead(text)) => if !text_is_json(text@) {
            (
                Phase::Failed(StartupError::ConfigMalformed),
                seq![Action::Log(LogLine::CannotParse), Action::Abort],
            )
        } else if wants_welcome(text@) {
            (Phase::WelcomeShown, seq![Action::Log(LogLine::LoadingUi), Action::Show(WindowName::Welcome)])
        } else {
            (Phase::MainShown, seq![Action::Log(LogLine::LoadingUi), Action::Show(WindowName::Main)])
        },
        _ => (phase, seq![]),
    }
}

/// One step of the startup pass.
pub fn startup_step(phase: Phase, event: Event) -> (r: (Phase, Vec<Action>))
    ensures
        (r.0, r.1@) == step_spec(phase, event),
{
    match (phase, event) {
        (Phase::Initial, Event::Launched) => (
            Phase::AwaitingConfig,
            vec![
                Action::Log(LogLine::StartInitializing),
                Action::Log(LogLine::ReadProgramData),
                Action::ReadConfig,
            ],
        ),
        (Phase::AwaitingConfig, Event::ConfigUnreadable) => (
            Phase::Failed(StartupError::ConfigUnreadable),
            vec![Action::Log(LogLine::CannotRead), Action::Abort],
        ),
        (Phase::AwaitingConfig, Event::ConfigRead(text)) => match flag_is_set(
            text.as_str(),
            SHOW_WELCOME_KEY,
        ) {
            Err(_) => (
                Phase::Failed(StartupError::ConfigMalformed),
                vec![Action::Log(LogLine::CannotParse), Action::Abort],
            ),
            Ok(true) => (
                Phase::WelcomeShown,
                vec![Action::Log(LogLine::LoadingUi), Action::Show(WindowName::Welcome)],
            ),
            Ok(false) => (
                Phase::MainShown,
                vec![Action::Log(LogLine::LoadingUi), Action::Show(WindowName::Main)],
            ),
        },
        _ => (phase, vec![]),
    }
}

/// The window actions of the promote-to-main command, in order; the host then
/// reads the configuration document and hands it to `open_main_window`.
pub fn open_main_window_actions() -> (r: Vec<Action>)
    ensures
        r@ == seq![Action::Show(WindowName::Main), Action::Close(WindowName::Welcome), Action::ReadConfig],
{
    vec![Action::Show(WindowName::Main), Action::Close(WindowName::Welcome), Action::ReadConfig]
}

/// The configuration text that the promote-to-main command writes back, given
/// what was read (`None` when the document could not be read): the same
/// document with `showWelcome` set to `false` and every other member kept.
pub fn open_main_window(read: Option<String>) -> (r: Result<String, StartupError>)
    ensures
        read is None ==> r == Err::<String, StartupError>(StartupError::ConfigUnreadable),
        read matches Some(text) ==> {
            &&& r is Ok <==> text_is_json(text@) && text_is_object(text@)
            &&& !text_is_json(text@) <==> r == Err::<String, StartupError>(
                StartupError::ConfigMalformed,
            )
            &&& text_is_json(text@) && !text_is_object(text@) <==> r == Err::<String, StartupError>(
                StartupError::ConfigNotAnObject,
            )
            &&& r matches Ok(out) ==> promoted(text@, out@)
        },
        r is Ok ==> read is Some,
{
    match read {
        None => Err(StartupError::ConfigUnreadable),
        Some(text) => match with_flag(text.as_str(), SHOW_WELCOME_KEY, false) {
            Ok(out) => Ok(out),
            Err(DocumentError::Malformed) => Err(StartupError::ConfigMalformed),
            Err(DocumentError::NotAnObject) => Err(StartupError::ConfigNotAnObject),
            Err(DocumentError::Unrenderable) => Err(StartupError::ConfigUnrenderable),
        },
    }
}

/// `after` is the document `before` with `showWelcome` set to `false`: a
/// well-formed object whose members are those of `before` but for that one,
/// with the keys in the same order (`showWelcome` last where it was absent).
pub open spec fn promoted(before: Seq<char>, after: Seq<char>) -> bool {
    &&& text_is_json(after)
    &&& text_is_object(after)
    &&& text_members(after) == text_members(before).insert(SHOW_WELCOME_KEY@, bool_text(false))
    &&& text_keys(after) == keys_with(text_keys(before), SHOW_WELCOME_KEY@)
}

/// The actions of a whole startup pass: launch, then the document read as `s`.
pub open spec fn pass_actions(s: String) -> Seq<Action> {
    step_spec(Phase::Initial, Event::Launched).1 + step_spec(
        Phase::AwaitingConfig,
        Event::ConfigRead(s),
    ).1
}

/// A startup pass on a well-formed document shows exactly one window, the
/// welcome window when `showWelcome` is `true` and the main window otherwise;
/// it closes nothing and never writes the document.
pub proof fn startup_shows_one_window(s: String)
    requires
        text_is_json(s@),
    ensures
        step_spec(Phase::Initial, Event::Launched).0 == Phase::AwaitingConfig,
        step_spec(Phase::AwaitingConfig, Event::ConfigRead(s)).0 == (if wants_welcome(s@) {
            Phase::WelcomeShown
        } else {
            Phase::MainShown
        }),
        forall|i: int|
            0 <= i < pass_actions(s).len() ==> !(pass_actions(s)[i] is Close)
                && !(pass_actions(s)[i] is Abort),
        forall|i: int|
            0 <= i < pass_actions(s).len() && pass_actions(s)[i] is Show ==> pass_actions(s)[i] == Action::Show(
                if wants_welcome(s@) {
                    WindowName::Welcome
                } else {
                    WindowName::Main
                },
            ),
        exists|i: int|
            0 <= i < pass_actions(s).len() && pass_actions(s)[i] is Show,
{
    let acts = pass_actions(s);
    assert(acts.len() == 5);
    assert(acts[4] is Show);
}

/// The two read failures of a startup pass are told apart: each ends the pass
/// in its own failed phase, after a log line of its own and before an abort.
pub proof fn startup_failures_distinct(s: String)
    requires
        !text_is_json(s@),
    ensures
        step_spec(Phase::AwaitingConfig, Event::ConfigUnreadable) == (
            Phase::Failed(StartupError::ConfigUnreadable),
            seq![Action::Log(LogLine::CannotRead), Action::Abort],
        ),
        step_spec(Phase::AwaitingConfig, Event::ConfigRead(s)) == (
            Phase::Failed(StartupError::ConfigMalformed),
            seq![Action::Log(LogLine::CannotParse), Action::Abort],
        ),
        LogLine::CannotRead.text_spec() != LogLine::CannotParse.text_spec(),
{
    reveal_strlit("Can't read file: ");
    reveal_strlit("Can't parse ");
    assert(LogLine::CannotRead.text_spec()[6] != LogLine::CannotParse.text_spec()[6]);
}

/// After promote-to-main, the next startup pass shows the main window, and
/// every member of the document other than `showWelcome` is kept as it was.
pub proof fn promote_then_startup_shows_main(before: Seq<char>, after: String)
    requires
        promoted(before, after@),
    ensures
        !wants_welcome(after@),
        step_spec(Phase::AwaitingConfig, Event::ConfigRead(after)).0 == Phase::MainShown,
        forall|k: Seq<char>|
            k != SHOW_WELCOME_KEY@ ==> (text_members(after@).contains_key(k) <==> text_members(
                before,
            ).contains_key(k)) && (text_members(before).contains_key(k) ==> text_members(
                after@,
            )[k] == text_members(before)[k]),
{
    assert(bool_text(false)[0] != bool_text(true)[0]);
}

} // verus!
