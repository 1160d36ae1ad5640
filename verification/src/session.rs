//! A session: from the check of the surroundings to the report that ends the
//! process. The session decides; what it decides on happens elsewhere and
//! comes back as an event.
use vstd::prelude::*;
use crate::action::{
    apply_plan, apply_theme, delete_colors_file, reset_plan, Action, ActionView, Report,
    ReportView, HOME_VARIABLE,
};
use crate::catalog::{match_user_input, payload_of, QUIT_KEY, RESET_KEY};
use crate::text::{same_text, trim, trimmed};

verus! {

/// The environment variable whose presence shows that the process runs
/// inside the terminal.
pub const MARKER_VARIABLE: &'static str = "TERMUX_VERSION";

/// What is shown before the line is read.
pub const PROMPT: &'static str = "Enter theme: ";

/// The report of a session outside the terminal.
pub const NOT_IN_TERMUX: &'static str = "Termux environment not found";

/// The report of a line that selects nothing.
pub const INVALID_INPUT: &'static str = "Invalid input";

/// The report of a theme applied.
pub const THEME_UPDATED: &'static str = "Theme updated";

/// The report of the colours reset.
pub const THEME_RESET: &'static str = "Theme reset";

/// What stands before the cause in the report of a failure.
pub const ERROR_PREFIX: &'static str = "Error: ";

/// The status of a process that ended as it should.
pub const STATUS_OK: i32 = 0;

/// The status of a process that was started outside the terminal.
pub const STATUS_NOT_IN_TERMUX: i32 = 1;

/// What a line of input asks for.
#[derive(Debug, Clone, Copy, PartialEq, Eq)]
pub enum Command {
    /// End the session with nothing done.
    Quit,
    /// Remove the colours file.
    Reset,
    /// Apply the theme with these colour definitions.
    Apply(&'static str),
    /// The line selects nothing.
    Invalid,
}

/// A command as contracts see it.
pub enum CommandView {
    Quit,
    Reset,
    Apply(Seq<char>),
    Invalid,
}

impl View for Command {
    type V = CommandView;

    open spec fn view(&self) -> CommandView {
        match *self {
            Command::Quit => CommandView::Quit,
            Command::Reset => CommandView::Reset,
            Command::Apply(payload) => CommandView::Apply(payload@),
            Command::Invalid => CommandView::Invalid,
        }
    }
}

/// What `word` asks for, taken as it stands: the quit key, the reset key,
/// the key of a theme, or nothing that the session knows.
pub open spec fn command_for(word: Seq<char>) -> CommandView {
    if word == QUIT_KEY@ {
        CommandView::Quit
    } else if word == RESET_KEY@ {
        CommandView::Reset
    } else {
        match payload_of(word) {
            Some(payload) => CommandView::Apply(payload),
            None => CommandView::Invalid,
        }
    }
}

/// What `line` asks for: what is left of it when the whitespace around it is
/// dropped.
pub open spec fn command_of(line: Seq<char>) -> CommandView {
    command_for(trimmed(line))
}

/// Decides what `word` asks for, taken as it stands.
pub fn classify(word: &str) -> (command: Command)
    ensures
        command@ == command_for(word@),
{
    if same_text(word, QUIT_KEY) {
        Command::Quit
    } else if same_text(word, RESET_KEY) {
        Command::Reset
    } else {
        match match_user_input(word) {
            Some(payload) => Command::Apply(payload),
            None => Command::Invalid,
        }
    }
}

/// Decides what `line` asks for.
pub fn dispatch(line: &str) -> (command: Command)
    ensures
        command@ == command_of(line@),
{
    classify(trim(line))
}

/// What a session has been asked to do to the colours file.
#[derive(Debug, Clone, Copy, PartialEq, Eq)]
pub enum Request {
    /// Write these colour definitions.
    Apply(&'static str),
    /// Remove the file.
    Reset,
}

/// A request as contracts see it.
pub enum RequestView {
    Apply(Seq<char>),
    Reset,
}

impl View for Request {
    type V = RequestView;

    open spec fn view(&self) -> RequestView {
        match *self {
            Request::Apply(payload) => RequestView::Apply(payload@),
            Request::Reset => RequestView::Reset,
        }
    }
}

impl RequestView {
    /// The steps that carry the request out below `home`.
    pub open spec fn plan(self, home: Seq<char>) -> Seq<ActionView> {
        match self {
            RequestView::Apply(payload) => apply_plan(home, payload),
            RequestView::Reset => reset_plan(home),
        }
    }

    /// The command that makes the request.
    pub open spec fn command(self) -> CommandView {
        match self {
            RequestView::Apply(payload) => CommandView::Apply(payload),
            RequestView::Reset => CommandView::Reset,
        }
    }

    /// What is reported when every step has succeeded.
    pub open spec fn success(self) -> Seq<char> {
        match self {
            RequestView::Apply(_) => THEME_UPDATED@,
            RequestView::Reset => THEME_RESET@,
        }
    }
}

/// What came of the last action.
#[derive(Debug, Clone, PartialEq, Eq)]
pub enum Event {
    /// The text that was read: the value of the variable, or the line.
    Text(String),
    /// The action was carried out.
    Done,
    /// The action failed, for this cause.
    Failed(String),
}

/// An event as contracts see it.
pub enum EventView {
    Text(Seq<char>),
    Done,
    Failed(Seq<char>),
}

impl EventView {
    /// The text that was read, where the event brings one.
    pub open spec fn text(self) -> Seq<char> {
        match self {
            EventView::Text(text) => text,
            _ => Seq::empty(),
        }
    }
}

impl View for Event {
    type V = EventView;

    open spec fn view(&self) -> EventView {
        match *self {
            Event::Text(text) => EventView::Text(text@),
            Event::Done => EventView::Done,
            Event::Failed(cause) => EventView::Failed(cause@),
        }
    }
}

/// Where a session stands.
#[derive(Debug, Clone, PartialEq, Eq)]
pub enum State {
    /// The marker variable is being read.
    Gate,
    /// The menu is shown and the line is being read.
    AwaitingInput,
    /// The home directory is being read, to carry out `request` below it.
    AwaitingHome { request: Request },
    /// A step of `request` is being carried out; `pending` are the steps
    /// that follow it.
    Running { request: Request, pending: Vec<Action> },
    /// The session has ended.
    Finished,
}

/// A state as contracts see it.
pub enum StateView {
    Gate,
    AwaitingInput,
    AwaitingHome { request: RequestView },
    Running { request: RequestView, pending: Seq<ActionView> },
    Finished,
}

impl View for State {
    type V = StateView;

    open spec fn view(&self) -> StateView {
        match *self {
            State::Gate => StateView::Gate,
            State::AwaitingInput => StateView::AwaitingInput,
            State::AwaitingHome { request } => StateView::AwaitingHome { request: request@ },
            State::Running { request, pending } => StateView::Running {
                request: request@,
                pending: pending.deep_view(),
            },
            State::Finished => StateView::Finished,
        }
    }
}

/// The action that ends a session with a line on standard error.
pub open spec fn complaint(line: Seq<char>, status: i32) -> ActionView {
    ActionView::Finish { report: ReportView::Error(line), status }
}

/// The action that ends a session after a failure: the cause is reported on
/// standard error, and the process ends as if nothing had gone wrong.
pub open spec fn failure(cause: Seq<char>) -> ActionView {
    complaint(ERROR_PREFIX@ + cause, STATUS_OK)
}

/// The action with which every session begins.
pub open spec fn first_action() -> ActionView {
    ActionView::ReadVariable { name: MARKER_VARIABLE@ }
}

/// The state that follows `state` on `event`, and the action to carry out
/// next; nothing where the event answers no action of that state.
pub open spec fn next(state: StateView, event: EventView) -> Option<(StateView, ActionView)> {
    match (state, event) {
        (StateView::Gate, EventView::Text(_)) => Some(
            (StateView::AwaitingInput, ActionView::Ask { prompt: PROMPT@ }),
        ),
        (StateView::Gate, EventView::Failed(_)) => Some(
            (StateView::Finished, complaint(NOT_IN_TERMUX@, STATUS_NOT_IN_TERMUX)),
        ),
        (StateView::AwaitingInput, EventView::Text(line)) => match command_of(line) {
            CommandView::Quit => Some(
                (
                    StateView::Finished,
                    ActionView::Finish { report: ReportView::Nothing, status: STATUS_OK },
                ),
            ),
            CommandView::Reset => Some(
                (
                    StateView::AwaitingHome { request: RequestView::Reset },
                    ActionView::ReadVariable { name: HOME_VARIABLE@ },
                ),
            ),
            CommandView::Apply(payload) => Some(
                (
                    StateView::AwaitingHome { request: RequestView::Apply(payload) },
                    ActionView::ReadVariable { name: HOME_VARIABLE@ },
                ),
            ),
            CommandView::Invalid => Some(
                (StateView::Finished, complaint(INVALID_INPUT@, STATUS_OK)),
            ),
        },
        (StateView::AwaitingHome { request }, EventView::Text(home)) => Some(
            (
                StateView::Running { request, pending: request.plan(home).drop_first() },
                request.plan(home).first(),
            ),
        ),
        (StateView::AwaitingHome { .. }, EventView::Failed(cause)) => Some(
            (StateView::Finished, failure(cause)),
        ),
        (StateView::Running { request, pending }, EventView::Done) => if pending.len() == 0 {
            Some(
                (
                    StateView::Finished,
                    ActionView::Finish {
                        report: ReportView::Output(request.success()),
                        status: STATUS_OK,
                    },
                ),
            )
        } else {
            Some(
                (
                    StateView::Running { request, pending: pending.drop_first() },
                    pending.first(),
                ),
            )
        },
        (StateView::Running { .. }, EventView::Failed(cause)) => Some(
            (StateView::Finished, failure(cause)),
        ),
        _ => None,
    }
}

/// The state and the action with which every session begins.
pub fn start() -> (begun: (State, Action))
    ensures
        begun.0@ == StateView::Gate,
        begun.1@ == first_action(),
{
    (State::Gate, Action::ReadVariable { name: String::from_str(MARKER_VARIABLE) })
}

/// The action that ends a session after a failure for `cause`.
fn fail(cause: &str) -> (action: Action)
    ensures
        action@ == failure(cause@),
{
    let mut line = String::from_str(ERROR_PREFIX);
    line.append(cause);
    Action::Finish { report: Report::Error(line), status: STATUS_OK }
}

/// Takes the first of `steps` out: it is carried out next, the others stay
/// pending.
fn take_first(request: Request, steps: Vec<Action>) -> (moved: (State, Action))
    requires
        steps.len() > 0,
    ensures
        moved.0@ == (StateView::Running {
            request: request@,
            pending: steps.deep_view().drop_first(),
        }),
        moved.1@ == steps.deep_view().first(),
{
    let mut pending = steps;
    let action = pending.remove(0);
    assert(pending.deep_view() =~= steps.deep_view().drop_first());
    (State::Running { request, pending }, action)
}

/// Moves a session on: from `state` and the `event` that answers its last
/// action to the state that follows and the action to carry out next.
/// Nothing is returned where the event answers no action of that state.
pub fn step(state: State, event: Event) -> (moved: Option<(State, Action)>)
    ensures
        match moved {
            Some((state_after, action)) => next(state@, event@) == Some((state_after@, action@)),
            None => next(state@, event@) is None,
        },
{
    match state {
        State::Gate => match event {
            Event::Text(_) => Some(
                (State::AwaitingInput, Action::Ask { prompt: String::from_str(PROMPT) }),
            ),
            Event::Failed(_) => Some(
                (
                    State::Finished,
                    Action::Finish {
                        report: Report::Error(String::from_str(NOT_IN_TERMUX)),
                        status: STATUS_NOT_IN_TERMUX,
                    },
                ),
            ),
            Event::Done => None,
        },
        State::AwaitingInput => match event {
            Event::Text(line) => match dispatch(line.as_str()) {
                Command::Quit => Some(
                    (State::Finished, Action::Finish { report: Report::Nothing, status: STATUS_OK }),
                ),
                Command::Reset => Some(
                    (
                        State::AwaitingHome { request: Request::Reset },
                        Action::ReadVariable { name: String::from_str(HOME_VARIABLE) },
                    ),
                ),
                Command::Apply(payload) => Some(
                    (
                        State::AwaitingHome { request: Request::Apply(payload) },
                        Action::ReadVariable { name: String::from_str(HOME_VARIABLE) },
                    ),
                ),
                Command::Invalid => Some(
                    (
                        State::Finished,
                        Action::Finish {
                            report: Report::Error(String::from_str(INVALID_INPUT)),
                            status: STATUS_OK,
                        },
                    ),
                ),
            },
            _ => None,
        },
        State::AwaitingHome { request } => match event {
            Event::Text(home) => {
                let steps = match request {
                    Request::Apply(payload) => apply_theme(home.as_str(), payload),
                    Request::Reset => delete_colors_file(home.as_str()),
                };
                Some(take_first(request, steps))
            },
            Event::Failed(cause) => Some((State::Finished, fail(cause.as_str()))),
            Event::Done => None,
        },
        State::Running { request, pending } => match event {
            Event::Done => if pending.len() == 0 {
                let line = match request {
                    Request::Apply(_) => String::from_str(THEME_UPDATED),
                    Request::Reset => String::from_str(THEME_RESET),
                };
                Some(
                    (
                        State::Finished,
                        Action::Finish { report: Report::Output(line), status: STATUS_OK },
                    ),
                )
            } else {
                Some(take_first(request, pending))
            },
            Event::Failed(cause) => Some((State::Finished, fail(cause.as_str()))),
            Event::Text(_) => None,
        },
        State::Finished => None,
    }
}

} // verus!
