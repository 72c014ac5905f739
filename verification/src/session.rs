//! The lookup session as a state machine: the caller asks, fetches and
//! shows; the machine decides what comes next.

use crate::menu::{choose_country, country_choice};
use crate::text::{eq_ignore_ascii_case, match_ignoring_ascii_case, trim, trimmed};
use vstd::prelude::*;
use vstd::string::StringExecFns;

verus! {

/// Where a session stands.
#[derive(Debug, Clone)]
pub enum SessionState {
    /// Waiting for the name of a city.
    PromptingCity,
    /// Waiting for a country code for the city.
    PromptingCountry { city: String },
    /// Waiting for the provider's answer.
    Fetching { city: String, country: String },
    /// Waiting for the report to be shown.
    Displaying,
    /// The session is over.
    Exit,
}

/// What happened since the last step.
#[derive(Debug, Clone)]
pub enum SessionEvent {
    /// The user entered a line.
    Line(String),
    /// The input ended or was interrupted.
    EndOfInput,
    /// The provider's answer arrived and was read.
    Fetched,
    /// The lookup failed, or its answer could not be read.
    FetchFailed,
    /// The report was shown.
    Displayed,
}

/// What the caller does next.
#[derive(Debug, Clone)]
pub enum SessionAction {
    /// Ask for a city.
    PromptCity,
    /// Ask for a country code.
    PromptCountry,
    /// Look up the weather.
    Fetch { city: String, country: String },
    /// Show the report.
    Display,
    /// Tell the user of the failure, then ask for a city.
    ReportError,
    /// Say goodbye and stop.
    Leave,
}

/// A state with its texts as sequences of characters.
pub enum StateView {
    PromptingCity,
    PromptingCountry { city: Seq<char> },
    Fetching { city: Seq<char>, country: Seq<char> },
    Displaying,
    Exit,
}

/// An action with its texts as sequences of characters.
pub enum ActionView {
    PromptCity,
    PromptCountry,
    Fetch { city: Seq<char>, country: Seq<char> },
    Display,
    ReportError,
    Leave,
}

impl View for SessionState {
    type V = StateView;

    open spec fn view(&self) -> StateView {
        match self {
            SessionState::PromptingCity => StateView::PromptingCity,
            SessionState::PromptingCountry { city } => StateView::PromptingCountry { city: city@ },
            SessionState::Fetching { city, country } => StateView::Fetching {
                city: city@,
                country: country@,
            },
            SessionState::Displaying => StateView::Displaying,
            SessionState::Exit => StateView::Exit,
        }
    }
}

impl View for SessionAction {
    type V = ActionView;

    open spec fn view(&self) -> ActionView {
        match self {
            SessionAction::PromptCity => ActionView::PromptCity,
            SessionAction::PromptCountry => ActionView::PromptCountry,
            SessionAction::Fetch { city, country } => ActionView::Fetch {
                city: city@,
                country: country@,
            },
            SessionAction::Display => ActionView::Display,
            SessionAction::ReportError => ActionView::ReportError,
            SessionAction::Leave => ActionView::Leave,
        }
    }
}

/// Whether an answer, without surrounding white space, asks to leave.
pub open spec fn asks_to_quit(answer: Seq<char>) -> bool {
    match_ignoring_ascii_case(answer, "quit"@)
}

/// What a state asks of the caller while nothing has changed.
pub open spec fn pending_action(state: StateView) -> ActionView {
    match state {
        StateView::PromptingCity => ActionView::PromptCity,
        StateView::PromptingCountry { .. } => ActionView::PromptCountry,
        StateView::Fetching { city, country } => ActionView::Fetch { city, country },
        StateView::Displaying => ActionView::Display,
        StateView::Exit => ActionView::Leave,
    }
}

/// The step on an answer without surrounding white space. A city leads to
/// the question for its country, unless it asks to leave; a country code, or
/// the default in its place, leads to the lookup. A state that waits for no
/// answer stays as it is.
pub open spec fn after_answer(state: StateView, answer: Seq<char>, default_country: Seq<char>) -> (
    StateView,
    ActionView,
) {
    match state {
        StateView::PromptingCity => if asks_to_quit(answer) {
            (StateView::Exit, ActionView::Leave)
        } else {
            (StateView::PromptingCountry { city: answer }, ActionView::PromptCountry)
        },
        StateView::PromptingCountry { city } => {
            let country = country_choice(answer, default_country);
            (StateView::Fetching { city, country }, ActionView::Fetch { city, country })
        },
        _ => (state, pending_action(state)),
    }
}

/// The step on the end of the input: the session is over, whatever it was
/// doing.
pub open spec fn after_end_of_input() -> (StateView, ActionView) {
    (StateView::Exit, ActionView::Leave)
}

/// The step on the outcome of a lookup. Success leads to the report, failure
/// to the question for a city, after the user was told. A state that waits
/// for no lookup stays as it is.
pub open spec fn after_lookup(state: StateView, succeeded: bool) -> (StateView, ActionView) {
    match state {
        StateView::Fetching { .. } => if succeeded {
            (StateView::Displaying, ActionView::Display)
        } else {
            (StateView::PromptingCity, ActionView::ReportError)
        },
        _ => (state, pending_action(state)),
    }
}

/// The step once the report was shown: back to the question for a city.
pub open spec fn after_display(state: StateView) -> (StateView, ActionView) {
    match state {
        StateView::Displaying => (StateView::PromptingCity, ActionView::PromptCity),
        _ => (state, pending_action(state)),
    }
}

/// The step on any event. The white space around a line does not count.
pub open spec fn after_event(state: StateView, event: SessionEvent, default_country: Seq<char>) -> (
    StateView,
    ActionView,
) {
    match event {
        SessionEvent::Line(line) => after_answer(state, trimmed(line@), default_country),
        SessionEvent::EndOfInput => after_end_of_input(),
        SessionEvent::Fetched => after_lookup(state, true),
        SessionEvent::FetchFailed => after_lookup(state, false),
        SessionEvent::Displayed => after_display(state),
    }
}

fn pending(state: SessionState) -> (next: (SessionState, SessionAction))
    ensures
        next.0@ == state@,
        next.1@ == pending_action(state@),
{
    match state {
        SessionState::PromptingCity => (SessionState::PromptingCity, SessionAction::PromptCity),
        SessionState::PromptingCountry { city } => (
            SessionState::PromptingCountry { city },
            SessionAction::PromptCountry,
        ),
        SessionState::Fetching { city, country } => {
            let action = SessionAction::Fetch { city: city.clone(), country: country.clone() };
            (SessionState::Fetching { city, country }, action)
        },
        SessionState::Displaying => (SessionState::Displaying, SessionAction::Display),
        SessionState::Exit => (SessionState::Exit, SessionAction::Leave),
    }
}

/// Steps on an answer that has no surrounding white space.
pub fn on_answer(state: SessionState, answer: &str, default_country: &str) -> (next: (
    SessionState,
    SessionAction,
))
    ensures
        (next.0@, next.1@) == after_answer(state@, answer@, default_country@),
{
    match state {
        SessionState::PromptingCity => {
            if eq_ignore_ascii_case(answer, "quit") {
                (SessionState::Exit, SessionAction::Leave)
            } else {
                (
                    SessionState::PromptingCountry { city: String::from_str(answer) },
                    SessionAction::PromptCountry,
                )
            }
        },
        SessionState::PromptingCountry { city } => {
            let country = choose_country(answer, default_country);
            let action = SessionAction::Fetch { city: city.clone(), country: country.clone() };
            (SessionState::Fetching { city, country }, action)
        },
        other => pending(other),
    }
}

/// Steps on a line as the user typed it: the white space around it does not
/// count.
pub fn on_line(state: SessionState, line: &str, default_country: &str) -> (next: (
    SessionState,
    SessionAction,
))
    ensures
        (next.0@, next.1@) == after_answer(state@, trimmed(line@), default_country@),
{
    on_answer(state, trim(line), default_country)
}

/// Steps on the outcome of a lookup.
pub fn on_lookup(state: SessionState, succeeded: bool) -> (next: (SessionState, SessionAction))
    ensures
        (next.0@, next.1@) == after_lookup(state@, succeeded),
{
    match state {
        SessionState::Fetching { .. } => {
            if succeeded {
                (SessionState::Displaying, SessionAction::Display)
            } else {
                (SessionState::PromptingCity, SessionAction::ReportError)
            }
        },
        other => pending(other),
    }
}

/// Steps once the report was shown.
pub fn on_display(state: SessionState) -> (next: (SessionState, SessionAction))
    ensures
        (next.0@, next.1@) == after_display(state@),
{
    match state {
        SessionState::Displaying => (SessionState::PromptingCity, SessionAction::PromptCity),
        other => pending(other),
    }
}

/// Takes one step of the session.
pub fn step(state: SessionState, event: SessionEvent, default_country: &str) -> (next: (
    SessionState,
    SessionAction,
))
    ensures
        (next.0@, next.1@) == after_event(state@, event, default_country@),
{
    match event {
        SessionEvent::Line(line) => on_line(state, line.as_str(), default_country),
        SessionEvent::EndOfInput => (SessionState::Exit, SessionAction::Leave),
        SessionEvent::Fetched => on_lookup(state, true),
        SessionEvent::FetchFailed => on_lookup(state, false),
        SessionEvent::Displayed => on_display(state),
    }
}

/// A session that is over stays over: no event leads out of the final
/// state, and all it asks for is to leave.
pub proof fn exit_is_final(event: SessionEvent, default_country: Seq<char>)
    ensures
        after_event(StateView::Exit, event, default_country) == (
            StateView::Exit,
            ActionView::Leave,
        ),
{
}

/// The end of the input ends the session from every state.
pub proof fn end_of_input_leaves(state: StateView, default_country: Seq<char>)
    ensures
        after_event(state, SessionEvent::EndOfInput, default_country) == (
            StateView::Exit,
            ActionView::Leave,
        ),
{
}

/// A failed lookup never ends the session: it leads back to the question
/// for a city.
pub proof fn failure_is_recovered(state: StateView, default_country: Seq<char>)
    requires
        state is Fetching,
    ensures
        after_event(state, SessionEvent::FetchFailed, default_country) == (
            StateView::PromptingCity,
            ActionView::ReportError,
        ),
{
}

} // verus!
