//! The conversation engine: one pure transition per inbound event.
//!
//! `handle` interprets an event against the current state and returns the
//! messages to send, the next state, and, where a completed disclosure
//! triggers one, the lookup to run. The transport around the library
//! performs the lookup and sends the result; the engine has already moved
//! the conversation back to `Idle` by then, so at most one lookup per
//! conversation is ever outstanding.
//!
//! Both lookup transitions send a "please wait" note before their result;
//! for an attached location the note is fixed, since no place name is
//! known until the lookup itself returns one.
//!
//! Two details the state table leaves open are settled here, and deliberately:
//! outside `Idle`, a command other than `Cancel` falls through to the waiting
//! state's free-text handling (its raw text acts as the typed reply), and a
//! plain message arriving in `Idle` is ignored without a reply.
use vstd::prelude::*;
use crate::{Coordinates, CoordinatesView};
use crate::state::{Command, ConversationState, Event, EventView, StateView};
use crate::messages::{
    ask_attach_text,
    ask_attach_view,
    ask_country_text,
    ask_country_view,
    ask_location_text,
    ask_location_view,
    ask_province_text,
    ask_province_view,
    cancel_text,
    cancel_view,
    help_text,
    help_view,
    invalid_attach_text,
    invalid_attach_view,
    invalid_name_text,
    invalid_name_view,
    progress_attach_text,
    progress_attach_view,
    progress_text,
    progress_view,
    welcome_text,
    welcome_view,
};

verus! {

/// A lookup the engine asks the transport to run: forward geocoding of a
/// text triple, or reverse geocoding of an attached coordinate pair.
#[derive(Debug, Clone, PartialEq)]
pub enum LookupRequest {
    ByName { location: String, province: String, country: String },
    ByCoordinates { coordinates: Coordinates },
}

pub enum LookupView {
    ByName { location: Seq<char>, province: Seq<char>, country: Seq<char> },
    ByCoordinates { coordinates: CoordinatesView },
}

impl View for LookupRequest {
    type V = LookupView;

    open spec fn view(&self) -> LookupView {
        match self {
            LookupRequest::ByName { location, province, country } => (LookupView::ByName {
                location: location@,
                province: province@,
                country: country@,
            }),
            LookupRequest::ByCoordinates { coordinates } => (LookupView::ByCoordinates {
                coordinates: coordinates@,
            }),
        }
    }
}

/// What one event amounts to: the messages to send now, the state to store,
/// and the lookup to run, if any.
#[derive(Debug, Clone, PartialEq)]
pub struct Step {
    pub messages: Vec<String>,
    pub next: ConversationState,
    pub lookup: Option<LookupRequest>,
}

pub struct StepView {
    pub messages: Seq<Seq<char>>,
    pub next: StateView,
    pub lookup: Option<LookupView>,
}

impl View for Step {
    type V = StepView;

    open spec fn view(&self) -> StepView {
        StepView {
            messages: self.messages.deep_view(),
            next: self.next@,
            lookup: match self.lookup {
                Some(l) => Some(l@),
                None => None,
            },
        }
    }
}

/// No reply, no lookup, state unchanged.
pub open spec fn silent_step(s: StateView) -> StepView {
    StepView { messages: seq![], next: s, lookup: None }
}

/// One reply, no lookup.
pub open spec fn say_step(m: Seq<char>, next: StateView) -> StepView {
    StepView { messages: seq![m], next, lookup: None }
}

/// The effect of a free-text reply (or of a command that fell through to
/// free-text handling) in each state.
pub open spec fn text_transition(s: StateView, t: Seq<char>) -> StepView {
    match s {
        StateView::Idle => silent_step(s),
        StateView::AwaitingTextLocation => say_step(
            ask_province_view(t),
            StateView::AwaitingProvince { location: t },
        ),
        StateView::AwaitingAttachedLocation => say_step(invalid_attach_view(), s),
        StateView::AwaitingProvince { location } => say_step(
            ask_country_view(location, t),
            StateView::AwaitingCountry { location, province: t },
        ),
        StateView::AwaitingCountry { location, province } => StepView {
            messages: seq![progress_view(location, province, t)],
            next: StateView::Idle,
            lookup: Some(LookupView::ByName { location, province, country: t }),
        },
    }
}

/// The effect of an input that carries neither text nor, in the attach
/// state, a location: a re-prompt, and in the country state a reset.
pub open spec fn non_text_transition(s: StateView) -> StepView {
    match s {
        StateView::Idle => silent_step(s),
        StateView::AwaitingTextLocation => say_step(invalid_name_view(), s),
        StateView::AwaitingAttachedLocation => say_step(invalid_attach_view(), s),
        StateView::AwaitingProvince { location } => say_step(invalid_name_view(), s),
        StateView::AwaitingCountry { location, province } => say_step(
            invalid_name_view(),
            StateView::Idle,
        ),
    }
}

/// The effect of a recognised command. `Cancel` acts from every state; the
/// others act only in `Idle` and otherwise fall through to free-text
/// handling with their raw text.
pub open spec fn command_transition(s: StateView, command: Command, text: Seq<char>) -> StepView {
    if command == Command::Cancel {
        say_step(cancel_view(), StateView::Idle)
    } else {
        match s {
            StateView::Idle => match command {
                Command::Start => say_step(welcome_view(), StateView::Idle),
                Command::GetWeather => say_step(ask_location_view(), StateView::AwaitingTextLocation),
                Command::GetWeatherLocation => say_step(
                    ask_attach_view(),
                    StateView::AwaitingAttachedLocation,
                ),
                Command::Cancel => say_step(cancel_view(), StateView::Idle),
                Command::Help => say_step(help_view(), StateView::Idle),
            },
            _ => text_transition(s, text),
        }
    }
}

/// The whole state table: what any event does in any state.
pub open spec fn transition(s: StateView, e: EventView) -> StepView {
    match e {
        EventView::Command { command, text } => command_transition(s, command, text),
        EventView::Text(t) => text_transition(s, t),
        EventView::Location(c) => match s {
            StateView::AwaitingAttachedLocation => StepView {
                messages: seq![progress_attach_view()],
                next: StateView::Idle,
                lookup: Some(LookupView::ByCoordinates { coordinates: c }),
            },
            _ => non_text_transition(s),
        },
        EventView::Unsupported => non_text_transition(s),
    }
}

fn silent(state: ConversationState) -> (r: Step)
    ensures
        r@ == silent_step(state@),
{
    let r = Step { messages: Vec::new(), next: state, lookup: None };
    proof {
        assert(r@.messages =~= seq![]);
    }
    r
}

fn say(m: String, next: ConversationState) -> (r: Step)
    ensures
        r@ == say_step(m@, next@),
{
    let ghost mv: Seq<char> = m@;
    let mut messages: Vec<String> = Vec::new();
    messages.push(m);
    let r = Step { messages, next, lookup: None };
    proof {
        assert(r@.messages =~= seq![mv]);
    }
    r
}

fn handle_text(state: ConversationState, t: String) -> (r: Step)
    ensures
        r@ == text_transition(state@, t@),
{
    match state {
        ConversationState::Idle => silent(ConversationState::Idle),
        ConversationState::AwaitingTextLocation => {
            let m = ask_province_text(t.as_str());
            say(m, ConversationState::AwaitingProvince { location: t })
        },
        ConversationState::AwaitingAttachedLocation => say(
            invalid_attach_text(),
            ConversationState::AwaitingAttachedLocation,
        ),
        ConversationState::AwaitingProvince { location } => {
            let m = ask_country_text(location.as_str(), t.as_str());
            say(m, ConversationState::AwaitingCountry { location, province: t })
        },
        ConversationState::AwaitingCountry { location, province } => {
            let m = progress_text(location.as_str(), province.as_str(), t.as_str());
            let ghost mv: Seq<char> = m@;
            let mut messages: Vec<String> = Vec::new();
            messages.push(m);
            let r = Step {
                messages,
                next: ConversationState::Idle,
                lookup: Some(LookupRequest::ByName { location, province, country: t }),
            };
            proof {
                assert(r@.messages =~= seq![mv]);
            }
            r
        },
    }
}

fn handle_non_text(state: ConversationState) -> (r: Step)
    ensures
        r@ == non_text_transition(state@),
{
    match state {
        ConversationState::Idle => silent(ConversationState::Idle),
        ConversationState::AwaitingTextLocation => say(
            invalid_name_text(),
            ConversationState::AwaitingTextLocation,
        ),
        ConversationState::AwaitingAttachedLocation => say(
            invalid_attach_text(),
            ConversationState::AwaitingAttachedLocation,
        ),
        ConversationState::AwaitingProvince { location } => say(
            invalid_name_text(),
            ConversationState::AwaitingProvince { location },
        ),
        ConversationState::AwaitingCountry { location, province } => say(
            invalid_name_text(),
            ConversationState::Idle,
        ),
    }
}

fn handle_command(state: ConversationState, command: Command, text: String) -> (r: Step)
    ensures
        r@ == command_transition(state@, command, text@),
{
    if command == Command::Cancel {
        say(cancel_text(), ConversationState::Idle)
    } else {
        match state {
            ConversationState::Idle => match command {
                Command::Start => say(welcome_text(), ConversationState::Idle),
                Command::GetWeather => say(
                    ask_location_text(),
                    ConversationState::AwaitingTextLocation,
                ),
                Command::GetWeatherLocation => say(
                    ask_attach_text(),
                    ConversationState::AwaitingAttachedLocation,
                ),
                Command::Cancel => say(cancel_text(), ConversationState::Idle),
                Command::Help => say(help_text(), ConversationState::Idle),
            },
            _ => handle_text(state, text),
        }
    }
}

/// Interprets one event against the current state: the returned step holds
/// the replies to send now, the state to store, and the lookup to run, if
/// this event completed a location disclosure.
pub fn handle(state: ConversationState, event: Event) -> (r: Step)
    ensures
        r@ == transition(state@, event@),
{
    match event {
        Event::Command { command, text } => handle_command(state, command, text),
        Event::Text(t) => handle_text(state, t),
        Event::Location(c) => match state {
            ConversationState::AwaitingAttachedLocation => {
                let m = progress_attach_text();
                let ghost mv: Seq<char> = m@;
                let mut messages: Vec<String> = Vec::new();
                messages.push(m);
                let r = Step {
                    messages,
                    next: ConversationState::Idle,
                    lookup: Some(LookupRequest::ByCoordinates { coordinates: c }),
                };
                proof {
                    assert(r@.messages =~= seq![mv]);
                }
                r
            },
            _ => handle_non_text(state),
        },
        Event::Unsupported => handle_non_text(state),
    }
}

/// Law: from every state, and whatever text came with it, a `Cancel`
/// command returns the conversation to `Idle`, sends exactly one message —
/// the cancellation acknowledgement — and starts no lookup.
pub proof fn lemma_cancel_resets(s: StateView, text: Seq<char>)
    ensures
        transition(s, EventView::Command { command: Command::Cancel, text }).next == StateView::Idle,
        transition(s, EventView::Command { command: Command::Cancel, text }).messages == seq![
            cancel_view(),
        ],
        transition(s, EventView::Command { command: Command::Cancel, text }).lookup is None,
{
}

/// Law: a step that starts a lookup also returns the conversation to
/// `Idle`, so no event handled later can find it still waiting: at most one
/// lookup per conversation is ever outstanding.
pub proof fn lemma_lookup_returns_to_idle(s: StateView, e: EventView)
    ensures
        transition(s, e).lookup is Some ==> transition(s, e).next == StateView::Idle,
{
}

/// Law: while a typed location is awaited, an input without text leaves the
/// state unchanged and sends exactly one re-prompt.
pub proof fn lemma_awaiting_text_reprompt(e: EventView)
    requires
        e matches EventView::Location(_) || e matches EventView::Unsupported,
    ensures
        transition(StateView::AwaitingTextLocation, e).next == StateView::AwaitingTextLocation,
        transition(StateView::AwaitingTextLocation, e).messages == seq![invalid_name_view()],
        transition(StateView::AwaitingTextLocation, e).lookup is None,
{
}

} // verus!
