//! The per-conversation dialogue state and the events that drive it.
use vstd::prelude::*;
use crate::{Coordinates, CoordinatesView};

verus! {

/// The commands the agent understands.
#[derive(Debug, Clone, Copy, PartialEq, Eq, Structural)]
pub enum Command {
    Start,
    GetWeather,
    GetWeatherLocation,
    Cancel,
    Help,
}

/// Where a conversation stands. Created as `Idle` on first contact; every
/// branch eventually returns to `Idle`. Each waiting variant carries exactly
/// the text collected so far, so no invalid combination is representable.
#[derive(Debug, Clone, PartialEq)]
pub enum ConversationState {
    Idle,
    AwaitingTextLocation,
    AwaitingAttachedLocation,
    AwaitingProvince { location: String },
    AwaitingCountry { location: String, province: String },
}

/// The mathematical image of a `ConversationState`: text as character
/// sequences.
pub enum StateView {
    Idle,
    AwaitingTextLocation,
    AwaitingAttachedLocation,
    AwaitingProvince { location: Seq<char> },
    AwaitingCountry { location: Seq<char>, province: Seq<char> },
}

impl View for ConversationState {
    type V = StateView;

    open spec fn view(&self) -> StateView {
        match self {
            ConversationState::Idle => StateView::Idle,
            ConversationState::AwaitingTextLocation => StateView::AwaitingTextLocation,
            ConversationState::AwaitingAttachedLocation => StateView::AwaitingAttachedLocation,
            ConversationState::AwaitingProvince { location } => (StateView::AwaitingProvince {
                location: location@,
            }),
            ConversationState::AwaitingCountry { location, province } => (StateView::AwaitingCountry {
                location: location@,
                province: province@,
            }),
        }
    }
}

impl Default for ConversationState {
    /// A conversation begins idle.
    fn default() -> (r: ConversationState)
        ensures
            r@ == StateView::Idle,
    {
        ConversationState::Idle
    }
}

/// One inbound event, as the transport hands it over. A recognised command
/// carries its raw text as well: outside `Idle`, a command other than
/// `Cancel` falls through to the free-text handling of the waiting state,
/// exactly as if the user had typed it.
#[derive(Debug, Clone, PartialEq)]
pub enum Event {
    Command { command: Command, text: String },
    Text(String),
    Location(Coordinates),
    Unsupported,
}

/// The mathematical image of an `Event`.
pub enum EventView {
    Command { command: Command, text: Seq<char> },
    Text(Seq<char>),
    Location(CoordinatesView),
    Unsupported,
}

impl View for Event {
    type V = EventView;

    open spec fn view(&self) -> EventView {
        match self {
            Event::Command { command, text } => (EventView::Command {
                command: *command,
                text: text@,
            }),
            Event::Text(t) => EventView::Text(t@),
            Event::Location(c) => EventView::Location(c@),
            Event::Unsupported => EventView::Unsupported,
        }
    }
}

} // verus!
