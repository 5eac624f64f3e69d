//! A conversational weather agent: a state machine that collects a place
//! description (or a raw coordinate pair) over several turns, resolves it to
//! coordinates through a geocoding service, fetches the current weather for
//! those coordinates, and formats a report.
use vstd::prelude::*;

pub mod engine;
pub mod geocode;
pub mod jsonio;
pub mod messages;
pub mod pipeline;
pub mod report;
pub mod state;
pub mod strutil;
pub mod weather;

verus! {

/// A latitude/longitude pair, each held as its decimal text rendering
/// (finite degrees). The services consume and produce coordinates as text,
/// so the library models them as text throughout.
#[derive(Debug, Clone, PartialEq)]
pub struct Coordinates {
    pub latitude: String,
    pub longitude: String,
}

pub struct CoordinatesView {
    pub latitude: Seq<char>,
    pub longitude: Seq<char>,
}

impl View for Coordinates {
    type V = CoordinatesView;

    open spec fn view(&self) -> CoordinatesView {
        CoordinatesView { latitude: self.latitude@, longitude: self.longitude@ }
    }
}

impl Coordinates {
    pub fn new(latitude: String, longitude: String) -> (r: Coordinates)
        ensures
            r@.latitude == latitude@,
            r@.longitude == longitude@,
    {
        Coordinates { latitude, longitude }
    }
}

} // verus!
