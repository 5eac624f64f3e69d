//! The two resolution pipelines, as the decisions between the service
//! calls. The transport performs each call and hands the outcome back;
//! every decision on an outcome is verified here for every value it can
//! take.
//!
//! The by-name pipeline swallows exactly one failure — forward geocoding
//! matching nothing — into a fixed apology; every other failure, in either
//! pipeline, propagates. The asymmetry (the by-coordinates pipeline
//! swallows nothing) is deliberate and kept.
use vstd::prelude::*;
use crate::{Coordinates, CoordinatesView};
use crate::geocode::{parse_reverse_geocode, reverse_result_view, GeoError};
use crate::jsonio::body_view;
use crate::messages::{apology_text, apology_view};
use crate::report::{
    format_by_coordinates,
    format_by_name,
    report_by_coordinates_view,
    report_by_name_view,
};
use crate::weather::{parse_weather_response, weather_result_view, WeatherSnapshot};

verus! {

/// A failure no pipeline recovers from: the network broke down, a response
/// could not be decoded, or an expected field was absent.
#[derive(Debug, Clone, Copy, PartialEq, Eq, Structural)]
pub struct TransportError;

/// What the by-name pipeline does after forward geocoding: go on to the
/// weather fetch, answer with the apology, or fail.
#[derive(Debug, Clone, PartialEq)]
pub enum ByNameStep {
    FetchWeather(Coordinates),
    Report(String),
    Fail(TransportError),
}

pub enum ByNameStepView {
    FetchWeather(CoordinatesView),
    Report(Seq<char>),
    Fail,
}

impl View for ByNameStep {
    type V = ByNameStepView;

    open spec fn view(&self) -> ByNameStepView {
        match self {
            ByNameStep::FetchWeather(c) => ByNameStepView::FetchWeather(c@),
            ByNameStep::Report(s) => ByNameStepView::Report(s@),
            ByNameStep::Fail(e) => ByNameStepView::Fail,
        }
    }
}

/// Decides the by-name pipeline after forward geocoding. Zero results are
/// swallowed into the fixed apology — never a propagated failure; a
/// transport failure propagates; coordinates go on to the weather fetch.
pub fn by_name_geocode_step(geo: Result<Coordinates, GeoError>) -> (r: ByNameStep)
    ensures
        geo matches Ok(c) ==> r@ == ByNameStepView::FetchWeather(c@),
        geo matches Err(e) && e == GeoError::NoResults ==> r@ == ByNameStepView::Report(
            apology_view(),
        ),
        geo matches Err(e) && e == GeoError::Transport ==> r@ == ByNameStepView::Fail,
{
    match geo {
        Ok(c) => ByNameStep::FetchWeather(c),
        Err(GeoError::NoResults) => ByNameStep::Report(apology_text()),
        Err(GeoError::Transport) => ByNameStep::Fail(TransportError),
    }
}

/// Ends the by-name pipeline after the weather fetch: a snapshot becomes
/// the full report, a failed fetch propagates — never a partial report.
pub fn by_name_weather_step(
    location: &str,
    province: &str,
    country: &str,
    snapshot: Option<WeatherSnapshot>,
) -> (r: Result<String, TransportError>)
    ensures
        snapshot matches Some(w) ==> (r matches Ok(s) && s@ == report_by_name_view(
            location@,
            province@,
            country@,
            w@,
        )),
        snapshot is None ==> r is Err,
{
    match snapshot {
        Some(w) => Ok(format_by_name(location, province, country, &w)),
        None => Err(TransportError),
    }
}

/// Ends the by-coordinates pipeline: only a resolved display name and a
/// snapshot together yield a report; a failure of either call propagates —
/// never a partial report.
pub fn by_coordinates_step(
    name: Option<String>,
    snapshot: Option<WeatherSnapshot>,
) -> (r: Result<String, TransportError>)
    ensures
        name matches Some(n) ==> snapshot matches Some(w) ==> (r matches Ok(s) && s@
            == report_by_coordinates_view(n@, w@)),
        name is None || snapshot is None ==> r == Result::<String, TransportError>::Err(
            TransportError,
        ),
{
    match name {
        Some(n) => match snapshot {
            Some(w) => Ok(format_by_coordinates(n.as_str(), &w)),
            None => Err(TransportError),
        },
        None => Err(TransportError),
    }
}

/// The whole by-coordinates pipeline once both independent calls came
/// back: reads the reverse-geocoding body and the weather body (either
/// absent where its call failed) and formats the report — exactly when
/// both bodies resolve, and a transport error whenever either does not.
pub fn resolve_by_coordinates_pipeline(
    reverse_body: Option<&str>,
    weather_body: Option<&str>,
) -> (r: Result<String, TransportError>)
    ensures
        ({
            let n = reverse_result_view(body_view(reverse_body));
            let w = weather_result_view(body_view(weather_body));
            match n {
                Some(nm) => match w {
                    Some(ws) => r matches Ok(s) && s@ == report_by_coordinates_view(nm, ws),
                    None => r == Result::<String, TransportError>::Err(TransportError),
                },
                None => r == Result::<String, TransportError>::Err(TransportError),
            }
        }),
{
    let name = parse_reverse_geocode(reverse_body);
    let snapshot = parse_weather_response(weather_body);
    by_coordinates_step(name, snapshot)
}

} // verus!
