//! The weather snapshot and the reading of a current-conditions response.
use vstd::prelude::*;
use crate::{Coordinates, CoordinatesView};
use crate::jsonio::{
    body_view,
    child_of,
    json_member,
    json_number_text,
    json_of,
    json_parse,
    json_string,
    number_text_at,
    text_at,
};

verus! {

/// One point-in-time weather reading: the condition label and the raw
/// numeric readings, each held as its decimal text rendering, exactly as
/// the report embeds them. No invariant relates the fields; they are the
/// service's raw values.
#[derive(Debug, Clone, PartialEq)]
pub struct WeatherSnapshot {
    pub condition: String,
    pub temperature: String,
    pub feels_like: String,
    pub humidity: String,
    pub precipitation_probability: String,
}

/// The mathematical image of a `WeatherSnapshot`.
pub struct WeatherSnapshotView {
    pub condition: Seq<char>,
    pub temperature: Seq<char>,
    pub feels_like: Seq<char>,
    pub humidity: Seq<char>,
    pub precipitation_probability: Seq<char>,
}

impl View for WeatherSnapshot {
    type V = WeatherSnapshotView;

    open spec fn view(&self) -> WeatherSnapshotView {
        WeatherSnapshotView {
            condition: self.condition@,
            temperature: self.temperature@,
            feels_like: self.feels_like@,
            humidity: self.humidity@,
            precipitation_probability: self.precipitation_probability@,
        }
    }
}

impl WeatherSnapshot {
    pub fn new(
        condition: String,
        temperature: String,
        feels_like: String,
        humidity: String,
        precipitation_probability: String,
    ) -> (r: WeatherSnapshot)
        ensures
            r@.condition == condition@,
            r@.temperature == temperature@,
            r@.feels_like == feels_like@,
            r@.humidity == humidity@,
            r@.precipitation_probability == precipitation_probability@,
    {
        WeatherSnapshot { condition, temperature, feels_like, humidity, precipitation_probability }
    }
}

/// The coordinate part of a current-conditions request.
pub open spec fn weather_query_view(c: CoordinatesView) -> Seq<char> {
    "location.latitude="@ + c.latitude + "&location.longitude="@ + c.longitude
}

/// Builds the coordinate part of a current-conditions request.
pub fn weather_query(c: &Coordinates) -> (r: String)
    ensures
        r@ == weather_query_view(c@),
{
    let mut r = "location.latitude=".to_owned();
    r.append(c.latitude.as_str());
    r.append("&location.longitude=");
    r.append(c.longitude.as_str());
    r
}

/// The five readings of a current-conditions document, if every one is
/// present with its expected type.
pub open spec fn weather_snapshot_of(doc: serde_json::Value) -> Option<WeatherSnapshotView> {
    ({
        let condition = text_at(
            child_of(child_of(child_of(Some(doc), "weatherCondition"@), "description"@), "text"@),
        );
        let temperature = number_text_at(child_of(child_of(Some(doc), "temperature"@), "degrees"@));
        let feels_like = number_text_at(
            child_of(child_of(Some(doc), "feelsLikeTemperature"@), "degrees"@),
        );
        let humidity = number_text_at(child_of(Some(doc), "relativeHumidity"@));
        let precipitation_probability = number_text_at(
            child_of(child_of(child_of(Some(doc), "precipitation"@), "probability"@), "percent"@),
        );
        if condition is Some && temperature is Some && feels_like is Some && humidity is Some
            && precipitation_probability is Some {
            Some(
                WeatherSnapshotView {
                    condition: condition->0,
                    temperature: temperature->0,
                    feels_like: feels_like->0,
                    humidity: humidity->0,
                    precipitation_probability: precipitation_probability->0,
                },
            )
        } else {
            None
        }
    })
}

/// Everything a current-conditions outcome resolves to: the snapshot, or
/// nothing where the call failed, the body is not JSON, or any field is
/// absent or mistyped.
pub open spec fn weather_result_view(body: Option<Seq<char>>) -> Option<WeatherSnapshotView> {
    match body {
        None => None,
        Some(b) => match json_of(b) {
            None => None,
            Some(doc) => weather_snapshot_of(doc),
        },
    }
}

/// Reads a current-conditions response body: exactly what
/// `weather_result_view` says of it. A missing or mistyped field is fatal
/// — no partial snapshot is ever returned.
pub fn parse_weather_response(body: Option<&str>) -> (r: Option<WeatherSnapshot>)
    ensures
        ({
            let v = weather_result_view(body_view(body));
            match v {
                Some(ws) => r matches Some(w) && w@ == ws,
                None => r is None,
            }
        }),
{
    let b = match body {
        Some(b) => b,
        None => {
            return None;
        },
    };
    let doc = match json_parse(b) {
        Some(d) => d,
        None => {
            return None;
        },
    };
    let condition = match json_member(&doc, "weatherCondition") {
        Some(wc) => match json_member(wc, "description") {
            Some(d) => match json_member(d, "text") {
                Some(t) => match json_string(t) {
                    Some(s) => s,
                    None => {
                        return None;
                    },
                },
                None => {
                    return None;
                },
            },
            None => {
                return None;
            },
        },
        None => {
            return None;
        },
    };
    let temperature = match json_member(&doc, "temperature") {
        Some(t) => match json_member(t, "degrees") {
            Some(d) => match json_number_text(d) {
                Some(s) => s,
                None => {
                    return None;
                },
            },
            None => {
                return None;
            },
        },
        None => {
            return None;
        },
    };
    let feels_like = match json_member(&doc, "feelsLikeTemperature") {
        Some(t) => match json_member(t, "degrees") {
            Some(d) => match json_number_text(d) {
                Some(s) => s,
                None => {
                    return None;
                },
            },
            None => {
                return None;
            },
        },
        None => {
            return None;
        },
    };
    let humidity = match json_member(&doc, "relativeHumidity") {
        Some(h) => match json_number_text(h) {
            Some(s) => s,
            None => {
                return None;
            },
        },
        None => {
            return None;
        },
    };
    let precipitation_probability = match json_member(&doc, "precipitation") {
        Some(p) => match json_member(p, "probability") {
            Some(pr) => match json_member(pr, "percent") {
                Some(pc) => match json_number_text(pc) {
                    Some(s) => s,
                    None => {
                        return None;
                    },
                },
                None => {
                    return None;
                },
            },
            None => {
                return None;
            },
        },
        None => {
            return None;
        },
    };
    Some(WeatherSnapshot { condition, temperature, feels_like, humidity, precipitation_probability })
}

} // verus!
