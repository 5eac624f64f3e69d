//! Geo resolution: the query text a geocoding call is given, and the
//! reading of its response.
//!
//! The transport around the library performs the HTTP call and hands the
//! response body back (or nothing, on a network failure); what is decided
//! about the body stands here and is verified for every outcome of the
//! serde_json calls it leans on.
use vstd::prelude::*;
use crate::{Coordinates, CoordinatesView};
use crate::jsonio::{
    array_of,
    body_view,
    child_of,
    json_array,
    json_member,
    json_number_text,
    json_of,
    json_parse,
    json_string,
    number_text_at,
    text_at,
};
use crate::strutil::{encode_spaces, plus_encoded};

verus! {

/// How geo resolution fails: the service matched nothing, or the call (or
/// the decoding of its response) broke down.
#[derive(Debug, Clone, Copy, PartialEq, Eq, Structural)]
pub enum GeoError {
    NoResults,
    Transport,
}

/// The address words of a forward-geocoding query, joined by plus signs,
/// with the spaces inside each word encoded the same way.
pub open spec fn forward_query_view(location: Seq<char>, province: Seq<char>, country: Seq<char>) -> Seq<char> {
    plus_encoded(location) + "+"@ + plus_encoded(province) + "+"@ + plus_encoded(country)
}

/// Builds the address part of a forward-geocoding request.
pub fn forward_geocode_query(location: &str, province: &str, country: &str) -> (r: String)
    ensures
        r@ == forward_query_view(location@, province@, country@),
{
    let mut r = encode_spaces(location);
    r.append("+");
    let p = encode_spaces(province);
    r.append(p.as_str());
    r.append("+");
    let c = encode_spaces(country);
    r.append(c.as_str());
    r
}

/// The "latitude,longitude" pair of a reverse-geocoding query.
pub open spec fn latlng_view(c: CoordinatesView) -> Seq<char> {
    c.latitude + ","@ + c.longitude
}

/// Builds the coordinate part of a reverse-geocoding request.
pub fn latlng_query(c: &Coordinates) -> (r: String)
    ensures
        r@ == latlng_view(c@),
{
    let mut r = c.latitude.clone();
    r.append(",");
    r.append(c.longitude.as_str());
    r
}

/// The candidate list of a geocoding document.
pub open spec fn results_of(doc: serde_json::Value) -> Option<Seq<serde_json::Value>> {
    match child_of(Some(doc), "results"@) {
        Some(r) => array_of(r),
        None => None,
    }
}

/// Whether a forward-geocoding document carries the service's
/// distinguished no-matches status.
pub open spec fn forward_status_is_zero(doc: serde_json::Value) -> bool {
    text_at(child_of(Some(doc), "status"@)) == Some("ZERO_RESULTS"@)
}

/// The coordinates of the first-ranked candidate of a forward-geocoding
/// document, if the document holds them.
pub open spec fn forward_coordinates_of(doc: serde_json::Value) -> Option<CoordinatesView> {
    match results_of(doc) {
        Some(arr) => if arr.len() == 0 {
            None
        } else {
            ({
                let place = child_of(child_of(Some(arr[0]), "geometry"@), "location"@);
                match number_text_at(child_of(place, "lat"@)) {
                    Some(latitude) => match number_text_at(child_of(place, "lng"@)) {
                        Some(longitude) => Some(CoordinatesView { latitude, longitude }),
                        None => None,
                    },
                    None => None,
                }
            })
        },
        None => None,
    }
}

/// Everything a forward-geocoding outcome resolves to: no body or an
/// undecodable one is a transport failure, the no-matches status is
/// `NoResults`, a first candidate with both coordinates succeeds, and
/// anything else is a transport failure.
pub open spec fn forward_result_view(body: Option<Seq<char>>) -> Result<CoordinatesView, GeoError> {
    match body {
        None => Err(GeoError::Transport),
        Some(b) => match json_of(b) {
            None => Err(GeoError::Transport),
            Some(doc) => if forward_status_is_zero(doc) {
                Err(GeoError::NoResults)
            } else {
                match forward_coordinates_of(doc) {
                    Some(c) => Ok(c),
                    None => Err(GeoError::Transport),
                }
            },
        },
    }
}

/// Reads a forward-geocoding response body: exactly what
/// `forward_result_view` says of it. No body means the call itself failed;
/// a "ZERO_RESULTS" status is the service's distinguished no-matches
/// answer; anything else without the coordinates of a first candidate is a
/// decode failure.
pub fn parse_forward_geocode(body: Option<&str>) -> (r: Result<Coordinates, GeoError>)
    ensures
        ({
            let v = forward_result_view(body_view(body));
            match v {
                Ok(c) => r matches Ok(rc) && rc@ == c,
                Err(e) => r matches Err(re) && re == e,
            }
        }),
{
    let b = match body {
        Some(b) => b,
        None => {
            return Err(GeoError::Transport);
        },
    };
    let doc = match json_parse(b) {
        Some(d) => d,
        None => {
            return Err(GeoError::Transport);
        },
    };
    let zero = "ZERO_RESULTS".to_owned();
    let status_is_zero = match json_member(&doc, "status") {
        Some(status) => match json_string(status) {
            Some(st) => st == zero,
            None => false,
        },
        None => false,
    };
    if status_is_zero {
        return Err(GeoError::NoResults);
    }
    let results = match json_member(&doc, "results") {
        Some(r) => r,
        None => {
            return Err(GeoError::Transport);
        },
    };
    let arr = match json_array(results) {
        Some(a) => a,
        None => {
            return Err(GeoError::Transport);
        },
    };
    if arr.len() == 0 {
        return Err(GeoError::Transport);
    }
    let geometry = match json_member(&arr[0], "geometry") {
        Some(g) => g,
        None => {
            return Err(GeoError::Transport);
        },
    };
    let location = match json_member(geometry, "location") {
        Some(l) => l,
        None => {
            return Err(GeoError::Transport);
        },
    };
    let latitude = match json_member(location, "lat") {
        Some(v) => match json_number_text(v) {
            Some(t) => t,
            None => {
                return Err(GeoError::Transport);
            },
        },
        None => {
            return Err(GeoError::Transport);
        },
    };
    let longitude = match json_member(location, "lng") {
        Some(v) => match json_number_text(v) {
            Some(t) => t,
            None => {
                return Err(GeoError::Transport);
            },
        },
        None => {
            return Err(GeoError::Transport);
        },
    };
    Ok(Coordinates { latitude, longitude })
}

/// The display name of the third-ranked candidate of a reverse-geocoding
/// document, if the document holds one.
pub open spec fn reverse_name_of(doc: serde_json::Value) -> Option<Seq<char>> {
    match results_of(doc) {
        Some(arr) => if arr.len() <= 2 {
            None
        } else {
            text_at(child_of(Some(arr[2]), "formatted_address"@))
        },
        None => None,
    }
}

/// Everything a reverse-geocoding outcome resolves to: the third-ranked
/// candidate's formatted address, or nothing where the call failed, the
/// body is not JSON, or no such candidate is present.
pub open spec fn reverse_result_view(body: Option<Seq<char>>) -> Option<Seq<char>> {
    match body {
        None => None,
        Some(b) => match json_of(b) {
            None => None,
            Some(doc) => reverse_name_of(doc),
        },
    }
}

/// Reads a reverse-geocoding response body: exactly what
/// `reverse_result_view` says of it — the formatted address of the
/// third-ranked candidate (a fixed policy: that index is the most readable
/// label the service returns), or nothing.
pub fn parse_reverse_geocode(body: Option<&str>) -> (r: Option<String>)
    ensures
        ({
            let n = reverse_result_view(body_view(body));
            match n {
                Some(nm) => r matches Some(s) && s@ == nm,
                None => r is None,
            }
        }),
{
    let b = match body {
        Some(b) => b,
        None => {
            return None;
        },
    };
    let doc = match json_parse(b) {
        Some(d) => d,
        None => {
            return None;
        },
    };
    let results = match json_member(&doc, "results") {
        Some(r) => r,
        None => {
            return None;
        },
    };
    let arr = match json_array(results) {
        Some(a) => a,
        None => {
            return None;
        },
    };
    if arr.len() <= 2 {
        return None;
    }
    let formatted = match json_member(&arr[2], "formatted_address") {
        Some(f) => f,
        None => {
            return None;
        },
    };
    json_string(formatted)
}

} // verus!
