//! The report formatter: a fixed multi-line template around the snapshot
//! fields, with no failure mode, and the law that every field appears in
//! the result verbatim.
use vstd::prelude::*;
use crate::weather::{WeatherSnapshot, WeatherSnapshotView};

verus! {

/// The by-name report: the location triple, then one line per reading.
pub open spec fn report_by_name_view(
    location: Seq<char>,
    province: Seq<char>,
    country: Seq<char>,
    w: WeatherSnapshotView,
) -> Seq<char> {
    "🌤️ The weather in "@ + location + ", "@ + province + ", "@ + country
        + " is\nWeather Condition: "@ + w.condition + "\nTemperature: "@ + w.temperature
        + "°C\nFeels Like: "@ + w.feels_like + "°C\nHumidity: "@ + w.humidity
        + "%\nPrecipitation Probability: "@ + w.precipitation_probability + "%"@
}

/// Formats the report for a location given by name.
pub fn format_by_name(
    location: &str,
    province: &str,
    country: &str,
    w: &WeatherSnapshot,
) -> (r: String)
    ensures
        r@ == report_by_name_view(location@, province@, country@, w@),
{
    let mut r = "🌤️ The weather in ".to_owned();
    r.append(location);
    r.append(", ");
    r.append(province);
    r.append(", ");
    r.append(country);
    r.append(" is\nWeather Condition: ");
    r.append(w.condition.as_str());
    r.append("\nTemperature: ");
    r.append(w.temperature.as_str());
    r.append("°C\nFeels Like: ");
    r.append(w.feels_like.as_str());
    r.append("°C\nHumidity: ");
    r.append(w.humidity.as_str());
    r.append("%\nPrecipitation Probability: ");
    r.append(w.precipitation_probability.as_str());
    r.append("%");
    r
}

/// The by-coordinates report: the resolved display name, then one line per
/// reading.
pub open spec fn report_by_coordinates_view(name: Seq<char>, w: WeatherSnapshotView) -> Seq<char> {
    "🌤️ The weather in "@ + name + " is\nWeather Condition: "@ + w.condition
        + "\nTemperature: "@ + w.temperature + "°C\nFeels Like: "@ + w.feels_like
        + "°C\nHumidity: "@ + w.humidity + "%\nPrecipitation Probability: "@
        + w.precipitation_probability + "%"@
}

/// Formats the report for a location resolved from coordinates.
pub fn format_by_coordinates(name: &str, w: &WeatherSnapshot) -> (r: String)
    ensures
        r@ == report_by_coordinates_view(name@, w@),
{
    let mut r = "🌤️ The weather in ".to_owned();
    r.append(name);
    r.append(" is\nWeather Condition: ");
    r.append(w.condition.as_str());
    r.append("\nTemperature: ");
    r.append(w.temperature.as_str());
    r.append("°C\nFeels Like: ");
    r.append(w.feels_like.as_str());
    r.append("°C\nHumidity: ");
    r.append(w.humidity.as_str());
    r.append("%\nPrecipitation Probability: ");
    r.append(w.precipitation_probability.as_str());
    r.append("%");
    r
}

/// The needle stands somewhere in the hay as a contiguous run.
pub open spec fn occurs_in(needle: Seq<char>, hay: Seq<char>) -> bool {
    exists|i: int|
        0 <= i && i + needle.len() <= hay.len() && #[trigger] hay.subrange(i, i + needle.len())
            == needle
}

/// Whatever stands between a prefix and a suffix occurs in the whole.
pub proof fn lemma_occurs_mid(a: Seq<char>, b: Seq<char>, c: Seq<char>)
    ensures
        occurs_in(b, a + b + c),
{
    let h = a + b + c;
    assert(h.subrange(a.len() as int, a.len() + b.len() as int) =~= b);
}

/// Law: the by-name report carries all three location components and all
/// five snapshot fields verbatim.
pub proof fn lemma_report_by_name_contains(
    location: Seq<char>,
    province: Seq<char>,
    country: Seq<char>,
    w: WeatherSnapshotView,
)
    ensures
        occurs_in(location, report_by_name_view(location, province, country, w)),
        occurs_in(province, report_by_name_view(location, province, country, w)),
        occurs_in(country, report_by_name_view(location, province, country, w)),
        occurs_in(w.condition, report_by_name_view(location, province, country, w)),
        occurs_in(w.temperature, report_by_name_view(location, province, country, w)),
        occurs_in(w.feels_like, report_by_name_view(location, province, country, w)),
        occurs_in(w.humidity, report_by_name_view(location, province, country, w)),
        occurs_in(w.precipitation_probability, report_by_name_view(location, province, country, w)),
{
    let r = report_by_name_view(location, province, country, w);
    let p0 = "🌤️ The weather in "@;
    let s0 = ", "@ + province + ", "@ + country + " is\nWeather Condition: "@ + w.condition
        + "\nTemperature: "@ + w.temperature + "°C\nFeels Like: "@ + w.feels_like
        + "°C\nHumidity: "@ + w.humidity + "%\nPrecipitation Probability: "@
        + w.precipitation_probability + "%"@;
    assert(r =~= p0 + location + s0);
    lemma_occurs_mid(p0, location, s0);
    let p1 = p0 + location + ", "@;
    let s1 = ", "@ + country + " is\nWeather Condition: "@ + w.condition + "\nTemperature: "@
        + w.temperature + "°C\nFeels Like: "@ + w.feels_like + "°C\nHumidity: "@ + w.humidity
        + "%\nPrecipitation Probability: "@ + w.precipitation_probability + "%"@;
    assert(r =~= p1 + province + s1);
    lemma_occurs_mid(p1, province, s1);
    let p2 = p1 + province + ", "@;
    let s2 = " is\nWeather Condition: "@ + w.condition + "\nTemperature: "@ + w.temperature
        + "°C\nFeels Like: "@ + w.feels_like + "°C\nHumidity: "@ + w.humidity
        + "%\nPrecipitation Probability: "@ + w.precipitation_probability + "%"@;
    assert(r =~= p2 + country + s2);
    lemma_occurs_mid(p2, country, s2);
    let p3 = p2 + country + " is\nWeather Condition: "@;
    let s3 = "\nTemperature: "@ + w.temperature + "°C\nFeels Like: "@ + w.feels_like
        + "°C\nHumidity: "@ + w.humidity + "%\nPrecipitation Probability: "@
        + w.precipitation_probability + "%"@;
    assert(r =~= p3 + w.condition + s3);
    lemma_occurs_mid(p3, w.condition, s3);
    let p4 = p3 + w.condition + "\nTemperature: "@;
    let s4 = "°C\nFeels Like: "@ + w.feels_like + "°C\nHumidity: "@ + w.humidity
        + "%\nPrecipitation Probability: "@ + w.precipitation_probability + "%"@;
    assert(r =~= p4 + w.temperature + s4);
    lemma_occurs_mid(p4, w.temperature, s4);
    let p5 = p4 + w.temperature + "°C\nFeels Like: "@;
    let s5 = "°C\nHumidity: "@ + w.humidity + "%\nPrecipitation Probability: "@
        + w.precipitation_probability + "%"@;
    assert(r =~= p5 + w.feels_like + s5);
    lemma_occurs_mid(p5, w.feels_like, s5);
    let p6 = p5 + w.feels_like + "°C\nHumidity: "@;
    let s6 = "%\nPrecipitation Probability: "@ + w.precipitation_probability + "%"@;
    assert(r =~= p6 + w.humidity + s6);
    lemma_occurs_mid(p6, w.humidity, s6);
    let p7 = p6 + w.humidity + "%\nPrecipitation Probability: "@;
    let s7 = "%"@;
    assert(r =~= p7 + w.precipitation_probability + s7);
    lemma_occurs_mid(p7, w.precipitation_probability, s7);
}

} // verus!
