//! Every text the agent sends, as a spec-level view and an executable
//! builder proved against it.
use vstd::prelude::*;

verus! {

pub open spec fn welcome_view() -> Seq<char> {
    "Welcome to the Weather Bot!"@
}

pub fn welcome_text() -> (r: String)
    ensures
        r@ == welcome_view(),
{
    "Welcome to the Weather Bot!".to_owned()
}

pub open spec fn ask_location_view() -> Seq<char> {
    "What is your location?"@
}

pub fn ask_location_text() -> (r: String)
    ensures
        r@ == ask_location_view(),
{
    "What is your location?".to_owned()
}

pub open spec fn ask_attach_view() -> Seq<char> {
    "Attach your location 📍\n📎 >> location 🌐"@
}

pub fn ask_attach_text() -> (r: String)
    ensures
        r@ == ask_attach_view(),
{
    "Attach your location 📍\n📎 >> location 🌐".to_owned()
}

pub open spec fn cancel_view() -> Seq<char> {
    "Cancelling the dialogue."@
}

pub fn cancel_text() -> (r: String)
    ensures
        r@ == cancel_view(),
{
    "Cancelling the dialogue.".to_owned()
}

/// The command list, rendered as the chat platform shows it: the global
/// description, a blank line, then one "/name — description" line per
/// command.
pub open spec fn help_view() -> Seq<char> {
    "Enable commands in the bot\n\n/start — Start bot 🚀\n/getweather — Get weather forecast 🌤️\n/getweatherlocation — Get weather for my location📍\n/cancel — Cancel operation ❌\n/help — Help menu 📜"@
}

pub fn help_text() -> (r: String)
    ensures
        r@ == help_view(),
{
    "Enable commands in the bot\n\n/start — Start bot 🚀\n/getweather — Get weather forecast 🌤️\n/getweatherlocation — Get weather for my location📍\n/cancel — Cancel operation ❌\n/help — Help menu 📜".to_owned()
}

pub open spec fn invalid_name_view() -> Seq<char> {
    "Please send me a valid name"@
}

pub fn invalid_name_text() -> (r: String)
    ensures
        r@ == invalid_name_view(),
{
    "Please send me a valid name".to_owned()
}

pub open spec fn invalid_attach_view() -> Seq<char> {
    "❌ Please attach a valid location"@
}

pub fn invalid_attach_text() -> (r: String)
    ensures
        r@ == invalid_attach_view(),
{
    "❌ Please attach a valid location".to_owned()
}

/// The apology sent when forward geocoding reports zero matches.
pub open spec fn apology_view() -> Seq<char> {
    "❌ Please check the location, province, and country you provided."@
}

pub fn apology_text() -> (r: String)
    ensures
        r@ == apology_view(),
{
    "❌ Please check the location, province, and country you provided.".to_owned()
}

pub open spec fn ask_province_view(location: Seq<char>) -> Seq<char> {
    "In which province or state is "@ + location + " located?"@
}

pub fn ask_province_text(location: &str) -> (r: String)
    ensures
        r@ == ask_province_view(location@),
{
    let mut r = "In which province or state is ".to_owned();
    r.append(location);
    r.append(" located?");
    r
}

pub open spec fn ask_country_view(location: Seq<char>, province: Seq<char>) -> Seq<char> {
    "In which country is "@ + location + " ("@ + province + ")?"@
}

pub fn ask_country_text(location: &str, province: &str) -> (r: String)
    ensures
        r@ == ask_country_view(location@, province@),
{
    let mut r = "In which country is ".to_owned();
    r.append(location);
    r.append(" (");
    r.append(province);
    r.append(")?");
    r
}

/// The progress note sent while an attached location is being resolved;
/// no place name is known yet, so the note is fixed.
pub open spec fn progress_attach_view() -> Seq<char> {
    "Obtaining the climate for your location..."@
}

pub fn progress_attach_text() -> (r: String)
    ensures
        r@ == progress_attach_view(),
{
    "Obtaining the climate for your location...".to_owned()
}

pub open spec fn progress_view(location: Seq<char>, province: Seq<char>, country: Seq<char>) -> Seq<
    char,
> {
    "Obtaining the climate for "@ + location + ", "@ + province + " en "@ + country + "..."@
}

pub fn progress_text(location: &str, province: &str, country: &str) -> (r: String)
    ensures
        r@ == progress_view(location@, province@, country@),
{
    let mut r = "Obtaining the climate for ".to_owned();
    r.append(location);
    r.append(", ");
    r.append(province);
    r.append(" en ");
    r.append(country);
    r.append("...");
    r
}

} // verus!
