//! The current weather, as the room page shows it.
use vstd::prelude::*;

use crate::json::{field, get_field, get_item, then_field, then_item, Json, JsonNumber};
use crate::text::push_str;

verus! {

/// `properties.timeseries[0].data` of a weather report.
pub open spec fn first_forecast(w: Json) -> Option<Json> {
    then_field(then_item(then_field(field(w, "properties"@), "timeseries"@), 0), "data"@)
}

/// The air temperature now: `instant.details.air_temperature` of the first
/// forecast, when it is a number.
pub open spec fn weather_temp_spec(w: Json) -> Option<JsonNumber> {
    match then_field(then_field(then_field(first_forecast(w), "instant"@), "details"@), "air_temperature"@) {
        Some(Json::Number(n)) => Some(n),
        _ => None,
    }
}

/// The weather symbol of the next six hours: `next_6_hours.summary.symbol_code`
/// of the first forecast, when it is a string.
pub open spec fn weather_symbol_spec(w: Json) -> Option<Seq<char>> {
    match then_field(then_field(then_field(first_forecast(w), "next_6_hours"@), "summary"@), "symbol_code"@) {
        Some(Json::Str(s)) => Some(s@),
        _ => None,
    }
}

/// The air temperature of one forecast entry, if it has one.
pub open spec fn entry_temp(e: Json) -> Option<JsonNumber> {
    match then_field(
        then_field(then_field(field(e, "data"@), "instant"@), "details"@),
        "air_temperature"@,
    ) {
        Some(Json::Number(n)) => Some(n),
        _ => None,
    }
}

/// The six-hour weather symbol of one forecast entry, if it has one.
pub open spec fn entry_symbol(e: Json) -> Option<Seq<char>> {
    match then_field(
        then_field(then_field(field(e, "data"@), "next_6_hours"@), "summary"@),
        "symbol_code"@,
    ) {
        Some(Json::Str(s)) => Some(s@),
        _ => None,
    }
}

/// The weather shown is that of the first entry of the forecast time series,
/// however many entries follow it; with no entry there is none.
pub proof fn lemma_weather_is_first_entry(w: Json, ts: Json)
    requires
        then_field(field(w, "properties"@), "timeseries"@) == Some(ts),
        ts is Array,
    ensures
        ts->items@.len() > 0 ==> weather_temp_spec(w) == entry_temp(ts->items@[0])
            && weather_symbol_spec(w) == entry_symbol(ts->items@[0]),
        ts->items@.len() == 0 ==> weather_temp_spec(w) is None && weather_symbol_spec(w) is None,
{
}

fn forecast<'a>(w: &'a Json) -> (r: Option<&'a Json>)
    ensures
        match r {
            Some(x) => first_forecast(*w) == Some(*x),
            None => first_forecast(*w) is None,
        },
{
    let p: &Json = match get_field(w, "properties") {
        Some(p) => p,
        None => {
            return None;
        },
    };
    let t: &Json = match get_field(p, "timeseries") {
        Some(t) => t,
        None => {
            return None;
        },
    };
    let f: &Json = match get_item(t, 0) {
        Some(f) => f,
        None => {
            return None;
        },
    };
    get_field(f, "data")
}

fn path3<'a>(v: &'a Json, a: &str, b: &str, c: &str) -> (r: Option<&'a Json>)
    ensures
        match r {
            Some(x) => then_field(then_field(field(*v, a@), b@), c@) == Some(*x),
            None => then_field(then_field(field(*v, a@), b@), c@) is None,
        },
{
    let x: &Json = match get_field(v, a) {
        Some(x) => x,
        None => {
            return None;
        },
    };
    let y: &Json = match get_field(x, b) {
        Some(y) => y,
        None => {
            return None;
        },
    };
    get_field(y, c)
}

/// The air temperature of a weather report, if it has one.
pub fn weather_temp(w: &Json) -> (r: Option<&JsonNumber>)
    ensures
        match r {
            Some(n) => weather_temp_spec(*w) == Some(*n),
            None => weather_temp_spec(*w) is None,
        },
{
    let d: &Json = match forecast(w) {
        Some(d) => d,
        None => {
            return None;
        },
    };
    match path3(d, "instant", "details", "air_temperature") {
        Some(Json::Number(n)) => Some(n),
        _ => None,
    }
}

/// The weather symbol of a weather report, if it has one.
pub fn weather_symbol(w: &Json) -> (r: Option<String>)
    ensures
        match r {
            Some(s) => weather_symbol_spec(*w) == Some(s@),
            None => weather_symbol_spec(*w) is None,
        },
{
    let d: &Json = match forecast(w) {
        Some(d) => d,
        None => {
            return None;
        },
    };
    match path3(d, "next_6_hours", "summary", "symbol_code") {
        Some(Json::Str(s)) => Some(s.clone()),
        _ => None,
    }
}

/// The address of the picture of a weather symbol.
pub fn weather_icon(code: &str) -> (r: String)
    ensures
        r@ == "/assets/weather/"@ + code@ + ".png"@,
{
    let mut r: String = String::from_str("/assets/weather/");
    push_str(&mut r, code);
    push_str(&mut r, ".png");
    r
}

} // verus!
