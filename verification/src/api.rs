//! Addresses of the BeSMART REST API: the base URL and the path of each request.
use vstd::prelude::*;

use crate::text::{
    decimal, decimal_string, lemma_strip_end_clean, lemma_strip_end_idempotent,
    lemma_strip_start_clean, push_char, push_str, strip_end, strip_start, trim, trim_end_by,
    trim_space, trim_start_by, Strip,
};

verus! {

/// The base URL as configured: trimmed, without trailing slashes.
pub open spec fn normalized_base(base: Seq<char>) -> Seq<char> {
    strip_end(trim(base), Strip::Exactly('/'))
}

/// `base` and `path` joined by exactly one slash; a bare `/` and the path when
/// `base` is empty (a path on the page's own origin).
pub open spec fn joined_url(base: Seq<char>, path: Seq<char>) -> Seq<char> {
    let b = strip_end(base, Strip::Exactly('/'));
    let p = strip_start(path, Strip::Exactly('/'));
    if b.len() == 0 {
        seq!['/'] + p
    } else {
        b + seq!['/'] + p
    }
}

/// A base URL as configured never ends with a slash, and configuring it again
/// changes nothing more than trimming does.
pub proof fn lemma_normalized_base_has_no_trailing_slash(base: Seq<char>)
    ensures
        normalized_base(base).len() > 0 ==> normalized_base(base).last() != '/',
        strip_end(normalized_base(base), Strip::Exactly('/')) == normalized_base(base),
{
    lemma_strip_end_clean(trim(base), Strip::Exactly('/'));
    lemma_strip_end_idempotent(trim(base), Strip::Exactly('/'));
}

/// A request address has exactly one slash between the base and the path: the
/// base part does not end with one and the path part does not start with one.
pub proof fn lemma_join_url_one_slash(base: Seq<char>, path: Seq<char>)
    ensures
        ({
            let b = strip_end(base, Strip::Exactly('/'));
            let p = strip_start(path, Strip::Exactly('/'));
            &&& joined_url(base, path) == (if b.len() == 0 {
                seq!['/']
            } else {
                b + seq!['/']
            }) + p
            &&& b.len() > 0 ==> b.last() != '/'
            &&& p.len() > 0 ==> p[0] != '/'
        }),
{
    lemma_strip_end_clean(base, Strip::Exactly('/'));
    lemma_strip_start_clean(path, Strip::Exactly('/'));
}

/// The address the page was given at run time wins over the one it was built
/// with, unless it is blank.
pub proof fn lemma_runtime_base_wins(runtime: Seq<char>, build: Option<Seq<char>>)
    ensures
        trim(runtime).len() > 0 ==> base_url_spec(Some(runtime), build) == normalized_base(runtime),
        trim(runtime).len() == 0 ==> base_url_spec(Some(runtime), build) == base_url_spec(None, build),
{
    assert(trim(Seq::<char>::empty()) =~= Seq::<char>::empty());
}

/// Trims a configured base URL and drops its trailing slashes.
pub fn normalize_base(base: String) -> (r: String)
    ensures
        r@ == normalized_base(base@),
{
    let trimmed: String = trim_space(base.as_str());
    if trimmed.as_str().is_empty() {
        return String::new();
    }
    trim_end_by(trimmed.as_str(), Strip::Exactly('/'))
}

/// Joins the API base and a request path with exactly one slash between them.
pub fn join_url(base: &str, path: &str) -> (r: String)
    ensures
        r@ == joined_url(base@, path@),
{
    let b: String = trim_end_by(base, Strip::Exactly('/'));
    let p: String = trim_start_by(path, Strip::Exactly('/'));
    let mut r: String = String::new();
    if b.as_str().is_empty() {
        push_char(&mut r, '/');
        push_str(&mut r, p.as_str());
        assert(r@ =~= seq!['/'] + p@);
        return r;
    }
    push_str(&mut r, b.as_str());
    push_char(&mut r, '/');
    push_str(&mut r, p.as_str());
    assert(r@ =~= b@ + seq!['/'] + p@);
    r
}

/// The base URL that the front end talks to.
pub open spec fn base_url_spec(runtime: Option<Seq<char>>, build: Option<Seq<char>>) -> Seq<char> {
    let runtime = match runtime {
        Some(r) => r,
        None => Seq::empty(),
    };
    let build = match build {
        Some(b) => b,
        None => Seq::empty(),
    };
    if trim(runtime).len() > 0 {
        normalized_base(runtime)
    } else {
        normalized_base(build)
    }
}

pub open spec fn opt_view(s: Option<String>) -> Option<Seq<char>> {
    match s {
        Some(x) => Some(x@),
        None => None,
    }
}

/// The API base URL: the value the page was given at run time (`window.__API_URL`
/// on the web) unless it is blank, else the value given at build time (`API_URL`),
/// trimmed and without trailing slashes.
pub fn api_base_url(runtime: Option<String>, build: Option<String>) -> (r: String)
    ensures
        r@ == base_url_spec(opt_view(runtime), opt_view(build)),
{
    let runtime: String = match runtime {
        Some(r) => r,
        None => String::new(),
    };
    let build: String = match build {
        Some(b) => b,
        None => String::new(),
    };
    let blank: String = trim_space(runtime.as_str());
    let base: String = if !blank.as_str().is_empty() {
        runtime
    } else {
        build
    };
    normalize_base(base)
}

/// One request of the REST API.
pub enum Endpoint {
    /// The list of devices.
    Devices,
    /// One device.
    Device { id: String },
    /// The rooms of a device.
    Rooms { device_id: String },
    /// One room.
    Room { device_id: String, room_id: String },
    /// One setting of a room, written with PUT (`t1`, `mode`, `days/3`, ...).
    RoomSetting { device_id: String, room_id: String, setting: String },
    /// The recorded history of a room from a start date, up to an optional end date.
    RoomHistory { device_id: String, room_id: String, from: String, to: Option<String> },
    /// The current weather.
    Weather,
    /// The recorded outside temperature.
    WeatherHistory { from: String, to: Option<String> },
}

pub open spec fn room_prefix(device_id: Seq<char>, room_id: Seq<char>) -> Seq<char> {
    "devices/"@ + device_id + "/rooms/"@ + room_id
}

pub open spec fn range_query(from: Seq<char>, to: Option<String>) -> Seq<char> {
    match to {
        Some(t) => "?from="@ + from + "&to="@ + t@,
        None => "?from="@ + from,
    }
}

/// The path of a request, relative to the API base.
pub open spec fn endpoint_path(e: Endpoint) -> Seq<char> {
    match e {
        Endpoint::Devices => "devices"@,
        Endpoint::Device { id } => "devices/"@ + id@,
        Endpoint::Rooms { device_id } => "devices/"@ + device_id@ + "/rooms"@,
        Endpoint::Room { device_id, room_id } => room_prefix(device_id@, room_id@),
        Endpoint::RoomSetting { device_id, room_id, setting } => room_prefix(
            device_id@,
            room_id@,
        ) + "/"@ + setting@,
        Endpoint::RoomHistory { device_id, room_id, from, to } => room_prefix(
            device_id@,
            room_id@,
        ) + "/history"@ + range_query(from@, to),
        Endpoint::Weather => "weather"@,
        Endpoint::WeatherHistory { from, to } => "weather/history"@ + range_query(from@, to),
    }
}

fn append_range(out: &mut String, from: &String, to: &Option<String>)
    ensures
        final(out)@ == old(out)@ + range_query(from@, *to),
{
    push_str(out, "?from=");
    push_str(out, from.as_str());
    match to {
        Some(t) => {
            push_str(out, "&to=");
            push_str(out, t.as_str());
        },
        None => {},
    }
    proof {
        reveal_strlit("?from=");
        reveal_strlit("&to=");
    }
    assert(final(out)@ =~= old(out)@ + range_query(from@, *to));
}

fn append_room(out: &mut String, device_id: &String, room_id: &String)
    ensures
        final(out)@ == old(out)@ + room_prefix(device_id@, room_id@),
{
    push_str(out, "devices/");
    push_str(out, device_id.as_str());
    push_str(out, "/rooms/");
    push_str(out, room_id.as_str());
    assert(final(out)@ =~= old(out)@ + room_prefix(device_id@, room_id@));
}

impl Endpoint {
    /// The path of this request, relative to the API base.
    pub fn path(&self) -> (r: String)
        ensures
            r@ == endpoint_path(*self),
    {
        let mut r: String = String::new();
        match self {
            Endpoint::Devices => {
                push_str(&mut r, "devices");
            },
            Endpoint::Device { id } => {
                push_str(&mut r, "devices/");
                push_str(&mut r, id.as_str());
            },
            Endpoint::Rooms { device_id } => {
                push_str(&mut r, "devices/");
                push_str(&mut r, device_id.as_str());
                push_str(&mut r, "/rooms");
            },
            Endpoint::Room { device_id, room_id } => {
                append_room(&mut r, device_id, room_id);
            },
            Endpoint::RoomSetting { device_id, room_id, setting } => {
                append_room(&mut r, device_id, room_id);
                push_str(&mut r, "/");
                push_str(&mut r, setting.as_str());
            },
            Endpoint::RoomHistory { device_id, room_id, from, to } => {
                append_room(&mut r, device_id, room_id);
                push_str(&mut r, "/history");
                append_range(&mut r, from, to);
            },
            Endpoint::Weather => {
                push_str(&mut r, "weather");
            },
            Endpoint::WeatherHistory { from, to } => {
                push_str(&mut r, "weather/history");
                append_range(&mut r, from, to);
            },
        }
        assert(r@ =~= endpoint_path(*self));
        r
    }

    /// The full address of this request under the API base `base`.
    pub fn url(&self, base: &str) -> (r: String)
        ensures
            r@ == joined_url(base@, endpoint_path(*self)),
    {
        let p: String = self.path();
        join_url(base, p.as_str())
    }
}

/// The request that writes a room's schedule for one day of the week.
pub fn day_setting(day: u8) -> (r: String)
    ensures
        r@ == "days/"@ + decimal(day as int),
{
    let mut r: String = String::new();
    push_str(&mut r, "days/");
    let d: String = decimal_string(day as i32);
    push_str(&mut r, d.as_str());
    r
}

} // verus!
