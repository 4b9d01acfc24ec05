//! What each page shows, given what has been fetched so far.
use vstd::prelude::*;

use crate::device::{device_view, device_view_spec, DeviceDetails, DeviceView};
use crate::api::{endpoint_path, Endpoint};
use crate::room::{
    body_view, command_allowed, command_effect, room_view, room_view_spec, update_room_value,
    PutBody, Room, RoomCommand, RoomView,
};
use crate::route::Route;
use crate::text::{decimal, decimal_string};

verus! {

/// A card with a heading or a paragraph.
pub struct Card {
    pub heading: Option<String>,
    pub paragraph: Option<String>,
}

/// The about page of the desktop and web shell.
#[allow(non_snake_case)]
pub fn AboutPage() -> (c: Card)
    ensures
        c.heading is None,
        c.paragraph matches Some(p) && p@ == "Test app using Dioxus to consume the BeSMART REST API."@,
{
    Card {
        heading: None,
        paragraph: Some(String::from_str("Test app using Dioxus to consume the BeSMART REST API.")),
    }
}

/// The about page of the web shell.
pub fn about_page() -> (c: Card)
    ensures
        c.heading is None,
        c.paragraph matches Some(p) && p@ == "Test app using Yew to consume the BeSMART REST API."@,
{
    Card {
        heading: None,
        paragraph: Some(String::from_str("Test app using Yew to consume the BeSMART REST API.")),
    }
}

/// The page shown for an unknown address (desktop and web shell).
#[allow(non_snake_case)]
pub fn NotFoundPage() -> (c: Card)
    ensures
        c.heading matches Some(h) && h@ == "Page not found"@,
        c.paragraph is None,
{
    Card { heading: Some(String::from_str("Page not found")), paragraph: None }
}

/// The page shown for an unknown address (web shell).
pub fn not_found_page() -> (c: Card)
    ensures
        c.heading matches Some(h) && h@ == "Page not found"@,
        c.paragraph is None,
{
    Card { heading: Some(String::from_str("Page not found")), paragraph: None }
}

/// A page that shows fetched data: the error of the last failed fetch, a
/// loading notice while there is nothing to show, or the data.
pub enum Loadable<T> {
    Failed(String),
    Loading(String),
    Ready(T),
}

/// An entry of a list page: its text and where it leads.
pub struct ListLink {
    pub label: String,
    pub route: Route,
}

/// The entry of device `d` in the device list.
pub open spec fn device_link(d: i32, l: ListLink) -> bool {
    &&& l.label@ == decimal(d as int)
    &&& l.route matches Route::DeviceDetails { id } && id@ == decimal(d as int)
}

/// The entry of room `r` of device `device_id` in the room list.
pub open spec fn room_link(device_id: Seq<char>, r: i32, l: ListLink) -> bool {
    &&& l.label@ == decimal(r as int)
    &&& l.route matches Route::RoomDetails { device_id: d, room_id } && d@ == device_id
        && room_id@ == decimal(r as int)
}

/// The device list: the error if a fetch failed, "Loading devices..." while
/// the list is empty, else one link per device to its page.
pub fn devices_page(devices: &Vec<i32>, error: &Option<String>) -> (r: Loadable<Vec<ListLink>>)
    ensures
        match error {
            Some(m) => r matches Loadable::Failed(x) && x@ == m@,
            None => if devices@.len() == 0 {
                r matches Loadable::Loading(x) && x@ == "Loading devices..."@
            } else {
                r matches Loadable::Ready(links) && links@.len() == devices@.len() && forall|i: int|
                    0 <= i < links@.len() ==> device_link(devices@[i], #[trigger] links@[i])
            },
        },
{
    if let Some(m) = error {
        return Loadable::Failed(m.clone());
    }
    if devices.len() == 0 {
        return Loadable::Loading(String::from_str("Loading devices..."));
    }
    let mut links: Vec<ListLink> = Vec::new();
    let mut i: usize = 0;
    while i < devices.len()
        invariant
            i <= devices@.len(),
            links@.len() == i,
            forall|j: int| 0 <= j < i ==> device_link(devices@[j], #[trigger] links@[j]),
        decreases devices@.len() - i,
    {
        let label: String = decimal_string(devices[i]);
        let id: String = decimal_string(devices[i]);
        links.push(ListLink { label, route: Route::DeviceDetails { id } });
        i = i + 1;
    }
    Loadable::Ready(links)
}

/// The room list of device `device_id`: the error if a fetch failed,
/// "Loading rooms..." while the list is empty, else one link per room to its page.
pub fn rooms_page(device_id: &String, rooms: &Vec<i32>, error: &Option<String>) -> (r: Loadable<
    Vec<ListLink>,
>)
    ensures
        match error {
            Some(m) => r matches Loadable::Failed(x) && x@ == m@,
            None => if rooms@.len() == 0 {
                r matches Loadable::Loading(x) && x@ == "Loading rooms..."@
            } else {
                r matches Loadable::Ready(links) && links@.len() == rooms@.len() && forall|i: int|
                    0 <= i < links@.len() ==> room_link(device_id@, rooms@[i], #[trigger] links@[i])
            },
        },
{
    if let Some(m) = error {
        return Loadable::Failed(m.clone());
    }
    if rooms.len() == 0 {
        return Loadable::Loading(String::from_str("Loading rooms..."));
    }
    let mut links: Vec<ListLink> = Vec::new();
    let mut i: usize = 0;
    while i < rooms.len()
        invariant
            i <= rooms@.len(),
            links@.len() == i,
            forall|j: int| 0 <= j < i ==> room_link(device_id@, rooms@[j], #[trigger] links@[j]),
        decreases rooms@.len() - i,
    {
        let label: String = decimal_string(rooms[i]);
        let room_id: String = decimal_string(rooms[i]);
        links.push(
            ListLink { label, route: Route::RoomDetails { device_id: device_id.clone(), room_id } },
        );
        i = i + 1;
    }
    Loadable::Ready(links)
}

/// The page of device `id`: the error if a fetch failed, "Loading device..."
/// until the device has been fetched, else its lines.
pub fn device_details_page(id: &String, device: &Option<DeviceDetails>, error: &Option<String>) -> (r:
    Loadable<DeviceView>)
    ensures
        match error {
            Some(m) => r matches Loadable::Failed(x) && x@ == m@,
            None => match device {
                None => r matches Loadable::Loading(x) && x@ == "Loading device..."@,
                Some(d) => r matches Loadable::Ready(v) && device_view_spec(*id, *d, v),
            },
        },
{
    if let Some(m) = error {
        return Loadable::Failed(m.clone());
    }
    match device {
        None => Loadable::Loading(String::from_str("Loading device...")),
        Some(d) => Loadable::Ready(device_view(id, d)),
    }
}

/// The page of a room: the error if a fetch failed, "Loading room..." until
/// the room has been fetched, else what `room_view` shows. Its buttons and
/// schedule clicks are carried out by `room_page_step`.
pub fn room_details_page(room: &Option<Room>, error: &Option<String>) -> (r: Loadable<RoomView>)
    ensures
        match error {
            Some(m) => r matches Loadable::Failed(x) && x@ == m@,
            None => match room {
                None => r matches Loadable::Loading(x) && x@ == "Loading room..."@,
                Some(rm) => r matches Loadable::Ready(v) && room_view_spec(*rm, v),
            },
        },
{
    if let Some(m) = error {
        return Loadable::Failed(m.clone());
    }
    match room {
        None => Loadable::Loading(String::from_str("Loading room...")),
        Some(rm) => Loadable::Ready(room_view(rm)),
    }
}


/// What a command on the room page does: the room shown from now on, the path of
/// the one write it sends (`devices/{device_id}/rooms/{room_id}/{setting}`), and
/// the body of that write. `None` when no room is loaded yet or the command
/// changes nothing (boost while the device boosts): then nothing is sent.
pub open spec fn page_step_spec(
    room: Option<Room>,
    device_id: Seq<char>,
    room_id: Seq<char>,
    cmd: RoomCommand,
    r: Option<(Room, String, PutBody)>,
) -> bool {
    match room {
        None => r is None,
        Some(rm) => match command_effect(rm@, cmd) {
            None => r is None,
            Some(e) => match r {
                None => false,
                Some((next, path, body)) => {
                    &&& next@ == e.room
                    &&& path@ == "devices/"@ + device_id + "/rooms/"@ + room_id + "/"@ + e.setting
                    &&& body_view(body) == e.body
                },
            },
        },
    }
}

/// Carries out a button press or a schedule click on the page of room `room_id`
/// of device `device_id`: the room shown from now on and the one write to send.
pub fn room_page_step(room: &Option<Room>, device_id: &str, room_id: &str, cmd: RoomCommand) -> (r:
    Option<(Room, String, PutBody)>)
    requires
        room matches Some(rm) ==> command_allowed(rm@, cmd),
    ensures
        page_step_spec(*room, device_id@, room_id@, cmd, r),
{
    match update_room_value(room, cmd) {
        None => None,
        Some(update) => {
            let path: String = Endpoint::RoomSetting {
                device_id: String::from_str(device_id),
                room_id: String::from_str(room_id),
                setting: update.setting,
            }.path();
            proof {
                reveal_strlit("devices/");
                reveal_strlit("/rooms/");
                reveal_strlit("/");
            }
            assert(path@ =~= "devices/"@ + device_id@ + "/rooms/"@ + room_id@ + "/"@
                + update.setting@);
            Some((update.room, path, update.body))
        },
    }
}

/// What the history page received last.
pub enum HistoryEvent {
    /// The room history arrived.
    RoomLoaded,
    /// The room history request failed with this message.
    RoomFailed(String),
    /// The outside temperature history arrived.
    WeatherLoaded,
    /// The outside temperature history request failed with this message.
    WeatherFailed(String),
}

/// How a history page refreshes.
#[derive(Clone, Copy)]
pub enum RefreshRule {
    /// The web page: it asks again on a timer whatever happened, and an error,
    /// once shown, stays.
    KeepPolling,
    /// The desktop page: a room history that arrives clears the error shown,
    /// and a failed room request ends the refreshing until the date range changes.
    StopOnFailure,
}

/// What the history page does next.
pub struct HistoryStep {
    /// Keep the data that arrived.
    pub store: bool,
    /// Show this error.
    pub error: Option<String>,
    /// Clear the error shown.
    pub clear_error: bool,
    /// The path of the next request of this refresh, if any.
    pub next: Option<String>,
    /// Ask nothing more until the date range changes.
    pub stop: bool,
}

/// Whether the page follows the desktop rule.
pub open spec fn stops(rule: RefreshRule) -> bool {
    rule is StopOnFailure
}

/// What one refresh step does, as `history_step` states it.
pub open spec fn history_step_post(
    rule: RefreshRule,
    event: HistoryEvent,
    from: String,
    to: Option<String>,
    r: HistoryStep,
) -> bool {
    match event {
        HistoryEvent::RoomLoaded => {
            &&& r.store && r.error is None && !r.stop
            &&& r.clear_error == stops(rule)
            &&& r.next matches Some(p) && p@ == endpoint_path(
                Endpoint::WeatherHistory { from: from, to: to },
            )
        },
        HistoryEvent::RoomFailed(m) => {
            &&& !r.store && !r.clear_error && r.next is None
            &&& r.error matches Some(e) && e@ == m@
            &&& r.stop == stops(rule)
        },
        HistoryEvent::WeatherLoaded => r.store && r.error is None && !r.clear_error
            && r.next is None && !r.stop,
        HistoryEvent::WeatherFailed(m) => {
            &&& !r.store && !r.clear_error && r.next is None && !r.stop
            &&& r.error matches Some(e) && e@ == m@
        },
    }
}

/// One refresh of the history page: the room history is asked for first; when
/// it arrives it is kept and the outside temperature of the same range is asked
/// for (and, on the desktop page, the error shown is cleared); when it fails its
/// error is shown, the history already shown stays, nothing more is asked in
/// this refresh (and, on the desktop page, no refresh follows until the date
/// range changes). The outside temperature is kept when it arrives, its error
/// shown when it fails, and refreshing goes on either way.
pub fn history_step(rule: RefreshRule, event: HistoryEvent, from: &String, to: &Option<String>) -> (r:
    HistoryStep)
    ensures
        history_step_post(rule, event, *from, *to, r),
{
    let desktop: bool = match rule {
        RefreshRule::KeepPolling => false,
        RefreshRule::StopOnFailure => true,
    };
    match event {
        HistoryEvent::RoomLoaded => {
            let weather: Endpoint = Endpoint::WeatherHistory { from: from.clone(), to: to.clone() };
            HistoryStep {
                store: true,
                error: None,
                clear_error: desktop,
                next: Some(weather.path()),
                stop: false,
            }
        },
        HistoryEvent::RoomFailed(m) => HistoryStep {
            store: false,
            error: Some(m),
            clear_error: false,
            next: None,
            stop: desktop,
        },
        HistoryEvent::WeatherLoaded => HistoryStep {
            store: true,
            error: None,
            clear_error: false,
            next: None,
            stop: false,
        },
        HistoryEvent::WeatherFailed(m) => HistoryStep {
            store: false,
            error: Some(m),
            clear_error: false,
            next: None,
            stop: false,
        },
    }
}

/// When the room history arrives, the outside temperature of the same range is
/// always asked for next: `weather/history?from={from}`, with `&to={to}` when an
/// end date is chosen; under either refresh rule.
pub proof fn lemma_weather_follows_room(rule: RefreshRule, from: String, to: Option<String>, r: HistoryStep)
    requires
        history_step_post(rule, HistoryEvent::RoomLoaded, from, to, r),
    ensures
        r.next is Some,
        to is None ==> r.next->0@ == "weather/history?from="@ + from@,
        to matches Some(t) ==> r.next->0@ == "weather/history?from="@ + from@ + "&to="@ + t@,
{
    reveal_strlit("weather/history?from=");
    reveal_strlit("weather/history");
    reveal_strlit("?from=");
    reveal_strlit("&to=");
    let p = r.next->0@;
    match to {
        Some(t) => {
            assert(p =~= "weather/history?from="@ + from@ + "&to="@ + t@);
        },
        None => {
            assert(p =~= "weather/history?from="@ + from@);
        },
    }
}

/// On the desktop page a failed room request ends the refreshing and a room
/// history that arrives clears the error shown; on the web page neither happens.
pub proof fn lemma_refresh_rules(from: String, to: Option<String>, m: String)
    ensures
        forall|r: HistoryStep|
            #![trigger r.stop]
            history_step_post(RefreshRule::StopOnFailure, HistoryEvent::RoomFailed(m), from, to, r)
                ==> r.stop && r.next is None,
        forall|r: HistoryStep|
            #![trigger r.clear_error]
            history_step_post(RefreshRule::StopOnFailure, HistoryEvent::RoomLoaded, from, to, r)
                ==> r.clear_error,
        forall|r: HistoryStep|
            #![trigger r.stop]
            history_step_post(RefreshRule::KeepPolling, HistoryEvent::RoomFailed(m), from, to, r)
                ==> !r.stop,
{
}

} // verus!
