//! A thermostat device and its detail page.
use vstd::prelude::*;

use crate::json::{format_value, value_text, Json};
use crate::route::Route;
use crate::text::{push_char, push_str};

verus! {

/// What the API reports of a device. Missing members read as null
/// (an empty list for `addr`).
pub struct DeviceDetails {
    pub wifi_signal: Json,
    pub version: Json,
    /// Address and port of the device.
    pub addr: Vec<Json>,
    /// When the device was last heard from, in seconds since the epoch.
    pub last_seen: Json,
    pub boiler_on: Json,
    pub dhw_mode: Json,
    /// Flow sensor temperature.
    pub t_flo: Json,
    /// Hot water sensor temperature.
    pub t_dh: Json,
    /// Outdoor sensor temperature.
    pub t_est: Json,
}

/// The lines of the device page.
pub struct DeviceView {
    pub wifi_signal: String,
    pub version: String,
    /// `address:port`.
    pub ip: String,
    /// The last-seen value when it is not a timestamp; `None` when it is a
    /// number, which the page shows as a date in the browser's time zone.
    pub last_seen: Option<String>,
    pub boiler_on: String,
    pub dhw_on: String,
    pub t_flo: String,
    pub t_dh: String,
    pub t_est: String,
    /// Where the Rooms button leads.
    pub rooms: Route,
}

/// Element `i` of `addr` as a detail line shows it, empty where there is none.
pub open spec fn addr_text(addr: Seq<Json>, i: int) -> Seq<char> {
    if 0 <= i < addr.len() {
        value_text(addr[i])
    } else {
        Seq::empty()
    }
}

fn addr_part(addr: &Vec<Json>, i: usize) -> (r: String)
    ensures
        r@ == addr_text(addr@, i as int),
{
    if i < addr.len() {
        format_value(&addr[i])
    } else {
        String::new()
    }
}

/// The lines of the page of device `id`: each value as `format_value` shows it,
/// the address and port joined by a colon, and the link to its rooms.
pub open spec fn device_view_spec(id: String, device: DeviceDetails, v: DeviceView) -> bool {
    &&& v.wifi_signal@ == value_text(device.wifi_signal)
    &&& v.version@ == value_text(device.version)
    &&& v.ip@ == addr_text(device.addr@, 0) + seq![':'] + addr_text(device.addr@, 1)
    &&& (v.last_seen is None <==> device.last_seen is Number)
    &&& (v.last_seen matches Some(s) ==> s@ == value_text(device.last_seen))
    &&& v.boiler_on@ == value_text(device.boiler_on)
    &&& v.dhw_on@ == value_text(device.dhw_mode)
    &&& v.t_flo@ == value_text(device.t_flo)
    &&& v.t_dh@ == value_text(device.t_dh)
    &&& v.t_est@ == value_text(device.t_est)
    &&& v.rooms matches Route::Rooms { device_id } && device_id@ == id@
}

/// The lines of the page of device `id`.
pub fn device_view(id: &String, device: &DeviceDetails) -> (v: DeviceView)
    ensures
        device_view_spec(*id, *device, v),
{
    let mut ip: String = addr_part(&device.addr, 0);
    push_char(&mut ip, ':');
    let port: String = addr_part(&device.addr, 1);
    push_str(&mut ip, port.as_str());
    let last_seen: Option<String> = match &device.last_seen {
        Json::Number(_) => None,
        other => Some(format_value(other)),
    };
    assert(ip@ =~= addr_text(device.addr@, 0) + seq![':'] + addr_text(device.addr@, 1));
    DeviceView {
        wifi_signal: format_value(&device.wifi_signal),
        version: format_value(&device.version),
        ip,
        last_seen,
        boiler_on: format_value(&device.boiler_on),
        dhw_on: format_value(&device.dhw_mode),
        t_flo: format_value(&device.t_flo),
        t_dh: format_value(&device.t_dh),
        t_est: format_value(&device.t_est),
        rooms: Route::Rooms { device_id: id.clone() },
    }
}

} // verus!
