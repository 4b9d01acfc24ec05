//! The pages of the front end and which page each address shows.
use vstd::prelude::*;

verus! {

/// An address of the front end.
#[derive(Clone, Debug)]
pub enum Route {
    /// `/`
    Root,
    /// `/about`
    About,
    /// `/devices`
    Devices,
    /// `/devices/:id`
    DeviceDetails { id: String },
    /// `/devices/:device_id/rooms`
    Rooms { device_id: String },
    /// `/devices/:device_id/rooms/:room_id`
    RoomDetails { device_id: String, room_id: String },
    /// `/devices/:device_id/rooms/:room_id/history`
    RoomHistory { device_id: String, room_id: String },
    /// `/404`, and every address that matches no other route.
    NotFound,
}

/// What is rendered for an address.
pub enum Page {
    /// Go to another address instead.
    Redirect(Route),
    About,
    Devices,
    DeviceDetails { id: String },
    Rooms { device_id: String },
    RoomDetails { device_id: String, room_id: String },
    RoomHistory { device_id: String, room_id: String },
    NotFound,
}

/// The page of each route: the root sends the browser on to the device list,
/// every other route shows the page of its own name with its parameters.
pub open spec fn page_of(route: Route) -> Page {
    match route {
        Route::Root => Page::Redirect(Route::Devices),
        Route::About => Page::About,
        Route::Devices => Page::Devices,
        Route::DeviceDetails { id } => Page::DeviceDetails { id },
        Route::Rooms { device_id } => Page::Rooms { device_id },
        Route::RoomDetails { device_id, room_id } => Page::RoomDetails { device_id, room_id },
        Route::RoomHistory { device_id, room_id } => Page::RoomHistory { device_id, room_id },
        Route::NotFound => Page::NotFound,
    }
}

/// Chooses the page for a route.
pub fn switch(route: Route) -> (p: Page)
    ensures
        p == page_of(route),
{
    match route {
        Route::Root => Page::Redirect(Route::Devices),
        Route::About => Page::About,
        Route::Devices => Page::Devices,
        Route::DeviceDetails { id } => Page::DeviceDetails { id },
        Route::Rooms { device_id } => Page::Rooms { device_id },
        Route::RoomDetails { device_id, room_id } => Page::RoomDetails { device_id, room_id },
        Route::RoomHistory { device_id, room_id } => Page::RoomHistory { device_id, room_id },
        Route::NotFound => Page::NotFound,
    }
}

} // verus!
