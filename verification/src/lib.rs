//! The logic of the BeSMART thermostat front end: API addresses, the weekly
//! heating schedule, room commands, what each page shows, and its routes.
use vstd::prelude::*;

pub mod api;
pub mod chart;
pub mod clock;
pub mod device;
pub mod json;
pub mod pages;
pub mod route;
pub mod room;
pub mod schedule;
pub mod text;
pub mod weather;

verus! {

} // verus!
