//! Days of the week and the clock in the page header.
use vstd::prelude::*;

use crate::text::{pad2, push_char, push_pad2, push_str};

verus! {

/// The English name of day `day` of the week, Sunday being 0; empty past Saturday.
pub open spec fn day_name_spec(day: u32) -> Seq<char> {
    if day == 0 {
        "Sunday"@
    } else if day == 1 {
        "Monday"@
    } else if day == 2 {
        "Tuesday"@
    } else if day == 3 {
        "Wednesday"@
    } else if day == 4 {
        "Thursday"@
    } else if day == 5 {
        "Friday"@
    } else if day == 6 {
        "Saturday"@
    } else {
        Seq::empty()
    }
}

/// The name of a day of the week, Sunday being 0.
pub fn day_name(day: u32) -> (r: String)
    ensures
        r@ == day_name_spec(day),
{
    if day == 0 {
        String::from_str("Sunday")
    } else if day == 1 {
        String::from_str("Monday")
    } else if day == 2 {
        String::from_str("Tuesday")
    } else if day == 3 {
        String::from_str("Wednesday")
    } else if day == 4 {
        String::from_str("Thursday")
    } else if day == 5 {
        String::from_str("Friday")
    } else if day == 6 {
        String::from_str("Saturday")
    } else {
        String::new()
    }
}

/// `HH:MM`, each part with at least two digits.
pub open spec fn time_text(hours: u32, minutes: u32) -> Seq<char> {
    pad2(hours as nat) + seq![':'] + pad2(minutes as nat)
}

/// The time of day as the header clock shows it.
pub fn format_time(hours: u32, minutes: u32) -> (r: String)
    ensures
        r@ == time_text(hours, minutes),
{
    let mut r: String = String::new();
    push_pad2(&mut r, hours as u64);
    push_char(&mut r, ':');
    push_pad2(&mut r, minutes as u64);
    assert(r@ =~= time_text(hours, minutes));
    r
}

/// The header clock: the day's name, a space, and the time.
pub fn clock_label(day: u32, hours: u32, minutes: u32) -> (r: String)
    ensures
        r@ == day_name_spec(day) + seq![' '] + time_text(hours, minutes),
{
    let mut r: String = day_name(day);
    push_char(&mut r, ' ');
    let t: String = format_time(hours, minutes);
    push_str(&mut r, t.as_str());
    assert(r@ =~= day_name_spec(day) + seq![' '] + time_text(hours, minutes));
    r
}

/// An entry of the day selector.
pub struct DayOption {
    pub value: u8,
    pub label: String,
}

/// The seven entries of the day selector, Sunday first.
pub fn day_options() -> (r: Vec<DayOption>)
    ensures
        r@.len() == 7,
        forall|i: int|
            0 <= i < 7 ==> (#[trigger] r@[i]).value == i && r@[i].label@ == day_name_spec(
                i as u32,
            ),
{
    let mut r: Vec<DayOption> = Vec::new();
    let mut d: u8 = 0;
    while d < 7
        invariant
            d <= 7,
            r@.len() == d,
            forall|i: int|
                0 <= i < d ==> (#[trigger] r@[i]).value == i && r@[i].label@ == day_name_spec(
                    i as u32,
                ),
        decreases 7 - d,
    {
        r.push(DayOption { value: d, label: day_name(d as u32) });
        d = d + 1;
    }
    r
}

} // verus!
