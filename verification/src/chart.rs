//! What the charts draw: the bars of a day's schedule, and the colours of the
//! history lines.
use vstd::prelude::*;

use crate::text::{decimal, pad2, push_char, push_digits, push_pad2, push_str};
use vstd::string::StringSliceAdditionalSpecFns;
use vstd::utf8::is_continuation_byte;

verus! {

/// The values of one day's half-hour slots as the schedule chart draws them,
/// and the day they belong to (0 is Sunday).
pub struct ScheduleChartProps {
    pub data: Vec<u8>,
    pub selected_day: u8,
}

/// One bar of the schedule chart.
pub struct ScheduleBar {
    /// Position of the slot in the day (half hours since midnight).
    pub slot: usize,
    /// The drawn value (program value plus one).
    pub value: u8,
    /// Height of the bar in percent.
    pub height: u8,
    /// Whether this is the slot of the present time on the present day.
    pub current: bool,
    /// Text for screen readers: `slot N`.
    pub name: String,
    /// Start of the slot, `HH:MM`.
    pub time: String,
    /// The value and its level, e.g. `2 (Medium)`.
    pub summary: String,
    /// Whether the tooltip opens to the left (the last quarter of the day).
    pub tooltip_left: bool,
}

/// Height in percent of a bar of value `v`.
pub open spec fn bar_height(v: u8) -> u8 {
    if v == 1 {
        33
    } else if v == 2 {
        66
    } else if v == 3 {
        100
    } else {
        0
    }
}

/// Name of the level of value `v`.
pub open spec fn level_label(v: u8) -> Seq<char> {
    if v == 1 {
        "Low"@
    } else if v == 2 {
        "Medium"@
    } else if v == 3 {
        "High"@
    } else {
        "Off"@
    }
}

/// The half-hour slot of a time of day: two per hour, the second from minute 30.
pub open spec fn slot_of(hours: u32, minutes: u32) -> u64 {
    (hours * 2 + if minutes >= 30 {
        1int
    } else {
        0int
    }) as u64
}

/// The bar that the chart draws for slot `idx` of value `v`.
pub open spec fn bar_spec(idx: int, v: u8, is_current: bool, b: ScheduleBar) -> bool {
    &&& b.slot == idx
    &&& b.value == v
    &&& b.height == bar_height(v)
    &&& b.current == is_current
    &&& b.name@ == "slot "@ + decimal(idx)
    &&& b.time@ == pad2((idx / 2) as nat) + seq![':'] + pad2(((idx % 2) * 30) as nat)
    &&& b.summary@ == decimal(v as int) + " ("@ + level_label(v) + ")"@
    &&& b.tooltip_left == (idx >= 36)
}

/// The slot of the present time: `hours * 2`, plus one from minute 30 on.
pub fn current_slot(hours: u32, minutes: u32) -> (r: u64)
    ensures
        r == slot_of(hours, minutes),
{
    let h: u64 = hours as u64;
    h * 2 + if minutes >= 30 {
        1
    } else {
        0
    }
}

fn level_name(v: u8) -> (r: String)
    ensures
        r@ == level_label(v),
{
    if v == 1 {
        String::from_str("Low")
    } else if v == 2 {
        String::from_str("Medium")
    } else if v == 3 {
        String::from_str("High")
    } else {
        String::from_str("Off")
    }
}

fn make_bar(idx: usize, v: u8, is_current: bool) -> (b: ScheduleBar)
    ensures
        bar_spec(idx as int, v, is_current, b),
{
    let height: u8 = if v == 1 {
        33
    } else if v == 2 {
        66
    } else if v == 3 {
        100
    } else {
        0
    };
    let mut name: String = String::from_str("slot ");
    push_digits(&mut name, idx as u64);
    let mut time: String = String::new();
    push_pad2(&mut time, (idx / 2) as u64);
    push_char(&mut time, ':');
    push_pad2(&mut time, ((idx % 2) * 30) as u64);
    let mut summary: String = String::new();
    push_digits(&mut summary, v as u64);
    push_str(&mut summary, " (");
    let label: String = level_name(v);
    push_str(&mut summary, label.as_str());
    push_str(&mut summary, ")");
    let b: ScheduleBar = ScheduleBar {
        slot: idx,
        value: v,
        height,
        current: is_current,
        name,
        time,
        summary,
        tooltip_left: idx >= 36,
    };
    assert(b.time@ =~= pad2((idx / 2) as nat) + seq![':'] + pad2(((idx % 2) * 30) as nat));
    assert(b.summary@ =~= decimal(v as int) + " ("@ + level_label(v) + ")"@);
    b
}

/// The bars of the schedule chart, one per value, in order; the bar of the
/// present slot is marked when the chart shows the present day.
pub fn schedule_bars(props: &ScheduleChartProps, today_day: u8, today_slot: u64) -> (bars: Vec<
    ScheduleBar,
>)
    ensures
        bars@.len() == props.data@.len(),
        forall|i: int|
            0 <= i < bars@.len() ==> bar_spec(
                i,
                props.data@[i],
                props.selected_day == today_day && i == today_slot,
                #[trigger] bars@[i],
            ),
{
    let mut bars: Vec<ScheduleBar> = Vec::new();
    let mut i: usize = 0;
    while i < props.data.len()
        invariant
            i <= props.data@.len(),
            bars@.len() == i,
            forall|j: int|
                0 <= j < i ==> bar_spec(
                    j,
                    props.data@[j],
                    props.selected_day == today_day && j == today_slot,
                    #[trigger] bars@[j],
                ),
        decreases props.data@.len() - i,
    {
        let is_current: bool = props.selected_day == today_day && (i as u64) == today_slot;
        bars.push(make_bar(i, props.data[i], is_current));
        i = i + 1;
    }
    bars
}

/// `b` without its leading `#` bytes.
pub open spec fn strip_hashes(b: Seq<u8>) -> Seq<u8>
    decreases b.len(),
{
    if b.len() > 0 && b[0] == 0x23u8 {
        strip_hashes(b.drop_first())
    } else {
        b
    }
}

/// The value of an ASCII hexadecimal digit (either case).
pub open spec fn hex_value(c: u8) -> Option<u8> {
    if 0x30 <= c <= 0x39 {
        Some((c - 0x30) as u8)
    } else if 0x41 <= c <= 0x46 {
        Some((c - 0x41 + 10) as u8)
    } else if 0x61 <= c <= 0x66 {
        Some((c - 0x61 + 10) as u8)
    } else {
        None
    }
}

/// `u8::from_str_radix(s, 16)` for a two-byte string, 0 where it fails:
/// two hex digits, or `+` and one hex digit.
pub open spec fn hex_pair(b0: u8, b1: u8) -> u8 {
    match (hex_value(b0), hex_value(b1)) {
        (Some(h), Some(l)) => (h * 16 + l) as u8,
        (None, Some(l)) => if b0 == 0x2bu8 {
            l
        } else {
            0
        },
        _ => 0,
    }
}

/// The colour of a `#RRGGBB` code: the code without its leading `#`s must be six
/// bytes long, each pair read as a hexadecimal byte (0 where it is not one);
/// anything else is black.
pub open spec fn color_of(b: Seq<u8>) -> (u8, u8, u8) {
    let r = strip_hashes(b);
    if r.len() != 6 {
        (0, 0, 0)
    } else {
        (hex_pair(r[0], r[1]), hex_pair(r[2], r[3]), hex_pair(r[4], r[5]))
    }
}

/// A colour code can be cut into its three pairs: where it has six bytes after
/// its `#`s, the cuts after the second and fourth fall between characters.
pub open spec fn color_code_cuttable(b: Seq<u8>) -> bool {
    let r = strip_hashes(b);
    r.len() == 6 ==> !is_continuation_byte(r[2]) && !is_continuation_byte(r[4])
}

fn hex_digit(c: u8) -> (r: Option<u8>)
    ensures
        r == hex_value(c),
{
    if 0x30 <= c && c <= 0x39 {
        Some(c - 0x30)
    } else if 0x41 <= c && c <= 0x46 {
        Some(c - 0x41 + 10)
    } else if 0x61 <= c && c <= 0x66 {
        Some(c - 0x61 + 10)
    } else {
        None
    }
}

fn parse_pair(b0: u8, b1: u8) -> (r: u8)
    ensures
        r == hex_pair(b0, b1),
{
    match (hex_digit(b0), hex_digit(b1)) {
        (Some(h), Some(l)) => h * 16 + l,
        (None, Some(l)) => if b0 == 0x2b {
            l
        } else {
            0
        },
        _ => 0,
    }
}

proof fn lemma_strip_hashes_at(b: Seq<u8>, i: int)
    requires
        0 <= i <= b.len(),
        forall|j: int| 0 <= j < i ==> #[trigger] b[j] == 0x23u8,
        i == b.len() || b[i] != 0x23u8,
    ensures
        strip_hashes(b) == b.subrange(i, b.len() as int),
    decreases i,
{
    if i == 0 {
        assert(b.subrange(0, b.len() as int) =~= b);
    } else {
        let t = b.drop_first();
        assert forall|j: int| 0 <= j < i - 1 implies #[trigger] t[j] == 0x23u8 by {
            assert(t[j] == b[j + 1]);
        }
        lemma_strip_hashes_at(t, i - 1);
        assert(t.subrange(i - 1, t.len() as int) =~= b.subrange(i, b.len() as int));
    }
}

/// The colour of a `#RRGGBB` code (black where it is not one).
pub fn hex_color(value: &str) -> (rgb: (u8, u8, u8))
    requires
        color_code_cuttable(value.spec_bytes()),
    ensures
        rgb == color_of(value.spec_bytes()),
{
    let b: &[u8] = value.as_bytes();
    let mut i: usize = 0;
    while i < b.len() && b[i] == 0x23
        invariant
            i <= b@.len(),
            forall|j: int| 0 <= j < i ==> #[trigger] b@[j] == 0x23u8,
        decreases b@.len() - i,
    {
        i = i + 1;
    }
    proof {
        lemma_strip_hashes_at(b@, i as int);
    }
    if b.len() - i != 6 {
        return (0, 0, 0);
    }
    (parse_pair(b[i], b[i + 1]), parse_pair(b[i + 2], b[i + 3]), parse_pair(b[i + 4], b[i + 5]))
}

/// A line of the history chart: its legend label and its colour code.
pub struct SeriesStyle {
    pub label: String,
    pub color: String,
}

/// The four lines of the history chart, in drawing order: room temperature,
/// set temperature, outside temperature, heating.
pub fn history_series() -> (r: Vec<SeriesStyle>)
    ensures
        r@.len() == 4,
        r@[0].label@ == "Temp"@ && r@[0].color@ == "#F25C5C"@,
        r@[1].label@ == "SetTemp"@ && r@[1].color@ == "#2A92BF"@,
        r@[2].label@ == "Outside"@ && r@[2].color@ == "#8FCB9B"@,
        r@[3].label@ == "Heating"@ && r@[3].color@ == "#F2C94C"@,
{
    let mut r: Vec<SeriesStyle> = Vec::new();
    r.push(SeriesStyle { label: String::from_str("Temp"), color: String::from_str("#F25C5C") });
    r.push(
        SeriesStyle { label: String::from_str("SetTemp"), color: String::from_str("#2A92BF") },
    );
    r.push(
        SeriesStyle { label: String::from_str("Outside"), color: String::from_str("#8FCB9B") },
    );
    r.push(
        SeriesStyle { label: String::from_str("Heating"), color: String::from_str("#F2C94C") },
    );
    r
}

} // verus!
