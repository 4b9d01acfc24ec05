//! A room of a thermostat: its state, how it is shown, and the commands that change it.
use vstd::prelude::*;

use crate::api::day_setting;
use crate::schedule::{
    copy_day, days_view, ensured_days, get_prog, lemma_ensure_days_len, lemma_update_prog_frame,
    lemma_update_prog_reads_back, prog_at, update_prog, updated_days,
};
use crate::text::{decimal, digit_char, digits, push_char, push_digits};

verus! {

/// The state of a room as the API reports it. Temperatures are in tenths of a
/// degree Celsius; `units` is 0 for Celsius and 1 for Fahrenheit.
#[derive(Clone, Debug)]
pub struct Room {
    pub temp: i32,
    pub t1: i32,
    pub t2: i32,
    pub t3: i32,
    pub settemp: i32,
    pub units: i32,
    pub lowbattery: i32,
    pub cmdissued: i32,
    pub heating: bool,
    pub winter: i32,
    pub advance: i32,
    pub boost: i32,
    pub fakeboost: i32,
    pub mode: i32,
    pub days: Vec<Vec<u8>>,
}

/// The value of a `Room`, its weekly program as byte sequences.
#[verifier::ext_equal]
pub struct RoomModel {
    pub temp: i32,
    pub t1: i32,
    pub t2: i32,
    pub t3: i32,
    pub settemp: i32,
    pub units: i32,
    pub lowbattery: i32,
    pub cmdissued: i32,
    pub heating: bool,
    pub winter: i32,
    pub advance: i32,
    pub boost: i32,
    pub fakeboost: i32,
    pub mode: i32,
    pub days: Seq<Seq<u8>>,
}

impl View for Room {
    type V = RoomModel;

    open spec fn view(&self) -> RoomModel {
        RoomModel {
            temp: self.temp,
            t1: self.t1,
            t2: self.t2,
            t3: self.t3,
            settemp: self.settemp,
            units: self.units,
            lowbattery: self.lowbattery,
            cmdissued: self.cmdissued,
            heating: self.heating,
            winter: self.winter,
            advance: self.advance,
            boost: self.boost,
            fakeboost: self.fakeboost,
            mode: self.mode,
            days: days_view(self.days),
        }
    }
}

/// A copy of a program.
pub fn copy_days(days: &Vec<Vec<u8>>) -> (r: Vec<Vec<u8>>)
    ensures
        days_view(r) == days_view(*days),
{
    let mut r: Vec<Vec<u8>> = Vec::new();
    let mut i: usize = 0;
    while i < days.len()
        invariant
            i <= days@.len(),
            r@.len() == i,
            forall|j: int| 0 <= j < i ==> (#[trigger] r@[j])@ == days@[j]@,
        decreases days@.len() - i,
    {
        let d: Vec<u8> = copy_day(&days[i]);
        r.push(d);
        i = i + 1;
    }
    assert(days_view(r) =~= days_view(*days));
    r
}

/// A copy of a room.
pub fn copy_room(room: &Room) -> (r: Room)
    ensures
        r@ == room@,
{
    Room {
        temp: room.temp,
        t1: room.t1,
        t2: room.t2,
        t3: room.t3,
        settemp: room.settemp,
        units: room.units,
        lowbattery: room.lowbattery,
        cmdissued: room.cmdissued,
        heating: room.heating,
        winter: room.winter,
        advance: room.advance,
        boost: room.boost,
        fakeboost: room.fakeboost,
        mode: room.mode,
        days: copy_days(&room.days),
    }
}

pub open spec fn abs(i: int) -> nat {
    if i < 0 {
        (-i) as nat
    } else {
        i as nat
    }
}

/// `mag` tenths written with one decimal place (`{:.1}`), after a minus sign when `neg`.
pub open spec fn tenths_text(neg: bool, mag: nat) -> Seq<char> {
    (if neg {
        seq!['-']
    } else {
        Seq::<char>::empty()
    }) + digits(mag / 10) + seq!['.', digit_char(mag % 10)]
}

/// A temperature of `temp` tenths of a degree Celsius as the room shows it:
/// in Celsius with one decimal when `units` is 0, else converted to Fahrenheit
/// (F = C * 9 / 5 + 32) and rounded to one decimal. In hundredths of a degree
/// the Fahrenheit value is the even number `18 * temp + 3200`, which is never
/// halfway between two tenths; a value that rounds to zero keeps its sign, as
/// `{:.1}` writes a negative number.
pub open spec fn temp_text(units: i32, temp: i32) -> Seq<char> {
    if units == 0 {
        tenths_text(temp < 0, abs(temp as int))
    } else {
        let h = 18 * temp + 3200;
        tenths_text(h < 0, (abs(h) + 5) / 10)
    }
}

fn push_tenths(out: &mut String, neg: bool, mag: u64)
    ensures
        final(out)@ == old(out)@ + tenths_text(neg, mag as nat),
{
    if neg {
        push_char(out, '-');
    }
    push_digits(out, mag / 10);
    push_char(out, '.');
    push_digits(out, mag % 10);
    assert(digits((mag % 10) as nat) =~= seq![digit_char((mag % 10) as nat)]);
    assert(final(out)@ =~= old(out)@ + tenths_text(neg, mag as nat));
}

/// A temperature of the room, in the room's units, with one decimal.
pub fn display_temp(room: &Room, temp: i32) -> (r: String)
    ensures
        r@ == temp_text(room.units, temp),
{
    let mut r: String = String::new();
    let t: i64 = temp as i64;
    if room.units == 0 {
        let mag: u64 = if t < 0 {
            (-t) as u64
        } else {
            t as u64
        };
        push_tenths(&mut r, t < 0, mag);
    } else {
        let h: i64 = 18 * t + 3200;
        let a: u64 = if h < 0 {
            (-h) as u64
        } else {
            h as u64
        };
        push_tenths(&mut r, h < 0, (a + 5) / 10);
    }
    assert(r@ =~= temp_text(room.units, temp));
    r
}

/// One of the three set temperatures of a room.
#[derive(Clone, Copy, PartialEq, Eq, Structural)]
pub enum Setpoint {
    T1,
    T2,
    T3,
}

/// What a user can do on the room page.
#[derive(Clone, Copy)]
pub enum RoomCommand {
    /// Raise or lower a set temperature by `delta` tenths.
    Adjust { setpoint: Setpoint, delta: i32 },
    /// Choose the season: 0 cooling, 1 heating.
    SetSeason { winter: i32 },
    /// Choose the mode (0 Auto, 1 Manual, 2 Holiday, 3 Party, 4 Off, 5 DHW).
    SetMode { mode: i32 },
    /// Choose the units: 0 Celsius, 1 Fahrenheit.
    SetUnits { units: i32 },
    /// Switch the advance flag.
    ToggleAdvance,
    /// Switch the boost that the user asked for (only while the device does not boost).
    ToggleBoost,
    /// Step a half-hour slot of a day's program to the next of 0, 1, 2.
    CycleSlot { day: u8, slot: usize },
}

/// The body of a write to the API.
pub enum PutBody {
    Number(i32),
    Bytes(Vec<u8>),
}

pub enum BodyModel {
    Number(i32),
    Bytes(Seq<u8>),
}

/// A command's effect: the room as it is shown from now on, and the write that
/// tells the device (`setting` names the request, see `Endpoint::RoomSetting`).
pub struct RoomUpdate {
    pub room: Room,
    pub setting: String,
    pub body: PutBody,
}

#[verifier::ext_equal]
pub struct UpdateModel {
    pub room: RoomModel,
    pub setting: Seq<char>,
    pub body: BodyModel,
}

pub open spec fn body_view(b: PutBody) -> BodyModel {
    match b {
        PutBody::Number(n) => BodyModel::Number(n),
        PutBody::Bytes(v) => BodyModel::Bytes(v@),
    }
}

pub open spec fn update_view(u: Option<RoomUpdate>) -> Option<UpdateModel> {
    match u {
        Some(u) => Some(UpdateModel { room: u.room@, setting: u.setting@, body: body_view(u.body) }),
        None => None,
    }
}

/// `a % b` as Rust computes it for integers: the sign follows `a`.
pub open spec fn rem_trunc(a: int, b: int) -> int {
    if a >= 0 {
        a % b
    } else {
        -((-a) % b)
    }
}

/// The inputs on which a command can be carried out: a set temperature stays
/// in range, the advance flag can be incremented, and the day of a slot is one
/// the padded program holds.
pub open spec fn command_allowed(m: RoomModel, cmd: RoomCommand) -> bool {
    match cmd {
        RoomCommand::Adjust { setpoint, delta } => {
            let t = match setpoint {
                Setpoint::T1 => m.t1,
                Setpoint::T2 => m.t2,
                Setpoint::T3 => m.t3,
            };
            i32::MIN <= t + delta <= i32::MAX
        },
        RoomCommand::ToggleAdvance => m.advance < i32::MAX,
        RoomCommand::CycleSlot { day, slot } => (day as int) < ensured_days(m.days).len(),
        _ => true,
    }
}

/// Whether a command can be carried out on a room (`command_allowed`): where
/// it is not, the arithmetic or indexing of the command would fail.
pub fn command_ok(room: &Room, cmd: RoomCommand) -> (b: bool)
    ensures
        b == command_allowed(room@, cmd),
{
    match cmd {
        RoomCommand::Adjust { setpoint, delta } => {
            let t: i32 = match setpoint {
                Setpoint::T1 => room.t1,
                Setpoint::T2 => room.t2,
                Setpoint::T3 => room.t3,
            };
            t.checked_add(delta).is_some()
        },
        RoomCommand::ToggleAdvance => room.advance < i32::MAX,
        RoomCommand::CycleSlot { day, slot } => {
            let n: usize = if room.days.len() >= 7 {
                room.days.len()
            } else {
                7
            };
            assert(days_view(room.days).len() == room.days@.len());
            (day as usize) < n
        },
        _ => true,
    }
}

/// The next value of a program slot: 0, 1, 2, 0, ...
pub open spec fn next_slot_value(current: u8) -> u8 {
    ((current + 1) % 3) as u8
}

/// What a command does to a room, and the write it sends.
pub open spec fn command_effect(m: RoomModel, cmd: RoomCommand) -> Option<UpdateModel> {
    match cmd {
        RoomCommand::Adjust { setpoint, delta } => match setpoint {
            Setpoint::T1 => {
                let v = (m.t1 + delta) as i32;
                Some(UpdateModel { room: RoomModel { t1: v, ..m }, setting: "t1"@, body: BodyModel::Number(v) })
            },
            Setpoint::T2 => {
                let v = (m.t2 + delta) as i32;
                Some(UpdateModel { room: RoomModel { t2: v, ..m }, setting: "t2"@, body: BodyModel::Number(v) })
            },
            Setpoint::T3 => {
                let v = (m.t3 + delta) as i32;
                Some(UpdateModel { room: RoomModel { t3: v, ..m }, setting: "t3"@, body: BodyModel::Number(v) })
            },
        },
        RoomCommand::SetSeason { winter } => Some(
            UpdateModel {
                room: RoomModel { winter, ..m },
                setting: "winter"@,
                body: BodyModel::Number(winter),
            },
        ),
        RoomCommand::SetMode { mode } => Some(
            UpdateModel { room: RoomModel { mode, ..m }, setting: "mode"@, body: BodyModel::Number(mode) },
        ),
        RoomCommand::SetUnits { units } => Some(
            UpdateModel {
                room: RoomModel { units, ..m },
                setting: "units"@,
                body: BodyModel::Number(units),
            },
        ),
        RoomCommand::ToggleAdvance => {
            let v = rem_trunc(m.advance + 1, 2) as i32;
            Some(
                UpdateModel {
                    room: RoomModel { advance: v, ..m },
                    setting: "advance"@,
                    body: BodyModel::Number(v),
                },
            )
        },
        RoomCommand::ToggleBoost => if m.boost == 0 {
            let v: i32 = if m.fakeboost == 0 {
                1
            } else {
                0
            };
            Some(
                UpdateModel {
                    room: RoomModel { fakeboost: v, ..m },
                    setting: "fakeboost"@,
                    body: BodyModel::Number(v),
                },
            )
        } else {
            None
        },
        RoomCommand::CycleSlot { day, slot } => {
            let next = next_slot_value(prog_at(m.days, day as int, slot as int));
            let days = updated_days(m.days, day as int, slot as int, next);
            Some(
                UpdateModel {
                    room: RoomModel { days, ..m },
                    setting: "days/"@ + decimal(day as int),
                    body: BodyModel::Bytes(days[day as int]),
                },
            )
        },
    }
}

/// Carries out a command on the room that the page shows: the room as it is
/// shown from now on and the write to send, or nothing when no room is loaded
/// yet or the command changes nothing (boost while the device boosts).
pub fn update_room_value(room: &Option<Room>, cmd: RoomCommand) -> (r: Option<RoomUpdate>)
    requires
        room matches Some(rm) ==> command_allowed(rm@, cmd),
    ensures
        match room {
            None => r is None,
            Some(rm) => update_view(r) == command_effect(rm@, cmd),
        },
{
    let current: &Room = match room {
        None => {
            return None;
        },
        Some(rm) => rm,
    };
    let mut next: Room = copy_room(current);
    let setting: String;
    let body: PutBody;
    match cmd {
        RoomCommand::Adjust { setpoint, delta } => match setpoint {
            Setpoint::T1 => {
                next.t1 = current.t1 + delta;
                setting = String::from_str("t1");
                body = PutBody::Number(next.t1);
            },
            Setpoint::T2 => {
                next.t2 = current.t2 + delta;
                setting = String::from_str("t2");
                body = PutBody::Number(next.t2);
            },
            Setpoint::T3 => {
                next.t3 = current.t3 + delta;
                setting = String::from_str("t3");
                body = PutBody::Number(next.t3);
            },
        },
        RoomCommand::SetSeason { winter } => {
            next.winter = winter;
            setting = String::from_str("winter");
            body = PutBody::Number(winter);
        },
        RoomCommand::SetMode { mode } => {
            next.mode = mode;
            setting = String::from_str("mode");
            body = PutBody::Number(mode);
        },
        RoomCommand::SetUnits { units } => {
            next.units = units;
            setting = String::from_str("units");
            body = PutBody::Number(units);
        },
        RoomCommand::ToggleAdvance => {
            let a: i32 = current.advance + 1;
            let v: i32 = if a >= 0 {
                ((a as u32) % 2) as i32
            } else {
                -((((-a) as u32) % 2) as i32)
            };
            assert(v == rem_trunc(current.advance + 1, 2));
            next.advance = v;
            setting = String::from_str("advance");
            body = PutBody::Number(v);
        },
        RoomCommand::ToggleBoost => {
            if current.boost != 0 {
                return None;
            }
            let v: i32 = if current.fakeboost == 0 {
                1
            } else {
                0
            };
            next.fakeboost = v;
            setting = String::from_str("fakeboost");
            body = PutBody::Number(v);
        },
        RoomCommand::CycleSlot { day, slot } => {
            let value: u8 = get_prog(current, day, slot);
            let v: u8 = (value + 1) % 3;
            let mut days: Vec<Vec<u8>> = copy_days(&current.days);
            update_prog(&mut days, day, slot, v);
            assert(days_view(days).len() == ensured_days(current@.days).len());
            assert(days@.len() == days_view(days).len());
            let bytes: Vec<u8> = copy_day(&days[day as usize]);
            next.days = days;
            setting = day_setting(day);
            body = PutBody::Bytes(bytes);
            assert(next@ =~= RoomModel { days: days_view(next.days), ..current@ });
        },
    }
    let r: Option<RoomUpdate> = Some(RoomUpdate { room: next, setting, body });
    assert(update_view(r) =~= command_effect(current@, cmd));
    r
}


/// A set temperature line of the room page.
pub struct SetpointView {
    /// `T1`, `T2` or `T3`.
    pub label: String,
    /// The temperature in the room's units.
    pub text: String,
    /// Shown in bold: it is the temperature the room is set to now.
    pub bold: bool,
}

/// A button of the mode selector.
pub struct ModeButton {
    pub label: String,
    pub mode: i32,
    pub active: bool,
}

/// What the room page shows of a room.
pub struct RoomView {
    /// The room temperature in the room's units.
    pub temperature: String,
    /// The battery is low (else it is shown full).
    pub low_battery: bool,
    /// A command has been sent to the room and not yet carried out.
    pub command_issued: bool,
    pub heating: bool,
    /// The `Cool`, `A` (advance) and `B` (boost) badges.
    pub cool_badge: bool,
    pub advance_badge: bool,
    pub boost_badge: bool,
    /// T1, T2, T3 in that order.
    pub setpoints: Vec<SetpointView>,
    /// Which season button is active.
    pub cooling_active: bool,
    pub heating_active: bool,
    /// Auto, Manual, Holiday, Party, Off, DHW.
    pub modes: Vec<ModeButton>,
    /// Which units button is active.
    pub celsius_active: bool,
    pub fahrenheit_active: bool,
    pub boost_active: bool,
    pub advance_active: bool,
}

/// The label of mode `i` (0 to 5).
pub open spec fn mode_label(i: int) -> Seq<char> {
    if i == 0 {
        "Auto"@
    } else if i == 1 {
        "Manual"@
    } else if i == 2 {
        "Holiday"@
    } else if i == 3 {
        "Party"@
    } else if i == 4 {
        "Off"@
    } else {
        "DHW"@
    }
}

fn mode_name(i: i32) -> (r: String)
    requires
        0 <= i < 6,
    ensures
        r@ == mode_label(i as int),
{
    if i == 0 {
        String::from_str("Auto")
    } else if i == 1 {
        String::from_str("Manual")
    } else if i == 2 {
        String::from_str("Holiday")
    } else if i == 3 {
        String::from_str("Party")
    } else if i == 4 {
        String::from_str("Off")
    } else {
        String::from_str("DHW")
    }
}

/// The set temperature line `label` for the value `t`.
pub open spec fn setpoint_spec(m: RoomModel, label: Seq<char>, t: i32, s: SetpointView) -> bool {
    &&& s.label@ == label
    &&& s.text@ == temp_text(m.units, t)
    &&& s.bold == (t == m.settemp)
}

fn setpoint_view(room: &Room, label: &str, t: i32) -> (s: SetpointView)
    ensures
        setpoint_spec(room@, label@, t, s),
{
    SetpointView { label: String::from_str(label), text: display_temp(room, t), bold: t == room.settemp }
}

/// What the room page shows of a room: its temperatures in its units, its
/// badges, and which buttons are active.
pub open spec fn room_view_spec(room: Room, v: RoomView) -> bool {
    &&& v.temperature@ == temp_text(room.units, room.temp)
    &&& v.low_battery == (room.lowbattery == 1)
    &&& v.command_issued == (room.cmdissued == 1)
    &&& v.heating == room.heating
    &&& v.cool_badge == (room.winter == 0)
    &&& v.advance_badge == (room.advance == 1)
    &&& v.boost_badge == (room.boost == 1 || room.fakeboost != 0)
    &&& v.setpoints@.len() == 3
    &&& setpoint_spec(room@, "T1"@, room.t1, v.setpoints@[0])
    &&& setpoint_spec(room@, "T2"@, room.t2, v.setpoints@[1])
    &&& setpoint_spec(room@, "T3"@, room.t3, v.setpoints@[2])
    &&& v.cooling_active == (room.winter == 0)
    &&& v.heating_active == (room.winter == 1)
    &&& v.modes@.len() == 6
    &&& forall|i: int|
            0 <= i < 6 ==> (#[trigger] v.modes@[i]).mode == i && v.modes@[i].label@ == mode_label(i)
                && v.modes@[i].active == (room.mode == i)
    &&& v.celsius_active == (room.units == 0)
    &&& v.fahrenheit_active == (room.units == 1)
    &&& v.boost_active == (room.boost == 1 || room.fakeboost != 0)
    &&& v.advance_active == (room.advance == 1)
}

/// What the room page shows of a room.
pub fn room_view(room: &Room) -> (v: RoomView)
    ensures
        room_view_spec(*room, v),
{
    let mut setpoints: Vec<SetpointView> = Vec::new();
    setpoints.push(setpoint_view(room, "T1", room.t1));
    setpoints.push(setpoint_view(room, "T2", room.t2));
    setpoints.push(setpoint_view(room, "T3", room.t3));
    let mut modes: Vec<ModeButton> = Vec::new();
    let mut i: i32 = 0;
    while i < 6
        invariant
            0 <= i <= 6,
            modes@.len() == i,
            forall|j: int|
                0 <= j < i ==> (#[trigger] modes@[j]).mode == j && modes@[j].label@ == mode_label(j)
                    && modes@[j].active == (room.mode == j),
        decreases 6 - i,
    {
        modes.push(ModeButton { label: mode_name(i), mode: i, active: room.mode == i });
        i = i + 1;
    }
    let boost: bool = room.boost == 1 || room.fakeboost != 0;
    RoomView {
        temperature: display_temp(room, room.temp),
        low_battery: room.lowbattery == 1,
        command_issued: room.cmdissued == 1,
        heating: room.heating,
        cool_badge: room.winter == 0,
        advance_badge: room.advance == 1,
        boost_badge: boost,
        setpoints,
        cooling_active: room.winter == 0,
        heating_active: room.winter == 1,
        modes,
        celsius_active: room.units == 0,
        fahrenheit_active: room.units == 1,
        boost_active: boost,
        advance_active: room.advance == 1,
    }
}

/// All fields of two rooms but `units`, `winter` and `mode` agree.
pub open spec fn same_but_choices(a: RoomModel, b: RoomModel) -> bool {
    &&& a.temp == b.temp && a.t1 == b.t1 && a.t2 == b.t2 && a.t3 == b.t3
    &&& a.settemp == b.settemp && a.lowbattery == b.lowbattery && a.cmdissued == b.cmdissued
    &&& a.heating == b.heating && a.advance == b.advance && a.boost == b.boost
    &&& a.fakeboost == b.fakeboost && a.days == b.days
}

/// Choosing the units, the season or the mode always takes effect, whatever
/// the room held before: the room then holds the chosen value, the write sends
/// exactly that value to the setting of that name, and nothing else changes.
pub proof fn lemma_choices_take_effect(m: RoomModel, v: i32)
    ensures
        command_effect(m, RoomCommand::SetUnits { units: v }) matches Some(e) && e.room.units == v
            && e.room.winter == m.winter && e.room.mode == m.mode && same_but_choices(e.room, m)
            && e.setting == "units"@ && e.body == BodyModel::Number(v),
        command_effect(m, RoomCommand::SetSeason { winter: v }) matches Some(e) && e.room.winter
            == v && e.room.units == m.units && e.room.mode == m.mode && same_but_choices(e.room, m)
            && e.setting == "winter"@ && e.body == BodyModel::Number(v),
        command_effect(m, RoomCommand::SetMode { mode: v }) matches Some(e) && e.room.mode == v
            && e.room.units == m.units && e.room.winter == m.winter && same_but_choices(e.room, m)
            && e.setting == "mode"@ && e.body == BodyModel::Number(v),
{
}

/// The boost badge and the Boost button show a boost whenever the device
/// boosts or the user asked for one, and only then.
pub proof fn lemma_boost_shown(room: Room, v: RoomView)
    requires
        room_view_spec(room, v),
    ensures
        room.boost == 1 ==> v.boost_badge && v.boost_active,
        room.fakeboost != 0 ==> v.boost_badge && v.boost_active,
        room.boost != 1 && room.fakeboost == 0 ==> !v.boost_badge && !v.boost_active,
{
}

/// A set temperature is shown in the same units as the room temperature: a set
/// temperature equal to the room temperature reads exactly as the room
/// temperature does, in Celsius and in Fahrenheit alike; and with the room in
/// Fahrenheit, it reads as the Celsius value converted (F = C * 9 / 5 + 32).
pub proof fn lemma_setpoints_in_room_units(room: Room, v: RoomView)
    requires
        room_view_spec(room, v),
    ensures
        room.t1 == room.temp ==> v.setpoints@[0].text@ == v.temperature@,
        room.t2 == room.temp ==> v.setpoints@[1].text@ == v.temperature@,
        room.t3 == room.temp ==> v.setpoints@[2].text@ == v.temperature@,
        room.units != 0 ==> v.setpoints@[0].text@ == tenths_text(
            18 * room.t1 + 3200 < 0,
            (abs(18 * room.t1 + 3200) + 5) / 10,
        ),
{
}

/// A set-temperature button moves that set temperature by its step and writes
/// the new value to the setting of the same name; the other two stay.
pub proof fn lemma_adjust_moves_one(m: RoomModel, delta: i32)
    requires
        i32::MIN <= m.t1 + delta <= i32::MAX,
        i32::MIN <= m.t2 + delta <= i32::MAX,
        i32::MIN <= m.t3 + delta <= i32::MAX,
    ensures
        command_effect(m, RoomCommand::Adjust { setpoint: Setpoint::T1, delta }) matches Some(e)
            && e.room.t1 == m.t1 + delta && e.room.t2 == m.t2 && e.room.t3 == m.t3
            && e.setting == "t1"@ && e.body == BodyModel::Number(e.room.t1),
        command_effect(m, RoomCommand::Adjust { setpoint: Setpoint::T2, delta }) matches Some(e)
            && e.room.t2 == m.t2 + delta && e.room.t1 == m.t1 && e.room.t3 == m.t3
            && e.setting == "t2"@ && e.body == BodyModel::Number(e.room.t2),
        command_effect(m, RoomCommand::Adjust { setpoint: Setpoint::T3, delta }) matches Some(e)
            && e.room.t3 == m.t3 + delta && e.room.t1 == m.t1 && e.room.t2 == m.t2
            && e.setting == "t3"@ && e.body == BodyModel::Number(e.room.t3),
{
}

/// The advance button switches 0 to 1 and 1 to 0, and writes the new value.
pub proof fn lemma_advance_switches(m: RoomModel)
    requires
        m.advance == 0 || m.advance == 1,
    ensures
        command_effect(m, RoomCommand::ToggleAdvance) matches Some(e) && e.room.advance == 1
            - m.advance && e.setting == "advance"@ && e.body == BodyModel::Number(e.room.advance),
{
}

/// While the device does not boost, the Boost button asks for a boost when none
/// is asked for and withdraws it otherwise, and writes the new value.
pub proof fn lemma_boost_switches(m: RoomModel)
    requires
        m.boost == 0,
    ensures
        command_effect(m, RoomCommand::ToggleBoost) matches Some(e) && (e.room.fakeboost != 0
            <==> m.fakeboost == 0) && (e.room.fakeboost == 0 || e.room.fakeboost == 1)
            && e.setting == "fakeboost"@ && e.body == BodyModel::Number(e.room.fakeboost),
{
}

/// The status icons and badges follow the room's flags.
pub proof fn lemma_badges(room: Room, v: RoomView)
    requires
        room_view_spec(room, v),
    ensures
        v.low_battery <==> room.lowbattery == 1,
        v.command_issued <==> room.cmdissued == 1,
        v.heating <==> room.heating,
        v.cool_badge <==> room.winter == 0,
        v.advance_badge <==> room.advance == 1,
        v.cooling_active <==> room.winter == 0,
        v.heating_active <==> room.winter == 1,
        v.celsius_active <==> room.units == 0,
        v.fahrenheit_active <==> room.units == 1,
        forall|i: int| 0 <= i < 6 ==> ((#[trigger] v.modes@[i]).active <==> room.mode == i),
        forall|i: int|
            0 <= i < 3 ==> ((#[trigger] v.setpoints@[i]).bold <==> (if i == 0 {
                room.t1
            } else if i == 1 {
                room.t2
            } else {
                room.t3
            }) == room.settemp),
{
}

/// The room after a command that has an effect.
pub open spec fn after(m: RoomModel, cmd: RoomCommand) -> RoomModel {
    command_effect(m, cmd).unwrap().room
}

/// Raising a set temperature and lowering it by the same step gives the room back.
pub proof fn lemma_adjust_undone(m: RoomModel, setpoint: Setpoint, delta: i32)
    requires
        command_allowed(m, RoomCommand::Adjust { setpoint, delta }),
        delta > i32::MIN,
    ensures
        command_allowed(after(m, RoomCommand::Adjust { setpoint, delta }), RoomCommand::Adjust { setpoint, delta: (-delta) as i32 }),
        after(after(m, RoomCommand::Adjust { setpoint, delta }), RoomCommand::Adjust { setpoint, delta: (-delta) as i32 }) == m,
{
    let m2 = after(after(m, RoomCommand::Adjust { setpoint, delta }), RoomCommand::Adjust { setpoint, delta: (-delta) as i32 });
    assert(m2 =~= m);
}

/// Switching the advance flag twice gives the room back when the flag is 0 or 1.
pub proof fn lemma_advance_twice(m: RoomModel)
    requires
        m.advance == 0 || m.advance == 1,
    ensures
        command_allowed(m, RoomCommand::ToggleAdvance),
        command_allowed(after(m, RoomCommand::ToggleAdvance), RoomCommand::ToggleAdvance),
        after(after(m, RoomCommand::ToggleAdvance), RoomCommand::ToggleAdvance) == m,
{
    let m2 = after(after(m, RoomCommand::ToggleAdvance), RoomCommand::ToggleAdvance);
    assert(m2 =~= m);
}

/// While the device does not boost, switching the asked-for boost twice gives
/// the room back when it is 0 or 1; while the device boosts, the switch does nothing.
pub proof fn lemma_boost_twice(m: RoomModel)
    ensures
        m.boost != 0 ==> command_effect(m, RoomCommand::ToggleBoost) is None,
        m.boost == 0 && (m.fakeboost == 0 || m.fakeboost == 1) ==> after(
            after(m, RoomCommand::ToggleBoost),
            RoomCommand::ToggleBoost,
        ) == m,
{
    if m.boost == 0 && (m.fakeboost == 0 || m.fakeboost == 1) {
        let m2 = after(after(m, RoomCommand::ToggleBoost), RoomCommand::ToggleBoost);
        assert(m2 =~= m);
    }
}

/// Stepping a slot moves it to the next of 0, 1, 2, and changes no other slot.
pub proof fn lemma_cycle_slot(m: RoomModel, day: u8, slot: usize, other_day: int, other_slot: int)
    requires
        command_allowed(m, RoomCommand::CycleSlot { day, slot }),
        other_slot >= 0,
    ensures
        prog_at(after(m, RoomCommand::CycleSlot { day, slot }).days, day as int, slot as int)
            == next_slot_value(prog_at(m.days, day as int, slot as int)),
        (other_day != day || other_slot != slot) ==> prog_at(
            after(m, RoomCommand::CycleSlot { day, slot }).days,
            other_day,
            other_slot,
        ) == prog_at(m.days, other_day, other_slot),
{
    let v = next_slot_value(prog_at(m.days, day as int, slot as int));
    lemma_update_prog_reads_back(m.days, day as int, slot as int, v);
    assert(v & 0x0fu8 == v) by (bit_vector)
        requires
            v < 3,
    ;
    if other_day != day || other_slot != slot {
        lemma_update_prog_frame(m.days, day as int, slot as int, v, other_day, other_slot);
    }
}

/// Stepping a slot whose value is 0, 1 or 2 three times gives it back.
pub proof fn lemma_cycle_slot_three_times(m: RoomModel, day: u8, slot: usize)
    requires
        command_allowed(m, RoomCommand::CycleSlot { day, slot }),
        prog_at(m.days, day as int, slot as int) < 3,
    ensures
        prog_at(
            after(
                after(after(m, RoomCommand::CycleSlot { day, slot }), RoomCommand::CycleSlot { day, slot }),
                RoomCommand::CycleSlot { day, slot },
            ).days,
            day as int,
            slot as int,
        ) == prog_at(m.days, day as int, slot as int),
{
    let c = RoomCommand::CycleSlot { day, slot };
    let m1 = after(m, c);
    lemma_cycle_slot(m, day, slot, 0, 0);
    lemma_ensure_days_len(m.days);
    lemma_ensure_days_len(m1.days);
    let m2 = after(m1, c);
    lemma_cycle_slot(m1, day, slot, 0, 0);
    lemma_ensure_days_len(m2.days);
    lemma_cycle_slot(m2, day, slot, 0, 0);
}

} // verus!
