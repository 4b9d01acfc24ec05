use besim_gui::room::{display_temp, room_view, update_room_value, PutBody, Room, RoomCommand, Setpoint};
use besim_gui::schedule::get_prog;

fn room() -> Room {
    Room {
        temp: 215,
        t1: 180,
        t2: 200,
        t3: 215,
        settemp: 200,
        units: 0,
        lowbattery: 0,
        cmdissued: 1,
        heating: true,
        winter: 1,
        advance: 0,
        boost: 0,
        fakeboost: 0,
        mode: 2,
        days: vec![vec![0x10; 24]; 7],
    }
}

fn number(body: &PutBody) -> i32 {
    match body {
        PutBody::Number(n) => *n,
        PutBody::Bytes(_) => panic!("expected a number"),
    }
}

#[test]
fn display_temp_celsius() {
    let mut r = room();
    r.units = 0;
    assert_eq!(display_temp(&r, 215), "21.5");
    assert_eq!(display_temp(&r, 0), "0.0");
    assert_eq!(display_temp(&r, -5), "-0.5");
    assert_eq!(display_temp(&r, -123), "-12.3");
    assert_eq!(display_temp(&r, 7), "0.7");
}

#[test]
fn display_temp_fahrenheit() {
    let mut r = room();
    r.units = 1;
    assert_eq!(display_temp(&r, 215), "70.7");
    assert_eq!(display_temp(&r, 1), "32.2");
    assert_eq!(display_temp(&r, 0), "32.0");
    assert_eq!(display_temp(&r, -178), "-0.0");
    assert_eq!(display_temp(&r, -200), "-4.0");
}

#[test]
fn display_temp_matches_float_formatting() {
    for units in [0, 1, 5] {
        let mut r = room();
        r.units = units;
        for t in (-20000..20000).chain([i32::MAX, i32::MIN, i32::MAX - 1, i32::MIN + 1]) {
            let mut value = t as f64 / 10.0;
            if units != 0 {
                value = value * 9.0 / 5.0 + 32.0;
            }
            assert_eq!(display_temp(&r, t), format!("{:.1}", value), "units {} temp {}", units, t);
        }
    }
}

#[test]
fn nothing_happens_without_a_room() {
    assert!(update_room_value(&None, RoomCommand::ToggleAdvance).is_none());
}

#[test]
fn setpoints_move_by_the_step() {
    let r = Some(room());
    let u = update_room_value(&r, RoomCommand::Adjust { setpoint: Setpoint::T1, delta: 2 }).unwrap();
    assert_eq!(u.room.t1, 182);
    assert_eq!(u.setting, "t1");
    assert_eq!(number(&u.body), 182);
    assert_eq!(u.room.t2, 200);
    let back = update_room_value(&Some(u.room), RoomCommand::Adjust { setpoint: Setpoint::T1, delta: -2 })
        .unwrap();
    assert_eq!(back.room.t1, 180);

    let u = update_room_value(&r, RoomCommand::Adjust { setpoint: Setpoint::T2, delta: -2 }).unwrap();
    assert_eq!((u.room.t2, u.setting.as_str(), number(&u.body)), (198, "t2", 198));
    let u = update_room_value(&r, RoomCommand::Adjust { setpoint: Setpoint::T3, delta: 2 }).unwrap();
    assert_eq!((u.room.t3, u.setting.as_str(), number(&u.body)), (217, "t3", 217));
}

#[test]
fn settings_are_written() {
    let r = Some(room());
    let u = update_room_value(&r, RoomCommand::SetSeason { winter: 0 }).unwrap();
    assert_eq!((u.room.winter, u.setting.as_str(), number(&u.body)), (0, "winter", 0));
    let u = update_room_value(&r, RoomCommand::SetMode { mode: 4 }).unwrap();
    assert_eq!((u.room.mode, u.setting.as_str(), number(&u.body)), (4, "mode", 4));
    let u = update_room_value(&r, RoomCommand::SetUnits { units: 1 }).unwrap();
    assert_eq!((u.room.units, u.setting.as_str(), number(&u.body)), (1, "units", 1));
}

#[test]
fn advance_toggles() {
    let r = Some(room());
    let u = update_room_value(&r, RoomCommand::ToggleAdvance).unwrap();
    assert_eq!((u.room.advance, u.setting.as_str(), number(&u.body)), (1, "advance", 1));
    let u = update_room_value(&Some(u.room), RoomCommand::ToggleAdvance).unwrap();
    assert_eq!(u.room.advance, 0);
    let mut odd = room();
    odd.advance = -2;
    let u = update_room_value(&Some(odd), RoomCommand::ToggleAdvance).unwrap();
    assert_eq!(u.room.advance, -1);
}

#[test]
fn boost_toggles_only_while_the_device_does_not_boost() {
    let r = Some(room());
    let u = update_room_value(&r, RoomCommand::ToggleBoost).unwrap();
    assert_eq!((u.room.fakeboost, u.setting.as_str(), number(&u.body)), (1, "fakeboost", 1));
    let u = update_room_value(&Some(u.room), RoomCommand::ToggleBoost).unwrap();
    assert_eq!(u.room.fakeboost, 0);
    let mut boosting = room();
    boosting.boost = 1;
    assert!(update_room_value(&Some(boosting), RoomCommand::ToggleBoost).is_none());
}

#[test]
fn slot_cycles_through_three_values() {
    let mut r = room();
    r.days = Vec::new();
    let mut state = Some(r);
    let mut seen = Vec::new();
    for _ in 0..3 {
        let u = update_room_value(&state, RoomCommand::CycleSlot { day: 3, slot: 5 }).unwrap();
        assert_eq!(u.setting, "days/3");
        match &u.body {
            PutBody::Bytes(b) => assert_eq!(b, &u.room.days[3]),
            PutBody::Number(_) => panic!("expected bytes"),
        }
        seen.push(get_prog(&u.room, 3, 5));
        assert_eq!(get_prog(&u.room, 3, 4), 0);
        state = Some(u.room);
    }
    assert_eq!(seen, vec![1, 2, 0]);
    let room = state.unwrap();
    assert_eq!(room.days.len(), 7);
    assert_eq!(room.days[3].len(), 24);
}

#[test]
fn room_view_shows_badges_and_buttons() {
    let v = room_view(&room());
    assert_eq!(v.temperature, "21.5");
    assert!(!v.low_battery);
    assert!(v.command_issued);
    assert!(v.heating);
    assert!(!v.cool_badge);
    assert!(!v.advance_badge);
    assert!(!v.boost_badge);
    let labels: Vec<_> = v.setpoints.iter().map(|s| (s.label.as_str(), s.text.as_str(), s.bold)).collect();
    assert_eq!(labels, vec![("T1", "18.0", false), ("T2", "20.0", true), ("T3", "21.5", false)]);
    assert!(!v.cooling_active && v.heating_active);
    let modes: Vec<_> = v.modes.iter().map(|m| (m.label.as_str(), m.mode, m.active)).collect();
    assert_eq!(
        modes,
        vec![
            ("Auto", 0, false),
            ("Manual", 1, false),
            ("Holiday", 2, true),
            ("Party", 3, false),
            ("Off", 4, false),
            ("DHW", 5, false)
        ]
    );
    assert!(v.celsius_active && !v.fahrenheit_active);

    let mut r = room();
    r.lowbattery = 1;
    r.winter = 0;
    r.advance = 1;
    r.fakeboost = 3;
    r.units = 1;
    let v = room_view(&r);
    assert!(v.low_battery && v.cool_badge && v.advance_badge && v.boost_badge);
    assert!(v.cooling_active && !v.heating_active);
    assert!(v.boost_active && v.advance_active);
    assert!(!v.celsius_active && v.fahrenheit_active);
    assert_eq!(v.temperature, "70.7");
}
