use besim_gui::room::Room;
use besim_gui::schedule::{days_from_entries, ensure_days, get_prog, schedule_data, update_prog};

fn room_with_days(days: Vec<Vec<u8>>) -> Room {
    Room {
        temp: 0,
        t1: 0,
        t2: 0,
        t3: 0,
        settemp: 0,
        units: 0,
        lowbattery: 0,
        cmdissued: 0,
        heating: false,
        winter: 0,
        advance: 0,
        boost: 0,
        fakeboost: 0,
        mode: 0,
        days,
    }
}

#[test]
fn get_prog_reads_nibbles() {
    let room = room_with_days(vec![vec![], vec![0x21, 0x0f]]);
    assert_eq!(get_prog(&room, 1, 0), 1);
    assert_eq!(get_prog(&room, 1, 1), 2);
    assert_eq!(get_prog(&room, 1, 2), 15);
    assert_eq!(get_prog(&room, 1, 3), 0);
    // Missing bytes and days read as zero.
    assert_eq!(get_prog(&room, 1, 47), 0);
    assert_eq!(get_prog(&room, 0, 0), 0);
    assert_eq!(get_prog(&room, 6, 5), 0);
}

#[test]
fn ensure_days_pads_to_seven_days_of_24_bytes() {
    let mut days: Vec<Vec<u8>> = Vec::new();
    ensure_days(&mut days);
    assert_eq!(days, vec![vec![0u8; 24]; 7]);

    let mut days = vec![vec![1, 2, 3]];
    ensure_days(&mut days);
    assert_eq!(days.len(), 7);
    assert_eq!(&days[0][..3], &[1, 2, 3]);
    assert_eq!(days[0].len(), 24);

    let long: Vec<Vec<u8>> = (0..9).map(|i| vec![i as u8; 30]).collect();
    let mut days = long.clone();
    ensure_days(&mut days);
    assert_eq!(days, long);
}

#[test]
fn ensure_days_twice_is_once() {
    let mut once = vec![vec![5u8], vec![]];
    ensure_days(&mut once);
    let mut twice = once.clone();
    ensure_days(&mut twice);
    assert_eq!(once, twice);
}

#[test]
fn update_prog_sets_one_nibble() {
    let mut days = vec![vec![0x21]];
    update_prog(&mut days, 0, 0, 3);
    assert_eq!(days[0][0], 0x23);
    update_prog(&mut days, 0, 1, 0x1f);
    assert_eq!(days[0][0], 0xf3);
    assert_eq!(days.len(), 7);
}

#[test]
fn update_prog_reads_back_and_keeps_other_slots() {
    let program = vec![vec![0x12, 0x34, 0x56], vec![0xff; 24], vec![0xab]];
    for day in 0u8..7 {
        for slot in 0usize..48 {
            let mut days = program.clone();
            update_prog(&mut days, day, slot, 2);
            let before = room_with_days(program.clone());
            let after = room_with_days(days);
            for d in 0u8..8 {
                for s in 0usize..50 {
                    if d == day && s == slot {
                        assert_eq!(get_prog(&after, d, s), 2);
                    } else {
                        assert_eq!(get_prog(&after, d, s), get_prog(&before, d, s));
                    }
                }
            }
        }
    }
}

#[test]
fn update_prog_extends_a_short_day() {
    let mut days = vec![vec![0u8; 24]; 7];
    update_prog(&mut days, 2, 60, 5);
    assert_eq!(days[2].len(), 31);
    assert_eq!(days[2][30], 0x05);
}

#[test]
fn update_prog_beyond_the_program_only_pads() {
    let mut days = vec![vec![1u8]];
    update_prog(&mut days, 9, 0, 1);
    let mut expected = vec![vec![1u8]];
    ensure_days(&mut expected);
    assert_eq!(days, expected);
}

#[test]
fn schedule_data_is_program_plus_one() {
    let room = room_with_days(vec![vec![], vec![], vec![0x21, 0x00, 0xf0]]);
    let data = schedule_data(&room, 2);
    assert_eq!(data.len(), 48);
    assert_eq!(&data[..6], &[2, 3, 1, 1, 1, 16]);
    assert!(data[6..].iter().all(|v| *v == 1));
    assert_eq!(schedule_data(&room, 0), vec![1u8; 48]);
}

#[test]
fn days_are_read_by_key_last_one_winning() {
    let entries = vec![
        ("0".to_string(), vec![1u8]),
        ("6".to_string(), vec![6u8]),
        ("7".to_string(), vec![7u8]),
        ("x".to_string(), vec![9u8]),
        ("+1".to_string(), vec![2u8]),
        ("01".to_string(), vec![3u8]),
        ("-2".to_string(), vec![4u8]),
    ];
    let days = days_from_entries(&entries);
    assert_eq!(days, vec![vec![1], vec![3], vec![], vec![], vec![], vec![], vec![6]]);
    assert_eq!(days_from_entries(&Vec::new()), vec![Vec::<u8>::new(); 7]);
}
