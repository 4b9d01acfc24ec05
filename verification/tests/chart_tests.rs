use besim_gui::chart::{current_slot, hex_color, history_series, schedule_bars, ScheduleChartProps};
use besim_gui::clock::{clock_label, day_name, day_options, format_time};

#[test]
fn bars_of_a_day() {
    let props = ScheduleChartProps { data: vec![1, 2, 3, 4, 0], selected_day: 2 };
    let bars = schedule_bars(&props, 2, 1);
    assert_eq!(bars.len(), 5);
    let heights: Vec<u8> = bars.iter().map(|b| b.height).collect();
    assert_eq!(heights, vec![33, 66, 100, 0, 0]);
    let summaries: Vec<&str> = bars.iter().map(|b| b.summary.as_str()).collect();
    assert_eq!(summaries, vec!["1 (Low)", "2 (Medium)", "3 (High)", "4 (Off)", "0 (Off)"]);
    let times: Vec<&str> = bars.iter().map(|b| b.time.as_str()).collect();
    assert_eq!(times, vec!["00:00", "00:30", "01:00", "01:30", "02:00"]);
    let current: Vec<bool> = bars.iter().map(|b| b.current).collect();
    assert_eq!(current, vec![false, true, false, false, false]);
    assert_eq!(bars[3].name, "slot 3");
    assert_eq!(bars[3].slot, 3);
    assert_eq!(bars[3].value, 4);
    assert!(!bars[4].tooltip_left);

    let other_day = schedule_bars(&props, 3, 1);
    assert!(other_day.iter().all(|b| !b.current));

    let full = ScheduleChartProps { data: vec![1; 48], selected_day: 0 };
    let bars = schedule_bars(&full, 0, 47);
    assert!(!bars[35].tooltip_left);
    assert!(bars[36].tooltip_left);
    assert_eq!(bars[47].time, "23:30");
    assert!(bars[47].current);
}

#[test]
fn slot_of_the_present_time() {
    assert_eq!(current_slot(0, 0), 0);
    assert_eq!(current_slot(0, 29), 0);
    assert_eq!(current_slot(0, 30), 1);
    assert_eq!(current_slot(13, 45), 27);
    assert_eq!(current_slot(23, 59), 47);
}

#[test]
fn colour_codes() {
    assert_eq!(hex_color("#F25C5C"), (242, 92, 92));
    assert_eq!(hex_color("#2a92bf"), (42, 146, 191));
    assert_eq!(hex_color("##8FCB9B"), (143, 203, 155));
    assert_eq!(hex_color("F2C94C"), (242, 201, 76));
    assert_eq!(hex_color("#12345"), (0, 0, 0));
    assert_eq!(hex_color("#1234567"), (0, 0, 0));
    assert_eq!(hex_color("#GG0000"), (0, 0, 0));
    assert_eq!(hex_color("#+F+F-F"), (15, 15, 0));
    assert_eq!(hex_color(""), (0, 0, 0));
    assert_eq!(hex_color("#é0000"), (0, 0, 0));
}

#[test]
fn history_lines() {
    let s = history_series();
    let got: Vec<(&str, &str)> = s.iter().map(|x| (x.label.as_str(), x.color.as_str())).collect();
    assert_eq!(
        got,
        vec![("Temp", "#F25C5C"), ("SetTemp", "#2A92BF"), ("Outside", "#8FCB9B"), ("Heating", "#F2C94C")]
    );
}

#[test]
fn clock() {
    assert_eq!(day_name(0), "Sunday");
    assert_eq!(day_name(3), "Wednesday");
    assert_eq!(day_name(6), "Saturday");
    assert_eq!(day_name(7), "");
    assert_eq!(format_time(9, 5), "09:05");
    assert_eq!(format_time(23, 59), "23:59");
    assert_eq!(format_time(100, 0), "100:00");
    assert_eq!(clock_label(1, 7, 30), "Monday 07:30");
    assert_eq!(clock_label(9, 7, 30), " 07:30");
}

#[test]
fn day_selector() {
    let options = day_options();
    let got: Vec<(u8, &str)> = options.iter().map(|o| (o.value, o.label.as_str())).collect();
    assert_eq!(
        got,
        vec![
            (0, "Sunday"),
            (1, "Monday"),
            (2, "Tuesday"),
            (3, "Wednesday"),
            (4, "Thursday"),
            (5, "Friday"),
            (6, "Saturday")
        ]
    );
}
