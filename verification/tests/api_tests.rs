use besim_gui::api::{api_base_url, day_setting, join_url, normalize_base, Endpoint};

#[test]
fn normalize_base_trims_and_drops_trailing_slashes() {
    assert_eq!(normalize_base("  http://host/api/v1.0/ ".to_string()), "http://host/api/v1.0");
    assert_eq!(normalize_base("http://host//".to_string()), "http://host");
    assert_eq!(normalize_base("   ".to_string()), "");
    assert_eq!(normalize_base("///".to_string()), "");
    assert_eq!(normalize_base(String::new()), "");
    // Whitespace is trimmed before the slashes are dropped.
    assert_eq!(normalize_base("a/ /".to_string()), "a/ ");
}

#[test]
fn join_url_puts_one_slash_between() {
    assert_eq!(join_url("http://host/api/", "/devices"), "http://host/api/devices");
    assert_eq!(join_url("http://host/api", "devices"), "http://host/api/devices");
    assert_eq!(join_url("b//", "//p"), "b/p");
    assert_eq!(join_url("", "devices"), "/devices");
    assert_eq!(join_url("///", "/x"), "/x");
    assert_eq!(join_url("b", ""), "b/");
}

#[test]
fn runtime_base_wins_unless_blank() {
    assert_eq!(
        api_base_url(Some(" http://runtime/api/ ".to_string()), Some("http://build".to_string())),
        "http://runtime/api"
    );
    assert_eq!(
        api_base_url(Some("  ".to_string()), Some("http://build/".to_string())),
        "http://build"
    );
    assert_eq!(api_base_url(None, Some(" http://build ".to_string())), "http://build");
    assert_eq!(api_base_url(None, None), "");
    assert_eq!(api_base_url(Some(String::new()), None), "");
}

#[test]
fn endpoint_paths() {
    let d = || "12".to_string();
    let r = || "3".to_string();
    assert_eq!(Endpoint::Devices.path(), "devices");
    assert_eq!(Endpoint::Device { id: d() }.path(), "devices/12");
    assert_eq!(Endpoint::Rooms { device_id: d() }.path(), "devices/12/rooms");
    assert_eq!(Endpoint::Room { device_id: d(), room_id: r() }.path(), "devices/12/rooms/3");
    assert_eq!(
        Endpoint::RoomSetting { device_id: d(), room_id: r(), setting: "t1".to_string() }.path(),
        "devices/12/rooms/3/t1"
    );
    assert_eq!(
        Endpoint::RoomHistory { device_id: d(), room_id: r(), from: "A".to_string(), to: None }.path(),
        "devices/12/rooms/3/history?from=A"
    );
    assert_eq!(
        Endpoint::RoomHistory {
            device_id: d(),
            room_id: r(),
            from: "A".to_string(),
            to: Some("B".to_string())
        }
        .path(),
        "devices/12/rooms/3/history?from=A&to=B"
    );
    assert_eq!(Endpoint::Weather.path(), "weather");
    assert_eq!(
        Endpoint::WeatherHistory { from: "A".to_string(), to: None }.path(),
        "weather/history?from=A"
    );
    assert_eq!(
        Endpoint::WeatherHistory { from: "A".to_string(), to: Some("B".to_string()) }.path(),
        "weather/history?from=A&to=B"
    );
}

#[test]
fn endpoint_urls() {
    assert_eq!(Endpoint::Devices.url("http://h/api/v1.0"), "http://h/api/v1.0/devices");
    assert_eq!(Endpoint::Weather.url(""), "/weather");
}

#[test]
fn day_setting_names_the_day() {
    assert_eq!(day_setting(0), "days/0");
    assert_eq!(day_setting(6), "days/6");
}
