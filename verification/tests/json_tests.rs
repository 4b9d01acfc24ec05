use besim_gui::device::{device_view, DeviceDetails};
use besim_gui::json::{bool_from_json, format_value, get_field, get_item, Json, JsonNumber};
use besim_gui::route::Route;
use besim_gui::weather::{weather_icon, weather_symbol, weather_temp};

fn num(int: Option<i64>, text: &str) -> Json {
    Json::Number(JsonNumber { int, text: text.to_string() })
}

fn obj(entries: Vec<(&str, Json)>) -> Json {
    Json::Object {
        entries: entries.into_iter().map(|(k, v)| (k.to_string(), v)).collect(),
        text: String::from("{...}"),
    }
}

fn arr(items: Vec<Json>) -> Json {
    Json::Array { items, text: String::from("[...]") }
}

#[test]
fn flags_from_booleans_and_numbers() {
    assert!(bool_from_json(&Json::Bool(true)));
    assert!(!bool_from_json(&Json::Bool(false)));
    assert!(bool_from_json(&num(Some(1), "1")));
    assert!(bool_from_json(&num(Some(-3), "-3")));
    assert!(!bool_from_json(&num(Some(0), "0")));
    assert!(!bool_from_json(&num(None, "1.5")));
    assert!(!bool_from_json(&Json::Str("1".to_string())));
    assert!(!bool_from_json(&Json::Null));
}

#[test]
fn values_as_detail_lines() {
    assert_eq!(format_value(&Json::Null), "");
    assert_eq!(format_value(&Json::Str("v1.2".to_string())), "v1.2");
    assert_eq!(format_value(&Json::Bool(true)), "true");
    assert_eq!(format_value(&Json::Bool(false)), "false");
    assert_eq!(format_value(&num(Some(-70), "-70")), "-70");
    assert_eq!(format_value(&num(None, "21.5")), "21.5");
    assert_eq!(format_value(&Json::Array { items: vec![], text: "[1,2]".to_string() }), "[1,2]");
    assert_eq!(format_value(&obj(vec![])), "{...}");
}

#[test]
fn fields_and_items() {
    let v = obj(vec![("a", num(Some(1), "1")), ("b", Json::Null), ("a", num(Some(2), "2"))]);
    assert_eq!(format_value(get_field(&v, "a").unwrap()), "1");
    assert!(matches!(get_field(&v, "b"), Some(Json::Null)));
    assert!(get_field(&v, "c").is_none());
    assert!(get_field(&Json::Null, "a").is_none());
    let a = arr(vec![Json::Bool(true)]);
    assert!(matches!(get_item(&a, 0), Some(Json::Bool(true))));
    assert!(get_item(&a, 1).is_none());
    assert!(get_item(&v, 0).is_none());
}

fn weather(temp: Json, symbol: Json) -> Json {
    obj(vec![(
        "properties",
        obj(vec![(
            "timeseries",
            arr(vec![obj(vec![(
                "data",
                obj(vec![
                    ("instant", obj(vec![("details", obj(vec![("air_temperature", temp)]))])),
                    ("next_6_hours", obj(vec![("summary", obj(vec![("symbol_code", symbol)]))])),
                ]),
            )])]),
        )]),
    )])
}

#[test]
fn weather_now() {
    let w = weather(num(None, "-3.4"), Json::Str("cloudy".to_string()));
    assert_eq!(weather_temp(&w).unwrap().text, "-3.4");
    assert_eq!(weather_symbol(&w).unwrap(), "cloudy");
    let w = weather(Json::Str("x".to_string()), num(Some(1), "1"));
    assert!(weather_temp(&w).is_none());
    assert!(weather_symbol(&w).is_none());
    assert!(weather_temp(&obj(vec![])).is_none());
    assert!(weather_symbol(&Json::Null).is_none());
    assert_eq!(weather_icon("cloudy"), "/assets/weather/cloudy.png");
}

fn device(addr: Vec<Json>, last_seen: Json) -> DeviceDetails {
    DeviceDetails {
        wifi_signal: num(Some(-60), "-60"),
        version: Json::Str("1.0".to_string()),
        addr,
        last_seen,
        boiler_on: num(Some(1), "1"),
        dhw_mode: Json::Null,
        t_flo: num(None, "45.5"),
        t_dh: num(Some(50), "50"),
        t_est: num(Some(-2), "-2"),
    }
}

#[test]
fn device_lines() {
    let d = device(
        vec![Json::Str("10.0.0.2".to_string()), num(Some(6199), "6199")],
        Json::Str("never".to_string()),
    );
    let v = device_view(&"7".to_string(), &d);
    assert_eq!(v.wifi_signal, "-60");
    assert_eq!(v.version, "1.0");
    assert_eq!(v.ip, "10.0.0.2:6199");
    assert_eq!(v.last_seen, Some("never".to_string()));
    assert_eq!(v.boiler_on, "1");
    assert_eq!(v.dhw_on, "");
    assert_eq!(v.t_flo, "45.5");
    assert_eq!(v.t_dh, "50");
    assert_eq!(v.t_est, "-2");
    assert!(matches!(v.rooms, Route::Rooms { ref device_id } if device_id == "7"));

    let v = device_view(&"7".to_string(), &device(vec![], num(Some(1700000000), "1700000000")));
    assert_eq!(v.ip, ":");
    assert_eq!(v.last_seen, None);
}
