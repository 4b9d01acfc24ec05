use besim_gui::pages::{
    about_page, device_details_page, devices_page, not_found_page, room_details_page, rooms_page,
    AboutPage, Loadable, NotFoundPage,
};
use besim_gui::route::{switch, Page, Route};

#[test]
fn static_pages() {
    assert_eq!(
        about_page().paragraph.unwrap(),
        "Test app using Yew to consume the BeSMART REST API."
    );
    assert_eq!(
        AboutPage().paragraph.unwrap(),
        "Test app using Dioxus to consume the BeSMART REST API."
    );
    assert!(about_page().heading.is_none());
    assert_eq!(not_found_page().heading.unwrap(), "Page not found");
    assert_eq!(NotFoundPage().heading.unwrap(), "Page not found");
    assert!(NotFoundPage().paragraph.is_none());
}

#[test]
fn device_list() {
    match devices_page(&vec![], &None) {
        Loadable::Loading(t) => assert_eq!(t, "Loading devices..."),
        _ => panic!("expected loading"),
    }
    match devices_page(&vec![1, 2], &Some("boom".to_string())) {
        Loadable::Failed(m) => assert_eq!(m, "boom"),
        _ => panic!("expected the error"),
    }
    match devices_page(&vec![12, -3], &None) {
        Loadable::Ready(links) => {
            let got: Vec<_> = links
                .iter()
                .map(|l| match &l.route {
                    Route::DeviceDetails { id } => (l.label.clone(), id.clone()),
                    _ => panic!("wrong route"),
                })
                .collect();
            assert_eq!(got, vec![("12".to_string(), "12".to_string()), ("-3".to_string(), "-3".to_string())]);
        }
        _ => panic!("expected links"),
    }
}

#[test]
fn room_list() {
    match rooms_page(&"9".to_string(), &vec![], &None) {
        Loadable::Loading(t) => assert_eq!(t, "Loading rooms..."),
        _ => panic!("expected loading"),
    }
    match rooms_page(&"9".to_string(), &vec![4], &None) {
        Loadable::Ready(links) => {
            assert_eq!(links.len(), 1);
            assert_eq!(links[0].label, "4");
            match &links[0].route {
                Route::RoomDetails { device_id, room_id } => {
                    assert_eq!((device_id.as_str(), room_id.as_str()), ("9", "4"))
                }
                _ => panic!("wrong route"),
            }
        }
        _ => panic!("expected links"),
    }
    assert!(matches!(rooms_page(&"9".to_string(), &vec![4], &Some("e".to_string())), Loadable::Failed(_)));
}

#[test]
fn detail_pages_wait_for_data() {
    assert!(matches!(device_details_page(&"1".to_string(), &None, &None), Loadable::Loading(ref t) if t == "Loading device..."));
    assert!(matches!(room_details_page(&None, &None), Loadable::Loading(ref t) if t == "Loading room..."));
    assert!(matches!(room_details_page(&None, &Some("x".to_string())), Loadable::Failed(ref m) if m == "x"));
}

#[test]
fn routes_choose_pages() {
    assert!(matches!(switch(Route::Root), Page::Redirect(Route::Devices)));
    assert!(matches!(switch(Route::About), Page::About));
    assert!(matches!(switch(Route::Devices), Page::Devices));
    assert!(matches!(switch(Route::NotFound), Page::NotFound));
    assert!(matches!(switch(Route::DeviceDetails { id: "5".to_string() }), Page::DeviceDetails { ref id } if id == "5"));
    assert!(matches!(switch(Route::Rooms { device_id: "5".to_string() }), Page::Rooms { ref device_id } if device_id == "5"));
    assert!(matches!(
        switch(Route::RoomDetails { device_id: "5".to_string(), room_id: "2".to_string() }),
        Page::RoomDetails { ref device_id, ref room_id } if device_id == "5" && room_id == "2"
    ));
    assert!(matches!(
        switch(Route::RoomHistory { device_id: "5".to_string(), room_id: "2".to_string() }),
        Page::RoomHistory { ref device_id, ref room_id } if device_id == "5" && room_id == "2"
    ));
}
