use dioxus_leaflet::{click_event_to_latlng, BridgeRequest, ClickListener, Id, LatLng};

#[test]
fn listening_registers_the_map_once() {
    let (listener, request) = ClickListener::listen(Id::map(7));
    assert!(matches!(request, BridgeRequest::OnMapClick { id: 7 }));
    assert!(listener.active);
    assert!(listener.handler.is_none());
}

#[test]
fn payloads_reach_the_handler_until_unmount() {
    let (mut listener, _request) = ClickListener::listen(Id::map(7));
    assert!(!listener.register_handler(1));

    let delivered = listener.on_payload(Some(LatLng::new(51_505_000, -90_000)));
    match delivered {
        Some((token, coordinate)) => {
            assert_eq!(token, 1);
            assert_eq!(coordinate.lat_micro, 51_505_000);
            assert_eq!(coordinate.lng_micro, -90_000);
        }
        None => panic!("an active listener with a handler must deliver"),
    }

    listener.unmount();
    // the loop has terminated: no further handler invocations
    assert!(listener.on_payload(Some(LatLng::new(1, 2))).is_none());
    assert!(listener.on_payload(Some(LatLng::new(3, 4))).is_none());
}

#[test]
fn empty_payloads_are_ignored() {
    let (mut listener, _request) = ClickListener::listen(Id::map(7));
    listener.register_handler(1);
    assert!(listener.on_payload(None).is_none());
    // and the listener still works afterwards
    assert!(listener.on_payload(Some(LatLng::new(1, 2))).is_some());
}

#[test]
fn payloads_without_a_handler_go_nowhere() {
    let (mut listener, _request) = ClickListener::listen(Id::map(7));
    assert!(listener.on_payload(Some(LatLng::new(1, 2))).is_none());
}

#[test]
fn re_registration_replaces_and_warns() {
    let (mut listener, _request) = ClickListener::listen(Id::map(7));
    assert!(!listener.register_handler(1));
    // last write wins; the caller is told so it can warn
    assert!(listener.register_handler(2));
    match listener.on_payload(Some(LatLng::new(1, 2))) {
        Some((token, _)) => assert_eq!(token, 2),
        None => panic!("the replacing handler must receive events"),
    }
}

#[test]
fn click_events_carry_lat_then_lng() {
    let coords = vec![48_856_600, 2_352_200, 99];
    let c = click_event_to_latlng(&coords);
    assert_eq!(c.lat_micro, 48_856_600);
    assert_eq!(c.lng_micro, 2_352_200);
    assert_eq!(c.alt_micro, None);
}
