use dioxus_leaflet::{
    bool_to_js, decode_response, delete_map, delete_marker, encode_request, escape_json_for_js,
    evaluation_failure, update_marker, update_popup, BridgeError, Id, LatLng, LeafletResources,
    MarkerIcon, PopupOptions,
};

#[test]
fn bool_to_js_spells_javascript_booleans() {
    assert_eq!(bool_to_js(true), "true");
    assert_eq!(bool_to_js(false), "false");
}

#[test]
fn escape_json_for_js_escapes_specials() {
    assert_eq!(escape_json_for_js("plain"), "plain");
    assert_eq!(escape_json_for_js(r#"a"b"#), r#"a\"b"#);
    assert_eq!(escape_json_for_js(r"a\b"), r"a\\b");
    assert_eq!(escape_json_for_js("a\nb\rc\td"), r"a\nb\rc\td");
    assert_eq!(escape_json_for_js(""), "");
}

#[test]
fn delete_requests_encode_exactly() {
    let map = Id::map(7);
    let req = delete_map(&map);
    assert_eq!(encode_request(&req), "{\"op\":\"deleteMap\",\"id\":7}");

    let marker = Id::marker(&map, 11);
    let req = delete_marker(&marker);
    assert_eq!(
        encode_request(&req),
        "{\"op\":\"deleteMarker\",\"mapId\":7,\"markerId\":11}"
    );
}

#[test]
fn marker_update_encodes_coordinate_and_icon() {
    let map = Id::map(1);
    let marker = Id::marker(&map, 2);
    let coordinate = LatLng::new(48_856_600, 2_352_200);
    let req = update_marker(&marker, &coordinate, None);
    assert_eq!(
        encode_request(&req),
        "{\"op\":\"updateMarker\",\"mapId\":1,\"markerId\":2,\
         \"coordinate\":{\"latMicro\":48856600,\"lngMicro\":2352200,\"altMicro\":null},\
         \"icon\":null}"
    );

    let icon = MarkerIcon::new("https://example.test/pin.png".to_string());
    let req = update_marker(&marker, &LatLng::new(-1, -2), Some(icon));
    assert_eq!(
        encode_request(&req),
        "{\"op\":\"updateMarker\",\"mapId\":1,\"markerId\":2,\
         \"coordinate\":{\"latMicro\":-1,\"lngMicro\":-2,\"altMicro\":null},\
         \"icon\":{\"iconUrl\":\"https://example.test/pin.png\",\"iconSize\":null,\
         \"iconAnchor\":null,\"popupAnchor\":null,\"shadowUrl\":null,\"shadowSize\":null}}"
    );
}

#[test]
fn popup_update_encodes_default_options() {
    let map = Id::map(1);
    let marker = Id::marker(&map, 2);
    let popup = Id::popup(&marker, 3);
    let req = update_popup(&popup, PopupOptions::default());
    assert_eq!(
        encode_request(&req),
        "{\"op\":\"updatePopup\",\"parentId\":2,\"popupId\":3,\
         \"options\":{\"maxWidth\":300,\"minWidth\":50,\"maxHeight\":null,\"autoPan\":true,\
         \"keepInView\":false,\"closeButton\":true,\"autoClose\":true,\
         \"closeOnEscapeKey\":true,\"className\":null}}"
    );
}

#[test]
fn map_update_encodes_the_whole_descriptor() {
    let map = Id::map(7);
    let req = dioxus_leaflet::update_map(
        &map,
        &dioxus_leaflet::MapPosition::new(51_505_000, -90_000, 13_000),
        dioxus_leaflet::MapOptions::minimal(),
    );
    assert_eq!(
        encode_request(&req),
        "{\"op\":\"updateMap\",\"id\":7,\
         \"position\":{\"coordinates\":{\"latMicro\":51505000,\"lngMicro\":-90000,\
         \"altMicro\":null},\"zoomMilli\":13000},\
         \"options\":{\"zoomControl\":false,\"scrollWheelZoom\":false,\
         \"doubleClickZoom\":false,\"touchZoom\":false,\"dragging\":false,\
         \"keyboard\":false,\"attributionControl\":false,\
         \"tileLayer\":{\"url\":\"https://{s}.tile.openstreetmap.org/{z}/{x}/{y}.png\",\
         \"attribution\":\"&copy; <a href=\\\"https://www.openstreetmap.org/copyright\\\">OpenStreetMap</a> contributors\",\
         \"maxZoom\":19,\"subdomains\":[\"a\",\"b\",\"c\"]},\
         \"leafletResources\":{\"kind\":\"cdn\",\"version\":\"1.9.4\",\"baseUrl\":null}}}"
    );
}

#[test]
fn polygon_update_encodes_rings_and_styling() {
    let map = Id::map(1);
    let polygon = Id::polygon(&map, 3);
    let coordinates = vec![vec![vec![
        LatLng::new(0, 0),
        LatLng {
            lat_micro: 1,
            lng_micro: 2,
            alt_micro: Some(3),
        },
    ]]];
    let req = dioxus_leaflet::update_polygon(
        &polygon,
        coordinates,
        &dioxus_leaflet::PathOptions::default(),
    );
    assert_eq!(
        encode_request(&req),
        "{\"op\":\"updatePolygon\",\"mapId\":1,\"polygonId\":3,\
         \"coordinates\":[[[{\"latMicro\":0,\"lngMicro\":0,\"altMicro\":null},\
         {\"latMicro\":1,\"lngMicro\":2,\"altMicro\":3}]]],\
         \"options\":{\"stroke\":true,\"color\":\"rgb(51, 136, 255)\",\"weight\":3,\
         \"opacityPermille\":1000,\"lineCap\":\"round\",\"lineJoin\":\"round\",\
         \"fill\":true,\"fillColor\":\"rgb(51, 136, 255)\",\"fillOpacityPermille\":200}}"
    );
}

#[test]
fn empty_ring_sets_encode_as_empty_arrays() {
    let map = Id::map(1);
    let polygon = Id::polygon(&map, 3);
    let req = dioxus_leaflet::update_polygon(
        &polygon,
        Vec::new(),
        &dioxus_leaflet::PathOptions::default(),
    );
    let payload = encode_request(&req);
    assert!(payload.contains("\"coordinates\":[]"));
}

#[test]
fn responses_decode_null_as_success() {
    assert!(decode_response("null").is_ok());
    match decode_response("invalid coordinate") {
        Err(BridgeError::RemoteThrew(msg)) => assert_eq!(msg, "invalid coordinate"),
        other => panic!("expected a remote error, got {:?}", other),
    }
    match evaluation_failure("channel closed".to_string()) {
        BridgeError::EvaluationFailure(msg) => assert_eq!(msg, "channel closed"),
        other => panic!("expected an evaluation failure, got {:?}", other),
    }
}

#[test]
fn cdn_urls_follow_the_version() {
    let res = LeafletResources::cdn("1.9.3".to_string());
    assert_eq!(res.css_url(), "https://unpkg.com/leaflet@1.9.3/dist/leaflet.css");
    assert_eq!(res.js_url(), "https://unpkg.com/leaflet@1.9.3/dist/leaflet.js");

    let custom = LeafletResources::cdn_with_base_url(
        "1.9.4".to_string(),
        "https://cdn.example.test".to_string(),
    );
    assert_eq!(
        custom.css_url(),
        "https://cdn.example.test/leaflet@1.9.4/dist/leaflet.css"
    );

    let local = LeafletResources::local("/css/l.css".to_string(), "/js/l.js".to_string());
    assert_eq!(local.css_url(), "/css/l.css");
    assert_eq!(local.js_url(), "/js/l.js");
}

#[test]
fn integrity_known_only_for_default_cdn_versions() {
    let known = LeafletResources::cdn("1.9.4".to_string());
    assert_eq!(
        known.css_integrity().as_deref(),
        Some("sha256-p4NxAoJBhIIN+hmNHrzRCf9tD/miZyoHS5obTRR9BMY=")
    );
    assert_eq!(
        known.js_integrity().as_deref(),
        Some("sha256-20nQCchB9co0qIjJZRGuk2/Z9VM+kNiyxNV1lvTlZBo=")
    );

    let unknown = LeafletResources::cdn("1.8.0".to_string());
    assert_eq!(unknown.css_integrity(), None);
    assert_eq!(unknown.js_integrity(), None);

    let custom = LeafletResources::cdn_with_base_url(
        "1.9.4".to_string(),
        "https://cdn.example.test".to_string(),
    );
    assert_eq!(custom.css_integrity(), None);

    let local = LeafletResources::local("/c".to_string(), "/j".to_string());
    assert_eq!(local.js_integrity(), None);
}
