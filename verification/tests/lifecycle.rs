use dioxus_leaflet::{
    Binding, BridgeError, BridgeRequest, EntityFields, Id, LatLng, LifecycleEvent, MapOptions,
    MapPosition, PathOptions,
};

fn marker_fields(lat_micro: i64, lng_micro: i64) -> EntityFields {
    EntityFields::MarkerFields {
        coordinate: LatLng::new(lat_micro, lng_micro),
        icon: None,
    }
}

#[test]
fn mounting_a_map_issues_one_update_with_exact_position() {
    let id = Id::map(7);
    let mut binding = Binding::new(id);
    let mut sent: Vec<BridgeRequest> = Vec::new();

    let fields = EntityFields::MapFields {
        initial_position: MapPosition::new(51_505_000, -90_000, 5_000),
        options: MapOptions::default(),
    };
    if let Some(req) = binding.step(LifecycleEvent::Mount { fields }) {
        sent.push(req);
    }
    if let Some(req) = binding.step(LifecycleEvent::SyncCompleted { result: Ok(()) }) {
        sent.push(req);
    }

    assert_eq!(sent.len(), 1);
    match &sent[0] {
        BridgeRequest::UpdateMap {
            id,
            initial_position,
            options,
        } => {
            assert_eq!(*id, 7);
            assert_eq!(initial_position.coordinates.lat_micro, 51_505_000);
            assert_eq!(initial_position.coordinates.lng_micro, -90_000);
            assert_eq!(initial_position.coordinates.alt_micro, None);
            assert_eq!(initial_position.zoom_milli, 5_000);
            assert!(options.zoom_control);
            assert!(options.scroll_wheel_zoom);
            assert!(options.double_click_zoom);
            assert!(options.touch_zoom);
            assert!(options.dragging);
            assert!(options.keyboard);
            assert!(options.attribution_control);
        }
        other => panic!("expected a map update, got {:?}", other),
    }
    assert!(!sent.iter().any(|r| matches!(
        r,
        BridgeRequest::UpdateMarker { .. }
            | BridgeRequest::DeleteMarker { .. }
            | BridgeRequest::UpdatePolygon { .. }
            | BridgeRequest::DeletePolygon { .. }
    )));
}

#[test]
fn changing_a_marker_coordinate_issues_two_updates_in_order() {
    let map = Id::map(1);
    let marker_id = Id::marker(&map, 2);
    let mut binding = Binding::new(marker_id);
    let mut sent: Vec<BridgeRequest> = Vec::new();

    if let Some(r) = binding.step(LifecycleEvent::Mount {
        fields: marker_fields(48_856_600, 2_352_200),
    }) {
        sent.push(r);
    }
    if let Some(r) = binding.step(LifecycleEvent::SyncCompleted { result: Ok(()) }) {
        sent.push(r);
    }
    if let Some(r) = binding.step(LifecycleEvent::Render {
        fields: marker_fields(49_000_000, 2_500_000),
    }) {
        sent.push(r);
    }
    if let Some(r) = binding.step(LifecycleEvent::SyncCompleted { result: Ok(()) }) {
        sent.push(r);
    }

    assert_eq!(sent.len(), 2);
    let coords: Vec<(usize, i64, i64)> = sent
        .iter()
        .map(|r| match r {
            BridgeRequest::UpdateMarker {
                marker_id,
                coordinate,
                ..
            } => (*marker_id, coordinate.lat_micro, coordinate.lng_micro),
            other => panic!("expected a marker update, got {:?}", other),
        })
        .collect();
    assert_eq!(coords[0], (2, 48_856_600, 2_352_200));
    assert_eq!(coords[1], (2, 49_000_000, 2_500_000));
    assert!(!sent
        .iter()
        .any(|r| matches!(r, BridgeRequest::DeleteMarker { .. })));
}

#[test]
fn rerender_with_unchanged_fields_issues_nothing() {
    let map = Id::map(1);
    let marker_id = Id::marker(&map, 2);
    let mut binding = Binding::new(marker_id);

    assert!(binding
        .step(LifecycleEvent::Mount {
            fields: marker_fields(5, 6),
        })
        .is_some());
    assert!(binding
        .step(LifecycleEvent::SyncCompleted { result: Ok(()) })
        .is_none());
    assert!(binding
        .step(LifecycleEvent::Render {
            fields: marker_fields(5, 6),
        })
        .is_none());
    assert!(binding
        .step(LifecycleEvent::Render {
            fields: marker_fields(5, 6),
        })
        .is_none());
}

#[test]
fn renders_during_flight_are_queued_and_sent_once() {
    let map = Id::map(1);
    let marker_id = Id::marker(&map, 2);
    let mut binding = Binding::new(marker_id);

    assert!(binding
        .step(LifecycleEvent::Mount {
            fields: marker_fields(1, 1),
        })
        .is_some());
    // two renders while the first update is still in flight: only the last
    // value goes out, once, when the completion arrives
    assert!(binding
        .step(LifecycleEvent::Render {
            fields: marker_fields(2, 2),
        })
        .is_none());
    assert!(binding
        .step(LifecycleEvent::Render {
            fields: marker_fields(3, 3),
        })
        .is_none());
    let next = binding
        .step(LifecycleEvent::SyncCompleted { result: Ok(()) })
        .expect("the queued update goes out on completion");
    match next {
        BridgeRequest::UpdateMarker { coordinate, .. } => {
            assert_eq!(coordinate.lat_micro, 3);
            assert_eq!(coordinate.lng_micro, 3);
        }
        other => panic!("expected a marker update, got {:?}", other),
    }
    assert!(binding
        .step(LifecycleEvent::SyncCompleted { result: Ok(()) })
        .is_none());
}

#[test]
fn errors_are_sticky_until_an_input_changes() {
    let map = Id::map(1);
    let marker_id = Id::marker(&map, 2);
    let mut binding = Binding::new(marker_id);

    assert!(binding
        .step(LifecycleEvent::Mount {
            fields: marker_fields(1, 1),
        })
        .is_some());
    assert!(binding
        .step(LifecycleEvent::SyncCompleted {
            result: Err(BridgeError::RemoteThrew("invalid coordinate".to_string())),
        })
        .is_none());
    // same inputs: no retry
    assert!(binding
        .step(LifecycleEvent::Render {
            fields: marker_fields(1, 1),
        })
        .is_none());
    // changed inputs: one retry
    assert!(binding
        .step(LifecycleEvent::Render {
            fields: marker_fields(2, 2),
        })
        .is_some());
}

#[test]
fn unmount_before_first_update_completes_still_deletes() {
    let map = Id::map(1);
    let polygon_id = Id::polygon(&map, 3);
    let mut binding = Binding::new(polygon_id);

    let fields = EntityFields::PolygonFields {
        coordinates: vec![vec![vec![
            LatLng::new(0, 0),
            LatLng::new(0, 1_000_000),
            LatLng::new(1_000_000, 0),
        ]]],
        options: PathOptions::default(),
    };
    let update = binding.step(LifecycleEvent::Mount { fields });
    assert!(matches!(
        update,
        Some(BridgeRequest::UpdatePolygon { .. })
    ));

    // the component unmounts before the update's response arrives
    let delete = binding.step(LifecycleEvent::Unmount);
    assert!(matches!(
        delete,
        Some(BridgeRequest::DeletePolygon {
            map_id: 1,
            polygon_id: 3,
        })
    ));

    // the late response must not re-create the entity: no request goes out
    assert!(binding
        .step(LifecycleEvent::SyncCompleted { result: Ok(()) })
        .is_none());
    // and a second unmount issues nothing either
    assert!(binding.step(LifecycleEvent::Unmount).is_none());
}

#[test]
fn unmount_before_any_mount_is_a_no_op() {
    let map = Id::map(1);
    let mut binding = Binding::new(Id::marker(&map, 2));
    // delete before any successful create: nothing goes out, nothing fails
    assert!(binding.step(LifecycleEvent::Unmount).is_none());
    assert!(binding.step(LifecycleEvent::Unmount).is_none());
}

#[test]
fn popups_are_never_deleted_explicitly() {
    let map = Id::map(1);
    let marker = Id::marker(&map, 2);
    let popup_id = Id::popup(&marker, 4);
    let mut binding = Binding::new(popup_id);

    let fields = EntityFields::PopupFields {
        options: dioxus_leaflet::PopupOptions::default(),
    };
    assert!(matches!(
        binding.step(LifecycleEvent::Mount { fields }),
        Some(BridgeRequest::UpdatePopup {
            parent_id: 2,
            popup_id: 4,
            ..
        })
    ));
    assert!(binding
        .step(LifecycleEvent::SyncCompleted { result: Ok(()) })
        .is_none());
    // the store drops the popup with its parent, so unmount sends nothing
    assert!(binding.step(LifecycleEvent::Unmount).is_none());
}
