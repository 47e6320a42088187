use dioxus_leaflet::{
    delete_map, delete_marker, update_map, update_marker, update_popup, EntityStore, Id, LatLng,
    MapOptions, MapPosition, PopupOptions, StoreEntry,
};

fn marker_update(map_num: usize, marker_num: usize, lat: i64, lng: i64) -> dioxus_leaflet::BridgeRequest {
    let map = Id::map(map_num);
    let marker = Id::marker(&map, marker_num);
    update_marker(&marker, &LatLng::new(lat, lng), None)
}

#[test]
fn repeating_an_update_leaves_the_store_as_one_call() {
    let req = marker_update(1, 2, 48_856_600, 2_352_200);

    let mut once = EntityStore::new();
    once.apply(&req);

    let mut twice = EntityStore::new();
    twice.apply(&req);
    twice.apply(&req);
    twice.apply(&req);

    for store in [&once, &twice] {
        match store.get(2) {
            Some(StoreEntry::MarkerEntry {
                map_id,
                coordinate,
                icon,
            }) => {
                assert_eq!(*map_id, 1);
                assert_eq!(coordinate.lat_micro, 48_856_600);
                assert_eq!(coordinate.lng_micro, 2_352_200);
                assert!(icon.is_none());
            }
            other => panic!("expected the marker entry, got {:?}", other),
        }
    }
}

#[test]
fn delete_is_safe_before_create_and_twice() {
    let map = Id::map(1);
    let marker = Id::marker(&map, 2);

    let mut store = EntityStore::new();
    // delete before any successful create: a no-op, not an error
    store.apply(&delete_marker(&marker));
    assert!(store.get(2).is_none());

    store.apply(&marker_update(1, 2, 5, 6));
    assert!(store.get(2).is_some());

    // delete twice: the second is a no-op too
    store.apply(&delete_marker(&marker));
    store.apply(&delete_marker(&marker));
    assert!(store.get(2).is_none());
}

#[test]
fn deleting_a_map_cascades_to_children_and_grandchildren() {
    let map = Id::map(1);
    let marker = Id::marker(&map, 2);
    let popup = Id::popup(&marker, 3);

    let mut store = EntityStore::new();
    store.apply(&update_map(
        &map,
        &MapPosition::new(0, 0, 13_000),
        MapOptions::default(),
    ));
    store.apply(&marker_update(1, 2, 5, 6));
    store.apply(&update_popup(&popup, PopupOptions::default()));
    assert!(store.get(1).is_some());
    assert!(store.get(2).is_some());
    assert!(store.get(3).is_some());

    store.apply(&delete_map(&map));
    assert!(store.get(1).is_none());
    assert!(store.get(2).is_none());
    assert!(store.get(3).is_none());
}

#[test]
fn click_registration_dies_with_the_map() {
    let map = Id::map(9);
    let mut store = EntityStore::new();
    store.apply(&update_map(
        &map,
        &MapPosition::new(0, 0, 13_000),
        MapOptions::default(),
    ));
    let (_, register) = dioxus_leaflet::ClickListener::listen(Id::map(9));
    store.apply(&register);
    match store.get(9) {
        Some(StoreEntry::MapEntry {
            click_registered, ..
        }) => assert!(*click_registered),
        other => panic!("expected the map entry, got {:?}", other),
    }

    // a later full-snapshot update keeps the registration
    store.apply(&update_map(
        &map,
        &MapPosition::new(1, 1, 13_000),
        MapOptions::default(),
    ));
    match store.get(9) {
        Some(StoreEntry::MapEntry {
            click_registered, ..
        }) => assert!(*click_registered),
        other => panic!("expected the map entry, got {:?}", other),
    }

    // the map's deletion invalidates the registration
    store.apply(&delete_map(&map));
    assert!(store.get(9).is_none());
    store.apply(&update_map(
        &map,
        &MapPosition::new(0, 0, 13_000),
        MapOptions::default(),
    ));
    match store.get(9) {
        Some(StoreEntry::MapEntry {
            click_registered, ..
        }) => assert!(!*click_registered),
        other => panic!("expected the map entry, got {:?}", other),
    }
}

#[test]
fn update_after_delete_recreates_with_new_fields() {
    let mut store = EntityStore::new();
    store.apply(&marker_update(1, 2, 5, 6));
    store.apply(&delete_marker(&Id::marker(&Id::map(1), 2)));
    store.apply(&marker_update(1, 2, 7, 8));
    match store.get(2) {
        Some(StoreEntry::MarkerEntry { coordinate, .. }) => {
            assert_eq!(coordinate.lat_micro, 7);
            assert_eq!(coordinate.lng_micro, 8);
        }
        other => panic!("expected the marker entry, got {:?}", other),
    }
}
