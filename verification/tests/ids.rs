use dioxus_leaflet::{allocate_map, Id, LatLng};

#[test]
fn map_id_holds_its_number() {
    let id = Id::map(42);
    assert_eq!(id.id(), 42);
    assert!(id.parent().is_none());
}

#[test]
fn child_ids_resolve_to_their_parent() {
    let map = Id::map(7);
    let marker = Id::marker(&map, 11);
    assert_eq!(marker.id(), 11);
    let parent = marker.parent().expect("a marker always has a parent");
    assert_eq!(parent.id(), 7);
    assert!(parent.parent().is_none());

    let polygon = Id::polygon(&map, 12);
    assert_eq!(polygon.parent().expect("parent").id(), 7);

    let popup = Id::popup(&marker, 13);
    let popup_parent = popup.parent().expect("a popup always has a parent");
    assert_eq!(popup_parent.id(), 11);
    assert_eq!(popup_parent.parent().expect("grandparent").id(), 7);
}

#[test]
fn allocated_map_id_is_a_map() {
    let id = allocate_map();
    assert!(id.parent().is_none());
    let other = allocate_map();
    assert!(other.parent().is_none());
}

#[test]
fn labels_name_kind_and_number() {
    let map = Id::map(5);
    assert_eq!(map.label(), "map-5");
    let marker = Id::marker(&map, 123);
    assert_eq!(marker.label(), "marker-123");
    let polygon = Id::polygon(&map, 0);
    assert_eq!(polygon.label(), "polygon-0");
    let popup = Id::popup(&marker, 9);
    assert_eq!(popup.label(), "popup-9");
}

#[test]
fn clone_keeps_the_whole_chain() {
    let map = Id::map(3);
    let marker = Id::marker(&map, 4);
    let copy = marker.clone();
    assert_eq!(copy.id(), 4);
    assert_eq!(copy.parent().expect("parent").id(), 3);
}

#[test]
fn coordinates_add_componentwise() {
    let a = LatLng::new(1_000_000, 2_000_000);
    let b = LatLng::new(500_000, -250_000);
    let c = a.add(b);
    assert_eq!(c.lat_micro, 1_500_000);
    assert_eq!(c.lng_micro, 1_750_000);
    assert_eq!(c.alt_micro, None);

    let mut d = LatLng {
        lat_micro: 0,
        lng_micro: 0,
        alt_micro: Some(100),
    };
    d.add_assign(LatLng {
        lat_micro: 1,
        lng_micro: 2,
        alt_micro: Some(50),
    });
    assert_eq!(d.lat_micro, 1);
    assert_eq!(d.lng_micro, 2);
    assert_eq!(d.alt_micro, Some(150));

    let e = LatLng::new(1, 1).add(LatLng {
        lat_micro: 0,
        lng_micro: 0,
        alt_micro: Some(7),
    });
    assert_eq!(e.alt_micro, Some(7));
}
