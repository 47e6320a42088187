use dioxus_leaflet::{
    eq_leaflet_resources, eq_map_options, eq_tile_layer, Color, LatLng, LeafletResources, LineCap,
    LineJoin, MapOptions, MapPosition, MarkerIcon, PathOptions, TileLayer,
};

#[test]
fn default_position_is_central_london() {
    let p = MapPosition::default();
    assert_eq!(p.coordinates.lat_micro, 51_505_000);
    assert_eq!(p.coordinates.lng_micro, -90_000);
    assert_eq!(p.coordinates.alt_micro, None);
    assert_eq!(p.zoom_milli, 13_000);
}

#[test]
fn default_options_enable_every_control() {
    let o = MapOptions::default();
    assert!(o.zoom_control);
    assert!(o.scroll_wheel_zoom);
    assert!(o.double_click_zoom);
    assert!(o.touch_zoom);
    assert!(o.dragging);
    assert!(o.keyboard);
    assert!(o.attribution_control);
}

#[test]
fn minimal_options_disable_every_control() {
    let o = MapOptions::minimal();
    assert!(!o.zoom_control);
    assert!(!o.scroll_wheel_zoom);
    assert!(!o.double_click_zoom);
    assert!(!o.touch_zoom);
    assert!(!o.dragging);
    assert!(!o.keyboard);
    assert!(!o.attribution_control);
}

#[test]
fn builders_change_one_field_each() {
    let o = MapOptions::default()
        .with_zoom_control(false)
        .with_scroll_wheel_zoom(false)
        .with_double_click_zoom(false)
        .with_touch_zoom(false)
        .with_dragging(false)
        .with_keyboard(false)
        .with_attribution_control(false);
    assert!(eq_map_options(&o, &MapOptions::minimal()));

    let satellite = MapOptions::default().with_tile_layer(TileLayer::satellite());
    assert!(eq_tile_layer(&satellite.tile_layer, &TileLayer::satellite()));

    let pinned = MapOptions::default()
        .with_leaflet_resources(LeafletResources::cdn("1.9.2".to_string()));
    assert!(eq_leaflet_resources(
        &pinned.leaflet_resources,
        &LeafletResources::cdn("1.9.2".to_string())
    ));
    assert!(!eq_map_options(&pinned, &MapOptions::default()));
}

#[test]
fn tile_layers_carry_their_sources() {
    let osm = TileLayer::openstreetmap();
    assert_eq!(osm.url, "https://{s}.tile.openstreetmap.org/{z}/{x}/{y}.png");
    assert_eq!(osm.max_zoom, 19);
    assert_eq!(osm.subdomains, vec!["a", "b", "c"]);
    assert!(eq_tile_layer(&osm, &TileLayer::default()));

    let sat = TileLayer::satellite();
    assert_eq!(
        sat.url,
        "https://server.arcgisonline.com/ArcGIS/rest/services/World_Imagery/MapServer/tile/{z}/{y}/{x}"
    );
    assert_eq!(sat.attribution, "Tiles &copy; Esri");
    assert_eq!(sat.max_zoom, 18);
    assert!(sat.subdomains.is_empty());
    assert!(!eq_tile_layer(&osm, &sat));
}

#[test]
fn default_path_options_are_a_blue_stroked_fill() {
    let o = PathOptions::default();
    assert!(o.stroke);
    assert_eq!(o.color, Color::from_rgb8(0x33, 0x88, 0xff));
    assert_eq!(o.weight, 3);
    assert_eq!(o.opacity_permille, 1000);
    assert_eq!(o.line_cap, LineCap::Round);
    assert_eq!(o.line_join, LineJoin::Round);
    assert!(o.fill);
    assert_eq!(o.fill_color, Color::from_rgb8(0x33, 0x88, 0xff));
    assert_eq!(o.fill_opacity_permille, 200);
}

#[test]
fn marker_icon_new_holds_only_the_url() {
    let icon = MarkerIcon::new("https://example.test/pin.png".to_string());
    assert_eq!(icon.icon_url, "https://example.test/pin.png");
    assert_eq!(icon.icon_size, None);
    assert_eq!(icon.icon_anchor, None);
    assert_eq!(icon.popup_anchor, None);
    assert_eq!(icon.shadow_url, None);
    assert_eq!(icon.shadow_size, None);
}

#[test]
fn coordinates_compare_by_value() {
    assert_eq!(LatLng::new(1, 2), LatLng::new(1, 2));
    assert_ne!(LatLng::new(1, 2), LatLng::new(1, 3));
    assert_ne!(
        LatLng::new(1, 2),
        LatLng {
            lat_micro: 1,
            lng_micro: 2,
            alt_micro: Some(0),
        }
    );
}
