//! Map configuration options.

use vstd::prelude::*;
use crate::leaflet_resources::{LeafletResources, LeafletResourcesView, eq_leaflet_resources};
use crate::tile_layer::{TileLayer, TileLayerView, eq_tile_layer, spec_openstreetmap};

verus! {

/// Interaction toggles, the tile source, and where the external library's
/// assets come from. A complete bundle is re-sent on every update.
#[derive(Debug, PartialEq)]
pub struct MapOptions {
    pub zoom_control: bool,
    pub scroll_wheel_zoom: bool,
    pub double_click_zoom: bool,
    pub touch_zoom: bool,
    pub dragging: bool,
    pub keyboard: bool,
    pub attribution_control: bool,
    pub tile_layer: TileLayer,
    pub leaflet_resources: LeafletResources,
}

/// Mathematical image of a `MapOptions`.
pub struct MapOptionsView {
    pub zoom_control: bool,
    pub scroll_wheel_zoom: bool,
    pub double_click_zoom: bool,
    pub touch_zoom: bool,
    pub dragging: bool,
    pub keyboard: bool,
    pub attribution_control: bool,
    pub tile_layer: TileLayerView,
    pub leaflet_resources: LeafletResourcesView,
}

impl View for MapOptions {
    type V = MapOptionsView;

    open spec fn view(&self) -> MapOptionsView {
        MapOptionsView {
            zoom_control: self.zoom_control,
            scroll_wheel_zoom: self.scroll_wheel_zoom,
            double_click_zoom: self.double_click_zoom,
            touch_zoom: self.touch_zoom,
            dragging: self.dragging,
            keyboard: self.keyboard,
            attribution_control: self.attribution_control,
            tile_layer: self.tile_layer@,
            leaflet_resources: self.leaflet_resources@,
        }
    }
}

impl Clone for MapOptions {
    /// Clones preserve the configuration exactly.
    fn clone(&self) -> (r: Self)
        ensures
            r@ == self@,
    {
        MapOptions {
            zoom_control: self.zoom_control,
            scroll_wheel_zoom: self.scroll_wheel_zoom,
            double_click_zoom: self.double_click_zoom,
            touch_zoom: self.touch_zoom,
            dragging: self.dragging,
            keyboard: self.keyboard,
            attribution_control: self.attribution_control,
            tile_layer: self.tile_layer.clone(),
            leaflet_resources: self.leaflet_resources.clone(),
        }
    }
}

impl MapOptions {
    /// Creates a MapOptions with all controls disabled and the default
    /// tile layer and resources.
    pub fn minimal() -> (r: Self)
        ensures
            !r@.zoom_control,
            !r@.scroll_wheel_zoom,
            !r@.double_click_zoom,
            !r@.touch_zoom,
            !r@.dragging,
            !r@.keyboard,
            !r@.attribution_control,
            r@.tile_layer == spec_openstreetmap(),
            r@.leaflet_resources == (LeafletResourcesView::Cdn {
                version: "1.9.4"@,
                base_url: None,
            }),
    {
        MapOptions {
            zoom_control: false,
            scroll_wheel_zoom: false,
            double_click_zoom: false,
            touch_zoom: false,
            dragging: false,
            keyboard: false,
            attribution_control: false,
            tile_layer: TileLayer::default(),
            leaflet_resources: LeafletResources::default(),
        }
    }

    /// Enables or disables the zoom control.
    pub fn with_zoom_control(self, enabled: bool) -> (r: Self)
        ensures
            r@ == (MapOptionsView { zoom_control: enabled, ..self@ }),
    {
        MapOptions { zoom_control: enabled, ..self }
    }

    /// Enables or disables zooming with the scroll wheel.
    pub fn with_scroll_wheel_zoom(self, enabled: bool) -> (r: Self)
        ensures
            r@ == (MapOptionsView { scroll_wheel_zoom: enabled, ..self@ }),
    {
        MapOptions { scroll_wheel_zoom: enabled, ..self }
    }

    /// Enables or disables zooming by double click.
    pub fn with_double_click_zoom(self, enabled: bool) -> (r: Self)
        ensures
            r@ == (MapOptionsView { double_click_zoom: enabled, ..self@ }),
    {
        MapOptions { double_click_zoom: enabled, ..self }
    }

    /// Enables or disables touch zoom.
    pub fn with_touch_zoom(self, enabled: bool) -> (r: Self)
        ensures
            r@ == (MapOptionsView { touch_zoom: enabled, ..self@ }),
    {
        MapOptions { touch_zoom: enabled, ..self }
    }

    /// Enables or disables dragging.
    pub fn with_dragging(self, enabled: bool) -> (r: Self)
        ensures
            r@ == (MapOptionsView { dragging: enabled, ..self@ }),
    {
        MapOptions { dragging: enabled, ..self }
    }

    /// Enables or disables keyboard controls.
    pub fn with_keyboard(self, enabled: bool) -> (r: Self)
        ensures
            r@ == (MapOptionsView { keyboard: enabled, ..self@ }),
    {
        MapOptions { keyboard: enabled, ..self }
    }

    /// Enables or disables the attribution control.
    pub fn with_attribution_control(self, enabled: bool) -> (r: Self)
        ensures
            r@ == (MapOptionsView { attribution_control: enabled, ..self@ }),
    {
        MapOptions { attribution_control: enabled, ..self }
    }

    /// Replaces the tile layer.
    pub fn with_tile_layer(self, tile_layer: TileLayer) -> (r: Self)
        ensures
            r@ == (MapOptionsView { tile_layer: tile_layer@, ..self@ }),
    {
        MapOptions { tile_layer, ..self }
    }

    /// Replaces the resource configuration.
    pub fn with_leaflet_resources(self, resources: LeafletResources) -> (r: Self)
        ensures
            r@ == (MapOptionsView { leaflet_resources: resources@, ..self@ }),
    {
        MapOptions { leaflet_resources: resources, ..self }
    }
}

impl Default for MapOptions {
    /// All controls enabled, with the default tile layer and resources.
    fn default() -> (r: Self)
        ensures
            r@.zoom_control,
            r@.scroll_wheel_zoom,
            r@.double_click_zoom,
            r@.touch_zoom,
            r@.dragging,
            r@.keyboard,
            r@.attribution_control,
            r@.tile_layer == spec_openstreetmap(),
            r@.leaflet_resources == (LeafletResourcesView::Cdn {
                version: "1.9.4"@,
                base_url: None,
            }),
    {
        MapOptions {
            zoom_control: true,
            scroll_wheel_zoom: true,
            double_click_zoom: true,
            touch_zoom: true,
            dragging: true,
            keyboard: true,
            attribution_control: true,
            tile_layer: TileLayer::default(),
            leaflet_resources: LeafletResources::default(),
        }
    }
}

/// Whether two option bundles are the same.
pub fn eq_map_options(a: &MapOptions, b: &MapOptions) -> (r: bool)
    ensures
        r == (a@ == b@),
{
    a.zoom_control == b.zoom_control && a.scroll_wheel_zoom == b.scroll_wheel_zoom
        && a.double_click_zoom == b.double_click_zoom && a.touch_zoom == b.touch_zoom
        && a.dragging == b.dragging && a.keyboard == b.keyboard
        && a.attribution_control == b.attribution_control
        && eq_tile_layer(&a.tile_layer, &b.tile_layer)
        && eq_leaflet_resources(&a.leaflet_resources, &b.leaflet_resources)
}

} // verus!
