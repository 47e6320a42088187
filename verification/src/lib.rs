//! Identity bookkeeping and state synchronization for an interactive map
//! embedded in a declarative component tree.
//!
//! Each declarative component (map, marker, polygon, popup) is mirrored by a
//! persistent object inside an external map-rendering store. This crate owns
//! the part of that binding that can be reasoned about precisely:
//!
//! - the identity model: tagged, parent-linked identifiers that address one
//!   entity for its mounted lifetime (`ids`);
//! - the bridge protocol: the request shapes sent to the external store, their
//!   canonical wire encoding, and the decoding of responses (`bridge`, `wire`,
//!   `encode`);
//! - the per-component lifecycle state machine that decides when to issue
//!   create-or-update and delete operations (`lifecycle`);
//! - the delivery of external click events to a registered handler (`events`);
//! - a model of the store itself, with the idempotence and no-op-delete
//!   guarantees the protocol relies on (`store`).
//!
//! The rendering engine and the map-rendering runtime themselves stay outside:
//! a host drives the state machine with mount/render/unmount events and carries
//! the encoded requests over whatever channel it has.

pub mod bridge;
pub mod encode;
pub mod events;
pub mod ids;
pub mod latlng;
pub mod lifecycle;
pub mod leaflet_resources;
pub mod map_options;
pub mod map_position;
pub mod marker_icon;
pub mod path_options;
pub mod popup_options;
pub mod store;
pub mod tile_layer;
pub mod wire;

pub use bridge::BridgeError;
pub use bridge::BridgeErrorView;
pub use bridge::BridgeRequest;
pub use bridge::BridgeRequestView;
pub use bridge::decode_response;
pub use bridge::delete_map;
pub use bridge::delete_marker;
pub use bridge::delete_polygon;
pub use bridge::evaluation_failure;
pub use bridge::update_map;
pub use bridge::update_marker;
pub use bridge::update_polygon;
pub use bridge::update_popup;
pub use encode::bool_to_js;
pub use encode::escape_json_for_js;
pub use events::ClickListener;
pub use events::ClickListenerView;
pub use events::click_event_to_latlng;
pub use ids::allocate_map;
pub use ids::Id;
pub use latlng::LatLng;
pub use lifecycle::Binding;
pub use lifecycle::BindingView;
pub use lifecycle::EntityFields;
pub use lifecycle::EntityFieldsView;
pub use lifecycle::LifecycleEvent;
pub use lifecycle::LifecycleEventView;
pub use lifecycle::SyncState;
pub use lifecycle::SyncStateView;
pub use lifecycle::eq_entity_fields;
pub use lifecycle::eq_ring_sets;
pub use leaflet_resources::LeafletResources;
pub use leaflet_resources::LeafletResourcesView;
pub use leaflet_resources::eq_leaflet_resources;
pub use map_options::MapOptions;
pub use map_options::MapOptionsView;
pub use map_options::eq_map_options;
pub use map_position::MapPosition;
pub use marker_icon::MarkerIcon;
pub use marker_icon::MarkerIconView;
pub use marker_icon::eq_marker_icon;
pub use path_options::Color;
pub use path_options::LineCap;
pub use path_options::LineJoin;
pub use path_options::PathOptions;
pub use popup_options::PopupOptions;
pub use popup_options::PopupOptionsView;
pub use popup_options::eq_popup_options;
pub use store::EntityStore;
pub use store::StoreEntry;
pub use store::StoreEntryView;
pub use tile_layer::TileLayer;
pub use wire::encode_request;
pub use wire::color_css;
pub use tile_layer::TileLayerView;
pub use tile_layer::eq_tile_layer;
