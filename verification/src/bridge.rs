//! The bridge protocol: the requests sent to the external map store for
//! create-or-update and delete operations, and the decoding of responses.
//!
//! Every update carries the complete current field set of its entity, never
//! a diff, so repeating a request with the same fields leaves the store
//! unchanged. Responses are a `null` payload on success or an error text.

use vstd::prelude::*;
use vstd::string::StringExecFns;
use crate::encode::str_eq;
use crate::ids::Id;
use crate::latlng::LatLng;
use crate::map_options::{MapOptions, MapOptionsView};
use crate::map_position::MapPosition;
use crate::marker_icon::{MarkerIcon, MarkerIconView};
use crate::path_options::PathOptions;
use crate::popup_options::{PopupOptions, PopupOptionsView};

verus! {

/// Why a bridge call failed.
#[derive(Debug)]
pub enum BridgeError {
    /// The external runtime could not execute the request at all: channel
    /// closed, malformed payload, runtime not ready.
    EvaluationFailure(String),
    /// The external store executed the request and raised an application
    /// error, for example an invalid coordinate.
    RemoteThrew(String),
}

/// Mathematical image of a `BridgeError`.
pub enum BridgeErrorView {
    EvaluationFailure(Seq<char>),
    RemoteThrew(Seq<char>),
}

impl View for BridgeError {
    type V = BridgeErrorView;

    open spec fn view(&self) -> BridgeErrorView {
        match self {
            BridgeError::EvaluationFailure(s) => BridgeErrorView::EvaluationFailure(s@),
            BridgeError::RemoteThrew(s) => BridgeErrorView::RemoteThrew(s@),
        }
    }
}

impl Clone for BridgeError {
    /// Clones preserve the error exactly.
    fn clone(&self) -> (r: Self)
        ensures
            r@ == self@,
    {
        match self {
            BridgeError::EvaluationFailure(s) => BridgeError::EvaluationFailure(s.clone()),
            BridgeError::RemoteThrew(s) => BridgeError::RemoteThrew(s.clone()),
        }
    }
}

/// One request to the external store. Identifiers are carried as the
/// numeric leaf ids the store addresses entities by; child requests also
/// name the parent, giving hierarchical addressing.
#[derive(Debug)]
pub enum BridgeRequest {
    UpdateMap { id: usize, initial_position: MapPosition, options: MapOptions },
    DeleteMap { id: usize },
    OnMapClick { id: usize },
    UpdateMarker { map_id: usize, marker_id: usize, coordinate: LatLng, icon: Option<MarkerIcon> },
    DeleteMarker { map_id: usize, marker_id: usize },
    UpdatePolygon {
        map_id: usize,
        polygon_id: usize,
        coordinates: Vec<Vec<Vec<LatLng>>>,
        options: PathOptions,
    },
    DeletePolygon { map_id: usize, polygon_id: usize },
    UpdatePopup { parent_id: usize, popup_id: usize, options: PopupOptions },
}

/// Mathematical image of a `BridgeRequest`.
pub enum BridgeRequestView {
    UpdateMap { id: usize, initial_position: MapPosition, options: MapOptionsView },
    DeleteMap { id: usize },
    OnMapClick { id: usize },
    UpdateMarker {
        map_id: usize,
        marker_id: usize,
        coordinate: LatLng,
        icon: Option<MarkerIconView>,
    },
    DeleteMarker { map_id: usize, marker_id: usize },
    UpdatePolygon {
        map_id: usize,
        polygon_id: usize,
        coordinates: Seq<Seq<Seq<LatLng>>>,
        options: PathOptions,
    },
    DeletePolygon { map_id: usize, polygon_id: usize },
    UpdatePopup { parent_id: usize, popup_id: usize, options: PopupOptionsView },
}

impl View for BridgeRequest {
    type V = BridgeRequestView;

    open spec fn view(&self) -> BridgeRequestView {
        match self {
            BridgeRequest::UpdateMap { id, initial_position, options } =>
                BridgeRequestView::UpdateMap {
                    id: *id,
                    initial_position: *initial_position,
                    options: options@,
                },
            BridgeRequest::DeleteMap { id } => BridgeRequestView::DeleteMap { id: *id },
            BridgeRequest::OnMapClick { id } => BridgeRequestView::OnMapClick { id: *id },
            BridgeRequest::UpdateMarker { map_id, marker_id, coordinate, icon } =>
                BridgeRequestView::UpdateMarker {
                    map_id: *map_id,
                    marker_id: *marker_id,
                    coordinate: *coordinate,
                    icon: icon.deep_view(),
                },
            BridgeRequest::DeleteMarker { map_id, marker_id } => BridgeRequestView::DeleteMarker {
                map_id: *map_id,
                marker_id: *marker_id,
            },
            BridgeRequest::UpdatePolygon { map_id, polygon_id, coordinates, options } =>
                BridgeRequestView::UpdatePolygon {
                    map_id: *map_id,
                    polygon_id: *polygon_id,
                    coordinates: coordinates.deep_view(),
                    options: *options,
                },
            BridgeRequest::DeletePolygon { map_id, polygon_id } => BridgeRequestView::DeletePolygon {
                map_id: *map_id,
                polygon_id: *polygon_id,
            },
            BridgeRequest::UpdatePopup { parent_id, popup_id, options } =>
                BridgeRequestView::UpdatePopup {
                    parent_id: *parent_id,
                    popup_id: *popup_id,
                    options: options@,
                },
        }
    }
}

/// The create-or-update request for a map.
pub fn update_map(id: &Id, initial_position: &MapPosition, options: MapOptions) -> (r:
    BridgeRequest)
    ensures
        r@ == (BridgeRequestView::UpdateMap {
            id: id.num(),
            initial_position: *initial_position,
            options: options@,
        }),
{
    BridgeRequest::UpdateMap { id: id.id(), initial_position: *initial_position, options }
}

/// The delete request for a map. The store cascades the deletion to the
/// map's children itself.
pub fn delete_map(id: &Id) -> (r: BridgeRequest)
    ensures
        r@ == (BridgeRequestView::DeleteMap { id: id.num() }),
{
    BridgeRequest::DeleteMap { id: id.id() }
}

/// The create-or-update request for a marker, addressed through its
/// owning map.
pub fn update_marker(marker_id: &Id, coordinate: &LatLng, icon: Option<MarkerIcon>) -> (r:
    BridgeRequest)
    requires
        marker_id.parent_of() is Some,
    ensures
        r@ == (BridgeRequestView::UpdateMarker {
            map_id: marker_id.parent_of()->0.num(),
            marker_id: marker_id.num(),
            coordinate: *coordinate,
            icon: icon.deep_view(),
        }),
{
    let parent = match marker_id.parent() {
        Some(p) => p,
        None => unreached(),
    };
    BridgeRequest::UpdateMarker {
        map_id: parent.id(),
        marker_id: marker_id.id(),
        coordinate: *coordinate,
        icon,
    }
}

/// The delete request for a marker.
pub fn delete_marker(marker_id: &Id) -> (r: BridgeRequest)
    requires
        marker_id.parent_of() is Some,
    ensures
        r@ == (BridgeRequestView::DeleteMarker {
            map_id: marker_id.parent_of()->0.num(),
            marker_id: marker_id.num(),
        }),
{
    let parent = match marker_id.parent() {
        Some(p) => p,
        None => unreached(),
    };
    BridgeRequest::DeleteMarker { map_id: parent.id(), marker_id: marker_id.id() }
}

/// The create-or-update request for a polygon, with its full ring set.
pub fn update_polygon(
    polygon_id: &Id,
    coordinates: Vec<Vec<Vec<LatLng>>>,
    options: &PathOptions,
) -> (r: BridgeRequest)
    requires
        polygon_id.parent_of() is Some,
    ensures
        r@ == (BridgeRequestView::UpdatePolygon {
            map_id: polygon_id.parent_of()->0.num(),
            polygon_id: polygon_id.num(),
            coordinates: coordinates.deep_view(),
            options: *options,
        }),
{
    let parent = match polygon_id.parent() {
        Some(p) => p,
        None => unreached(),
    };
    BridgeRequest::UpdatePolygon {
        map_id: parent.id(),
        polygon_id: polygon_id.id(),
        coordinates,
        options: *options,
    }
}

/// The delete request for a polygon.
pub fn delete_polygon(polygon_id: &Id) -> (r: BridgeRequest)
    requires
        polygon_id.parent_of() is Some,
    ensures
        r@ == (BridgeRequestView::DeletePolygon {
            map_id: polygon_id.parent_of()->0.num(),
            polygon_id: polygon_id.num(),
        }),
{
    let parent = match polygon_id.parent() {
        Some(p) => p,
        None => unreached(),
    };
    BridgeRequest::DeletePolygon { map_id: parent.id(), polygon_id: polygon_id.id() }
}

/// The create-or-update request for a popup, addressed through its owning
/// marker or polygon.
pub fn update_popup(popup_id: &Id, options: PopupOptions) -> (r: BridgeRequest)
    requires
        popup_id.parent_of() is Some,
    ensures
        r@ == (BridgeRequestView::UpdatePopup {
            parent_id: popup_id.parent_of()->0.num(),
            popup_id: popup_id.num(),
            options: options@,
        }),
{
    let parent = match popup_id.parent() {
        Some(p) => p,
        None => unreached(),
    };
    BridgeRequest::UpdatePopup { parent_id: parent.id(), popup_id: popup_id.id(), options }
}

/// Decodes the store's answer to an update request: a `null` payload is
/// success, anything else is the error the remote handler threw.
pub fn decode_response(payload: &str) -> (r: Result<(), BridgeError>)
    ensures
        payload@ == "null"@ ==> r is Ok,
        payload@ != "null"@ ==> (r matches Err(e) && e@ == BridgeErrorView::RemoteThrew(
            payload@,
        )),
{
    if str_eq(payload, "null") {
        Ok(())
    } else {
        Err(BridgeError::RemoteThrew(String::from_str(payload)))
    }
}

/// Wraps a transport-level failure: the channel itself could not carry the
/// request.
pub fn evaluation_failure(message: String) -> (r: BridgeError)
    ensures
        r@ == BridgeErrorView::EvaluationFailure(message@),
{
    BridgeError::EvaluationFailure(message)
}

} // verus!
