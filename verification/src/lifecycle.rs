//! The per-component lifecycle state machine.
//!
//! A declarative framework re-evaluates component functions on every state
//! change without giving them stable identity, so the binding keeps its own
//! record per component instance: the identifier allocated at mount, the
//! snapshot of the last field values sent, and where the instance stands in
//! `Unmounted -> Syncing -> Synced | Errored -> Unmounted`.
//!
//! The machine is driven by four events (mount, re-render, completion of a
//! bridge call, unmount) and answers each with at most one bridge request.
//! Per-identifier calls stay serialized: while one update is in flight only
//! a pending snapshot is recorded, and the next update goes out when the
//! completion arrives. A completion that arrives after unmount is discarded,
//! so a late response can never revive a deleted entity.

use vstd::prelude::*;
use crate::bridge::{
    BridgeError, BridgeErrorView, BridgeRequest, BridgeRequestView, delete_map, delete_marker,
    delete_polygon, update_map, update_marker, update_polygon, update_popup,
};
use crate::ids::Id;
use crate::latlng::LatLng;
use crate::map_options::{MapOptions, MapOptionsView, eq_map_options};
use crate::map_position::MapPosition;
use crate::marker_icon::{MarkerIcon, MarkerIconView, eq_marker_icon};
use crate::path_options::PathOptions;
use crate::popup_options::{PopupOptions, PopupOptionsView, eq_popup_options};

verus! {

/// The complete tracked field set of one entity, as handed to the bridge on
/// every synchronization (never a diff).
#[derive(Debug)]
pub enum EntityFields {
    MapFields { initial_position: MapPosition, options: MapOptions },
    MarkerFields { coordinate: LatLng, icon: Option<MarkerIcon> },
    PolygonFields { coordinates: Vec<Vec<Vec<LatLng>>>, options: PathOptions },
    PopupFields { options: PopupOptions },
}

/// Mathematical image of an `EntityFields`.
pub enum EntityFieldsView {
    MapFields { initial_position: MapPosition, options: MapOptionsView },
    MarkerFields { coordinate: LatLng, icon: Option<MarkerIconView> },
    PolygonFields { coordinates: Seq<Seq<Seq<LatLng>>>, options: PathOptions },
    PopupFields { options: PopupOptionsView },
}

impl View for EntityFields {
    type V = EntityFieldsView;

    open spec fn view(&self) -> EntityFieldsView {
        match self {
            EntityFields::MapFields { initial_position, options } => EntityFieldsView::MapFields {
                initial_position: *initial_position,
                options: options@,
            },
            EntityFields::MarkerFields { coordinate, icon } => EntityFieldsView::MarkerFields {
                coordinate: *coordinate,
                icon: icon.deep_view(),
            },
            EntityFields::PolygonFields { coordinates, options } => EntityFieldsView::PolygonFields {
                coordinates: coordinates.deep_view(),
                options: *options,
            },
            EntityFields::PopupFields { options } => EntityFieldsView::PopupFields {
                options: options@,
            },
        }
    }
}

fn clone_ring(v: &Vec<LatLng>) -> (r: Vec<LatLng>)
    ensures
        r@ == v@,
{
    let mut r: Vec<LatLng> = Vec::new();
    let n = v.len();
    let mut i: usize = 0;
    while i < n
        invariant
            i <= n,
            n == v@.len(),
            r@ == v@.take(i as int),
        decreases n - i,
    {
        r.push(v[i]);
        proof {
            assert(r@ =~= v@.take(i + 1));
        }
        i = i + 1;
    }
    proof {
        assert(v@.take(n as int) =~= v@);
    }
    r
}

fn clone_rings(v: &Vec<Vec<LatLng>>) -> (r: Vec<Vec<LatLng>>)
    ensures
        r.deep_view() == v.deep_view(),
{
    let mut r: Vec<Vec<LatLng>> = Vec::new();
    let n = v.len();
    let mut i: usize = 0;
    while i < n
        invariant
            i <= n,
            n == v@.len(),
            r@.len() == i,
            forall|j: int| 0 <= j < i ==> r@[j]@ == v@[j]@,
        decreases n - i,
    {
        r.push(clone_ring(&v[i]));
        i = i + 1;
    }
    proof {
        assert forall|j: int| 0 <= j < n implies r.deep_view()[j] == v.deep_view()[j] by {
            assert(r@[j].deep_view() =~= v@[j].deep_view());
        }
        assert(r.deep_view() =~= v.deep_view());
    }
    r
}

/// Copies a polygon's full ring set.
pub(crate) fn clone_ring_sets(v: &Vec<Vec<Vec<LatLng>>>) -> (r: Vec<Vec<Vec<LatLng>>>)
    ensures
        r.deep_view() == v.deep_view(),
{
    let mut r: Vec<Vec<Vec<LatLng>>> = Vec::new();
    let n = v.len();
    let mut i: usize = 0;
    while i < n
        invariant
            i <= n,
            n == v@.len(),
            r@.len() == i,
            forall|j: int| 0 <= j < i ==> r@[j].deep_view() == v@[j].deep_view(),
        decreases n - i,
    {
        r.push(clone_rings(&v[i]));
        i = i + 1;
    }
    proof {
        assert(r.deep_view() =~= v.deep_view());
    }
    r
}

fn eq_ring(a: &Vec<LatLng>, b: &Vec<LatLng>) -> (r: bool)
    ensures
        r == (a@ == b@),
{
    if a.len() != b.len() {
        return false;
    }
    let n = a.len();
    let mut i: usize = 0;
    while i < n
        invariant
            i <= n,
            n == a@.len() == b@.len(),
            forall|j: int| 0 <= j < i ==> a@[j] == b@[j],
        decreases n - i,
    {
        let x = a[i];
        let y = b[i];
        if !(x == y) {
            return false;
        }
        i = i + 1;
    }
    proof {
        assert(a@ =~= b@);
    }
    true
}

fn eq_rings(a: &Vec<Vec<LatLng>>, b: &Vec<Vec<LatLng>>) -> (r: bool)
    ensures
        r == (a.deep_view() == b.deep_view()),
{
    if a.len() != b.len() {
        proof {
            assert(a.deep_view().len() == a@.len());
            assert(b.deep_view().len() == b@.len());
        }
        return false;
    }
    let n = a.len();
    let mut i: usize = 0;
    while i < n
        invariant
            i <= n,
            n == a@.len() == b@.len(),
            forall|j: int| 0 <= j < i ==> a@[j]@ == b@[j]@,
        decreases n - i,
    {
        if !eq_ring(&a[i], &b[i]) {
            proof {
                assert(a.deep_view()[i as int] =~= a@[i as int]@);
                assert(b.deep_view()[i as int] =~= b@[i as int]@);
            }
            return false;
        }
        i = i + 1;
    }
    proof {
        assert forall|j: int| 0 <= j < n implies a.deep_view()[j] == b.deep_view()[j] by {
            assert(a.deep_view()[j] =~= a@[j]@);
            assert(b.deep_view()[j] =~= b@[j]@);
            assert(a@[j]@ =~= b@[j]@);
        }
        assert(a.deep_view() =~= b.deep_view());
    }
    true
}

/// Whether two ring sets hold the same coordinates.
pub fn eq_ring_sets(a: &Vec<Vec<Vec<LatLng>>>, b: &Vec<Vec<Vec<LatLng>>>) -> (r: bool)
    ensures
        r == (a.deep_view() == b.deep_view()),
{
    if a.len() != b.len() {
        proof {
            assert(a.deep_view().len() == a@.len());
            assert(b.deep_view().len() == b@.len());
        }
        return false;
    }
    let n = a.len();
    let mut i: usize = 0;
    while i < n
        invariant
            i <= n,
            n == a@.len() == b@.len(),
            forall|j: int| 0 <= j < i ==> a@[j].deep_view() == b@[j].deep_view(),
        decreases n - i,
    {
        if !eq_rings(&a[i], &b[i]) {
            proof {
                assert(a.deep_view()[i as int] == a@[i as int].deep_view());
                assert(b.deep_view()[i as int] == b@[i as int].deep_view());
            }
            return false;
        }
        i = i + 1;
    }
    proof {
        assert(a.deep_view() =~= b.deep_view());
    }
    true
}

impl Clone for EntityFields {
    /// Clones preserve the field set exactly.
    fn clone(&self) -> (r: Self)
        ensures
            r@ == self@,
    {
        match self {
            EntityFields::MapFields { initial_position, options } => EntityFields::MapFields {
                initial_position: *initial_position,
                options: options.clone(),
            },
            EntityFields::MarkerFields { coordinate, icon } => EntityFields::MarkerFields {
                coordinate: *coordinate,
                icon: match icon {
                    Some(ic) => Some(ic.clone()),
                    None => None,
                },
            },
            EntityFields::PolygonFields { coordinates, options } => EntityFields::PolygonFields {
                coordinates: clone_ring_sets(coordinates),
                options: *options,
            },
            EntityFields::PopupFields { options } => EntityFields::PopupFields {
                options: options.clone(),
            },
        }
    }
}

/// Whether two field sets hold the same values; the change detection that
/// decides if a re-render must synchronize.
pub fn eq_entity_fields(a: &EntityFields, b: &EntityFields) -> (r: bool)
    ensures
        r == (a@ == b@),
{
    match (a, b) {
        (
            EntityFields::MapFields { initial_position: pa, options: oa },
            EntityFields::MapFields { initial_position: pb, options: ob },
        ) => *pa == *pb && eq_map_options(oa, ob),
        (
            EntityFields::MarkerFields { coordinate: ca, icon: ia },
            EntityFields::MarkerFields { coordinate: cb, icon: ib },
        ) => {
            let icons_eq = match (ia, ib) {
                (Some(x), Some(y)) => eq_marker_icon(x, y),
                (None, None) => true,
                _ => false,
            };
            *ca == *cb && icons_eq
        },
        (
            EntityFields::PolygonFields { coordinates: ca, options: oa },
            EntityFields::PolygonFields { coordinates: cb, options: ob },
        ) => eq_ring_sets(ca, cb) && *oa == *ob,
        (
            EntityFields::PopupFields { options: oa },
            EntityFields::PopupFields { options: ob },
        ) => eq_popup_options(oa, ob),
        _ => false,
    }
}

/// Whether a field set belongs to the entity kind an identifier addresses.
pub open spec fn fields_fit(id: Id, f: EntityFieldsView) -> bool {
    match f {
        EntityFieldsView::MapFields { .. } => id is MapRoot,
        EntityFieldsView::MarkerFields { .. } => id is Marker,
        EntityFieldsView::PolygonFields { .. } => id is Polygon,
        EntityFieldsView::PopupFields { .. } => id is Popup,
    }
}

/// Where a component instance stands between mount and unmount.
#[derive(Debug)]
pub enum SyncState {
    /// Not mounted; no entity exists for it in the store.
    Unmounted,
    /// A create-or-update request is in flight.
    Syncing,
    /// The store holds the snapshot last sent.
    Synced,
    /// The last request failed; the error is kept for display and no retry
    /// happens until an input changes.
    Errored(BridgeError),
}

/// Mathematical image of a `SyncState`.
pub enum SyncStateView {
    Unmounted,
    Syncing,
    Synced,
    Errored(BridgeErrorView),
}

impl View for SyncState {
    type V = SyncStateView;

    open spec fn view(&self) -> SyncStateView {
        match self {
            SyncState::Unmounted => SyncStateView::Unmounted,
            SyncState::Syncing => SyncStateView::Syncing,
            SyncState::Synced => SyncStateView::Synced,
            SyncState::Errored(e) => SyncStateView::Errored(e@),
        }
    }
}

/// What drives the machine.
#[derive(Debug)]
pub enum LifecycleEvent {
    /// The component mounted with these initial inputs.
    Mount { fields: EntityFields },
    /// The component re-rendered; these are the current inputs.
    Render { fields: EntityFields },
    /// The in-flight create-or-update came back.
    SyncCompleted { result: Result<(), BridgeError> },
    /// The component left the tree.
    Unmount,
}

/// Mathematical image of a `LifecycleEvent`.
pub enum LifecycleEventView {
    Mount { fields: EntityFieldsView },
    Render { fields: EntityFieldsView },
    SyncCompleted { result: Result<(), BridgeErrorView> },
    Unmount,
}

impl View for LifecycleEvent {
    type V = LifecycleEventView;

    open spec fn view(&self) -> LifecycleEventView {
        match self {
            LifecycleEvent::Mount { fields } => LifecycleEventView::Mount { fields: fields@ },
            LifecycleEvent::Render { fields } => LifecycleEventView::Render { fields: fields@ },
            LifecycleEvent::SyncCompleted { result } => LifecycleEventView::SyncCompleted {
                result: match result {
                    Ok(_) => Ok(()),
                    Err(e) => Err(e@),
                },
            },
            LifecycleEvent::Unmount => LifecycleEventView::Unmount,
        }
    }
}

/// The binding for one component instance.
#[derive(Debug)]
pub struct Binding {
    /// The identifier allocated at mount; unchanged for the whole mounted
    /// lifetime.
    pub id: Id,
    /// Where the instance stands.
    pub state: SyncState,
    /// Snapshot of the fields last handed to the bridge, for change
    /// detection.
    pub last_sent: Option<EntityFields>,
    /// Fields that arrived while a request was in flight; sent next.
    pub pending: Option<EntityFields>,
}

/// Mathematical image of a `Binding`.
pub struct BindingView {
    pub id: Id,
    pub state: SyncStateView,
    pub last_sent: Option<EntityFieldsView>,
    pub pending: Option<EntityFieldsView>,
}

impl View for Binding {
    type V = BindingView;

    open spec fn view(&self) -> BindingView {
        BindingView {
            id: self.id,
            state: self.state@,
            last_sent: match &self.last_sent {
                Some(f) => Some(f@),
                None => None,
            },
            pending: match &self.pending {
                Some(f) => Some(f@),
                None => None,
            },
        }
    }
}

impl BindingView {
    /// Everything stored fits the identifier, a pending snapshot exists
    /// only while a request is in flight, and an unmounted binding holds
    /// nothing.
    pub open spec fn well_formed(self) -> bool {
        &&& (self.last_sent matches Some(f) ==> fields_fit(self.id, f))
        &&& (self.pending matches Some(f) ==> fields_fit(self.id, f))
        &&& (self.pending is Some ==> self.state is Syncing)
        &&& (self.state is Unmounted ==> self.last_sent is None && self.pending is None)
    }
}

/// The create-or-update request for one entity with its current fields.
pub open spec fn spec_update_request(id: Id, f: EntityFieldsView) -> BridgeRequestView {
    match f {
        EntityFieldsView::MapFields { initial_position, options } => BridgeRequestView::UpdateMap {
            id: id.num(),
            initial_position,
            options,
        },
        EntityFieldsView::MarkerFields { coordinate, icon } => BridgeRequestView::UpdateMarker {
            map_id: id.parent_of()->0.num(),
            marker_id: id.num(),
            coordinate,
            icon,
        },
        EntityFieldsView::PolygonFields { coordinates, options } =>
            BridgeRequestView::UpdatePolygon {
                map_id: id.parent_of()->0.num(),
                polygon_id: id.num(),
                coordinates,
                options,
            },
        EntityFieldsView::PopupFields { options } => BridgeRequestView::UpdatePopup {
            parent_id: id.parent_of()->0.num(),
            popup_id: id.num(),
            options,
        },
    }
}

/// The delete request for one entity. A popup has none: the store drops it
/// together with its owning marker or polygon.
pub open spec fn spec_delete_request(id: Id) -> Option<BridgeRequestView> {
    match id {
        Id::MapRoot { id: n } => Some(BridgeRequestView::DeleteMap { id: n }),
        Id::Marker { parent, id: n } => Some(BridgeRequestView::DeleteMarker {
            map_id: parent.num(),
            marker_id: n,
        }),
        Id::Polygon { parent, id: n } => Some(BridgeRequestView::DeletePolygon {
            map_id: parent.num(),
            polygon_id: n,
        }),
        Id::Popup { .. } => None,
    }
}

/// One step of the lifecycle machine: from a binding and an event to the
/// next binding and the request to send, if any.
pub open spec fn spec_step(b: BindingView, e: LifecycleEventView) -> (BindingView, Option<
    BridgeRequestView,
>) {
    match e {
        LifecycleEventView::Mount { fields } => if b.state is Unmounted {
            (
                BindingView {
                    state: SyncStateView::Syncing,
                    last_sent: Some(fields),
                    pending: None,
                    ..b
                },
                Some(spec_update_request(b.id, fields)),
            )
        } else {
            (b, None)
        },
        LifecycleEventView::Render { fields } => match b.state {
            SyncStateView::Unmounted => (b, None),
            SyncStateView::Syncing => (
                BindingView {
                    pending: if Some(fields) == b.last_sent {
                        None
                    } else {
                        Some(fields)
                    },
                    ..b
                },
                None,
            ),
            _ => if Some(fields) == b.last_sent {
                (b, None)
            } else {
                (
                    BindingView {
                        state: SyncStateView::Syncing,
                        last_sent: Some(fields),
                        pending: None,
                        ..b
                    },
                    Some(spec_update_request(b.id, fields)),
                )
            },
        },
        LifecycleEventView::SyncCompleted { result } => match b.state {
            SyncStateView::Syncing => match b.pending {
                Some(f) => (
                    BindingView {
                        state: SyncStateView::Syncing,
                        last_sent: Some(f),
                        pending: None,
                        ..b
                    },
                    Some(spec_update_request(b.id, f)),
                ),
                None => match result {
                    Ok(_) => (BindingView { state: SyncStateView::Synced, ..b }, None),
                    Err(err) => (BindingView { state: SyncStateView::Errored(err), ..b }, None),
                },
            },
            _ => (b, None),
        },
        LifecycleEventView::Unmount => match b.state {
            SyncStateView::Unmounted => (b, None),
            _ => (
                BindingView {
                    state: SyncStateView::Unmounted,
                    last_sent: None,
                    pending: None,
                    ..b
                },
                spec_delete_request(b.id),
            ),
        },
    }
}

/// Whether an event's fields, if it carries any, fit the binding's
/// identifier.
pub open spec fn event_fits(id: Id, e: LifecycleEventView) -> bool {
    match e {
        LifecycleEventView::Mount { fields } => fields_fit(id, fields),
        LifecycleEventView::Render { fields } => fields_fit(id, fields),
        _ => true,
    }
}

fn build_update(id: &Id, fields: &EntityFields) -> (r: BridgeRequest)
    requires
        fields_fit(*id, fields@),
    ensures
        r@ == spec_update_request(*id, fields@),
{
    match fields {
        EntityFields::MapFields { initial_position, options } => update_map(
            id,
            initial_position,
            options.clone(),
        ),
        EntityFields::MarkerFields { coordinate, icon } => update_marker(
            id,
            coordinate,
            match icon {
                Some(ic) => Some(ic.clone()),
                None => None,
            },
        ),
        EntityFields::PolygonFields { coordinates, options } => update_polygon(
            id,
            clone_ring_sets(coordinates),
            options,
        ),
        EntityFields::PopupFields { options } => update_popup(id, options.clone()),
    }
}

fn build_delete(id: &Id) -> (r: Option<BridgeRequest>)
    ensures
        match r {
            Some(req) => spec_delete_request(*id) == Some(req@),
            None => spec_delete_request(*id) is None,
        },
{
    match id {
        Id::MapRoot { .. } => Some(delete_map(id)),
        Id::Marker { .. } => Some(delete_marker(id)),
        Id::Polygon { .. } => Some(delete_polygon(id)),
        Id::Popup { .. } => None,
    }
}

/// A re-render that carries the very fields last sent issues no bridge
/// call and leaves a settled binding exactly as it was: update calls are
/// only re-issued for changed inputs.
pub proof fn lemma_render_unchanged_no_call(b: BindingView, f: EntityFieldsView)
    requires
        b.state is Synced || b.state is Errored,
        b.last_sent == Some(f),
    ensures
        spec_step(b, LifecycleEventView::Render { fields: f }) == (b, None::<BridgeRequestView>),
{
}

/// A failed synchronization is sticky: after an error, a re-render with
/// unchanged inputs neither retries nor clears the stored error.
pub proof fn lemma_error_sticky(b: BindingView, f: EntityFieldsView)
    requires
        b.state is Errored,
        b.last_sent == Some(f),
    ensures
        spec_step(b, LifecycleEventView::Render { fields: f }).0.state == b.state,
        spec_step(b, LifecycleEventView::Render { fields: f }).1 is None,
{
}

/// A completion that arrives after unmount is discarded: the binding stays
/// unmounted and no request — in particular no re-creating update — goes
/// out.
pub proof fn lemma_stale_completion_discarded(b: BindingView, result: Result<
    (),
    BridgeErrorView,
>)
    requires
        b.state is Unmounted,
    ensures
        spec_step(b, LifecycleEventView::SyncCompleted { result }) == (
            b,
            None::<BridgeRequestView>,
        ),
{
}

/// The delete for one instance goes out at most once: unmounting an
/// already unmounted binding is a no-op and issues nothing.
pub proof fn lemma_unmount_at_most_once(b: BindingView)
    ensures
        ({
            let after = spec_step(b, LifecycleEventView::Unmount).0;
            spec_step(after, LifecycleEventView::Unmount) == (
                after,
                None::<BridgeRequestView>,
            )
        }),
{
}

impl Binding {
    /// A fresh, not yet mounted binding for one component instance.
    pub fn new(id: Id) -> (r: Binding)
        ensures
            r@ == (BindingView {
                id,
                state: SyncStateView::Unmounted,
                last_sent: None,
                pending: None,
            }),
            r@.well_formed(),
    {
        Binding { id, state: SyncState::Unmounted, last_sent: None, pending: None }
    }

    /// Feeds one event to the machine and returns the request to send, if
    /// any. The caller carries the request over its channel and, for an
    /// update, later feeds the response back as a completion event.
    pub fn step(&mut self, event: LifecycleEvent) -> (r: Option<BridgeRequest>)
        requires
            old(self)@.well_formed(),
            event_fits(old(self)@.id, event@),
        ensures
            final(self)@ == spec_step(old(self)@, event@).0,
            final(self)@.well_formed(),
            final(self)@.id == old(self)@.id,
            match r {
                Some(req) => spec_step(old(self)@, event@).1 == Some(req@),
                None => spec_step(old(self)@, event@).1 is None,
            },
    {
        match event {
            LifecycleEvent::Mount { fields } => match self.state {
                SyncState::Unmounted => {
                    let req = build_update(&self.id, &fields);
                    self.state = SyncState::Syncing;
                    self.last_sent = Some(fields);
                    self.pending = None;
                    Some(req)
                },
                _ => None,
            },
            LifecycleEvent::Render { fields } => match self.state {
                SyncState::Unmounted => None,
                SyncState::Syncing => {
                    let unchanged = match &self.last_sent {
                        Some(ls) => eq_entity_fields(&fields, ls),
                        None => false,
                    };
                    self.pending = if unchanged {
                        None
                    } else {
                        Some(fields)
                    };
                    None
                },
                _ => {
                    let unchanged = match &self.last_sent {
                        Some(ls) => eq_entity_fields(&fields, ls),
                        None => false,
                    };
                    if unchanged {
                        None
                    } else {
                        let req = build_update(&self.id, &fields);
                        self.state = SyncState::Syncing;
                        self.last_sent = Some(fields);
                        self.pending = None;
                        Some(req)
                    }
                },
            },
            LifecycleEvent::SyncCompleted { result } => match self.state {
                SyncState::Syncing => {
                    let mut pending = None;
                    core::mem::swap(&mut pending, &mut self.pending);
                    match pending {
                        Some(f) => {
                            let req = build_update(&self.id, &f);
                            self.state = SyncState::Syncing;
                            self.last_sent = Some(f);
                            Some(req)
                        },
                        None => {
                            match result {
                                Ok(_) => {
                                    self.state = SyncState::Synced;
                                },
                                Err(err) => {
                                    self.state = SyncState::Errored(err);
                                },
                            }
                            None
                        },
                    }
                },
                _ => None,
            },
            LifecycleEvent::Unmount => match self.state {
                SyncState::Unmounted => None,
                _ => {
                    self.state = SyncState::Unmounted;
                    self.last_sent = None;
                    self.pending = None;
                    build_delete(&self.id)
                },
            },
        }
    }
}

} // verus!
