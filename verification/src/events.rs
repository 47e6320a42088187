//! Event propagation: external-originated click events delivered back to a
//! registered handler for the lifetime of the owning map component.
//!
//! Registration sends the owning identifier once; after that, a receive
//! loop decodes each message as an optional coordinate payload. Empty
//! payloads are ignored, the rest invoke the handler. The loop is bound to
//! the component's lifecycle: unmounting stops it, and nothing is delivered
//! afterwards.

use vstd::prelude::*;
use crate::bridge::{BridgeRequest, BridgeRequestView};
use crate::ids::Id;
use crate::latlng::LatLng;

verus! {

/// The receive loop and handler slot for one map's click events. At most
/// one handler is registered at a time; registering another replaces it
/// (the caller is told, so it can warn).
#[derive(Debug)]
pub struct ClickListener {
    /// The owning map identifier.
    pub map_id: Id,
    /// Token of the currently registered handler, if any. The host keeps
    /// the callbacks themselves; the library only tracks which one is
    /// current.
    pub handler: Option<usize>,
    /// Whether the receive loop is still bound to a mounted component.
    pub active: bool,
}

/// Mathematical image of a `ClickListener`.
pub struct ClickListenerView {
    pub map_id: Id,
    pub handler: Option<usize>,
    pub active: bool,
}

impl View for ClickListener {
    type V = ClickListenerView;

    open spec fn view(&self) -> ClickListenerView {
        ClickListenerView { map_id: self.map_id, handler: self.handler, active: self.active }
    }
}

/// What one received payload leads to: the next listener state and the
/// handler token to invoke with the coordinate, if any.
pub open spec fn spec_on_payload(l: ClickListenerView, payload: Option<LatLng>) -> (
    ClickListenerView,
    Option<(usize, LatLng)>,
) {
    if l.active {
        match (l.handler, payload) {
            (Some(h), Some(c)) => (l, Some((h, c))),
            _ => (l, None),
        }
    } else {
        (l, None)
    }
}

impl ClickListener {
    /// Starts listening for one map: the returned request registers the
    /// map's identifier with the store, exactly once.
    pub fn listen(map_id: Id) -> (r: (ClickListener, BridgeRequest))
        ensures
            r.0@ == (ClickListenerView { map_id, handler: None, active: true }),
            r.1@ == (BridgeRequestView::OnMapClick { id: map_id.num() }),
    {
        let num = map_id.id();
        (
            ClickListener { map_id, handler: None, active: true },
            BridgeRequest::OnMapClick { id: num },
        )
    }

    /// Registers a handler, replacing any current one: last write wins.
    /// Returns whether a handler was replaced, so the caller can warn.
    pub fn register_handler(&mut self, token: usize) -> (replaced: bool)
        ensures
            final(self)@ == (ClickListenerView { handler: Some(token), ..old(self)@ }),
            replaced == (old(self)@.handler is Some),
    {
        let replaced = self.handler.is_some();
        self.handler = Some(token);
        replaced
    }

    /// Feeds one received payload to the loop: an empty payload is
    /// ignored, a coordinate is handed to the registered handler — unless
    /// the component already unmounted.
    pub fn on_payload(&mut self, payload: Option<LatLng>) -> (r: Option<(usize, LatLng)>)
        ensures
            final(self)@ == spec_on_payload(old(self)@, payload).0,
            r == spec_on_payload(old(self)@, payload).1,
    {
        if self.active {
            match (&self.handler, payload) {
                (Some(h), Some(c)) => Some((*h, c)),
                _ => None,
            }
        } else {
            None
        }
    }

    /// Unbinds the loop when the owning component unmounts; the store-side
    /// registration dies with the map's deletion.
    pub fn unmount(&mut self)
        ensures
            final(self)@ == (ClickListenerView { active: false, ..old(self)@ }),
    {
        self.active = false;
    }
}

/// Reads the coordinate out of a decoded click event, as the store sends
/// it: latitude then longitude, in microdegrees.
pub fn click_event_to_latlng(coords: &Vec<i64>) -> (r: LatLng)
    requires
        coords@.len() >= 2,
    ensures
        r == (LatLng { lat_micro: coords@[0], lng_micro: coords@[1], alt_micro: None }),
{
    LatLng::new(coords[0], coords[1])
}

/// After unmount nothing is delivered any more: whatever payloads still
/// arrive, the listener stays inactive and invokes no handler.
pub proof fn lemma_no_delivery_after_unmount(l: ClickListenerView, payload: Option<LatLng>)
    requires
        !l.active,
    ensures
        spec_on_payload(l, payload) == (l, None::<(usize, LatLng)>),
{
}

/// An empty payload is always ignored: no handler runs and the listener
/// does not change.
pub proof fn lemma_empty_payload_ignored(l: ClickListenerView)
    ensures
        spec_on_payload(l, None) == (l, None::<(usize, LatLng)>),
{
}

} // verus!
