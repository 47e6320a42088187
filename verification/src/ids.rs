//! Tagged, parent-linked identifiers for the entities mirrored into the
//! external map store.
//!
//! Every entity but a map carries exactly one parent identifier, so the
//! identifiers of one mounted tree form a tree rooted at a map identifier.
//! An identifier is allocated once when its component mounts and survives
//! unchanged for the component's whole mounted lifetime.

use vstd::prelude::*;
use vstd::string::StringExecFns;

verus! {

/// Identifier of one entity in the external store.
///
/// The numeric leaf id addresses the entity inside its parent's scope; the
/// parent chain gives the hierarchical address that bridge calls need.
#[derive(Debug)]
pub enum Id {
    MapRoot { id: usize },
    Marker { parent: Box<Id>, id: usize },
    Polygon { parent: Box<Id>, id: usize },
    Popup { parent: Box<Id>, id: usize },
}

impl Id {
    /// The numeric leaf id, as seen by the remote store.
    pub open spec fn num(self) -> usize {
        match self {
            Id::MapRoot { id } => id,
            Id::Marker { id, .. } => id,
            Id::Polygon { id, .. } => id,
            Id::Popup { id, .. } => id,
        }
    }

    /// The parent's leaf number; `None` exactly for map identifiers.
    pub open spec fn num_of_parent(self) -> Option<usize> {
        match self.parent_of() {
            Some(p) => Some(p.num()),
            None => None,
        }
    }

    /// The stored parent reference; `None` exactly for map identifiers.
    pub open spec fn parent_of(self) -> Option<Id> {
        match self {
            Id::MapRoot { .. } => None,
            Id::Marker { parent, .. } => Some(*parent),
            Id::Polygon { parent, .. } => Some(*parent),
            Id::Popup { parent, .. } => Some(*parent),
        }
    }

    /// The ownership tree is shaped map -> {marker, polygon} -> popup.
    pub open spec fn well_formed(self) -> bool
        decreases self,
    {
        match self {
            Id::MapRoot { .. } => true,
            Id::Marker { parent, .. } => *parent is MapRoot && parent.well_formed(),
            Id::Polygon { parent, .. } => *parent is MapRoot && parent.well_formed(),
            Id::Popup { parent, .. } => (*parent is Marker || *parent is Polygon)
                && parent.well_formed(),
        }
    }

    /// Numeric ids along the parent chain, root first; the reconstructible
    /// serialized form used for hierarchical addressing.
    pub open spec fn path(self) -> Seq<usize>
        decreases self,
    {
        match self {
            Id::MapRoot { id } => seq![id],
            Id::Marker { parent, id } => parent.path().push(id),
            Id::Polygon { parent, id } => parent.path().push(id),
            Id::Popup { parent, id } => parent.path().push(id),
        }
    }

    /// Creates a map identifier from an already chosen number.
    pub fn map(id: usize) -> (r: Self)
        ensures
            r == (Id::MapRoot { id }),
    {
        Id::MapRoot { id }
    }

    /// Creates a marker identifier owned by `parent`.
    pub fn marker(parent: &Id, id: usize) -> (r: Id)
        ensures
            r is Marker,
            r.num() == id,
            r.parent_of() == Some(*parent),
    {
        Id::Marker { parent: Box::new(parent.clone()), id }
    }

    /// Creates a polygon identifier owned by `parent`.
    pub fn polygon(parent: &Id, id: usize) -> (r: Id)
        ensures
            r is Polygon,
            r.num() == id,
            r.parent_of() == Some(*parent),
    {
        Id::Polygon { parent: Box::new(parent.clone()), id }
    }

    /// Creates a popup identifier owned by `parent`.
    pub fn popup(parent: &Id, id: usize) -> (r: Id)
        ensures
            r is Popup,
            r.num() == id,
            r.parent_of() == Some(*parent),
    {
        Id::Popup { parent: Box::new(parent.clone()), id }
    }

    /// The numeric leaf id.
    pub fn id(&self) -> (r: usize)
        ensures
            r == self.num(),
    {
        match self {
            Id::MapRoot { id } => *id,
            Id::Marker { id, .. } => *id,
            Id::Polygon { id, .. } => *id,
            Id::Popup { id, .. } => *id,
        }
    }

    /// Resolves the stored parent reference without any asynchronous call;
    /// `None` exactly for map identifiers.
    pub fn parent(&self) -> (r: Option<&Id>)
        ensures
            match r {
                Some(p) => self.parent_of() == Some(*p),
                None => self.parent_of() is None && *self is MapRoot,
            },
    {
        match self {
            Id::MapRoot { .. } => None,
            Id::Marker { parent, .. } => Some(parent),
            Id::Polygon { parent, .. } => Some(parent),
            Id::Popup { parent, .. } => Some(parent),
        }
    }
}

/// The text form of an identifier: its kind and leaf number, as used in
/// host element ids.
pub open spec fn spec_label(id: Id) -> Seq<char> {
    match id {
        Id::MapRoot { id: n } => "map-"@ + crate::encode::spec_decimal(n as int),
        Id::Marker { id: n, .. } => "marker-"@ + crate::encode::spec_decimal(n as int),
        Id::Polygon { id: n, .. } => "polygon-"@ + crate::encode::spec_decimal(n as int),
        Id::Popup { id: n, .. } => "popup-"@ + crate::encode::spec_decimal(n as int),
    }
}

impl Id {
    /// Writes the identifier as text: its kind and leaf number.
    pub fn label(&self) -> (r: String)
        ensures
            r@ == spec_label(*self),
    {
        let mut out = String::new();
        match self {
            Id::MapRoot { .. } => out.append("map-"),
            Id::Marker { .. } => out.append("marker-"),
            Id::Polygon { .. } => out.append("polygon-"),
            Id::Popup { .. } => out.append("popup-"),
        }
        out.append(crate::encode::u64_to_string(self.id() as u64).as_str());
        out
    }
}

impl Clone for Id {
    /// Clones preserve the identifier exactly, parent chain included.
    fn clone(&self) -> (r: Id)
        ensures
            r == *self,
        decreases *self,
    {
        match self {
            Id::MapRoot { id } => Id::MapRoot { id: *id },
            Id::Marker { parent, id } => Id::Marker {
                parent: Box::new((**parent).clone()),
                id: *id,
            },
            Id::Polygon { parent, id } => Id::Polygon {
                parent: Box::new((**parent).clone()),
                id: *id,
            },
            Id::Popup { parent, id } => Id::Popup {
                parent: Box::new((**parent).clone()),
                id: *id,
            },
        }
    }
}

/// Relies on `fastrand::usize`: draws a number from the process-global
/// generator; with an unbounded range the call cannot panic. Nothing is
/// promised of the value drawn.
#[verifier::external_body]
fn random_usize() -> usize {
    fastrand::usize(..)
}

/// Allocates a fresh map identifier from a process-unique random number.
///
/// No reuse check is performed: the allocation scheme assumes a negligible
/// collision probability for the number of concurrently mounted maps.
pub fn allocate_map() -> (r: Id)
    ensures
        r is MapRoot,
{
    Id::map(random_usize())
}

/// A child identifier always resolves to the parent it was created with:
/// for every identifier that is not a map identifier, `parent` returns a
/// parent, never `None`.
pub proof fn lemma_resolve_parent_never_none(child: Id)
    requires
        !(child is MapRoot),
    ensures
        child.parent_of() is Some,
{
}

} // verus!
