//! Geographic coordinates as the binding layer sees them.
//!
//! Only identity and change detection matter here, so a coordinate stores
//! whole microdegrees (and micrometers of altitude) instead of floating-point
//! degrees: a millionth of a degree is far below the resolution any tile
//! layer can show, and plain integers compare exactly.

use vstd::prelude::*;

verus! {

/// One geographic coordinate: latitude and longitude in microdegrees
/// (degrees times 1,000,000), with an optional altitude in micrometers.
#[derive(Debug, Clone, Copy, PartialEq, Eq, Structural)]
pub struct LatLng {
    pub lat_micro: i64,
    pub lng_micro: i64,
    pub alt_micro: Option<i64>,
}

impl DeepView for LatLng {
    type V = LatLng;

    open spec fn deep_view(&self) -> LatLng {
        *self
    }
}

impl LatLng {
    /// Latitude within [-90°, 90°], longitude within [-180°, 180°], and the
    /// altitude away from the one value whose negation overflows.
    pub open spec fn well_formed(self) -> bool {
        &&& -90_000_000 <= self.lat_micro <= 90_000_000
        &&& -180_000_000 <= self.lng_micro <= 180_000_000
        &&& (self.alt_micro matches Some(a) ==> a != i64::MIN)
    }

    /// Creates a coordinate with no altitude.
    pub fn new(lat_micro: i64, lng_micro: i64) -> (r: Self)
        ensures
            r == (LatLng { lat_micro, lng_micro, alt_micro: None }),
    {
        LatLng { lat_micro, lng_micro, alt_micro: None }
    }

    /// Componentwise sum; a missing altitude acts as zero.
    pub fn add(self, rhs: Self) -> (r: Self)
        requires
            i64::MIN <= self.lat_micro + rhs.lat_micro <= i64::MAX,
            i64::MIN <= self.lng_micro + rhs.lng_micro <= i64::MAX,
            (self.alt_micro matches Some(a) && rhs.alt_micro matches Some(b))
                ==> i64::MIN <= self.alt_micro->0 + rhs.alt_micro->0 <= i64::MAX,
        ensures
            r.lat_micro == self.lat_micro + rhs.lat_micro,
            r.lng_micro == self.lng_micro + rhs.lng_micro,
            r.alt_micro == match (self.alt_micro, rhs.alt_micro) {
                (Some(a), Some(b)) => Some((a + b) as i64),
                (Some(a), None) => Some(a),
                (None, Some(b)) => Some(b),
                (None, None) => None::<i64>,
            },
    {
        LatLng {
            lat_micro: self.lat_micro + rhs.lat_micro,
            lng_micro: self.lng_micro + rhs.lng_micro,
            alt_micro: match (self.alt_micro, rhs.alt_micro) {
                (Some(a), Some(b)) => Some(a + b),
                (Some(a), None) => Some(a),
                (None, Some(b)) => Some(b),
                (None, None) => None,
            },
        }
    }

    /// In-place componentwise sum, the same as `add`.
    pub fn add_assign(&mut self, rhs: Self)
        requires
            i64::MIN <= old(self).lat_micro + rhs.lat_micro <= i64::MAX,
            i64::MIN <= old(self).lng_micro + rhs.lng_micro <= i64::MAX,
            (old(self).alt_micro matches Some(a) && rhs.alt_micro matches Some(b))
                ==> i64::MIN <= old(self).alt_micro->0 + rhs.alt_micro->0 <= i64::MAX,
        ensures
            *final(self) == old(self).add_spec(rhs),
    {
        *self = self.add(rhs);
    }

    /// What `add` returns.
    pub open spec fn add_spec(self, rhs: Self) -> LatLng {
        LatLng {
            lat_micro: (self.lat_micro + rhs.lat_micro) as i64,
            lng_micro: (self.lng_micro + rhs.lng_micro) as i64,
            alt_micro: match (self.alt_micro, rhs.alt_micro) {
                (Some(a), Some(b)) => Some((a + b) as i64),
                (Some(a), None) => Some(a),
                (None, Some(b)) => Some(b),
                (None, None) => None,
            },
        }
    }
}

} // verus!
