//! The initial view of a map: a coordinate and a zoom level.

use vstd::prelude::*;
use crate::latlng::LatLng;

verus! {

/// A geographic position with zoom level. The zoom is stored in thousandths
/// of a zoom step, so fractional levels compare exactly.
#[derive(Debug, Clone, Copy, PartialEq, Eq, Structural)]
pub struct MapPosition {
    pub coordinates: LatLng,
    pub zoom_milli: u32,
}

impl MapPosition {
    /// The coordinate is geographically valid.
    pub open spec fn well_formed(self) -> bool {
        self.coordinates.well_formed()
    }

    /// Creates a position from microdegrees and a zoom in thousandths.
    pub fn new(lat_micro: i64, lng_micro: i64, zoom_milli: u32) -> (r: Self)
        ensures
            r.coordinates == (LatLng { lat_micro, lng_micro, alt_micro: None }),
            r.zoom_milli == zoom_milli,
    {
        MapPosition { coordinates: LatLng::new(lat_micro, lng_micro), zoom_milli }
    }
}

impl Default for MapPosition {
    /// The view of central London at zoom 13 that maps open on when the
    /// caller gives no position.
    fn default() -> (r: Self)
        ensures
            r == (MapPosition {
                coordinates: LatLng { lat_micro: 51_505_000, lng_micro: -90_000i64, alt_micro: None },
                zoom_milli: 13_000,
            }),
    {
        MapPosition::new(51_505_000, -90_000, 13_000)
    }
}

} // verus!
