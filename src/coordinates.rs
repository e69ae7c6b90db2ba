//! Geographic points in whole microdegrees.

use vstd::prelude::*;

verus! {

/// Largest latitude magnitude, in microdegrees (90 degrees).
pub const MAX_LAT: i64 = 90_000_000;

/// Largest longitude magnitude, in microdegrees (180 degrees).
pub const MAX_LON: i64 = 180_000_000;

/// A point on the globe. Latitude and longitude are whole microdegrees, so
/// that `50.0` degrees is `50_000_000`.
#[derive(Clone, Copy, Debug, PartialEq, Eq, Structural)]
pub struct Coordinates {
    pub lat: i64,
    pub lon: i64,
}

/// Whether a latitude and longitude lie within the bounds of the globe.
pub open spec fn within_bounds(lat: i64, lon: i64) -> bool {
    -MAX_LAT <= lat <= MAX_LAT && -MAX_LON <= lon <= MAX_LON
}

impl Coordinates {
    /// Whether the point lies within the bounds of the globe.
    pub open spec fn valid(self) -> bool {
        within_bounds(self.lat, self.lon)
    }

    /// Checks that latitude lies in [-90, 90] and longitude in [-180, 180] degrees.
    pub fn is_valid(&self) -> (r: bool)
        ensures
            r == self.valid(),
    {
        -MAX_LAT <= self.lat && self.lat <= MAX_LAT && -MAX_LON <= self.lon && self.lon <= MAX_LON
    }
}

/// The point that the geolocation metadata of a request gives, if any.
///
/// Both values must be present. The pair (0, 0) is the metadata's way of
/// saying that no location could be determined, and gives no point.
pub open spec fn geo_point(lat: Option<i64>, lon: Option<i64>) -> Option<Coordinates> {
    match (lat, lon) {
        (Some(a), Some(b)) => if a == 0 && b == 0 {
            None
        } else {
            Some(Coordinates { lat: a, lon: b })
        },
        _ => None,
    }
}

/// Reads the point out of a request's geolocation metadata: its latitude and
/// longitude, each absent where the metadata lacked it or could not be read.
pub fn geo_header_coords(lat: Option<i64>, lon: Option<i64>) -> (r: Option<Coordinates>)
    ensures
        r == geo_point(lat, lon),
{
    match (lat, lon) {
        (Some(a), Some(b)) => if a == 0 && b == 0 {
            None
        } else {
            Some(Coordinates { lat: a, lon: b })
        },
        _ => None,
    }
}

} // verus!
