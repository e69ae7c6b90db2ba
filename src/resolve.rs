//! Picking the city that a request is about.

use vstd::prelude::*;
use crate::coordinates::Coordinates;
use crate::error::{ErrorKind, ErrorResponse, HandlerResult};
use crate::language::{default_city_of, Language};
use crate::records::ElasticCity;

verus! {

/// A query of the store that yields one city.
#[derive(Clone, Copy, Debug, PartialEq, Eq, Structural)]
pub enum CityLookup {
    /// The city with this id.
    ById(u64),
    /// The city nearest to `point`, among featured cities only where `featured_only`.
    Nearest { point: Coordinates, featured_only: bool },
}

/// Parameters of a request for the city closest to the client.
#[derive(Clone, Copy, Debug)]
pub struct ClosestQuery {
    /// Latitude in microdegrees, if the client gave one.
    pub lat: Option<i64>,
    /// Longitude in microdegrees, if the client gave one.
    pub lon: Option<i64>,
    pub language: Language,
}

/// Detail of the error for a query with only one of latitude and longitude.
pub open spec fn one_coordinate_detail() -> Seq<char> {
    "either both or none of `lat`, `lon` expected"@
}

/// Detail of the error for explicit coordinates outside the globe.
pub open spec fn out_of_bounds_detail() -> Seq<char> {
    "`lat` must lie in [-90, 90] and `lon` in [-180, 180]"@
}

/// The coordinates that a closest-city query gives: both, none, or an error.
pub open spec fn query_coordinates(lat: Option<i64>, lon: Option<i64>) -> Result<Option<Coordinates>, (ErrorKind, Seq<char>)> {
    match (lat, lon) {
        (Some(a), Some(b)) => Ok(Some(Coordinates { lat: a, lon: b })),
        (None, None) => Ok(None),
        _ => Err((ErrorKind::BadRequest, one_coordinate_detail())),
    }
}

/// Which store query answers a closest-city request, or why it is refused.
///
/// Explicit coordinates come first, and must lie within the globe; then the
/// point inferred from the request's metadata, among featured cities only;
/// then the language's principal city.
pub open spec fn closest_lookup(query: ClosestQuery, inferred: Option<Coordinates>) -> Result<CityLookup, (ErrorKind, Seq<char>)> {
    match query_coordinates(query.lat, query.lon) {
        Err(e) => Err(e),
        Ok(Some(c)) => if c.valid() {
            Ok(CityLookup::Nearest { point: c, featured_only: false })
        } else {
            Err((ErrorKind::BadRequest, out_of_bounds_detail()))
        },
        Ok(None) => match inferred {
            Some(c) => Ok(CityLookup::Nearest { point: c, featured_only: true }),
            None => Ok(CityLookup::ById(default_city_of(query.language))),
        },
    }
}

/// The view of a result whose error is an [`ErrorResponse`] and whose value is plain.
pub open spec fn plain_result<T>(r: HandlerResult<T>) -> Result<T, (ErrorKind, Seq<char>)> {
    match r {
        Ok(v) => Ok(v),
        Err(e) => Err(e@),
    }
}

impl ClosestQuery {
    /// Extracts the optional coordinates of the query; an error if only one of them is given.
    pub fn coordinates(&self) -> (r: HandlerResult<Option<Coordinates>>)
        ensures
            plain_result(r) == query_coordinates(self.lat, self.lon),
    {
        match (self.lat, self.lon) {
            (Some(lat), Some(lon)) => Ok(Some(Coordinates { lat, lon })),
            (None, None) => Ok(None),
            _ => Err(ErrorResponse::bad_request("either both or none of `lat`, `lon` expected")),
        }
    }
}

/// Decides which store query answers a closest-city request.
///
/// `inferred` is the point read from the request's metadata, if any. An error
/// means that no store query is to be made.
pub fn closest(query: &ClosestQuery, inferred: Option<Coordinates>) -> (r: HandlerResult<CityLookup>)
    ensures
        plain_result(r) == closest_lookup(*query, inferred),
{
    match query.coordinates() {
        Err(e) => Err(e),
        Ok(Some(coords)) => {
            if coords.is_valid() {
                Ok(CityLookup::Nearest { point: coords, featured_only: false })
            } else {
                Err(ErrorResponse::bad_request("`lat` must lie in [-90, 90] and `lon` in [-180, 180]"))
            }
        },
        Ok(None) => match inferred {
            Some(coords) => Ok(CityLookup::Nearest { point: coords, featured_only: true }),
            None => Ok(CityLookup::ById(query.language.default_city_id())),
        },
    }
}

/// What answers a request for the featured city associated with a city.
#[derive(Debug)]
pub enum AssociatedFeatured {
    /// The city itself, already featured.
    Ready(ElasticCity),
    /// The store query that finds the associated featured city.
    Lookup(CityLookup),
}

/// The featured city associated with `city`: the city itself where it is
/// featured, else the featured city nearest to its centroid.
pub fn associated_featured(city: ElasticCity) -> (r: AssociatedFeatured)
    ensures
        city.is_featured ==> r == AssociatedFeatured::Ready(city),
        !city.is_featured ==> r == AssociatedFeatured::Lookup(
            CityLookup::Nearest { point: city.centroid, featured_only: true },
        ),
{
    if city.is_featured {
        AssociatedFeatured::Ready(city)
    } else {
        AssociatedFeatured::Lookup(CityLookup::Nearest { point: city.centroid, featured_only: true })
    }
}

} // verus!
