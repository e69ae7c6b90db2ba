//! Location resolution and localized city responses.
//!
//! The library decides which city a request is about (by id, by the nearest
//! point, or by a per-language default), orders featured cities, and joins city
//! and region records into the localized shape handed to clients. Fetching the
//! records is left to the caller: every function here works on values it is
//! given and is verified against its contract.

pub mod compose;
pub mod coordinates;
pub mod error;
pub mod language;
pub mod laws;
pub mod records;
pub mod resolve;

pub use coordinates::{geo_header_coords, Coordinates};
pub use error::{internal_server_error, not_found, ErrorKind, ErrorResponse, HandlerResult};
pub use language::Language;
pub use records::{find_name, names_unique, ElasticCity, ElasticRegion, NameEntry};
pub use resolve::{associated_featured, closest, AssociatedFeatured, CityLookup, ClosestQuery};
pub use compose::{es_cities_into_resp, featured_order, CityResponse, MultiCityResponse};
