//! Properties that relate the library's functions, proved for every input.

use vstd::prelude::*;
use crate::compose::{
    compose, compose_all, featured_listing, in_preferred_country, outside_preferred_country,
    CityResponseView,
};
use crate::coordinates::{within_bounds, Coordinates};
use crate::error::{ErrorKind, HandlerResult};
use crate::language::{name_key_of, preferred_country_of, Language};
use crate::records::{lookup_name, ElasticCity, ElasticRegion};
use crate::resolve::{closest_lookup, one_coordinate_detail, CityLookup, ClosestQuery};

verus! {

/// Explicit coordinates within the globe always decide a closest-city
/// request: the nearest city to that point is looked up, featured or not,
/// whatever the request's metadata says.
pub proof fn lemma_explicit_coordinates_win(query: ClosestQuery, inferred: Option<Coordinates>)
    requires
        query.lat is Some,
        query.lon is Some,
        within_bounds(query.lat->0, query.lon->0),
    ensures
        closest_lookup(query, inferred) == Ok::<CityLookup, (ErrorKind, Seq<char>)>(
            CityLookup::Nearest {
                point: Coordinates { lat: query.lat->0, lon: query.lon->0 },
                featured_only: false,
            },
        ),
        closest_lookup(query, inferred) == closest_lookup(query, None),
{
}

/// A closest-city request with only one of latitude and longitude is a bad
/// request, whatever the metadata says, so no store query is made for it.
pub proof fn lemma_one_coordinate_rejected(query: ClosestQuery, inferred: Option<Coordinates>)
    requires
        query.lat is Some != query.lon is Some,
    ensures
        closest_lookup(query, inferred) == Err::<CityLookup, (ErrorKind, Seq<char>)>(
            (ErrorKind::BadRequest, one_coordinate_detail()),
        ),
{
}

/// Composing a list gives one response per city, in input order, when every
/// city composes; when the city at position `k` is the first that fails, the
/// whole list fails with its error and no partial list comes back.
pub proof fn lemma_compose_all_ordered(
    cities: Seq<ElasticCity>,
    regions: Seq<HandlerResult<ElasticRegion>>,
    language: Language,
)
    requires
        regions.len() == cities.len(),
    ensures
        compose_all(cities, regions, language) is Ok <==> forall|i: int|
            0 <= i < cities.len() ==> #[trigger] compose(cities[i], regions[i], language) is Ok,
        compose_all(cities, regions, language) is Ok ==> {
            let rs = compose_all(cities, regions, language)->Ok_0;
            &&& rs.len() == cities.len()
            &&& forall|i: int|
                0 <= i < cities.len() ==> rs[i] == #[trigger] compose(cities[i], regions[i], language)->Ok_0
        },
        forall|k: int|
            0 <= k < cities.len() && #[trigger] compose(cities[k], regions[k], language) is Err && (
            forall|j: int| 0 <= j < k ==> #[trigger] compose(cities[j], regions[j], language) is Ok)
                ==> compose_all(cities, regions, language) == Err::<Seq<CityResponseView>, (ErrorKind, Seq<char>)>(
                compose(cities[k], regions[k], language)->Err_0,
            ),
    decreases cities.len(),
{
    if cities.len() > 0 {
        let n = cities.len() - 1;
        let cs = cities.drop_last();
        let rs = regions.drop_last();
        lemma_compose_all_ordered(cs, rs, language);
        assert forall|i: int| 0 <= i < n implies cs[i] == cities[i] && rs[i] == regions[i] by {}
        assert(cities.last() == cities[n]);
    }
}

/// Whether every element of `s` satisfies `pred`.
spec fn all_satisfy<A>(s: Seq<A>, pred: spec_fn(A) -> bool) -> bool {
    forall|i: int| 0 <= i < s.len() ==> pred(#[trigger] s[i])
}

proof fn lemma_filter_keeps_all<A>(s: Seq<A>, pred: spec_fn(A) -> bool)
    requires
        all_satisfy(s, pred),
    ensures
        s.filter(pred) == s,
    decreases s.len(),
{
    reveal(Seq::filter);
    if s.len() > 0 {
        lemma_filter_keeps_all(s.drop_last(), pred);
        assert(s.drop_last().push(s.last()) =~= s);
    }
}

proof fn lemma_filter_drops_all<A>(s: Seq<A>, pred: spec_fn(A) -> bool)
    requires
        forall|i: int| 0 <= i < s.len() ==> !pred(#[trigger] s[i]),
    ensures
        s.filter(pred) == Seq::<A>::empty(),
    decreases s.len(),
{
    reveal(Seq::filter);
    if s.len() > 0 {
        lemma_filter_drops_all(s.drop_last(), pred);
    }
}

/// The featured listing puts every city of the language's preferred country
/// before every other city, and keeps the store's relative order within each
/// of the two groups.
pub proof fn lemma_featured_listing_order(cities: Seq<ElasticCity>, language: Language)
    ensures
        ({
            let r = featured_listing(cities, language);
            let p = in_preferred_country(language);
            let q = outside_preferred_country(language);
            &&& forall|i: int, j: int|
                0 <= i < j < r.len() && !p(#[trigger] r[i]) ==> !p(#[trigger] r[j])
            &&& r.filter(p) == cities.filter(p)
            &&& r.filter(q) == cities.filter(q)
            &&& r.len() == cities.len()
        }),
{
    let p = in_preferred_country(language);
    let q = outside_preferred_country(language);
    let a = cities.filter(p);
    let b = cities.filter(q);
    broadcast use Seq::lemma_filter_pred;
    assert(all_satisfy(a, p));
    assert(all_satisfy(b, q));
    lemma_filter_keeps_all(a, p);
    lemma_filter_keeps_all(b, q);
    assert forall|i: int| 0 <= i < b.len() implies !p(#[trigger] b[i]) by {
        assert(q(b[i]));
    }
    assert forall|i: int| 0 <= i < a.len() implies !q(#[trigger] a[i]) by {
        assert(p(a[i]));
    }
    lemma_filter_drops_all(b, p);
    lemma_filter_drops_all(a, q);
    Seq::filter_distributes_over_add(a, b, p);
    Seq::filter_distributes_over_add(a, b, q);
    assert((a + b).filter(p) =~= a);
    assert((a + b).filter(q) =~= b);
    let r = a + b;
    assert forall|i: int, j: int| 0 <= i < j < r.len() && !p(#[trigger] r[i]) implies !p(#[trigger] r[j]) by {
        if i < a.len() {
            assert(p(a[i]));
        }
        assert(!p(b[j - a.len()]));
    }
    lemma_partition_len(cities, language);
}

proof fn lemma_partition_len(cities: Seq<ElasticCity>, language: Language)
    ensures
        cities.filter(in_preferred_country(language)).len() + cities.filter(
            outside_preferred_country(language),
        ).len() == cities.len(),
    decreases cities.len(),
{
    reveal(Seq::filter);
    if cities.len() > 0 {
        lemma_partition_len(cities.drop_last(), language);
    }
}

/// Composing the featured listing gives, where it succeeds, one response per
/// featured city at the city's position in the listing, so every response of
/// the language's preferred country precedes every other response. Within each
/// group the listing keeps the store's order (`lemma_featured_listing_order`),
/// and so do the responses. `regions[i]` is the outcome of fetching the region
/// of the `i`-th city of the listing.
pub proof fn lemma_featured_responses_order(
    cities: Seq<ElasticCity>,
    regions: Seq<HandlerResult<ElasticRegion>>,
    language: Language,
)
    requires
        regions.len() == cities.len(),
    ensures
        ({
            let listing = featured_listing(cities, language);
            let pc = preferred_country_of(language);
            compose_all(listing, regions, language) is Ok ==> {
                let rs = compose_all(listing, regions, language)->Ok_0;
                &&& rs.len() == cities.len()
                &&& forall|i: int|
                    0 <= i < rs.len() ==> #[trigger] rs[i] == compose(listing[i], regions[i], language)->Ok_0
                &&& forall|i: int, j: int|
                    0 <= i < j < rs.len() && #[trigger] rs[j].country_iso == pc ==> #[trigger] rs[i].country_iso == pc
            }
        }),
{
    lemma_partition_len(cities, language);
    lemma_listing_countries(cities, language);
    lemma_order_carries(featured_listing(cities, language), regions, language);
    lemma_compose_positions(featured_listing(cities, language), regions, language);
}

/// In the featured listing, a city of the preferred country is preceded only
/// by cities of that country.
proof fn lemma_listing_countries(cities: Seq<ElasticCity>, language: Language)
    ensures
        forall|i: int, j: int|
            0 <= i < j < featured_listing(cities, language).len() && #[trigger] featured_listing(
                cities,
                language,
            )[j].country_iso@ == preferred_country_of(language) ==> #[trigger] featured_listing(
                cities,
                language,
            )[i].country_iso@ == preferred_country_of(language),
{
    let p = in_preferred_country(language);
    let q = outside_preferred_country(language);
    let a = cities.filter(p);
    let b = cities.filter(q);
    let listing = a + b;
    let pc = preferred_country_of(language);
    assert forall|i: int, j: int|
        0 <= i < j < listing.len() && #[trigger] listing[j].country_iso@ == pc implies #[trigger] listing[i].country_iso@
            == pc by {
        if j < a.len() {
            cities.lemma_filter_pred(p, i);
        } else {
            cities.lemma_filter_pred(q, j - a.len());
            assert(listing[j] == b[j - a.len()]);
        }
    }
}

/// Composing keeps each response at its city's position.
proof fn lemma_compose_positions(
    cities: Seq<ElasticCity>,
    regions: Seq<HandlerResult<ElasticRegion>>,
    language: Language,
)
    requires
        regions.len() == cities.len(),
    ensures
        compose_all(cities, regions, language) is Ok ==> {
            let rs = compose_all(cities, regions, language)->Ok_0;
            &&& rs.len() == cities.len()
            &&& forall|i: int|
                0 <= i < rs.len() ==> #[trigger] rs[i] == compose(cities[i], regions[i], language)->Ok_0
        },
{
    lemma_compose_all_ordered(cities, regions, language);
}

/// Where the cities of the preferred country precede all others, so do their responses.
proof fn lemma_order_carries(
    cities: Seq<ElasticCity>,
    regions: Seq<HandlerResult<ElasticRegion>>,
    language: Language,
)
    requires
        regions.len() == cities.len(),
        forall|i: int, j: int|
            0 <= i < j < cities.len() && #[trigger] cities[j].country_iso@ == preferred_country_of(language)
                ==> #[trigger] cities[i].country_iso@ == preferred_country_of(language),
    ensures
        compose_all(cities, regions, language) is Ok ==> {
            let rs = compose_all(cities, regions, language)->Ok_0;
            forall|i: int, j: int|
                0 <= i < j < rs.len() && #[trigger] rs[j].country_iso == preferred_country_of(language)
                    ==> #[trigger] rs[i].country_iso == preferred_country_of(language)
        },
{
    lemma_composed_countries(cities, regions, language);
    lemma_compose_positions(cities, regions, language);
    if compose_all(cities, regions, language) is Ok {
        let rs = compose_all(cities, regions, language)->Ok_0;
        assert forall|i: int, j: int|
            0 <= i < j < rs.len() && #[trigger] rs[j].country_iso == preferred_country_of(language)
                implies #[trigger] rs[i].country_iso == preferred_country_of(language) by {
            assert(rs[j].country_iso == cities[j].country_iso@);
            assert(rs[i].country_iso == cities[i].country_iso@);
        }
    }
}

/// Each composed response carries the country of the city at its position.
proof fn lemma_composed_countries(
    cities: Seq<ElasticCity>,
    regions: Seq<HandlerResult<ElasticRegion>>,
    language: Language,
)
    requires
        regions.len() == cities.len(),
    ensures
        compose_all(cities, regions, language) is Ok ==> forall|i: int|
            0 <= i < cities.len() ==> #[trigger] compose_all(cities, regions, language)->Ok_0[i].country_iso
                == cities[i].country_iso@,
{
    lemma_compose_all_ordered(cities, regions, language);
    if compose_all(cities, regions, language) is Ok {
        assert forall|i: int| 0 <= i < cities.len() implies #[trigger] compose_all(cities, regions, language)->Ok_0[i].country_iso
            == cities[i].country_iso@ by {
            assert(compose(cities[i], regions[i], language) is Ok);
        }
    }
}

/// A city or region without a name under the language's key never yields a
/// response: the outcome is a bad request that names the missing key. Every
/// response carries the names stored under that key.
pub proof fn lemma_missing_name_is_bad_request(
    city: ElasticCity,
    region: HandlerResult<ElasticRegion>,
    language: Language,
)
    ensures
        region is Ok && (lookup_name(city.names@, name_key_of(language)) is None || lookup_name(
            region->Ok_0.names@,
            name_key_of(language),
        ) is None) ==> compose(city, region, language) == Err::<CityResponseView, (ErrorKind, Seq<char>)>(
            (ErrorKind::BadRequest, name_key_of(language)),
        ),
        compose(city, region, language) is Ok ==> {
            &&& lookup_name(city.names@, name_key_of(language)) == Some(
                compose(city, region, language)->Ok_0.name,
            )
            &&& lookup_name(region->Ok_0.names@, name_key_of(language)) == Some(
                compose(city, region, language)->Ok_0.region_name,
            )
        },
{
}

} // verus!
