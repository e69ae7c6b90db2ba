//! Joining city and region records into localized responses.

use vstd::prelude::*;
use vstd::string::*;
use crate::error::{ErrorKind, ErrorResponse, HandlerResult};
use crate::language::{name_key_of, preferred_country_of, Language};
use crate::records::{find_name, lookup_name, ElasticCity, ElasticRegion};

verus! {

/// A city as handed to clients. Every field is filled.
#[derive(Debug)]
pub struct CityResponse {
    pub id: u64,
    pub is_featured: bool,
    /// ISO 3166-1 alpha-2 country code, or a custom 4-letter code.
    pub country_iso: String,
    /// Name of the city in the requested language.
    pub name: String,
    /// Name of the city's region in the requested language.
    pub region_name: String,
}

/// [`CityResponse`] with its texts as sequences of characters.
pub struct CityResponseView {
    pub id: u64,
    pub is_featured: bool,
    pub country_iso: Seq<char>,
    pub name: Seq<char>,
    pub region_name: Seq<char>,
}

impl View for CityResponse {
    type V = CityResponseView;

    open spec fn view(&self) -> CityResponseView {
        CityResponseView {
            id: self.id,
            is_featured: self.is_featured,
            country_iso: self.country_iso@,
            name: self.name@,
            region_name: self.region_name@,
        }
    }
}

/// A list of cities as handed to clients.
#[derive(Debug)]
pub struct MultiCityResponse {
    pub cities: Vec<CityResponse>,
}

/// The views of a list of responses.
pub open spec fn responses_view(rs: Seq<CityResponse>) -> Seq<CityResponseView> {
    rs.map_values(|r: CityResponse| r@)
}

/// The response for `city` in `language`, given the outcome of fetching its region.
///
/// A failed region fetch is passed on. A record without a name under the
/// language's key is a bad request that names the key, the city checked first.
pub open spec fn compose(
    city: ElasticCity,
    region: HandlerResult<ElasticRegion>,
    language: Language,
) -> Result<CityResponseView, (ErrorKind, Seq<char>)> {
    let key = name_key_of(language);
    match region {
        Err(e) => Err(e@),
        Ok(reg) => match (lookup_name(city.names@, key), lookup_name(reg.names@, key)) {
            (None, _) => Err((ErrorKind::BadRequest, key)),
            (Some(_), None) => Err((ErrorKind::BadRequest, key)),
            (Some(name), Some(region_name)) => Ok(
                CityResponseView {
                    id: city.id,
                    is_featured: city.is_featured,
                    country_iso: city.country_iso@,
                    name,
                    region_name,
                },
            ),
        },
    }
}

/// The responses for `cities` in order, each with the outcome of fetching its
/// region at the same position; the first failure in input order where any fails.
pub open spec fn compose_all(
    cities: Seq<ElasticCity>,
    regions: Seq<HandlerResult<ElasticRegion>>,
    language: Language,
) -> Result<Seq<CityResponseView>, (ErrorKind, Seq<char>)>
    decreases cities.len(),
{
    if cities.len() == 0 {
        Ok(Seq::empty())
    } else {
        match compose_all(cities.drop_last(), regions.drop_last(), language) {
            Err(e) => Err(e),
            Ok(rs) => match compose(cities.last(), regions[cities.len() - 1], language) {
                Err(e) => Err(e),
                Ok(r) => Ok(rs.push(r)),
            },
        }
    }
}

/// The view of a composed response, or of its error.
pub open spec fn response_result(r: HandlerResult<CityResponse>) -> Result<CityResponseView, (ErrorKind, Seq<char>)> {
    match r {
        Ok(v) => Ok(v@),
        Err(e) => Err(e@),
    }
}

/// The view of a composed list, or of its error.
pub open spec fn multi_result(r: HandlerResult<MultiCityResponse>) -> Result<Seq<CityResponseView>, (ErrorKind, Seq<char>)> {
    match r {
        Ok(v) => Ok(responses_view(v.cities@)),
        Err(e) => Err(e@),
    }
}

impl ElasticCity {
    /// Joins this city with the outcome of fetching its region into the
    /// response for `language`.
    pub fn into_resp(&self, region: &HandlerResult<ElasticRegion>, language: Language) -> (r: HandlerResult<CityResponse>)
        requires
            self.wf(),
            region matches Ok(reg) ==> reg.wf(),
        ensures
            response_result(r) == compose(*self, *region, language),
    {
        let reg = match region {
            Err(e) => {
                return Err(e.duplicate());
            },
            Ok(reg) => reg,
        };
        let name_key = language.name_key();
        let name = match find_name(&self.names, &name_key) {
            Some(n) => n,
            None => {
                return Err(ErrorResponse::BadRequest(name_key));
            },
        };
        let region_name = match find_name(&reg.names, &name_key) {
            Some(n) => n,
            None => {
                return Err(ErrorResponse::BadRequest(name_key));
            },
        };
        Ok(
            CityResponse {
                id: self.id,
                is_featured: self.is_featured,
                country_iso: self.country_iso.clone(),
                name: name.clone(),
                region_name: region_name.clone(),
            },
        )
    }
}

/// Once a prefix of the list fails, the whole list fails with the same error.
proof fn lemma_prefix_failure(
    cities: Seq<ElasticCity>,
    regions: Seq<HandlerResult<ElasticRegion>>,
    language: Language,
    k: int,
)
    requires
        0 <= k <= cities.len(),
        regions.len() == cities.len(),
        compose_all(cities.take(k), regions.take(k), language) is Err,
    ensures
        compose_all(cities, regions, language) == compose_all(cities.take(k), regions.take(k), language),
    decreases cities.len() - k,
{
    if k < cities.len() {
        assert(cities.take(k + 1).drop_last() =~= cities.take(k));
        assert(regions.take(k + 1).drop_last() =~= regions.take(k));
        lemma_prefix_failure(cities, regions, language, k + 1);
    } else {
        assert(cities.take(k) =~= cities);
        assert(regions.take(k) =~= regions);
    }
}

/// Composes the response of every city in order. `regions[i]` is the outcome
/// of fetching the region of `cities[i]`. The whole list fails, with the first
/// failure in input order, where any city fails.
pub fn es_cities_into_resp(
    cities: &Vec<ElasticCity>,
    regions: &Vec<HandlerResult<ElasticRegion>>,
    language: Language,
) -> (r: HandlerResult<MultiCityResponse>)
    requires
        regions@.len() == cities@.len(),
        forall|i: int| 0 <= i < cities@.len() ==> #[trigger] cities@[i].wf(),
        forall|i: int| 0 <= i < regions@.len() ==> (#[trigger] regions@[i] matches Ok(reg) ==> reg.wf()),
    ensures
        multi_result(r) == compose_all(cities@, regions@, language),
{
    let mut out: Vec<CityResponse> = Vec::new();
    let mut i: usize = 0;
    assert(responses_view(out@) =~= Seq::empty());
    assert(cities@.take(0).len() == 0);
    while i < cities.len()
        invariant
            i <= cities@.len(),
            regions@.len() == cities@.len(),
            forall|j: int| 0 <= j < cities@.len() ==> #[trigger] cities@[j].wf(),
            forall|j: int| 0 <= j < regions@.len() ==> (#[trigger] regions@[j] matches Ok(reg) ==> reg.wf()),
            compose_all(cities@.take(i as int), regions@.take(i as int), language) == Ok::<
                Seq<CityResponseView>,
                (ErrorKind, Seq<char>),
            >(responses_view(out@)),
        decreases cities@.len() - i,
    {
        assert(cities@.take(i + 1).drop_last() =~= cities@.take(i as int));
        assert(regions@.take(i + 1).drop_last() =~= regions@.take(i as int));
        let r = cities[i].into_resp(&regions[i], language);
        match r {
            Err(e) => {
                proof {
                    lemma_prefix_failure(cities@, regions@, language, i + 1);
                }
                return Err(e);
            },
            Ok(resp) => {
                let ghost before = out@;
                out.push(resp);
                assert(responses_view(out@) =~= responses_view(before).push(resp@));
            },
        }
        i = i + 1;
    }
    assert(cities@.take(i as int) =~= cities@);
    assert(regions@.take(i as int) =~= regions@);
    Ok(MultiCityResponse { cities: out })
}

/// Whether a city lies in the country preferred for `language`.
pub open spec fn in_preferred_country(language: Language) -> spec_fn(ElasticCity) -> bool {
    |c: ElasticCity| c.country_iso@ == preferred_country_of(language)
}

/// Whether a city lies outside the country preferred for `language`.
pub open spec fn outside_preferred_country(language: Language) -> spec_fn(ElasticCity) -> bool {
    |c: ElasticCity| c.country_iso@ != preferred_country_of(language)
}

/// Featured cities in listing order: those of the preferred country first,
/// then the others, each group in the store's order.
pub open spec fn featured_listing(cities: Seq<ElasticCity>, language: Language) -> Seq<ElasticCity> {
    cities.filter(in_preferred_country(language)) + cities.filter(outside_preferred_country(language))
}

/// Orders featured cities for listing: a stable partition that puts the
/// cities of the language's preferred country before all others.
pub fn featured_order(cities: Vec<ElasticCity>, language: Language) -> (r: Vec<ElasticCity>)
    ensures
        r@ == featured_listing(cities@, language),
{
    let preferred = String::from_str(language.preferred_country());
    let ghost all = cities@;
    let ghost p = in_preferred_country(language);
    let ghost q = outside_preferred_country(language);
    let n: usize = cities.len();
    let mut rest = cities;
    let mut first: Vec<ElasticCity> = Vec::new();
    let mut second: Vec<ElasticCity> = Vec::new();
    let mut k: usize = 0;
    proof {
        reveal(Seq::filter);
        assert(all.take(0) =~= Seq::<ElasticCity>::empty());
        assert(all.skip(0) =~= all);
    }
    while rest.len() > 0
        invariant
            k <= all.len(),
            all.len() == n,
            rest@ == all.skip(k as int),
            first@ == all.take(k as int).filter(p),
            second@ == all.take(k as int).filter(q),
            preferred@ == preferred_country_of(language),
            p == in_preferred_country(language),
            q == outside_preferred_country(language),
        decreases rest@.len(),
    {
        let c = rest.remove(0);
        proof {
            reveal(Seq::filter);
            assert(all.take(k + 1).drop_last() =~= all.take(k as int));
            assert(all.take(k + 1).last() == c);
            assert(rest@ =~= all.skip(k + 1));
        }
        if c.country_iso == preferred {
            first.push(c);
        } else {
            second.push(c);
        }
        k = k + 1;
    }
    proof {
        assert(all.take(k as int) =~= all);
    }
    first.append(&mut second);
    first
}

} // verus!
