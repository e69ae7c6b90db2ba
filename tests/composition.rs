use locations::{
    closest, es_cities_into_resp, featured_order, find_name, names_unique, internal_server_error, not_found,
    CityLookup, ClosestQuery, Coordinates, ElasticCity, ElasticRegion, ErrorKind, ErrorResponse,
    Language, NameEntry,
};

fn names(pairs: &[(&str, &str)]) -> Vec<NameEntry> {
    pairs
        .iter()
        .map(|(k, v)| NameEntry { key: k.to_string(), value: v.to_string() })
        .collect()
}

fn city(id: u64, country: &str, pairs: &[(&str, &str)]) -> ElasticCity {
    ElasticCity {
        id,
        is_featured: true,
        country_iso: country.to_string(),
        names: names(pairs),
        region_id: id + 1000,
        centroid: Coordinates { lat: 0, lon: 0 },
    }
}

fn prague() -> ElasticCity {
    ElasticCity {
        id: 101_748_113,
        is_featured: true,
        country_iso: "CZ".to_string(),
        names: names(&[("cs", "Praha"), ("en", "Prague"), ("de", "Prag")]),
        region_id: 500,
        centroid: Coordinates { lat: 50_087_000, lon: 14_421_000 },
    }
}

fn prague_region() -> ElasticRegion {
    ElasticRegion { id: 500, names: names(&[("cs", "Praha"), ("en", "Prague Region")]) }
}

fn region(id: u64, pairs: &[(&str, &str)]) -> Result<ElasticRegion, ErrorResponse> {
    Ok(ElasticRegion { id, names: names(pairs) })
}

#[test]
fn get_prague_in_czech() {
    let r = prague().into_resp(&Ok(prague_region()), Language::CS).unwrap();
    assert_eq!(r.id, 101_748_113);
    assert!(r.is_featured);
    assert_eq!(r.country_iso, "CZ");
    assert_eq!(r.name, "Praha");
    assert_eq!(r.region_name, "Praha");
}

#[test]
fn closest_default_in_english_is_prague() {
    let q = ClosestQuery { lat: None, lon: None, language: Language::EN };
    let lookup = closest(&q, None).unwrap();
    assert_eq!(lookup, CityLookup::ById(101_748_113));
    let r = prague().into_resp(&Ok(prague_region()), Language::EN).unwrap();
    assert_eq!(r.id, 101_748_113);
    assert_eq!(r.name, "Prague");
    assert_eq!(r.region_name, "Prague Region");
    assert_eq!(r.country_iso, "CZ");
}

#[test]
fn missing_city_name_is_bad_request_naming_key() {
    let e = prague().into_resp(&Ok(prague_region()), Language::PL).unwrap_err();
    assert_eq!(e.kind(), ErrorKind::BadRequest);
    assert_eq!(e.detail(), "pl");
}

#[test]
fn missing_region_name_is_bad_request_naming_key() {
    let e = prague().into_resp(&Ok(prague_region()), Language::DE).unwrap_err();
    assert_eq!(e.kind(), ErrorKind::BadRequest);
    assert_eq!(e.detail(), "de");
    assert_eq!(e.message(), "Bad Request: de");
}

#[test]
fn failed_region_fetch_is_passed_on() {
    let failed = Err(ErrorResponse::NotFound("region 500".to_string()));
    let e = prague().into_resp(&failed, Language::CS).unwrap_err();
    assert_eq!(e.kind(), ErrorKind::NotFound);
    assert_eq!(e.detail(), "region 500");
}

#[test]
fn compose_many_keeps_input_order() {
    let cities = vec![
        city(3, "CZ", &[("cs", "Tři")]),
        city(1, "SK", &[("cs", "Jedna")]),
        city(2, "PL", &[("cs", "Dva")]),
    ];
    let regions = vec![
        region(1003, &[("cs", "R3")]),
        region(1001, &[("cs", "R1")]),
        region(1002, &[("cs", "R2")]),
    ];
    let r = es_cities_into_resp(&cities, &regions, Language::CS).unwrap();
    let ids: Vec<u64> = r.cities.iter().map(|c| c.id).collect();
    assert_eq!(ids, vec![3, 1, 2]);
    let names: Vec<&str> = r.cities.iter().map(|c| c.name.as_str()).collect();
    assert_eq!(names, vec!["Tři", "Jedna", "Dva"]);
    let regions: Vec<&str> = r.cities.iter().map(|c| c.region_name.as_str()).collect();
    assert_eq!(regions, vec!["R3", "R1", "R2"]);
}

#[test]
fn compose_many_of_nothing_is_empty() {
    let r = es_cities_into_resp(&vec![], &vec![], Language::SK).unwrap();
    assert!(r.cities.is_empty());
}

#[test]
fn compose_many_fails_whole_on_kth_failure() {
    let cities = vec![
        city(1, "CZ", &[("cs", "A")]),
        city(2, "CZ", &[("cs", "B")]),
        city(3, "CZ", &[("cs", "C")]),
        city(4, "CZ", &[("en", "D")]),
    ];
    let regions = vec![
        region(1001, &[("cs", "R")]),
        region(1002, &[("cs", "R")]),
        Err(ErrorResponse::InternalServerError("store down".to_string())),
        Err(ErrorResponse::NotFound("later".to_string())),
    ];
    let e = es_cities_into_resp(&cities, &regions, Language::CS).unwrap_err();
    assert_eq!(e.kind(), ErrorKind::InternalServerError);
    assert_eq!(e.detail(), "store down");
    assert_eq!(e.status_code(), 500);
}

#[test]
fn compose_many_first_failure_in_input_order() {
    let cities = vec![city(1, "CZ", &[("en", "A")]), city(2, "CZ", &[("cs", "B")])];
    let regions = vec![
        region(1001, &[("cs", "R")]),
        Err(ErrorResponse::NotFound("region".to_string())),
    ];
    let e = es_cities_into_resp(&cities, &regions, Language::CS).unwrap_err();
    assert_eq!(e.kind(), ErrorKind::BadRequest);
    assert_eq!(e.detail(), "cs");
}

#[test]
fn featured_listing_preferred_country_first_stable() {
    let cities = vec![
        city(1, "SK", &[]),
        city(2, "CZ", &[]),
        city(3, "PL", &[]),
        city(4, "CZ", &[]),
        city(5, "DE", &[]),
        city(6, "CZ", &[]),
    ];
    let ordered = featured_order(cities, Language::EN);
    let ids: Vec<u64> = ordered.iter().map(|c| c.id).collect();
    assert_eq!(ids, vec![2, 4, 6, 1, 3, 5]);
}

#[test]
fn featured_listing_by_language() {
    let make = || vec![city(1, "CZ", &[]), city(2, "SK", &[]), city(3, "PL", &[]), city(4, "SK", &[])];
    let ids = |v: Vec<ElasticCity>| v.iter().map(|c| c.id).collect::<Vec<u64>>();
    assert_eq!(ids(featured_order(make(), Language::SK)), vec![2, 4, 1, 3]);
    assert_eq!(ids(featured_order(make(), Language::PL)), vec![3, 1, 2, 4]);
    assert_eq!(ids(featured_order(make(), Language::DE)), vec![1, 2, 3, 4]);
    assert_eq!(ids(featured_order(vec![], Language::CS)), Vec::<u64>::new());
}

#[test]
fn language_keys_and_countries() {
    let expected = [
        (Language::CS, "cs", "CZ"),
        (Language::DE, "de", "DE"),
        (Language::EN, "en", "CZ"),
        (Language::PL, "pl", "PL"),
        (Language::SK, "sk", "SK"),
    ];
    for (language, key, country) in expected {
        assert_eq!(language.name_key(), key);
        assert_eq!(language.preferred_country(), country);
    }
}

#[test]
fn find_name_takes_first_entry_with_key() {
    let n = names(&[("en", "One"), ("cs", "Jedna"), ("cs", "Druhá")]);
    assert_eq!(find_name(&n, &"cs".to_string()).map(|s| s.as_str()), Some("Jedna"));
    assert_eq!(find_name(&n, &"sk".to_string()), None);
}

#[test]
fn error_statuses_and_messages() {
    let e = internal_server_error();
    assert_eq!(e.kind(), ErrorKind::InternalServerError);
    assert_eq!(e.status_code(), 500);
    assert_eq!(e.message(), "Internal Server Error: Something went wrong.");
    let n = not_found("/city/v2/get".to_string());
    assert_eq!(n.status_code(), 404);
    assert_eq!(n.message(), "Not Found: /city/v2/get");
    let b = ErrorResponse::bad_request("oops");
    assert_eq!(b.status_code(), 400);
    assert_eq!(b.message(), "Bad Request: oops");
    assert_eq!(b.duplicate().message(), "Bad Request: oops");
}

#[test]
fn internal_error_message_hides_detail() {
    let e = ErrorResponse::InternalServerError("Elasticsearch error: connection refused".to_string());
    assert_eq!(e.status_code(), 500);
    assert_eq!(e.message(), "Internal Server Error: Something went wrong.");
    assert_eq!(e.detail(), "Elasticsearch error: connection refused");
    let n = ErrorResponse::NotFound("city 7".to_string());
    assert_eq!(n.message(), "Not Found: city 7");
}

#[test]
fn names_unique_detects_repeated_keys() {
    assert!(names_unique(&names(&[])));
    assert!(names_unique(&names(&[("cs", "Praha"), ("en", "Prague")])));
    assert!(!names_unique(&names(&[("cs", "Praha"), ("en", "Prague"), ("cs", "Praha 2")])));
    assert!(!names_unique(&names(&[("de", "Prag"), ("de", "Prag")])));
}
