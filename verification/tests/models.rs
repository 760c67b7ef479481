use mindat_rs::{
    CursorPaginatedResponse, Decimal, EntryType, GeomaterialsOrdering, GeomaterialsQuery,
    LocalitiesQuery, PaginatedResponse,
};

#[test]
fn test_geomaterials_query_builder() {
    let query = GeomaterialsQuery::new()
        .name("quartz")
        .ima_approved(true)
        .with_elements("Si,O")
        .hardness_range(Decimal::parse("6.0").unwrap(), Decimal::parse("7.0").unwrap())
        .page(1)
        .page_size(50);

    assert_eq!(query.name, Some("quartz".to_string()));
    assert_eq!(query.ima, Some(true));
    assert_eq!(query.elements_inc, Some("Si,O".to_string()));
    assert_eq!(query.hardness_min.map(|d| d.as_str().parse::<f32>().unwrap()), Some(6.0));
    assert_eq!(query.hardness_max.map(|d| d.as_str().parse::<f32>().unwrap()), Some(7.0));
    assert_eq!(query.page, Some(1));
    assert_eq!(query.page_size, Some(50));
}

#[test]
fn test_localities_query_builder() {
    let query = LocalitiesQuery::new()
        .country("Brazil")
        .with_elements("Au")
        .select_fields("id,txt,country");

    assert_eq!(query.country, Some("Brazil".to_string()));
    assert_eq!(query.elements_inc, Some("Au".to_string()));
    assert_eq!(query.fields, Some("id,txt,country".to_string()));
}

#[test]
fn test_paginated_response() {
    let response: PaginatedResponse<i32> = PaginatedResponse {
        count: Some(150),
        next: Some("https://api.mindat.org/geomaterials/?page=2".to_string()),
        previous: None,
        results: vec![1, 2, 3],
    };

    assert!(response.has_next());
    assert!(!response.has_previous());
    assert_eq!(response.total_pages(50), Some(3));
}

#[test]
fn test_entry_type_from_u8() {
    assert_eq!(EntryType::from(0), EntryType::Mineral);
    assert_eq!(EntryType::from(1), EntryType::Synonym);
    assert_eq!(EntryType::from(2), EntryType::Variety);
    assert_eq!(EntryType::from(7), EntryType::Rock);
    assert_eq!(EntryType::from(99), EntryType::Mineral); // Unknown defaults to Mineral
}

#[test]
fn test_geomaterials_ordering_display() {
    assert_eq!(GeomaterialsOrdering::Id.to_string(), "id");
    assert_eq!(GeomaterialsOrdering::IdDesc.to_string(), "-id");
    assert_eq!(GeomaterialsOrdering::Name.to_string(), "name");
}

#[test]
fn next_cursor_is_read_from_the_query_of_next() {
    let page: CursorPaginatedResponse<i32> = CursorPaginatedResponse {
        next: Some("https://host/path/?cursor=abc123&page_size=10".to_string()),
        previous: None,
        results: vec![],
    };
    assert_eq!(page.next_cursor(), Some("abc123".to_string()));
    assert_eq!(page.next_page(), None);
}

#[test]
fn every_ordering_is_found_again_from_its_token() {
    let all = [
        (GeomaterialsOrdering::Id, "id"),
        (GeomaterialsOrdering::IdDesc, "-id"),
        (GeomaterialsOrdering::Name, "name"),
        (GeomaterialsOrdering::NameDesc, "-name"),
        (GeomaterialsOrdering::UpdateTime, "updttime"),
        (GeomaterialsOrdering::UpdateTimeDesc, "-updttime"),
        (GeomaterialsOrdering::ApprovalYear, "approval_year"),
        (GeomaterialsOrdering::ApprovalYearDesc, "-approval_year"),
        (GeomaterialsOrdering::Weighting, "weighting"),
        (GeomaterialsOrdering::WeightingDesc, "-weighting"),
        (GeomaterialsOrdering::LocalityEntries, "minstats__ms_locentries"),
        (GeomaterialsOrdering::LocalityEntriesDesc, "-minstats__ms_locentries"),
        (GeomaterialsOrdering::Photos, "minstats__ms_photos"),
        (GeomaterialsOrdering::PhotosDesc, "-minstats__ms_photos"),
    ];
    for (ordering, token) in all {
        assert_eq!(ordering.as_str(), token);
        assert_eq!(ordering.to_string(), token);
        assert_eq!(GeomaterialsOrdering::from_token(token), Some(ordering));
        assert_eq!(GeomaterialsOrdering::from_token(&ordering.to_string()), Some(ordering));
    }
    assert_eq!(GeomaterialsOrdering::from_token(""), None);
    assert_eq!(GeomaterialsOrdering::from_token("ID"), None);
    assert_eq!(GeomaterialsOrdering::from_token("-"), None);
    assert_eq!(GeomaterialsOrdering::from_token("name "), None);
}

#[test]
fn every_entry_type_has_its_code() {
    let all = [
        EntryType::Mineral,
        EntryType::Synonym,
        EntryType::Variety,
        EntryType::Mixture,
        EntryType::Series,
        EntryType::GroupList,
        EntryType::Polytype,
        EntryType::Rock,
        EntryType::Commodity,
    ];
    for (code, entry) in all.iter().enumerate() {
        assert_eq!(EntryType::from(code as u8), *entry);
    }
    assert_eq!(EntryType::from(9), EntryType::Mineral);
    assert_eq!(EntryType::from(255), EntryType::Mineral);
}

#[test]
fn pages_are_counted_by_rounding_up() {
    let page = |count: Option<i64>| PaginatedResponse::<i32> {
        count,
        next: None,
        previous: None,
        results: vec![],
    };
    assert_eq!(page(Some(25)).total_pages(10), Some(3));
    assert_eq!(page(Some(20)).total_pages(10), Some(2));
    assert_eq!(page(None).total_pages(10), None);
    assert_eq!(page(Some(0)).total_pages(10), Some(0));
    assert_eq!(page(Some(1)).total_pages(10), Some(1));
    assert_eq!(page(Some(10)).total_pages(10), Some(1));
    assert_eq!(page(Some(11)).total_pages(10), Some(2));
    assert_eq!(page(Some(7)).total_pages(1), Some(7));
    assert_eq!(page(Some(i64::MAX)).total_pages(usize::MAX), Some(1));
    assert_eq!(page(Some(-1)).total_pages(2), Some(((-1i64) as usize).div_ceil(2)));
    assert!(!page(None).has_next());
}

#[test]
fn the_next_page_is_read_from_the_query_of_next() {
    let page = |next: Option<&str>| CursorPaginatedResponse::<i32> {
        next: next.map(|s| s.to_string()),
        previous: Some("x".to_string()),
        results: vec![],
    };
    let p = page(Some("http://example.com/geomaterials/?page=2&page_size=10"));
    assert!(p.has_next());
    assert!(p.has_previous());
    assert_eq!(p.next_page(), Some(2));
    assert_eq!(p.next_cursor(), None);
    assert_eq!(page(Some("http://example.com/?page=-3")).next_page(), Some(-3));
    assert_eq!(page(Some("http://example.com/?page=two")).next_page(), None);
    assert_eq!(page(Some("http://example.com/?page=")).next_page(), None);
    assert_eq!(page(Some("http://example.com/?page=%32")).next_page(), Some(2));
    assert_eq!(page(Some("http://example.com/?page=1&page=2")).next_page(), Some(1));
    assert_eq!(page(Some("http://example.com/?page=99999999999")).next_page(), None);
    assert_eq!(page(Some("?page=2")).next_page(), None);
    assert_eq!(page(Some("not a url")).next_cursor(), None);
    assert_eq!(page(Some("http://example.com/?cursor=")).next_cursor(), Some(String::new()));
    assert_eq!(page(None).next_cursor(), None);
    assert_eq!(page(None).next_page(), None);
    assert!(!page(None).has_next());
}
