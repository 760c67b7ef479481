use mindat_rs::client::{error_for_status, read_document, USER_AGENT_STRING};
use mindat_rs::endpoints::make_id_path;
use mindat_rs::links::{find_param, query_param};
use mindat_rs::{
    handle_response, Country, Decimal, GeomaterialsOrdering, GeomaterialsQuery, ImaMineralsQuery,
    LocalitiesQuery, MindatClient, MindatError, PaginatedResponse, Request, DEFAULT_BASE_URL,
};
use reqwest::header::HeaderValue;
use std::time::Duration;

fn client(base: &str, token: Option<&str>) -> MindatClient {
    let builder = MindatClient::builder().base_url(base);
    match token {
        Some(t) => builder.token(t).build().unwrap(),
        None => builder.build().unwrap(),
    }
}

fn pair(name: &str, value: &str) -> (String, String) {
    (name.to_string(), value.to_string())
}

#[test]
fn the_default_base_is_the_versioned_api() {
    assert_eq!(DEFAULT_BASE_URL, "https://api.mindat.org/v1/");
    let c = MindatClient::builder().token("test-token").build().unwrap();
    assert_eq!(c.base_url().as_str(), "https://api.mindat.org/v1/");
    assert_eq!(c.timeout(), None);
    let c = mindat_rs::MindatClientBuilder::default().timeout(Duration::from_secs(3)).build().unwrap();
    assert_eq!(c.timeout(), Some(Duration::from_secs(3)));
}

#[test]
fn a_copy_of_a_client_plans_the_same_requests() {
    let c = client("http://h/v1/", Some("t"));
    let copy = c.clone();
    assert_eq!(copy.base_url().as_str(), "http://h/v1/");
    assert_eq!(copy.countries().unwrap().url, c.countries().unwrap().url);
    assert_eq!(copy.headers().unwrap(), c.headers().unwrap());
}

#[test]
fn a_base_that_is_no_url_is_refused() {
    let r = MindatClient::builder().base_url("not a url").build();
    assert!(matches!(r, Err(MindatError::Url(_))));
    let r = MindatClient::builder().base_url("").build();
    assert!(matches!(r, Err(MindatError::Url(_))));
}

#[test]
fn the_fixed_headers_are_always_sent() {
    let c = client("http://localhost:1234", None);
    let headers = c.headers().unwrap();
    assert_eq!(
        headers,
        vec![pair("user-agent", USER_AGENT_STRING), pair("accept", "application/json")]
    );
}

#[test]
fn the_token_is_sent_when_there_is_one() {
    let mut c = client("http://localhost:1234", Some("test-token"));
    let headers = c.headers().unwrap();
    assert_eq!(
        headers,
        vec![
            pair("user-agent", USER_AGENT_STRING),
            pair("accept", "application/json"),
            pair("authorization", "Token test-token"),
        ]
    );
    c.set_token("other");
    assert_eq!(c.headers().unwrap()[2], pair("authorization", "Token other"));
}

#[test]
fn a_token_that_no_header_can_carry_is_refused() {
    let tokens = ["", "abc", "a b", "a\tb", "a\nb", "a\rb", "a\u{0}b", "a\u{7f}b", "a\u{1f}", "é", "日本", "a\u{80}b"];
    for token in tokens {
        let c = client("http://localhost:1234", Some(token));
        let sendable = HeaderValue::from_str(&format!("Token {}", token)).is_ok();
        match c.headers() {
            Ok(headers) => {
                assert!(sendable, "{:?}", token);
                assert_eq!(headers[2].1, format!("Token {}", token));
            }
            Err(MindatError::InvalidParameter(reason)) => {
                assert!(!sendable, "{:?}", token);
                assert_eq!(reason, "Invalid token format");
            }
            Err(other) => panic!("{:?}", other),
        }
    }
    let c = client("http://localhost:1234", Some("a\nb"));
    let r = c.countries();
    assert!(matches!(r, Err(MindatError::InvalidParameter(_))));
}

#[test]
fn the_path_is_resolved_against_the_base() {
    let c = client("https://api.mindat.org/v1/", Some("t"));
    assert_eq!(c.countries().unwrap().url, "https://api.mindat.org/v1/countries/");
    let with: Request<Country> = c.get("/countries/").unwrap();
    let without: Request<Country> = c.get("countries/").unwrap();
    assert_eq!(with.url, without.url);
    let double: Request<Country> = c.get("//countries/").unwrap();
    assert_eq!(double.url, "https://api.mindat.org/countries/");
    let c = client("http://127.0.0.1:8080", None);
    assert_eq!(c.countries().unwrap().url, "http://127.0.0.1:8080/countries/");
    assert_eq!(c.country(7).unwrap().url, "http://127.0.0.1:8080/countries/7/");
}

#[test]
fn a_path_that_cannot_be_resolved_is_refused() {
    let c = client("mailto:someone@example.com", None);
    let r: Result<Request<Country>, MindatError> = c.get("/countries/");
    assert!(matches!(r, Err(MindatError::Url(_))));
    let c = client("mailto:someone@example.com", Some("a\nb"));
    let r: Result<Request<Country>, MindatError> = c.get("/countries/");
    assert!(matches!(r, Err(MindatError::Url(_))));
}

#[test]
fn unset_filters_are_not_sent() {
    let query = GeomaterialsQuery::new().name("quartz").ima_approved(true);
    assert_eq!(query.to_params(), vec![pair("name", "quartz"), pair("ima", "true")]);
    assert_eq!(GeomaterialsQuery::new().to_params(), vec![]);
    assert_eq!(LocalitiesQuery::new().to_params(), vec![]);
    assert_eq!(ImaMineralsQuery::new().to_params(), vec![]);
    let c = client("http://localhost:1234/", Some("test-token"));
    let request = c.geomaterials(query).unwrap();
    assert_eq!(request.url, "http://localhost:1234/geomaterials/?name=quartz&ima=true");
    let request = c.geomaterials(GeomaterialsQuery::new()).unwrap();
    assert_eq!(request.url, "http://localhost:1234/geomaterials/");
}

#[test]
fn every_filter_of_a_geomaterials_query_is_sent_under_its_name() {
    let mut query = GeomaterialsQuery::new()
        .name("qu*")
        .search("silica")
        .ima_approved(false)
        .entry_types(vec![0, 2])
        .with_elements("Si,O")
        .without_elements("Fe")
        .crystal_systems(vec![mindat_rs::CrystalSystem::Trigonal])
        .hardness_range(Decimal::parse("6.0").unwrap(), Decimal::parse("7.5").unwrap())
        .density_range(Decimal::parse("2.6").unwrap(), Decimal::parse("2.7").unwrap())
        .select_fields("id,name")
        .omit_fields("description_short")
        .expand_fields(vec!["locality".to_string()])
        .order_by(GeomaterialsOrdering::NameDesc)
        .page(2)
        .page_size(50);
    query.colour = Some("white".to_string());
    query.streak = Some("white".to_string());
    query.ri_min = Decimal::parse("1.54");
    query.ri_max = Decimal::parse("1.55");
    query.bi_min = Some("0.009".to_string());
    query.bi_max = Some("0.01".to_string());
    query.optical2v_min = Some("0".to_string());
    query.optical2v_max = Some("10".to_string());
    query.varietyof = Some(-1);
    query.synid = Some(0);
    query.polytypeof = Some(3);
    query.groupid = Some(4);
    query.id_in = Some(vec![1, 2]);
    query.non_utf = Some(true);
    query.meteoritical_code = Some("H5".to_string());
    query.meteoritical_code_exists = Some(false);
    query.updated_at = Some("2024-01-01".to_string());
    assert_eq!(
        query.to_params(),
        vec![
            pair("name", "qu*"),
            pair("q", "silica"),
            pair("ima", "false"),
            pair("elements_inc", "Si,O"),
            pair("elements_exc", "Fe"),
            pair("colour", "white"),
            pair("streak", "white"),
            pair("hardness_min", "6.0"),
            pair("hardness_max", "7.5"),
            pair("density_min", "2.6"),
            pair("density_max", "2.7"),
            pair("ri_min", "1.54"),
            pair("ri_max", "1.55"),
            pair("bi_min", "0.009"),
            pair("bi_max", "0.01"),
            pair("optical2v_min", "0"),
            pair("optical2v_max", "10"),
            pair("varietyof", "-1"),
            pair("synid", "0"),
            pair("polytypeof", "3"),
            pair("groupid", "4"),
            pair("non_utf", "true"),
            pair("meteoritical_code", "H5"),
            pair("meteoritical_code_exists", "false"),
            pair("updated_at", "2024-01-01"),
            pair("fields", "id,name"),
            pair("omit", "description_short"),
            pair("ordering", "-name"),
            pair("page", "2"),
            pair("page_size", "50"),
        ]
    );
    assert_eq!(query.entrytype, Some(vec![0, 2]));
    assert_eq!(query.expand, Some(vec!["locality".to_string()]));
    assert_eq!(query.crystal_system, Some(vec![mindat_rs::CrystalSystem::Trigonal]));
    assert_eq!(query.density_min.unwrap().as_str(), "2.6");
    assert_eq!(query.density_max.unwrap().as_str(), "2.7");
}

#[test]
fn the_other_queries_send_their_filters_too() {
    let mut query = LocalitiesQuery::new()
        .country("Brazil")
        .name_contains("Minas")
        .description_contains("gold")
        .with_elements("Au")
        .without_elements("Pb")
        .select_fields("id,txt")
        .omit_fields("refs")
        .expand_fields(vec!["geomaterials".to_string()])
        .cursor("abc123");
    query.updated_at = Some("2024".to_string());
    query.page_size = Some(10);
    query.page = Some(3);
    assert_eq!(
        query.to_params(),
        vec![
            pair("country", "Brazil"),
            pair("txt", "Minas"),
            pair("description", "gold"),
            pair("elements_inc", "Au"),
            pair("elements_exc", "Pb"),
            pair("updated_at", "2024"),
            pair("fields", "id,txt"),
            pair("omit", "refs"),
            pair("cursor", "abc123"),
            pair("page_size", "10"),
            pair("page", "3"),
        ]
    );
    let mut query = ImaMineralsQuery::new()
        .search("abel")
        .select_fields("id")
        .omit_fields("ima_notes")
        .expand_fields(vec![])
        .page(1)
        .page_size(100);
    query.ima = Some(1);
    query.updated_at = Some("2024".to_string());
    assert_eq!(
        query.to_params(),
        vec![
            pair("q", "abel"),
            pair("ima", "1"),
            pair("updated_at", "2024"),
            pair("fields", "id"),
            pair("omit", "ima_notes"),
            pair("page", "1"),
            pair("page_size", "100"),
        ]
    );
}

#[test]
fn parameters_are_written_in_form_encoding() {
    let c = client("http://localhost:1234/", None);
    let request = c.geomaterials(GeomaterialsQuery::new().with_elements("Cu,S")).unwrap();
    assert_eq!(request.url, "http://localhost:1234/geomaterials/?elements_inc=Cu%2CS");
    assert_eq!(query_param(&request.url, "elements_inc"), Some("Cu,S".to_string()));
    let request = c.localities(LocalitiesQuery::new().country("Côte d'Ivoire & co")).unwrap();
    assert_eq!(
        request.url,
        "http://localhost:1234/localities/?country=C%C3%B4te+d%27Ivoire+%26+co"
    );
    assert_eq!(query_param(&request.url, "country"), Some("Côte d'Ivoire & co".to_string()));
    let request = c.geomaterials(GeomaterialsQuery::new().page(1).page_size(10)).unwrap();
    assert_eq!(request.url, "http://localhost:1234/geomaterials/?page=1&page_size=10");
}

#[test]
fn every_endpoint_has_its_path() {
    let c = client("http://h/", None);
    assert_eq!(c.countries().unwrap().url, "http://h/countries/");
    assert_eq!(c.countries_page(3).unwrap().url, "http://h/countries/?page=3");
    assert_eq!(c.country(12).unwrap().url, "http://h/countries/12/");
    assert_eq!(c.geomaterial(3337).unwrap().url, "http://h/geomaterials/3337/");
    assert_eq!(c.geomaterial_varieties(3337).unwrap().url, "http://h/geomaterials/3337/varieties/");
    assert_eq!(
        c.geomaterials_search("quartz", Some(5)).unwrap().url,
        "http://h/geomaterials-search/?q=quartz&size=5"
    );
    assert_eq!(c.geomaterials_search("", None).unwrap().url, "http://h/geomaterials-search/?q=");
    assert_eq!(c.localities(LocalitiesQuery::new()).unwrap().url, "http://h/localities/");
    assert_eq!(c.locality(-4).unwrap().url, "http://h/localities/-4/");
    assert_eq!(c.locality_ages(None).unwrap().url, "http://h/locality-age/");
    assert_eq!(c.locality_ages(Some(2)).unwrap().url, "http://h/locality-age/?page=2");
    assert_eq!(c.locality_age(1).unwrap().url, "http://h/locality-age/1/");
    assert_eq!(c.locality_statuses(Some(2)).unwrap().url, "http://h/locality-status/?page=2");
    assert_eq!(c.locality_status(1).unwrap().url, "http://h/locality-status/1/");
    assert_eq!(c.locality_types(None).unwrap().url, "http://h/locality-type/");
    assert_eq!(c.locality_type(1).unwrap().url, "http://h/locality-type/1/");
    assert_eq!(c.geo_regions(Some(9)).unwrap().url, "http://h/locgeoregion2/?page=9");
    assert_eq!(c.minerals_ima(ImaMineralsQuery::new()).unwrap().url, "http://h/minerals-ima/");
    assert_eq!(c.mineral_ima(1).unwrap().url, "http://h/minerals-ima/1/");
    assert_eq!(c.dana8_groups().unwrap().url, "http://h/dana-8/groups/");
    assert_eq!(c.dana8_subgroups().unwrap().url, "http://h/dana-8/subgroups/");
    assert_eq!(c.dana8(1).unwrap().url, "http://h/dana-8/1/");
    assert_eq!(c.strunz10_classes().unwrap().url, "http://h/nickel-strunz-10/classes/");
    assert_eq!(c.strunz10_subclasses().unwrap().url, "http://h/nickel-strunz-10/subclasses/");
    assert_eq!(c.strunz10_families().unwrap().url, "http://h/nickel-strunz-10/families/");
    assert_eq!(c.strunz10(1).unwrap().url, "http://h/nickel-strunz-10/1/");
    assert_eq!(c.photocount().unwrap().url, "http://h/photo-count/");
    assert_eq!(make_id_path("/a/", i32::MIN, "/b"), "/a/-2147483648/b");
}

#[test]
fn a_status_outside_success_stands_for_an_error() {
    let r: Result<PaginatedResponse<Country>, MindatError> =
        handle_response(401, "Authentication credentials were not provided.".to_string());
    assert!(matches!(r, Err(MindatError::AuthenticationRequired)));
    let r: Result<Country, MindatError> = handle_response(404, "Not found".to_string());
    assert!(matches!(r, Err(MindatError::NotFound(ref detail)) if detail == "Not found"));
    let r: Result<Country, MindatError> = handle_response(429, "Rate limit exceeded".to_string());
    assert!(matches!(r, Err(MindatError::RateLimited)));
    let r: Result<Country, MindatError> = handle_response(500, "boom".to_string());
    assert!(matches!(r, Err(MindatError::Api { status: 500, ref message }) if message == "boom"));
    let r: Result<Country, MindatError> = handle_response(302, "{\"id\":1}".to_string());
    assert!(matches!(r, Err(MindatError::Api { status: 302, .. })));
    let r: Result<Country, MindatError> = handle_response(199, String::new());
    assert!(matches!(r, Err(MindatError::Api { status: 199, ref message }) if message.is_empty()));
    let r: Result<Country, MindatError> = handle_response(300, String::new());
    assert!(matches!(r, Err(MindatError::Api { status: 300, .. })));
    assert!(matches!(error_for_status(404, "x".to_string()), MindatError::NotFound(_)));
}

#[test]
fn a_body_that_cannot_be_read_is_a_decode_failure() {
    for status in [200, 201, 204, 299] {
        let r: Result<Country, MindatError> = handle_response(status, "<html>".to_string());
        assert!(matches!(r, Err(MindatError::Deserialization(_))));
        let r: Result<Country, MindatError> = handle_response(status, String::new());
        assert!(matches!(r, Err(MindatError::Deserialization(_))));
        let r: Result<Country, MindatError> = handle_response(status, "{\"id\":1} x".to_string());
        assert!(matches!(r, Err(MindatError::Deserialization(_))));
    }
    let doc: serde_json::Value = serde_json::from_str("{\"id\":1}").unwrap();
    let r: Result<Country, MindatError> = read_document(&doc);
    assert!(matches!(r, Err(MindatError::Deserialization(_))));
}

#[test]
fn a_request_reads_its_own_response() {
    let c = client("http://h/", None);
    let request = c.country(1).unwrap();
    let country = request
        .handle_response(
            200,
            "{\"id\":1,\"text\":\"Brazil\",\"continent\":\"SA\",\"iso\":\"BR\",\"latdir\":\"S\",\"longdir\":\"W\"}"
                .to_string(),
        )
        .unwrap();
    assert_eq!(country.text, "Brazil");
    assert!(matches!(request.handle_response(429, String::new()), Err(MindatError::RateLimited)));
}

#[test]
fn every_error_has_its_message() {
    let e = MindatError::Api { status: 500, message: "boom".to_string() };
    assert_eq!(e.to_string(), "API error (status 500): boom");
    assert_eq!(
        MindatError::AuthenticationRequired.to_string(),
        "Authentication required: please provide a valid API token"
    );
    assert_eq!(
        MindatError::RateLimited.to_string(),
        "Rate limit exceeded, please wait before making more requests"
    );
    assert_eq!(MindatError::NotFound("x".to_string()).to_string(), "Resource not found: x");
    assert_eq!(MindatError::InvalidParameter("x".to_string()).to_string(), "Invalid parameter: x");
    let url_error = MindatClient::builder().base_url("nope").build().unwrap_err();
    assert_eq!(url_error.to_string(), "Invalid URL: relative URL without a base");
    let r: Result<Country, MindatError> = handle_response(200, "".to_string());
    let text = r.unwrap_err().to_string();
    assert!(text.starts_with("Failed to parse response: "));
    assert!(text.len() > "Failed to parse response: ".len());
}

#[test]
fn a_parameter_is_found_by_its_name() {
    let pairs = vec![pair("a", "1"), pair("cursor", "x"), pair("cursor", "y"), pair("", "z")];
    assert_eq!(find_param(&pairs, "cursor"), Some("x".to_string()));
    assert_eq!(find_param(&pairs, "a"), Some("1".to_string()));
    assert_eq!(find_param(&pairs, ""), Some("z".to_string()));
    assert_eq!(find_param(&pairs, "b"), None);
    assert_eq!(find_param(&vec![], "a"), None);
    assert_eq!(query_param("https://host/path/?cursor=abc123&page_size=10", "cursor"), Some("abc123".to_string()));
    assert_eq!(query_param("https://host/path/?cursor=abc123&page_size=10", "page_size"), Some("10".to_string()));
    assert_eq!(query_param("https://host/path/?cursor=abc123&page_size=10", "page"), None);
    assert_eq!(query_param("https://host/path/?cursor=a%20b+c", "cursor"), Some("a b c".to_string()));
    assert_eq!(query_param("https://host/path/", "cursor"), None);
    assert_eq!(query_param("/path/?cursor=abc", "cursor"), None);
    assert_eq!(query_param("", "cursor"), None);
}

#[test]
fn the_room_of_parameters_is_counted_in_bytes() {
    let pairs = vec![pair("a", "bc"), pair("é", "")];
    // 1 + 2 + 2 for the first pair, 2 + 0 + 2 for the second.
    assert!(mindat_rs::params::pairs_fit(&pairs, 9));
    assert!(!mindat_rs::params::pairs_fit(&pairs, 8));
    assert!(mindat_rs::params::pairs_fit(&pairs, 0x1000_0000));
    assert!(mindat_rs::params::pairs_fit(&vec![], 0));
    assert!(!mindat_rs::params::pairs_fit(&vec![pair("", "")], 1));
    assert!(mindat_rs::params::pairs_fit(&vec![pair("", "")], 2));
}
