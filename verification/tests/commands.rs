use mindat_rs::commands::{
    client_for_token, search_by_elements, search_ima_minerals, search_localities,
    search_localities_by_elements, search_localities_by_gps, search_minerals, with_coordinates,
};
use mindat_rs::{AppState, CommandError, Locality, MindatError};

fn locality(id: i32, latitude: Option<&str>, longitude: Option<&str>) -> Locality {
    let number = |n: Option<&str>| match n {
        Some(n) => format!("{}", n),
        None => "null".to_string(),
    };
    let text = format!(
        "{{\"id\":{},\"latitude\":{},\"longitude\":{}}}",
        id,
        number(latitude),
        number(longitude)
    );
    mindat_rs::handle_response(200, text).unwrap()
}

#[test]
fn a_front_end_starts_without_a_client() {
    let mut state = AppState::new();
    assert!(!state.is_configured());
    assert!(!AppState::default().is_configured());
    let e = state.get_client().unwrap_err();
    assert_eq!(e.message, "Client not configured. Set an API token first.");
    assert_eq!(state.set_api_token("secret").unwrap(), "API token set successfully");
    assert!(state.is_configured());
    let headers = state.get_client().unwrap().headers().unwrap();
    assert_eq!(headers[2].1, "Token secret");
    assert_eq!(state.set_api_token("").unwrap(), "API token set successfully");
    assert_eq!(state.get_client().unwrap().headers().unwrap().len(), 2);
    assert_eq!(state.clear_client(), "Client cleared");
    assert!(!state.is_configured());
}

#[test]
fn an_empty_token_asks_for_no_authentication() {
    let c = client_for_token("").unwrap();
    assert_eq!(c.headers().unwrap().len(), 2);
    assert_eq!(c.base_url().as_str(), "https://api.mindat.org/v1/");
    let c = client_for_token("t").unwrap();
    assert_eq!(c.headers().unwrap().len(), 3);
}

#[test]
fn an_error_is_shown_by_its_message() {
    let e = CommandError::from_error(&MindatError::RateLimited);
    assert_eq!(e.message, "Rate limit exceeded, please wait before making more requests");
    let e = CommandError::from_error(&MindatError::Api { status: 503, message: "down".to_string() });
    assert_eq!(e.message, "API error (status 503): down");
    assert_eq!(CommandError::new("x").message, "x");
}

#[test]
fn arguments_that_are_not_given_leave_their_filter_unset() {
    let q = search_minerals("quartz", None, None);
    assert_eq!(q.to_params(), vec![("name".to_string(), "quartz".to_string())]);
    let q = search_minerals("", Some(2), Some(25));
    assert_eq!(q.name, Some(String::new()));
    assert_eq!((q.page, q.page_size), (Some(2), Some(25)));

    let q = search_ima_minerals("", None, Some(5));
    assert_eq!(q.q, None);
    assert_eq!((q.page, q.page_size), (None, Some(5)));
    let q = search_ima_minerals("abel", Some(1), None);
    assert_eq!(q.q, Some("abel".to_string()));
    assert_eq!((q.page, q.page_size), (Some(1), None));

    let q = search_localities(&Some("Brazil".to_string()), &None);
    assert_eq!((q.country, q.txt), (Some("Brazil".to_string()), None));
    let q = search_localities(&Some(String::new()), &Some("mine".to_string()));
    assert_eq!((q.country, q.txt), (Some(String::new()), Some("mine".to_string())));

    let q = search_by_elements("Cu,S", &Some("Fe".to_string()), Some(3));
    assert_eq!(q.elements_inc, Some("Cu,S".to_string()));
    assert_eq!(q.elements_exc, Some("Fe".to_string()));
    assert_eq!(q.page, Some(3));
    let q = search_by_elements("Cu", &None, None);
    assert_eq!((q.elements_exc, q.page), (None, None));

    let q = search_localities_by_elements("Au", &Some("Pb".to_string()));
    assert_eq!(q.elements_inc, Some("Au".to_string()));
    assert_eq!(q.elements_exc, Some("Pb".to_string()));
    let q = search_localities_by_elements("Au", &None);
    assert_eq!(q.elements_exc, None);
}

#[test]
fn a_search_around_a_point_needs_a_filter() {
    let e = search_localities_by_gps(&None, &None).unwrap_err();
    assert_eq!(e.message, "Please specify a country or name filter to narrow down the search");
    let q = search_localities_by_gps(&Some("Brazil".to_string()), &None).unwrap();
    assert_eq!((q.country, q.txt), (Some("Brazil".to_string()), None));
    let q = search_localities_by_gps(&None, &Some("mine".to_string())).unwrap();
    assert_eq!((q.country, q.txt), (None, Some("mine".to_string())));
    let q = search_localities_by_gps(&Some(String::new()), &Some(String::new())).unwrap();
    assert_eq!(q.to_params(), vec![]);
    assert_eq!((q.country, q.txt), (None, None));
}

#[test]
fn localities_without_coordinates_are_dropped() {
    let all = vec![
        locality(1, Some("1.5"), Some("2.5")),
        locality(2, None, Some("2.5")),
        locality(3, Some("1.5"), None),
        locality(4, None, None),
        locality(5, Some("-3"), Some("4")),
    ];
    let kept: Vec<i32> = with_coordinates(all).iter().map(|l| l.id).collect();
    assert_eq!(kept, vec![1, 5]);
    assert_eq!(with_coordinates(vec![]).len(), 0);
}
