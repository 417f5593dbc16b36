use long_duration_jwt::headers::{
    request_headers, UnusableToken, HEADER_NAMES_WITH_ROOM, JSON_MEDIA_TYPE,
};
use long_duration_jwt::request::ExchangeRequest;
use long_duration_jwt::wire::JwtRequest;
use reqwest::header::{HeaderMap, ACCEPT, AUTHORIZATION, CONTENT_TYPE};

fn values(map: &HeaderMap, name: &str) -> Vec<Vec<u8>> {
    map.get_all(name).iter().map(|value| value.as_bytes().to_vec()).collect()
}

#[test]
fn headers_hold_the_three_and_only_them() {
    let map = request_headers("test_access_token").unwrap();
    assert_eq!(map.len(), 3);
    assert_eq!(map.keys_len(), 3);
    assert_eq!(values(&map, "authorization"), vec![b"Bearer test_access_token".to_vec()]);
    assert_eq!(values(&map, "content-type"), vec![b"application/json".to_vec()]);
    assert_eq!(values(&map, "accept"), vec![b"application/json".to_vec()]);
}

#[test]
fn headers_are_found_under_the_standard_names() {
    let map = request_headers("abc.def.ghi").unwrap();
    assert_eq!(map.get(AUTHORIZATION).unwrap(), "Bearer abc.def.ghi");
    assert_eq!(map.get(CONTENT_TYPE).unwrap(), "application/json");
    assert_eq!(map.get(ACCEPT).unwrap(), "application/json");
}

#[test]
fn media_type_is_json() {
    assert_eq!(JSON_MEDIA_TYPE, "application/json");
    assert_eq!(HEADER_NAMES_WITH_ROOM, 4096);
}

#[test]
fn empty_token_gives_the_bare_scheme() {
    let map = request_headers("").unwrap();
    assert_eq!(values(&map, "authorization"), vec![b"Bearer ".to_vec()]);
}

#[test]
fn token_with_tab_or_space_is_usable() {
    let map = request_headers("a\tb c").unwrap();
    assert_eq!(values(&map, "authorization"), vec![b"Bearer a\tb c".to_vec()]);
}

#[test]
fn token_beyond_ascii_is_usable() {
    let map = request_headers("t\u{f6}k\u{20ac}n").unwrap();
    assert_eq!(
        values(&map, "authorization"),
        vec!["Bearer t\u{f6}k\u{20ac}n".as_bytes().to_vec()]
    );
}

#[test]
fn token_with_a_line_break_is_unusable() {
    assert_eq!(request_headers("a\nb").err(), Some(UnusableToken));
    assert_eq!(request_headers("a\rb").err(), Some(UnusableToken));
}

#[test]
fn token_with_a_control_character_is_unusable() {
    assert!(request_headers("\u{0}").is_err());
    assert!(request_headers("x\u{1f}").is_err());
    assert!(request_headers("x\u{7f}y").is_err());
}

#[test]
fn token_at_the_edges_of_the_allowed_range_is_usable() {
    assert!(request_headers(" ").is_ok());
    assert!(request_headers("~").is_ok());
    assert!(request_headers("\u{80}").is_ok());
}

#[test]
fn request_builds_its_headers_from_its_access_token() {
    let request = ExchangeRequest {
        url: "http://host/v1/create-new-jwt".to_string(),
        access_token: "at1".to_string(),
        body: JwtRequest { refresh_token: "rt1".to_string(), unit: "HOURS".to_string(), value: 1 },
    };
    let map = request.headers().unwrap();
    assert_eq!(values(&map, "authorization"), vec![b"Bearer at1".to_vec()]);
    assert_eq!(map.len(), 3);
}

#[test]
fn request_with_an_unusable_token_has_no_headers() {
    let request = ExchangeRequest {
        url: "u".to_string(),
        access_token: "bad\ntoken".to_string(),
        body: JwtRequest { refresh_token: "r".to_string(), unit: "DAYS".to_string(), value: 2 },
    };
    assert_eq!(request.headers().err(), Some(UnusableToken));
}
