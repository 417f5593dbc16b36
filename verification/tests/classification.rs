use long_duration_jwt::error::ExchangeError;
use long_duration_jwt::response::{classify, expected_schema, is_success, ParsedBody, Schema};
use long_duration_jwt::wire::{ErrorResponse, JwtResponse};

fn success_body() -> JwtResponse {
    JwtResponse {
        person_id: "12345".to_string(),
        access_token: "access_token".to_string(),
        refresh_token: "refresh_token".to_string(),
    }
}

fn error_body() -> ErrorResponse {
    ErrorResponse {
        error_type: "type".to_string(),
        class: "class".to_string(),
        error_code: 123,
        error_id: "error_id".to_string(),
        timestamp_millis: 1234567890,
    }
}

#[test]
fn success_range_is_200_to_299() {
    assert!(!is_success(0));
    assert!(!is_success(100));
    assert!(!is_success(199));
    assert!(is_success(200));
    assert!(is_success(204));
    assert!(is_success(299));
    assert!(!is_success(300));
    assert!(!is_success(404));
    assert!(!is_success(500));
    assert!(!is_success(u16::MAX));
}

#[test]
fn schema_follows_the_status() {
    assert_eq!(expected_schema(200), Schema::Success);
    assert_eq!(expected_schema(299), Schema::Success);
    assert_eq!(expected_schema(199), Schema::Error);
    assert_eq!(expected_schema(300), Schema::Error);
    assert_eq!(expected_schema(401), Schema::Error);
    assert_eq!(expected_schema(503), Schema::Error);
}

#[test]
fn success_status_with_success_body_is_accepted() {
    assert_eq!(classify(200, ParsedBody::Success(success_body())), Ok(success_body()));
    assert_eq!(classify(201, ParsedBody::Success(success_body())), Ok(success_body()));
}

#[test]
fn success_status_with_other_body_is_malformed() {
    assert_eq!(
        classify(200, ParsedBody::Error(error_body())),
        Err(ExchangeError::MalformedResponse)
    );
    assert_eq!(classify(200, ParsedBody::Malformed), Err(ExchangeError::MalformedResponse));
}

#[test]
fn error_status_with_error_body_is_a_server_error() {
    assert_eq!(
        classify(400, ParsedBody::Error(error_body())),
        Err(ExchangeError::ServerError { response: error_body() })
    );
    assert_eq!(
        classify(500, ParsedBody::Error(error_body())),
        Err(ExchangeError::ServerError { response: error_body() })
    );
    assert_eq!(
        classify(302, ParsedBody::Error(error_body())),
        Err(ExchangeError::ServerError { response: error_body() })
    );
}

#[test]
fn error_status_with_other_body_is_malformed() {
    assert_eq!(
        classify(400, ParsedBody::Success(success_body())),
        Err(ExchangeError::MalformedResponse)
    );
    assert_eq!(classify(500, ParsedBody::Malformed), Err(ExchangeError::MalformedResponse));
}

#[test]
fn server_error_keeps_every_field() {
    let response = ErrorResponse {
        error_type: "AuthError".to_string(),
        class: "com.example.Denied".to_string(),
        error_code: i32::MIN,
        error_id: "e-77".to_string(),
        timestamp_millis: i64::MAX,
    };
    match classify(403, ParsedBody::Error(response)) {
        Err(ExchangeError::ServerError { response }) => {
            assert_eq!(response.error_type, "AuthError");
            assert_eq!(response.class, "com.example.Denied");
            assert_eq!(response.error_code, i32::MIN);
            assert_eq!(response.error_id, "e-77");
            assert_eq!(response.timestamp_millis, i64::MAX);
        }
        other => panic!("unexpected judgement: {:?}", other),
    }
}
