use ft_rs::{ErrorType, FtClient, FtError};

#[test]
fn error_strings_map_to_kinds() {
    assert_eq!(ErrorType::parse("invalid_client"), ErrorType::InvalidClient);
    assert_eq!(ErrorType::parse("invalid_grant"), ErrorType::InvalidGrant);
    assert_eq!(ErrorType::parse("invalid_request"), ErrorType::InvalidRequest);
    assert_eq!(ErrorType::parse("invalid_scope"), ErrorType::InvalidScope);
    assert_eq!(ErrorType::parse("unauthorized_client"), ErrorType::UnauthorizedClient);
    assert_eq!(ErrorType::parse("unsupported_grant_type"), ErrorType::UnsupportedGrantType);
    assert_eq!(ErrorType::parse("unknown"), ErrorType::Unknown);
    assert_eq!(ErrorType::parse("Invalid_Grant"), ErrorType::Unknown);
    assert_eq!(ErrorType::parse(""), ErrorType::Unknown);
    let parsed: ErrorType = "invalid_scope".parse().unwrap();
    assert_eq!(parsed, ErrorType::InvalidScope);
}

#[test]
fn from_api_error_keeps_its_fields() {
    let e = FtError::from_api_error(ErrorType::InvalidScope, 403, "nope".to_string());
    match e {
        FtError::ApiError { error, error_status, error_description } => {
            assert_eq!(error, ErrorType::InvalidScope);
            assert_eq!(error_status, 403);
            assert_eq!(error_description, "nope");
        }
        other => panic!("unexpected {:?}", other),
    }
}

#[test]
fn error_fields_fall_back_to_defaults() {
    match FtError::from_error_fields(401, None, None, None) {
        FtError::ApiError { error, error_status, error_description } => {
            assert_eq!(error, ErrorType::Unknown);
            assert_eq!(error_status, 401);
            assert_eq!(error_description, "No description provided.");
        }
        other => panic!("unexpected {:?}", other),
    }
    match FtError::from_error_fields(401, Some("invalid_client"), Some("bad"), Some(418)) {
        FtError::ApiError { error, error_status, error_description } => {
            assert_eq!(error, ErrorType::InvalidClient);
            assert_eq!(error_status, 418);
            assert_eq!(error_description, "bad");
        }
        other => panic!("unexpected {:?}", other),
    }
}

#[test]
fn invalid_grant_body_gives_api_error() {
    let body = r#"{"error":"invalid_grant","error_description":"code expired"}"#;
    match FtClient::handle_error(400, body) {
        FtError::ApiError { error, error_status, error_description } => {
            assert_eq!(error, ErrorType::InvalidGrant);
            assert_eq!(error_status, 400);
            assert_eq!(error_description, "code expired");
        }
        other => panic!("unexpected {:?}", other),
    }
}

#[test]
fn unrecognised_error_string_is_unknown() {
    let body = r#"{"error":"rate_limited","error_description":"slow down"}"#;
    match FtClient::handle_error(429, body) {
        FtError::ApiError { error, error_status, error_description } => {
            assert_eq!(error, ErrorType::Unknown);
            assert_eq!(error_status, 429);
            assert_eq!(error_description, "slow down");
        }
        other => panic!("unexpected {:?}", other),
    }
}

#[test]
fn error_body_status_and_defaults() {
    match FtClient::handle_error(500, r#"{"status":404,"extra":[1,2]}"#) {
        FtError::ApiError { error, error_status, error_description } => {
            assert_eq!(error, ErrorType::Unknown);
            assert_eq!(error_status, 404);
            assert_eq!(error_description, "No description provided.");
        }
        other => panic!("unexpected {:?}", other),
    }
    match FtClient::handle_error(400, r#"{"error":42,"error_description":null}"#) {
        FtError::ApiError { error, error_status, error_description } => {
            assert_eq!(error, ErrorType::Unknown);
            assert_eq!(error_status, 400);
            assert_eq!(error_description, "No description provided.");
        }
        other => panic!("unexpected {:?}", other),
    }
}

#[test]
fn error_body_that_is_not_json_is_a_decode_error() {
    assert!(matches!(FtClient::handle_error(502, "<html>Bad gateway</html>"), FtError::SerdeError { .. }));
}

#[test]
fn from_str_maps_exactly() {
    let unknown: ErrorType = "temporarily_unavailable".parse().unwrap();
    assert_eq!(unknown, ErrorType::Unknown);
    let wrong_case: ErrorType = "Invalid_Grant".parse().unwrap();
    assert_eq!(wrong_case, ErrorType::Unknown);
    let padded: ErrorType = " invalid_grant".parse().unwrap();
    assert_eq!(padded, ErrorType::Unknown);
    let escaped: ErrorType = "invalid\\u005fgrant".parse().unwrap();
    assert_eq!(escaped, ErrorType::Unknown);
    let grant: ErrorType = "invalid_grant".parse().unwrap();
    assert_eq!(grant, ErrorType::InvalidGrant);
    let unsupported: ErrorType = "unsupported_grant_type".parse().unwrap();
    assert_eq!(unsupported, ErrorType::UnsupportedGrantType);
}
