use domo::json::JsonValue;
use domo::public::{Client, DomoError, PubAPIError};

#[test]
fn client_new_holds_configuration() {
    let c = Client::new("https://api.example.com", "id", "secret");
    assert_eq!(c.host, "https://api.example.com");
    assert_eq!(c.client_id, "id");
    assert_eq!(c.client_secret, "secret");
}

#[test]
fn basic_auth_encodes_credentials() {
    // base64 of "id:secret"; the header would differ if the encoder handed
    // its input back unchanged.
    let c = Client::new("https://api.example.com", "id", "secret");
    assert_eq!(c.basic_auth(), "Basic aWQ6c2VjcmV0");
}

#[test]
fn token_request_shape() {
    let c = Client::new("https://api.example.com", "id", "secret");
    let r = c.token_request("data");
    assert_eq!(r.url, "https://api.example.com/oauth/token");
    assert_eq!(
        r.query,
        vec![
            ("grant_type".to_string(), "client_credentials".to_string()),
            ("scope".to_string(), "data".to_string()),
        ]
    );
    assert_eq!(r.authorization, "Basic aWQ6c2VjcmV0");
}

#[test]
fn token_response_success() {
    let c = Client::new("h", "i", "s");
    let tok = c
        .parse_token_response(200, "{\"access_token\":\"abc123\",\"expires_in\":3599}")
        .unwrap();
    assert_eq!(tok, "Bearer abc123");
}

#[test]
fn token_response_missing_token_is_malformed() {
    let c = Client::new("h", "i", "s");
    match c.parse_token_response(200, "{\"expires_in\":3599}") {
        Err(DomoError::Malformed { status }) => assert_eq!(status, 200),
        other => panic!("unexpected: {:?}", other),
    }
}

#[test]
fn error_mapping_forbidden() {
    // A 403 with a structured body yields the structured error exposing
    // status 403 and the message, and no result value.
    let c = Client::new("h", "i", "s");
    let r = c.parse_token_response(403, "{\"status\":403,\"message\":\"Forbidden\"}");
    match r {
        Err(DomoError::Api(e)) => {
            assert_eq!(e.status, 403);
            assert_eq!(e.message, "Forbidden");
            assert_eq!(e.status_reason, None);
            assert_eq!(e.toe, None);
        }
        other => panic!("unexpected: {:?}", other),
    }
}

#[test]
fn error_mapping_undecodable_body_wraps_status() {
    match domo::public::error_from_response(502, "<html>bad gateway</html>") {
        DomoError::Malformed { status } => assert_eq!(status, 502),
        other => panic!("unexpected: {:?}", other),
    }
}

#[test]
fn check_response_success_parses_body() {
    match domo::public::check_response(200, "{\"a\":1}") {
        Ok(JsonValue::Obj(fields)) => {
            assert_eq!(fields.len(), 1);
            assert_eq!(fields[0].0, "a");
            assert_eq!(fields[0].1, JsonValue::UInt(1));
        }
        other => panic!("unexpected: {:?}", other),
    }
}

#[test]
fn check_response_malformed_success_body() {
    match domo::public::check_response(200, "not json") {
        Err(DomoError::Malformed { status }) => assert_eq!(status, 200),
        other => panic!("unexpected: {:?}", other),
    }
}

#[test]
fn unit_response_maps_status() {
    assert!(domo::public::unit_response(204, "").is_ok());
    match domo::public::unit_response(404, "{\"status\":404,\"message\":\"gone\"}") {
        Err(DomoError::Api(e)) => assert_eq!(e.status, 404),
        other => panic!("unexpected: {:?}", other),
    }
}

#[test]
fn text_response_passes_body_through() {
    assert_eq!(domo::public::text_response(200, "a,b\n1,2\n").unwrap(), "a,b\n1,2\n");
    assert!(domo::public::text_response(500, "{}").is_err());
}

#[test]
fn pubapierror_json_roundtrip() {
    let e = PubAPIError {
        status: 418,
        status_reason: Some("teapot".to_string()),
        message: "short and stout".to_string(),
        path: None,
        toe: Some("TOE".to_string()),
    };
    let back = PubAPIError::from_json(&e.to_json()).unwrap();
    assert_eq!(back, e);
}
