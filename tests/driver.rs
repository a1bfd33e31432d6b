use strm_privacy_driver::auth_service::{AuthBodyStyle, AuthService};
use strm_privacy_driver::demo::{DemoEvent, StrmMeta};
use strm_privacy_driver::error::Error;
use strm_privacy_driver::sender_service::{encode_event, AvroScalar, AvroValue, SenderService};
use strm_privacy_driver::strm_privacy_client::{
    replay, Delivery, DeliveryAction, API_URL, AUTH_URL, MAX_RETRIES, UNAUTHORIZED,
};
use strm_privacy_driver::tokens::{AccessToken, RefreshResponse, Token};
use strm_privacy_driver::{StrmPrivacyClient, StrmPrivacyResponse};

fn text(s: &str) -> AvroValue {
    AvroValue::Scalar(AvroScalar::String(s.to_string()))
}

fn pair(access: &str, refresh: &str) -> Token {
    Token::new(access.to_string(), refresh.to_string())
}

fn client() -> StrmPrivacyClient {
    match StrmPrivacyClient::default("id".to_string(), "secret".to_string(), Ok(pair("a1", "r1"))) {
        Ok(c) => c,
        Err(_) => panic!("authentication succeeded"),
    }
}

/// Runs one delivery against an endpoint that answers its sends with `answers` in turn
/// and an identity endpoint that hands out `a2`, `a3`, ... on each refresh.
/// Returns the number of sends, the number of refreshes and the outcome.
fn run_delivery(c: &mut StrmPrivacyClient, answers: &[u16]) -> (usize, Vec<String>, StrmPrivacyResponse) {
    let mut delivery = Delivery::new();
    let mut bearers = Vec::new();
    loop {
        let req = c
            .send_request("strmprivacy/demo/1.0.2", "\"string\"", &text("e"))
            .ok()
            .unwrap();
        bearers.push(req.authorization);
        let status = answers[delivery.attempts];
        match delivery.on_response(status, format!("answer {}", delivery.attempts)) {
            DeliveryAction::Refresh => {
                let next = format!("a{}", bearers.len() + 1);
                let resp = RefreshResponse::AccessOnly(AccessToken { access_token: next });
                assert!(c.refresh(Ok(resp)).is_ok());
            }
            DeliveryAction::Finish(outcome) => return (delivery.attempts, bearers, outcome),
        }
    }
}

#[test]
fn test_authenticate() {
    let mut auth_service = AuthService::new("id".to_string(), "secret".to_string(), AUTH_URL);
    assert!(auth_service.token.is_none());
    assert!(auth_service.authenticate(Ok(pair("a1", "r1"))).is_ok());
    let token = auth_service.token.as_ref().unwrap();
    assert_eq!(token.access_token, "a1");
    assert_eq!(token.refresh_token, "r1");
}

#[test]
fn test_refresh() {
    let mut auth_service = AuthService::new("id".to_string(), "secret".to_string(), AUTH_URL);
    assert!(auth_service.authenticate(Ok(pair("a1", "r1"))).is_ok());
    let resp = RefreshResponse::AccessOnly(AccessToken { access_token: "a2".to_string() });
    assert!(auth_service.refresh(Ok(resp)).is_ok());
    let token = auth_service.token.as_ref().unwrap();
    assert_eq!(token.access_token, "a2");
    assert_eq!(token.refresh_token, "r1");
}

#[test]
fn always_unauthorized_makes_three_sends_and_two_refreshes() {
    let mut c = client();
    let (sends, bearers, outcome) = run_delivery(&mut c, &[401, 401, 401, 401]);
    assert_eq!(MAX_RETRIES, 3);
    assert_eq!(sends, 3);
    assert_eq!(bearers, vec!["Bearer a1", "Bearer a2", "Bearer a3"]);
    assert_eq!(outcome.0, UNAUTHORIZED);
    assert_eq!(outcome.1, "answer 2");
}

#[test]
fn early_success_stops_retrying() {
    let mut c = client();
    let (sends, bearers, outcome) = run_delivery(&mut c, &[204, 401, 401]);
    assert_eq!(sends, 1);
    assert_eq!(bearers, vec!["Bearer a1"]);
    assert_eq!(outcome.0, 204);
    assert_eq!(outcome.1, "answer 0");
    assert_eq!(c.auth_service.token.as_ref().unwrap().access_token, "a1");
}

#[test]
fn success_after_one_refresh() {
    let mut c = client();
    let (sends, bearers, outcome) = run_delivery(&mut c, &[401, 204, 401]);
    assert_eq!(sends, 2);
    assert_eq!(bearers, vec!["Bearer a1", "Bearer a2"]);
    assert_eq!(outcome.0, 204);
}

#[test]
fn no_refresh_on_terminal_attempt() {
    let mut d = Delivery::new();
    assert!(matches!(d.on_response(401, String::new()), DeliveryAction::Refresh));
    assert!(matches!(d.on_response(401, String::new()), DeliveryAction::Refresh));
    match d.on_response(401, "denied".to_string()) {
        DeliveryAction::Finish((status, body)) => {
            assert_eq!(status, 401);
            assert_eq!(body, "denied");
        }
        DeliveryAction::Refresh => panic!("no refresh after the last send"),
    }
    assert_eq!(d.attempts, 3);
}

#[test]
fn refresh_merges_access_only_answer() {
    let merged = pair("a1", "r1")
        .merge_refresh(RefreshResponse::AccessOnly(AccessToken { access_token: "a2".to_string() }));
    assert_eq!(merged.access_token, "a2");
    assert_eq!(merged.refresh_token, "r1");
}

#[test]
fn refresh_takes_full_answer() {
    let merged = pair("a1", "r1").merge_refresh(RefreshResponse::Full(pair("a2", "r2")));
    assert_eq!(merged.access_token, "a2");
    assert_eq!(merged.refresh_token, "r2");
}

#[test]
fn failed_refresh_keeps_token_pair() {
    let mut c = client();
    let r = c.refresh(Err(Error::Auth("identity endpoint down".to_string())));
    assert!(matches!(r, Err(Error::Auth(m)) if m == "identity endpoint down"));
    let token = c.auth_service.token.as_ref().unwrap();
    assert_eq!(token.access_token, "a1");
    assert_eq!(token.refresh_token, "r1");
}

#[test]
fn bearer_formatting() {
    assert_eq!(pair("xyz", "r").format_bearer(), "Bearer xyz");
}

#[test]
fn construction_fails_when_authentication_fails() {
    let r = StrmPrivacyClient::new(
        "id".to_string(),
        "secret".to_string(),
        AUTH_URL,
        API_URL,
        Err(Error::Auth("status 500".to_string())),
    );
    assert!(matches!(r, Err(Error::Auth(m)) if m == "status 500"));
}

#[test]
fn construction_keeps_endpoints_and_token() {
    let c = StrmPrivacyClient::new(
        "id".to_string(),
        "secret".to_string(),
        "https://auth.example",
        "https://api.example",
        Ok(pair("a1", "r1")),
    )
    .ok()
    .unwrap();
    assert_eq!(c.auth_service.auth_url, "https://auth.example");
    assert_eq!(c.sender_service.api_url, "https://api.example");
    assert_eq!(c.auth_service.client_id, "id");
    assert_eq!(c.auth_service.token.as_ref().unwrap().access_token, "a1");
    let d = client();
    assert_eq!(d.auth_service.auth_url, AUTH_URL);
    assert_eq!(d.sender_service.api_url, API_URL);
}

#[test]
fn form_bodies() {
    let auth_service = AuthService::new("my-id".to_string(), "s3cr3t".to_string(), AUTH_URL);
    assert_eq!(
        auth_service.format_body_authenticate(),
        "grant_type=client_credentials&client_id=my-id&client_secret=s3cr3t"
    );
    assert_eq!(
        auth_service.format_body_refresh(&pair("a", "r9")),
        "grant_type=refresh_token&client_id=my-id&client_secret=s3cr3t&refresh_token=r9"
    );
    assert_eq!(auth_service.authenticate_request_body(), auth_service.format_body_authenticate());
    assert_eq!(auth_service.authenticate_content_type(), "application/x-www-form-urlencoded");
}

#[test]
fn json_body_escapes_credentials() {
    let auth_service = AuthService::new("a\"b\\c".to_string(), "x\ny\u{1}\u{8}\u{c}é".to_string(), AUTH_URL)
        .with_body_style(AuthBodyStyle::Json);
    assert_eq!(
        auth_service.authenticate_request_body(),
        "{\"clientId\":\"a\\\"b\\\\c\",\"clientSecret\":\"x\\ny\\u0001\\b\\fé\"}"
    );
    assert_eq!(auth_service.authenticate_content_type(), "application/json");
}

#[test]
fn encodes_value_under_schema() {
    let bytes = encode_event("\"string\"", &text("ab")).ok().unwrap();
    assert_eq!(bytes, vec![4u8, b'a', b'b']);
}

#[test]
fn value_that_does_not_fit_is_an_encoding_error() {
    assert!(matches!(encode_event("\"string\"", &AvroValue::Scalar(AvroScalar::Int(3))), Err(Error::Encoding(_))));
}

#[test]
fn malformed_schema_is_an_encoding_error() {
    assert!(matches!(encode_event("{not a schema", &AvroValue::Scalar(AvroScalar::Int(3))), Err(Error::Encoding(_))));
}

#[test]
fn request_carries_headers_and_body() {
    let sender = SenderService::new("https://api.example");
    let req = sender
        .build_request(&pair("tok", "r"), "strmprivacy/demo/1.0.2", Ok(vec![1u8, 2, 3]))
        .ok()
        .unwrap();
    assert_eq!(req.url, "https://api.example");
    assert_eq!(req.authorization, "Bearer tok");
    assert_eq!(req.schema_ref, "strmprivacy/demo/1.0.2");
    assert_eq!(req.body, vec![1u8, 2, 3]);
    let err = sender.build_request(&pair("tok", "r"), "s", Err(Error::Encoding("bad".to_string())));
    assert!(matches!(err, Err(Error::Encoding(m)) if m == "bad"));
}

#[test]
fn send_request_encodes_with_current_token() {
    let c = client();
    let req = c.send_request("ref", "\"string\"", &text("ab")).ok().unwrap();
    assert_eq!(req.url, API_URL);
    assert_eq!(req.authorization, "Bearer a1");
    assert_eq!(req.schema_ref, "ref");
    assert_eq!(req.body, vec![4u8, b'a', b'b']);
    assert!(matches!(c.send_request("ref", "\"string\"", &AvroValue::Scalar(AvroScalar::Int(1))), Err(Error::Encoding(_))));
}

#[test]
fn defaults_are_empty() {
    let meta = StrmMeta::default();
    assert_eq!(meta.event_contract_ref, "");
    assert!(meta.nonce.is_none() && meta.timestamp.is_none());
    assert!(meta.key_link.is_none() && meta.billing_id.is_none());
    assert!(meta.consent_levels.is_empty());
    let event = DemoEvent::default();
    assert_eq!(event.consistent_value, "");
    assert!(event.unique_identifier.is_none());
    assert!(event.some_sensitive_value.is_none() && event.not_sensitive_value.is_none());
}

#[test]
fn replay_always_unauthorized() {
    assert_eq!(replay(&vec![401, 401, 401]), (3, 2, 401));
    assert_eq!(replay(&vec![401, 401, 401, 204]), (3, 2, 401));
}

#[test]
fn replay_early_success() {
    assert_eq!(replay(&vec![204, 401, 401]), (1, 0, 204));
    assert_eq!(replay(&vec![500, 401, 401]), (1, 0, 500));
    assert_eq!(replay(&vec![401, 200, 401]), (2, 1, 200));
}

#[test]
fn client_with_json_credentials() {
    let c = StrmPrivacyClient::new_with_body_style(
        "id".to_string(),
        "secret".to_string(),
        AUTH_URL,
        API_URL,
        AuthBodyStyle::Json,
        Ok(pair("a1", "r1")),
    )
    .ok()
    .unwrap();
    assert!(c.auth_service.body_style == AuthBodyStyle::Json);
    assert_eq!(
        c.auth_service.authenticate_request_body(),
        "{\"clientId\":\"id\",\"clientSecret\":\"secret\"}"
    );
    assert!(client().auth_service.body_style == AuthBodyStyle::Form);
}

#[test]
fn encodes_record_with_union_and_array() {
    let schema = r#"{"type":"record","name":"r","fields":[
        {"name":"a","type":["null","int"]},
        {"name":"b","type":{"type":"array","items":"long"}},
        {"name":"c","type":{"type":"map","values":"boolean"}}]}"#;
    let value = AvroValue::Record(vec![
        ("a".to_string(), AvroValue::Union(AvroScalar::Int(1))),
        ("b".to_string(), AvroValue::Array(vec![AvroValue::Scalar(AvroScalar::Long(2))])),
        ("c".to_string(), AvroValue::Mapping(vec![("k".to_string(), AvroValue::Scalar(AvroScalar::Boolean(true)))])),
    ]);
    let bytes = encode_event(schema, &value).ok().unwrap();
    assert_eq!(bytes, vec![2u8, 2, 2, 4, 0, 2, 2, b'k', 1, 0]);
}

#[test]
fn union_branch_mismatch_is_an_encoding_error() {
    let schema = r#"["null","int"]"#;
    assert!(matches!(encode_event(schema, &AvroValue::Union(AvroScalar::String("x".to_string()))), Err(Error::Encoding(_))));
    assert_eq!(encode_event(schema, &AvroValue::Union(AvroScalar::Null)).ok().unwrap(), vec![0u8]);
}

#[test]
fn encodes_fixed_of_its_own_size() {
    let schema = r#"{"type":"fixed","name":"f","size":2}"#;
    let two = AvroValue::Scalar(AvroScalar::Fixed(vec![7u8, 9]));
    assert_eq!(encode_event(schema, &two).ok().unwrap(), vec![7u8, 9]);
    let one = AvroValue::Scalar(AvroScalar::Fixed(vec![7u8]));
    assert!(matches!(encode_event(schema, &one), Err(Error::Encoding(_))));
}

#[test]
fn refresh_content_type_is_form() {
    let auth_service = AuthService::new("id".to_string(), "s".to_string(), AUTH_URL)
        .with_body_style(AuthBodyStyle::Json);
    assert_eq!(auth_service.refresh_content_type(), "application/x-www-form-urlencoded");
}
