use device_api_client::client::DeviceAPIClient;
use device_api_client::headers::{authenticated_header_map, HeaderError};
use device_api_client::login::{token_from_entries, token_from_login_response, LoginError};
use device_api_client::status::status_report;
use device_api_client::url::{join_endpoint, login_url, url_prefix};

fn session(body: &[u8]) -> Result<DeviceAPIClient, LoginError> {
    DeviceAPIClient::from_login_response(
        "sim1".to_string(),
        "dev1".to_string(),
        "http://x".to_string(),
        body,
    )
}

#[test]
fn endpoint_url_for_register() {
    let client = session(br#"{"token": "T"}"#).unwrap();
    assert_eq!(
        client.endpoint_url("register"),
        "http://x/external-connection/api/sim1/dev1/register"
    );
}

#[test]
fn endpoint_url_keeps_suffix_verbatim() {
    let client = session(br#"{"token": "T"}"#).unwrap();
    assert_eq!(client.endpoint_url(""), "http://x/external-connection/api/sim1/dev1/");
    assert_eq!(
        client.endpoint_url("a/b?c=d "),
        "http://x/external-connection/api/sim1/dev1/a/b?c=d "
    );
}

#[test]
fn url_prefix_of_session() {
    let client = session(br#"{"token": "T"}"#).unwrap();
    assert_eq!(client.url_prefix(), "http://x/external-connection/api/sim1/dev1/");
    assert_eq!(url_prefix("d", "s", "v"), "d/external-connection/api/s/v/");
}

#[test]
fn login_url_of_domain() {
    assert_eq!(login_url("http://x"), "http://x/api-token-auth/");
    assert_eq!(login_url(""), "/api-token-auth/");
}

#[test]
fn join_appends_suffix() {
    assert_eq!(join_endpoint("ab", "cd"), "abcd");
    assert_eq!(join_endpoint("", ""), "");
}

#[test]
fn token_reply_gives_authorization_header() {
    let client = session(br#"{"token": "T"}"#).unwrap();
    assert_eq!(client.jwt_token(), "T");
    let headers = client.construct_headers().unwrap();
    assert_eq!(headers.len(), 2);
    assert_eq!(headers.get("authorization").unwrap(), "JWT T");
    assert_eq!(headers.get("content-type").unwrap(), "application/json");
}

#[test]
fn reply_with_other_entries_keeps_token() {
    let client = session(br#"{"user": "u", "token": "abc.def"}"#).unwrap();
    assert_eq!(client.jwt_token(), "abc.def");
}

#[test]
fn reply_without_token_is_refused() {
    assert_eq!(session(br#"{"user": "u"}"#).err(), Some(LoginError::MissingToken));
    assert_eq!(session(b"{}").err(), Some(LoginError::MissingToken));
}

#[test]
fn non_json_reply_is_refused() {
    assert_eq!(session(b"not json").err(), Some(LoginError::MalformedResponse));
    assert_eq!(session(b"").err(), Some(LoginError::MalformedResponse));
}

#[test]
fn non_string_values_are_refused() {
    assert_eq!(token_from_login_response(br#"{"token": 5}"#), Err(LoginError::MalformedResponse));
    assert_eq!(token_from_login_response(br#"["token"]"#), Err(LoginError::MalformedResponse));
}

#[test]
fn repeated_token_key_keeps_last() {
    assert_eq!(
        token_from_login_response(br#"{"token": "a", "token": "b"}"#),
        Ok("b".to_string())
    );
}

#[test]
fn token_lookup_takes_first_match() {
    let entries = vec![
        ("a".to_string(), "1".to_string()),
        ("token".to_string(), "2".to_string()),
        ("token".to_string(), "3".to_string()),
    ];
    assert_eq!(token_from_entries(&entries), Some("2".to_string()));
    assert_eq!(token_from_entries(&vec![]), None);
    assert_eq!(token_from_entries(&vec![("Token".to_string(), "x".to_string())]), None);
}

#[test]
fn invalid_token_has_no_headers() {
    let client = session(br#"{"token": "a\nb"}"#).unwrap();
    assert_eq!(client.construct_headers().err(), Some(HeaderError::InvalidToken));
    assert_eq!(authenticated_header_map("x\u{7f}").err(), Some(HeaderError::InvalidToken));
}

#[test]
fn token_with_tab_and_unicode_is_accepted() {
    let headers = authenticated_header_map("a\tb\u{e9}").unwrap();
    assert_eq!(headers.get("authorization").unwrap().as_bytes(), "JWT a\tb\u{e9}".as_bytes());
}

#[test]
fn empty_token_gives_bare_prefix() {
    let headers = authenticated_header_map("").unwrap();
    assert_eq!(headers.get("authorization").unwrap(), "JWT ");
}

#[test]
fn status_200_reports_success() {
    assert_eq!(status_report(200), "success!");
}

#[test]
fn other_status_reports_code() {
    assert_eq!(status_report(404), "Received response status: 404");
    assert_eq!(status_report(201), "Received response status: 201");
    assert_eq!(status_report(0), "Received response status: 0");
    assert_eq!(status_report(65535), "Received response status: 65535");
}
