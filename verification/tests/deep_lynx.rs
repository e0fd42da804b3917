use jester::deep_lynx::{expiry_from_claims, is_acceptable_token_body, multipart_content_type, APIError, DeepLynxAPI};
use jester::plugin::{check_plugin_versions, PluginError};

const TOKEN_EXP_1000: &str = "eyJhbGciOiJIUzI1NiIsInR5cCI6IkpXVCJ9.eyJleHAiOjEwMDB9.c2ln";
const TOKEN_NO_EXP: &str = "eyJhbGciOiJIUzI1NiIsInR5cCI6IkpXVCJ9.eyJzdWIiOiJ4In0.c2ln";

fn secured() -> DeepLynxAPI {
    DeepLynxAPI::new(
        "http://localhost:8090".to_string(),
        Some("key".to_string()),
        Some("secret".to_string()),
    )
    .unwrap()
}

fn with_token(token: &str) -> DeepLynxAPI {
    let mut api = secured();
    api.accept_token(&format!("\"{}\"", token));
    api
}

#[test]
fn new_is_secured_only_with_key_and_secret() {
    assert!(secured().secured());
    let a = DeepLynxAPI::new("s".to_string(), Some("k".to_string()), None).unwrap();
    assert!(!a.secured());
    let a = DeepLynxAPI::new("s".to_string(), None, Some("x".to_string())).unwrap();
    assert!(!a.secured());
    assert_eq!(a.server(), "s");
    assert!(a.bearer_token().is_none());
}

#[test]
fn token_credentials_name_the_missing_field() {
    let (k, s) = secured().token_credentials().unwrap();
    assert_eq!((k.as_str(), s.as_str()), ("key", "secret"));
    let a = DeepLynxAPI::new("s".to_string(), None, None).unwrap();
    match a.token_credentials() {
        Err(APIError::MissingFields(Some(v))) => assert_eq!(v, vec!["api_key".to_string()]),
        other => panic!("unexpected {:?}", other),
    }
    let a = DeepLynxAPI::new("s".to_string(), Some("k".to_string()), None).unwrap();
    match a.token_credentials() {
        Err(APIError::MissingFields(Some(v))) => assert_eq!(v, vec!["api_secret".to_string()]),
        other => panic!("unexpected {:?}", other),
    }
}

#[test]
fn token_url_and_accepted_token() {
    let mut api = secured();
    assert_eq!(api.token_url(), "http://localhost:8090/oauth/token");
    assert!(api.authorization_header().is_none());
    api.accept_token("\"abc.def\"");
    assert_eq!(api.bearer_token().map(|s| s.as_str()), Some("abc.def"));
    assert_eq!(api.authorization_header().as_deref(), Some("Bearer abc.def"));
}

#[test]
fn token_body_acceptance() {
    assert!(is_acceptable_token_body("\"\""));
    assert!(is_acceptable_token_body("\"t\""));
    assert!(!is_acceptable_token_body("\""));
    assert!(!is_acceptable_token_body(""));
    assert!(!is_acceptable_token_body("é\""));
    assert!(!is_acceptable_token_body("\"é"));
}

#[test]
fn no_token_is_not_expired() {
    assert!(!secured().token_expired_at(0).unwrap());
    assert!(!secured().token_expired().unwrap());
}

#[test]
fn token_expiry_compares_with_now() {
    let api = with_token(TOKEN_EXP_1000);
    assert!(!api.token_expired_at(999).unwrap());
    assert!(api.token_expired_at(1000).unwrap());
    assert!(api.token_expired_at(1001).unwrap());
    assert!(api.token_expired().unwrap());
}

#[test]
fn token_without_expiration_is_an_error() {
    let api = with_token(TOKEN_NO_EXP);
    assert!(matches!(api.token_expired_at(5), Err(APIError::MissingIATError)));
}

#[test]
fn unreadable_token_is_an_error() {
    let api = with_token("abc");
    assert!(matches!(api.token_expired(), Err(APIError::JWTParsingError(_))));
    let api = with_token("not-a-token");
    assert!(matches!(api.token_expired_at(5), Err(APIError::JWTParsingError(_))));
    assert!(matches!(api.needs_token_refresh_at(5), Err(APIError::JWTParsingError(_))));
}

#[test]
fn expiry_from_claims_cases() {
    assert!(expiry_from_claims(Ok(Some(10)), 10).unwrap());
    assert!(!expiry_from_claims(Ok(Some(10)), 9).unwrap());
    // A negative time reads as a huge unsigned number.
    assert!(expiry_from_claims(Ok(Some(10)), -1).unwrap());
    assert!(matches!(expiry_from_claims(Ok(None), 9), Err(APIError::MissingIATError)));
    assert!(matches!(
        expiry_from_claims(Err(jwt::error::Error::Format), 9),
        Err(APIError::JWTParsingError(_))
    ));
}

#[test]
fn refresh_decisions() {
    assert!(secured().needs_token_refresh().unwrap());
    assert!(secured().needs_token_refresh_at(0).unwrap());
    let open = DeepLynxAPI::new("s".to_string(), None, None).unwrap();
    assert!(!open.needs_token_refresh().unwrap());
    let api = with_token(TOKEN_EXP_1000);
    assert!(!api.needs_token_refresh_at(999).unwrap());
    assert!(api.needs_token_refresh_at(1000).unwrap());
}

#[test]
fn import_route_renders_ids() {
    let api = secured();
    assert_eq!(
        api.import_route(1, 469),
        "http://localhost:8090/containers/1/import/datasources/469/imports"
    );
    assert_eq!(
        api.import_route(0, u64::MAX),
        format!("http://localhost:8090/containers/0/import/datasources/{}/imports", u64::MAX)
    );
}

#[test]
fn prepare_upload_without_file_is_refused() {
    let r = secured().prepare_upload(1, 469, None, Some(vec![1, 2]));
    assert!(matches!(r, Err(APIError::MissingFields(None))));
}

#[test]
fn prepare_upload_needs_a_known_extension() {
    let r = secured().prepare_upload(1, 469, Some("./sample_dir/readme".to_string()), None);
    assert!(matches!(r, Err(APIError::Unknown)));
    let r = secured().prepare_upload(1, 469, Some("README".to_string()), None);
    assert!(matches!(r, Err(APIError::Unknown)));
    let r = secured().prepare_upload(1, 469, Some("./sample_dir/a.unknownext".to_string()), None);
    assert!(matches!(r, Err(APIError::Unknown)));
}

#[test]
fn prepare_upload_of_csv() {
    let api = with_token("tok");
    let u = api.prepare_upload(1, 469, Some("./sample_dir/a.csv".to_string()), None).unwrap();
    assert_eq!(u.mime, "text/csv");
    assert_eq!(u.file_path, "./sample_dir/a.csv");
    assert_eq!(u.route, "http://localhost:8090/containers/1/import/datasources/469/imports");
    assert_eq!(u.authorization.as_deref(), Some("Bearer tok"));
    let u = secured().prepare_upload(2, 3, Some("x.json".to_string()), None).unwrap();
    assert_eq!(u.mime, "application/json");
    assert!(u.authorization.is_none());
}

#[test]
fn upload_request_uses_the_given_guess() {
    let api = secured();
    let u = api.upload_request(1, 2, "f".to_string(), Some("text/plain".to_string())).unwrap();
    assert_eq!(u.mime, "text/plain");
    assert!(matches!(api.upload_request(1, 2, "f".to_string(), None), Err(APIError::Unknown)));
}

#[test]
fn multipart_header() {
    assert_eq!(multipart_content_type("abc"), "multipart/form-data; boundary=abc");
}

#[test]
fn plugin_versions_must_match() {
    assert_eq!(check_plugin_versions("1.70", "0.1.0", "1.70", "0.1.0"), Ok(()));
    assert_eq!(check_plugin_versions("1.71", "0.1.0", "1.70", "0.1.0"), Err(PluginError::VersionMismatch));
    assert_eq!(check_plugin_versions("1.70", "0.2.0", "1.70", "0.1.0"), Err(PluginError::VersionMismatch));
}
