use ft_rs::models::token::AccessToken;
use ft_rs::{FtClient, FtError};

fn token(created_at: u64, expires_in: u64) -> AccessToken {
    AccessToken {
        access_token: "secret".to_string(),
        token_type: "bearer".to_string(),
        expires_in,
        scope: "public".to_string(),
        created_at,
        refresh_token: None,
        secret_valid_until: None,
    }
}

fn pairs(form: &[(String, String)]) -> Vec<(&str, &str)> {
    form.iter().map(|(k, v)| (k.as_str(), v.as_str())).collect()
}

#[test]
fn authorization_url_is_encoded_and_joined() {
    let client = FtClient::from_app("abc", "s3cr3t").unwrap();
    let url = client
        .get_authorization_url("http://localhost:1337/oauth/callback", &["public", "projects", "profile"])
        .unwrap();
    assert_eq!(
        url,
        "https://api.intra.42.fr/oauth/authorize?client_id=abc&redirect_uri=http%3A%2F%2Flocalhost%3A1337%2Foauth%2Fcallback&scope=public%20projects%20profile&response_type=code"
    );
}

#[test]
fn authorization_url_with_no_scopes() {
    let client = FtClient::from_app("id", "s").unwrap();
    let url = client.get_authorization_url("a-b_c.d~e f", &[]).unwrap();
    assert_eq!(
        url,
        "https://api.intra.42.fr/oauth/authorize?client_id=id&redirect_uri=a-b_c.d~e%20f&scope=&response_type=code"
    );
}

#[test]
fn user_mode_rejects_application_operations() {
    let mut client = FtClient::from_user(token(0, 10)).unwrap();
    assert!(matches!(client.get_authorization_url("http://x", &["public"]), Err(FtError::InvalidAuthType)));
    assert!(matches!(client.app_token_request(false), Err(FtError::InvalidAuthType)));
    assert!(matches!(client.app_token_request(true), Err(FtError::InvalidAuthType)));
    assert!(matches!(client.access_token_request("code", "http://x"), Err(FtError::InvalidAuthType)));
    assert!(matches!(client.needs_app_token(0), Err(FtError::InvalidAuthType)));
    assert!(matches!(client.set_app_token(token(0, 10)), Err(FtError::InvalidAuthType)));
}

#[test]
fn client_credentials_form() {
    let client = FtClient::from_app("abc", "s3cr3t").unwrap();
    let form = client.app_token_request(false).unwrap();
    assert_eq!(
        pairs(&form),
        vec![("grant_type", "client_credentials"), ("client_id", "abc"), ("client_secret", "s3cr3t")]
    );
}

#[test]
fn extra_data_is_not_implemented() {
    let client = FtClient::from_app("abc", "s3cr3t").unwrap();
    assert!(matches!(client.app_token_request(true), Err(FtError::NotImplemented)));
}

#[test]
fn authorization_code_form() {
    let client = FtClient::from_app("abc", "s3cr3t").unwrap();
    let form = client.access_token_request("xyz", "http://localhost/cb").unwrap();
    assert_eq!(
        pairs(&form),
        vec![
            ("grant_type", "authorization_code"),
            ("client_id", "abc"),
            ("client_secret", "s3cr3t"),
            ("code", "xyz"),
            ("redirect_uri", "http://localhost/cb"),
        ]
    );
}

#[test]
fn cached_app_token_lifecycle() {
    let mut client = FtClient::from_app("abc", "s3cr3t").unwrap();
    assert!(matches!(client.needs_app_token(1000), Ok(true)));
    assert!(client.set_app_token(token(1000, 7200)).is_ok());
    assert!(matches!(client.needs_app_token(1000), Ok(false)));
    assert!(matches!(client.needs_app_token(8194), Ok(false)));
    assert!(matches!(client.needs_app_token(8195), Ok(true)));
    assert!(client.set_app_token(token(9000, 7200)).is_ok());
    assert!(matches!(client.needs_app_token(9000), Ok(false)));
    let form = client.app_token_request(false).unwrap();
    assert_eq!(pairs(&form)[1], ("client_id", "abc"));
}
