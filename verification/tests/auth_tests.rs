use settings_copier::auth::{
    access_token_of, build_auth_config, token_request_params, AuthConfig, ConfigError, TokenError,
};
use settings_copier::schema::Token;

#[test]
fn token_params_exact() {
    let params = token_request_params("my-id", "my-secret");
    assert_eq!(
        params,
        vec![
            ("audience".to_string(), "https://edf-esap".to_string()),
            ("grant_type".to_string(), "client_credentials".to_string()),
            ("client_id".to_string(), "my-id".to_string()),
            ("client_secret".to_string(), "my-secret".to_string()),
        ]
    );
}

#[test]
fn access_token_from_parsed_response() {
    let parsed = Some(Token { access_token: "abc123".to_string() });
    assert_eq!(access_token_of(parsed), Ok("abc123".to_string()));
}

#[test]
fn access_token_fails_on_bad_response() {
    assert_eq!(access_token_of(None), Err(TokenError::InvalidResponse));
}

#[test]
fn config_with_all_values() {
    let r = build_auth_config(
        Some("https://auth.example/oauth/token".to_string()),
        Some("s3cr3t".to_string()),
        Some("client-1".to_string()),
    );
    assert_eq!(
        r,
        Ok(AuthConfig {
            token_url: "https://auth.example/oauth/token".to_string(),
            client_id: "client-1".to_string(),
            client_secret: "s3cr3t".to_string(),
        })
    );
}

#[test]
fn config_missing_url() {
    let r = build_auth_config(None, Some("s".to_string()), Some("i".to_string()));
    assert_eq!(r, Err(ConfigError::MissingTokenUrl));
}

#[test]
fn config_missing_secret() {
    let r = build_auth_config(Some("u".to_string()), None, Some("i".to_string()));
    assert_eq!(r, Err(ConfigError::MissingClientSecret));
}

#[test]
fn config_missing_id() {
    let r = build_auth_config(Some("u".to_string()), Some("s".to_string()), None);
    assert_eq!(r, Err(ConfigError::MissingClientId));
}
