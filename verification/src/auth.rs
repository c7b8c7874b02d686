//! The OAuth2 client-credentials exchange: validating the configuration read
//! from the process environment, building the form body of the token request,
//! and extracting the access token from the parsed response.

use vstd::prelude::*;

use crate::schema::Token;

verus! {

/// The configuration the token exchange needs, read once at startup.
#[derive(Debug, Clone, PartialEq)]
pub struct AuthConfig {
    pub token_url: String,
    pub client_id: String,
    pub client_secret: String,
}

/// A missing configuration value; each variant names the value that was
/// absent. Any of these aborts the run before a request is sent.
#[derive(Debug, Clone, Copy, PartialEq, Eq)]
pub enum ConfigError {
    MissingTokenUrl,
    MissingClientSecret,
    MissingClientId,
}

/// Assembles the token-exchange configuration from the three values read from
/// the environment, failing on the first absent one: the endpoint URL is
/// checked first, then the client secret, then the client id.
pub fn build_auth_config(
    token_url: Option<String>,
    client_secret: Option<String>,
    client_id: Option<String>,
) -> (r: Result<AuthConfig, ConfigError>)
    ensures
        match r {
            Ok(c) => {
                &&& token_url == Some(c.token_url)
                &&& client_secret == Some(c.client_secret)
                &&& client_id == Some(c.client_id)
            },
            Err(ConfigError::MissingTokenUrl) => token_url is None,
            Err(ConfigError::MissingClientSecret) => token_url is Some && client_secret is None,
            Err(ConfigError::MissingClientId) => {
                token_url is Some && client_secret is Some && client_id is None
            },
        },
{
    match token_url {
        None => Err(ConfigError::MissingTokenUrl),
        Some(url) => match client_secret {
            None => Err(ConfigError::MissingClientSecret),
            Some(secret) => match client_id {
                None => Err(ConfigError::MissingClientId),
                Some(id) => Ok(
                    AuthConfig { token_url: url, client_id: id, client_secret: secret },
                ),
            },
        },
    }
}

/// Builds the form-encoded body of the token request: the fixed audience and
/// grant type, then the client credentials, as (field, value) pairs.
pub fn token_request_params(client_id: &str, client_secret: &str) -> (r: Vec<(String, String)>)
    ensures
        r@.len() == 4,
        r@[0].0@ == "audience"@ && r@[0].1@ == "https://edf-esap"@,
        r@[1].0@ == "grant_type"@ && r@[1].1@ == "client_credentials"@,
        r@[2].0@ == "client_id"@ && r@[2].1@ == client_id@,
        r@[3].0@ == "client_secret"@ && r@[3].1@ == client_secret@,
{
    let mut params: Vec<(String, String)> = Vec::new();
    params.push(("audience".to_owned(), "https://edf-esap".to_owned()));
    params.push(("grant_type".to_owned(), "client_credentials".to_owned()));
    params.push(("client_id".to_owned(), client_id.to_owned()));
    params.push(("client_secret".to_owned(), client_secret.to_owned()));
    params
}

/// The token-endpoint response could not be read as a token: the body was not
/// valid JSON or lacked the `access_token` field.
#[derive(Debug, Clone, Copy, PartialEq, Eq)]
pub enum TokenError {
    InvalidResponse,
}

/// Extracts the access token from the parse of the token-endpoint response;
/// `parsed` is `None` exactly when the body was not valid JSON or had no
/// `access_token` field, and then the error propagates.
pub fn access_token_of(parsed: Option<Token>) -> (r: Result<String, TokenError>)
    ensures
        match r {
            Ok(t) => parsed matches Some(tok) && t == tok.access_token,
            Err(TokenError::InvalidResponse) => parsed is None,
        },
{
    match parsed {
        Some(tok) => Ok(tok.access_token),
        None => Err(TokenError::InvalidResponse),
    }
}

} // verus!
