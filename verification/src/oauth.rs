//! OAuth2 login: the public view of a provider, the authorization URL, the
//! CSRF state check and the fields read from a provider's user info.

use vstd::prelude::*;
use crate::errors::AppError;
use crate::text::{concat_str, str_eq, i64_to_decimal, signed_decimal};

verus! {

/// The token answer of a provider's token endpoint.
#[derive(Debug)]
pub struct TokenResponse {
    pub access_token: String,
    pub token_type: String,
    pub scope: Option<String>,
}

/// What the login page may know of a provider.
#[derive(Debug)]
pub struct PublicProviderInfo {
    pub provider_name: String,
    pub client_id: String,
    pub auth_url: String,
    pub scopes: Option<String>,
    pub icon_url: Option<String>,
}

/// Query parameters of the provider's redirect back to the callback.
#[derive(Debug)]
pub struct CallbackQuery {
    pub code: String,
    pub state: String,
}

/// A stored OAuth2 provider.
#[derive(Debug)]
pub struct ProviderRecord {
    pub provider_name: String,
    pub client_id: String,
    pub client_secret: String,
    pub auth_url: String,
    pub token_url: String,
    pub user_info_url: String,
    pub scopes: Option<String>,
    pub icon_url: Option<String>,
    pub enabled: bool,
}

/// The public view of a provider: no secret and no endpoints but the
/// authorization URL.
pub fn public_provider_info(p: ProviderRecord) -> (r: PublicProviderInfo)
    ensures
        r.provider_name == p.provider_name,
        r.client_id == p.client_id,
        r.auth_url == p.auth_url,
        r.scopes == p.scopes,
        r.icon_url == p.icon_url,
{
    PublicProviderInfo {
        provider_name: p.provider_name,
        client_id: p.client_id,
        auth_url: p.auth_url,
        scopes: p.scopes,
        icon_url: p.icon_url,
    }
}

/// The callback URL a provider redirects to:
/// `<frontend>/api/auth/<provider>/callback`.
pub open spec fn spec_callback_uri(frontend_url: Seq<char>, provider: Seq<char>) -> Seq<char> {
    frontend_url + "/api/auth/"@ + provider + "/callback"@
}

/// The callback URL a provider redirects to.
pub fn callback_uri(frontend_url: &str, provider: &str) -> (r: String)
    ensures
        r@ == spec_callback_uri(frontend_url@, provider@),
{
    let a = concat_str(frontend_url, "/api/auth/");
    let b = concat_str(a.as_str(), provider);
    concat_str(b.as_str(), "/callback")
}

/// The URL the browser is sent to for authorization.
pub open spec fn spec_authorize_url(
    auth_url: Seq<char>,
    client_id: Seq<char>,
    frontend_url: Seq<char>,
    provider: Seq<char>,
    state: Seq<char>,
    scopes: Option<Seq<char>>,
) -> Seq<char> {
    let base = auth_url + "?client_id="@ + client_id + "&response_type=code&redirect_uri="@
        + spec_callback_uri(frontend_url, provider) + "&state="@ + state;
    match scopes {
        Some(s) => base + "&scope="@ + s,
        None => base,
    }
}

/// The URL the browser is sent to for authorization.
pub fn authorize_url(
    auth_url: &str,
    client_id: &str,
    frontend_url: &str,
    provider: &str,
    state: &str,
    scopes: Option<&str>,
) -> (r: String)
    ensures
        r@ == spec_authorize_url(auth_url@, client_id@, frontend_url@, provider@, state@,
            match scopes { Some(s) => Some(s@), None => None }),
{
    let a = concat_str(auth_url, "?client_id=");
    let b = concat_str(a.as_str(), client_id);
    let c = concat_str(b.as_str(), "&response_type=code&redirect_uri=");
    let cb = callback_uri(frontend_url, provider);
    let d = concat_str(c.as_str(), cb.as_str());
    let e = concat_str(d.as_str(), "&state=");
    let f = concat_str(e.as_str(), state);
    match scopes {
        Some(s) => {
            let g = concat_str(f.as_str(), "&scope=");
            concat_str(g.as_str(), s)
        },
        None => f,
    }
}

/// Checks the CSRF state of a callback against the state cookie.
pub fn check_oauth_state(stored: Option<&str>, received: &str) -> (r: Result<(), AppError>)
    ensures
        match stored {
            None => r matches Err(AppError::InvalidInput(m)) && m@ == "Missing CSRF state cookie."@,
            Some(s) => if s@ == received@ {
                r is Ok
            } else {
                r matches Err(AppError::InvalidInput(m)) && m@ == "CSRF state mismatch."@
            },
        },
{
    match stored {
        None => Err(AppError::InvalidInput("Missing CSRF state cookie.".to_string())),
        Some(s) => {
            if str_eq(s, received) {
                Ok(())
            } else {
                Err(AppError::InvalidInput("CSRF state mismatch.".to_string()))
            }
        },
    }
}

/// The user-info field that holds the provider's user id: the mapping's
/// `id_field`, or `id`.
pub fn user_id_field(configured: Option<&str>) -> (r: String)
    ensures
        r@ == (match configured { Some(f) => f@, None => "id"@ }),
{
    match configured {
        Some(f) => f.to_string(),
        None => "id".to_string(),
    }
}

/// The user-info field that holds the username: the mapping's
/// `username_field`, or `login`.
pub fn username_field(configured: Option<&str>) -> (r: String)
    ensures
        r@ == (match configured { Some(f) => f@, None => "login"@ }),
{
    match configured {
        Some(f) => f.to_string(),
        None => "login".to_string(),
    }
}

/// The error for a provider that is not configured.
pub fn provider_not_found(provider_name: &str) -> (r: AppError)
    ensures
        r matches AppError::NotFound(m) && m@ == "OAuth provider '"@ + provider_name@ + "' not found"@,
{
    let a = concat_str("OAuth provider '", provider_name);
    AppError::NotFound(concat_str(a.as_str(), "' not found"))
}

/// Whether an update stores a new client secret: only a non-empty one is
/// stored (and encrypted); an empty one keeps the old secret.
pub fn updates_client_secret(new_secret: &str) -> (r: bool)
    ensures
        r == (new_secret@.len() > 0),
{
    !new_secret.is_empty()
}

/// The form fields of the authorization code exchange, in order.
pub fn token_request_params(client_id: &str, client_secret: &str, code: &str, redirect_uri: &str) -> (r: Vec<(String, String)>)
    ensures
        r@.len() == 5,
        r@[0].0@ == "client_id"@ && r@[0].1@ == client_id@,
        r@[1].0@ == "client_secret"@ && r@[1].1@ == client_secret@,
        r@[2].0@ == "code"@ && r@[2].1@ == code@,
        r@[3].0@ == "redirect_uri"@ && r@[3].1@ == redirect_uri@,
        r@[4].0@ == "grant_type"@ && r@[4].1@ == "authorization_code"@,
{
    let mut r: Vec<(String, String)> = Vec::new();
    r.push(("client_id".to_string(), client_id.to_string()));
    r.push(("client_secret".to_string(), client_secret.to_string()));
    r.push(("code".to_string(), code.to_string()));
    r.push(("redirect_uri".to_string(), redirect_uri.to_string()));
    r.push(("grant_type".to_string(), "authorization_code".to_string()));
    r
}

/// Where the browser lands after a successful OAuth login:
/// `<frontend>/auth/callback?token=<token>`.
pub fn login_redirect_url(frontend_url: &str, token: &str) -> (r: String)
    ensures
        r@ == frontend_url@ + "/auth/callback?token="@ + token@,
{
    let a = concat_str(frontend_url, "/auth/callback?token=");
    concat_str(a.as_str(), token)
}


/// What an OAuth callback does with the user it identified.
#[derive(Clone, Copy, Debug, PartialEq, Eq, Structural)]
pub enum OAuthUserAction {
    /// The identity is linked to this user already.
    UseExisting(i32),
    /// A new user (and its identity link) is to be created.
    CreateNew,
}

/// Resolves the user of an OAuth login: the user the identity is linked to;
/// else a new user, unless a user of that username exists, which is a
/// conflict.
pub fn resolve_oauth_user(linked_user_id: Option<i32>, username_taken: bool) -> (r: Result<OAuthUserAction, AppError>)
    ensures
        match linked_user_id {
            Some(id) => r == Ok::<OAuthUserAction, AppError>(OAuthUserAction::UseExisting(id)),
            None => if username_taken {
                r matches Err(AppError::Conflict(m)) && m@ == "Username already exists."@
            } else {
                r == Ok::<OAuthUserAction, AppError>(OAuthUserAction::CreateNew)
            },
        },
{
    match linked_user_id {
        Some(id) => Ok(OAuthUserAction::UseExisting(id)),
        None => {
            if username_taken {
                Err(AppError::Conflict("Username already exists.".to_string()))
            } else {
                Ok(OAuthUserAction::CreateNew)
            }
        },
    }
}

/// A field of a provider's user info, as far as the login reads it.
#[derive(Debug)]
pub enum UserInfoValue {
    Text(String),
    /// A number that fits in 64 signed bits.
    Integer(i64),
    /// Any other JSON value.
    Other,
}

/// The provider's id of the user: the id field's text, or its number in
/// decimal; a missing field or another value is an internal error.
pub fn provider_user_id_of(value: Option<UserInfoValue>) -> (r: Result<String, AppError>)
    ensures
        match value {
            Some(UserInfoValue::Text(t)) => r == Ok::<String, AppError>(t),
            Some(UserInfoValue::Integer(n)) => r matches Ok(t) && t@ == signed_decimal(n as int),
            _ => r matches Err(AppError::InternalServerError(m)) && m@ == "Could not extract provider user ID."@,
        },
{
    match value {
        Some(UserInfoValue::Text(t)) => Ok(t),
        Some(UserInfoValue::Integer(n)) => Ok(i64_to_decimal(n)),
        _ => Err(AppError::InternalServerError("Could not extract provider user ID.".to_string())),
    }
}

/// The user's name at the provider: the username field's text; anything
/// else is an internal error.
pub fn username_of(value: Option<UserInfoValue>) -> (r: Result<String, AppError>)
    ensures
        match value {
            Some(UserInfoValue::Text(t)) => r == Ok::<String, AppError>(t),
            _ => r matches Err(AppError::InternalServerError(m)) && m@ == "Could not extract username."@,
        },
{
    match value {
        Some(UserInfoValue::Text(t)) => Ok(t),
        _ => Err(AppError::InternalServerError("Could not extract username.".to_string())),
    }
}

} // verus!
