//! Registration, password login and the bearer tokens that authenticate API
//! and WebSocket requests.

use vstd::prelude::*;
use crate::errors::AppError;
use crate::text::{chars_of, string_from_chars, concat_str, contains_char};
use crate::time::valid_timestamp;

verus! {

/// API request body for registering a user.
#[derive(Debug)]
pub struct RegisterRequest {
    pub username: String,
    pub email: String,
    pub password: String,
}

/// API request body for logging in; `email` may hold a username instead.
#[derive(Debug)]
pub struct LoginRequest {
    pub email: String,
    pub password: String,
}

/// API response describing a user.
#[derive(Debug)]
pub struct UserResponse {
    pub id: i32,
    pub username: String,
    pub email: String,
}

/// API response to a successful login.
#[derive(Debug)]
pub struct LoginResponse {
    pub token: String,
    pub user_id: i32,
    pub username: String,
    pub email: String,
}

/// The claims carried by an access token.
#[derive(Debug)]
pub struct Claims {
    pub sub: String,
    pub user_id: i32,
    pub email: String,
    pub exp: usize,
}

/// The user a request was authenticated as.
#[derive(Debug)]
pub struct AuthenticatedUser {
    pub id: i32,
    pub username: String,
    pub email: String,
}

/// Query parameters of a WebSocket connection request.
#[derive(Debug)]
pub struct WebSocketAuthQuery {
    pub token: Option<String>,
}

/// A stored user, as login needs it.
#[derive(Debug)]
pub struct StoredUser {
    pub id: i32,
    pub username: String,
    pub email: String,
    pub password_hash: String,
}

/// The byte length of a string, as `str::len` reports it.
pub open spec fn byte_len(s: Seq<char>) -> usize {
    vstd::utf8::encode_utf8(s).len() as usize
}

/// The message a registration request is refused with, if any: a username,
/// an email and a password of at least 8 bytes are required, and the email
/// must contain `@`.
pub open spec fn spec_registration_error(req: RegisterRequest) -> Option<Seq<char>> {
    if req.username@.len() == 0 || req.email@.len() == 0 || byte_len(req.password@) < 8 {
        Some("用户名、邮箱不能为空，密码至少需要8个字符。"@)
    } else if !req.email@.contains('@') {
        Some("无效的邮箱格式。"@)
    } else {
        None
    }
}

/// Checks a registration request.
pub fn validate_registration(req: &RegisterRequest) -> (r: Result<(), AppError>)
    ensures
        match spec_registration_error(*req) {
            None => r is Ok,
            Some(m) => r matches Err(AppError::InvalidInput(x)) && x@ == m,
        },
{
    if req.username.as_str().is_empty() || req.email.as_str().is_empty() || req.password.as_str().len() < 8 {
        return Err(AppError::InvalidInput("用户名、邮箱不能为空，密码至少需要8个字符。".to_string()));
    }
    if !contains_char(req.email.as_str(), '@') {
        return Err(AppError::InvalidInput("无效的邮箱格式。".to_string()));
    }
    Ok(())
}

/// Refuses a registration whose username or email is already in use.
pub fn check_registration_conflicts(username_taken: bool, email_taken: bool) -> (r: Result<(), AppError>)
    ensures
        username_taken ==> (r matches Err(AppError::UserAlreadyExists(m)) && m@ == "用户名已被使用。"@),
        !username_taken && email_taken ==> (r matches Err(AppError::UserAlreadyExists(m)) && m@
            == "邮箱已被注册。"@),
        !username_taken && !email_taken ==> r is Ok,
{
    if username_taken {
        return Err(AppError::UserAlreadyExists("用户名已被使用。".to_string()));
    }
    if email_taken {
        return Err(AppError::UserAlreadyExists("邮箱已被注册。".to_string()));
    }
    Ok(())
}

/// What `bcrypt::verify` answers for a password and a stored hash: whether
/// they match, or the text of the error for a malformed hash.
pub uninterp spec fn bcrypt_verify_result(password: Seq<char>, hash: Seq<char>) -> Result<bool, Seq<char>>;

/// Whether bcrypt accepts a password against a stored hash.
pub open spec fn password_matches(password: Seq<char>, hash: Seq<char>) -> bool {
    bcrypt_verify_result(password, hash) == Ok::<bool, Seq<char>>(true)
}

/// Calls `bcrypt::hash` with `bcrypt::DEFAULT_COST`. The salt is random, so
/// the contract does not name the hash; it claims what the source shows of
/// `hash` and `verify` together: `verify` recomputes the hash from the
/// stored cost and salt, so the password verifies against its own hash.
#[verifier::external_body]
fn bcrypt_hash(password: &str) -> (r: Result<String, String>)
    ensures
        r is Ok ==> password_matches(password@, r->Ok_0@),
{
    bcrypt::hash(password, bcrypt::DEFAULT_COST).map_err(|e| e.to_string())
}

/// Calls `bcrypt::verify`. The contract claims only that the answer is
/// bcrypt's for this password and hash.
#[verifier::external_body]
fn bcrypt_verify(password: &str, hash: &str) -> (r: Result<bool, String>)
    ensures
        match r {
            Ok(b) => bcrypt_verify_result(password@, hash@) == Ok::<bool, Seq<char>>(b),
            Err(e) => bcrypt_verify_result(password@, hash@) == Err::<bool, Seq<char>>(e@),
        },
{
    bcrypt::verify(password, hash).map_err(|e| e.to_string())
}

/// A password logs in against the hash that `hash_password` stored for it:
/// the check that `complete_login` makes answers `Ok(true)`.
pub proof fn lemma_stored_hash_accepts_password(password: Seq<char>, hash: Seq<char>)
    requires
        password_matches(password, hash),
    ensures
        bcrypt_verify_result(password, hash) == Ok::<bool, Seq<char>>(true),
{
}

/// Hashes a password for storage; a failure of the hasher becomes a
/// `PasswordHashingError`.
pub fn hash_password(password: &str) -> (r: Result<String, AppError>)
    ensures
        r matches Ok(h) ==> password_matches(password@, h@),
        r matches Err(e) ==> e is PasswordHashingError,
{
    match bcrypt_hash(password) {
        Ok(h) => Ok(h),
        Err(e) => Err(AppError::PasswordHashingError(concat_str("密码哈希失败: ", e.as_str()))),
    }
}

/// Where a login looks its user up.
#[derive(Clone, Copy, Debug, PartialEq, Eq, Structural)]
pub enum LoginLookup {
    ByEmail,
    ByUsername,
}

/// Checks a login request and decides how to find the user: by email when
/// the identifier contains `@`, by username otherwise.
pub fn login_lookup(req: &LoginRequest) -> (r: Result<LoginLookup, AppError>)
    ensures
        req.email@.len() == 0 || req.password@.len() == 0 ==> (r matches Err(AppError::InvalidInput(m))
            && m@ == "邮箱和密码不能为空。"@),
        req.email@.len() != 0 && req.password@.len() != 0 ==> r == (if req.email@.contains('@') {
            Ok::<LoginLookup, AppError>(LoginLookup::ByEmail)
        } else {
            Ok::<LoginLookup, AppError>(LoginLookup::ByUsername)
        }),
{
    if req.email.as_str().is_empty() || req.password.as_str().is_empty() {
        return Err(AppError::InvalidInput("邮箱和密码不能为空。".to_string()));
    }
    if contains_char(req.email.as_str(), '@') {
        Ok(LoginLookup::ByEmail)
    } else {
        Ok(LoginLookup::ByUsername)
    }
}

/// How long an access token is valid, in seconds.
pub const TOKEN_LIFETIME_SECONDS: i64 = 86400;

/// Checks a password login for the user found (if any) at time `now`: an
/// unknown user is `UserNotFound`, a wrong password `InvalidCredentials`, a
/// failure of the password check an `InternalServerError`; on success the
/// claims of a token for the user, valid for 24 hours.
pub fn complete_login(user: Option<StoredUser>, password: &str, now: i64) -> (r: Result<Claims, AppError>)
    requires
        valid_timestamp(now as int),
        valid_timestamp(now + TOKEN_LIFETIME_SECONDS),
    ensures
        match user {
            None => r matches Err(e) && e is UserNotFound,
            Some(u) => match bcrypt_verify_result(password@, u.password_hash@) {
                Err(msg) => r matches Err(AppError::InternalServerError(m)) && m@ == "密码验证过程中出错: "@ + msg,
                Ok(false) => r matches Err(e) && e is InvalidCredentials,
                Ok(true) => r matches Ok(c) && c.sub == u.username && c.user_id == u.id && c.email == u.email
                    && c.exp == (now + TOKEN_LIFETIME_SECONDS) as usize,
            },
        },
{
    let u = match user {
        None => return Err(AppError::UserNotFound),
        Some(u) => u,
    };
    match bcrypt_verify(password, u.password_hash.as_str()) {
        Err(e) => Err(AppError::InternalServerError(concat_str("密码验证过程中出错: ", e.as_str()))),
        Ok(false) => Err(AppError::InvalidCredentials),
        Ok(true) => {
            let exp = (now + TOKEN_LIFETIME_SECONDS) as usize;
            Ok(Claims { sub: u.username, user_id: u.id, email: u.email, exp })
        },
    }
}

/// The login response for a user once a token was made for it; a failure to
/// make the token becomes a `TokenCreationError`.
pub fn login_response(user_id: i32, username: String, email: String, token: Result<String, String>) -> (r: Result<LoginResponse, AppError>)
    ensures
        match token {
            Ok(t) => r matches Ok(resp) && resp.token == t && resp.user_id == user_id && resp.username
                == username && resp.email == email,
            Err(e) => r matches Err(AppError::TokenCreationError(m)) && m@ == "生成Token失败: "@ + e@,
        },
{
    match token {
        Ok(t) => Ok(LoginResponse { token: t, user_id, username, email }),
        Err(e) => Err(AppError::TokenCreationError(concat_str("生成Token失败: ", e.as_str()))),
    }
}

/// The token in an `Authorization` header of the form `Bearer <token>`;
/// a missing header or another form is refused as invalid credentials.
pub fn extract_bearer_token(header: Option<&str>) -> (r: Result<String, AppError>)
    ensures
        match header {
            Some(h) => if h@.len() >= 7 && h@.take(7) == "Bearer "@ {
                r matches Ok(t) && t@ == h@.skip(7)
            } else {
                r matches Err(e) && e is InvalidCredentials
            },
            None => r matches Err(e) && e is InvalidCredentials,
        },
{
    let h = match header {
        None => return Err(AppError::InvalidCredentials),
        Some(h) => h,
    };
    let v = chars_of(h);
    let prefix = chars_of("Bearer ");
    if v.len() < 7 {
        return Err(AppError::InvalidCredentials);
    }
    let mut head: Vec<char> = Vec::new();
    let mut i: usize = 0;
    while i < 7
        invariant
            v@ == h@,
            v@.len() >= 7,
            i <= 7,
            head@ == v@.subrange(0, i as int),
        decreases 7 - i,
    {
        head.push(v[i]);
        i = i + 1;
    }
    assert(head@ =~= h@.take(7));
    if !crate::text::chars_eq(&head, &prefix) {
        return Err(AppError::InvalidCredentials);
    }
    let mut rest: Vec<char> = Vec::new();
    let mut k: usize = 7;
    while k < v.len()
        invariant
            7 <= k <= v@.len(),
            rest@ == v@.subrange(7, k as int),
        decreases v@.len() - k,
    {
        rest.push(v[k]);
        k = k + 1;
    }
    assert(rest@ =~= h@.skip(7));
    Ok(string_from_chars(&rest))
}

/// The user a token's claims authenticate: the id, the subject as the
/// username, and the email.
pub fn authenticated_user_from_claims(c: Claims) -> (r: AuthenticatedUser)
    ensures
        r.id == c.user_id,
        r.username == c.sub,
        r.email == c.email,
{
    AuthenticatedUser { id: c.user_id, username: c.sub, email: c.email }
}

/// The token a WebSocket connection presents: the `token` cookie if set,
/// else the `token` query parameter.
pub fn websocket_token(cookie: Option<String>, query: WebSocketAuthQuery) -> (r: Option<String>)
    ensures
        r == (if cookie is Some { cookie } else { query.token }),
{
    match cookie {
        Some(c) => Some(c),
        None => query.token,
    }
}

/// Why a token was refused.
#[derive(Clone, Copy, Debug, PartialEq, Eq, Structural)]
pub enum TokenErrorKind {
    InvalidToken,
    InvalidSignature,
    ExpiredSignature,
    Other,
}

/// The error a WebSocket connection is refused with: no token, or why the
/// token was refused (`detail` is the decoder's message).
pub fn websocket_auth_error(token_missing: bool, kind: TokenErrorKind, detail: &str) -> (r: AppError)
    ensures
        r matches AppError::Unauthorized(m) && m@ == (if token_missing {
            "Missing authentication token"@
        } else {
            match kind {
                TokenErrorKind::InvalidToken => "Invalid token"@,
                TokenErrorKind::InvalidSignature => "Invalid token signature"@,
                TokenErrorKind::ExpiredSignature => "Token has expired"@,
                TokenErrorKind::Other => "Token validation failed: "@ + detail@,
            }
        }),
{
    if token_missing {
        return AppError::Unauthorized("Missing authentication token".to_string());
    }
    match kind {
        TokenErrorKind::InvalidToken => AppError::Unauthorized("Invalid token".to_string()),
        TokenErrorKind::InvalidSignature => AppError::Unauthorized("Invalid token signature".to_string()),
        TokenErrorKind::ExpiredSignature => AppError::Unauthorized("Token has expired".to_string()),
        TokenErrorKind::Other => AppError::Unauthorized(concat_str("Token validation failed: ", detail)),
    }
}

} // verus!
