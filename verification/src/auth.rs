//! Password hashing, tokens, and the checks every authenticated request
//! passes: the bearer header, the token, and the administrator role.
use crate::models::{Claims, UserInfo};
use crate::primitives::{
    argon2_accepts, argon2_hash, argon2_hash_parses, argon2_verify, argon2id_prefix, jwt_decode,
    jwt_encode, jwt_hs256_claims, jwt_hs256_token, unix_now,
};
use crate::text::{has_prefix, same_text, strip_prefix};
use vstd::prelude::*;
use vstd::string::*;
use vstd::utf8::*;

verus! {

/// The secret that signs tokens; a fresh one is drawn at every start.
pub struct JwtSecret(pub String);

/// The user a request is authenticated as, read from its token.
#[derive(Debug, Clone)]
pub struct AuthenticatedUser {
    pub id: i64,
    pub username: String,
    pub role: String,
}

/// An authenticated user whose global role is `admin`.
#[derive(Debug, Clone)]
pub struct AdminUser(pub AuthenticatedUser);

/// Why a request was refused before reaching its handler.
#[derive(Debug, Clone, Copy, PartialEq, Eq, Structural)]
pub enum AuthRejection {
    MissingToken,
    InvalidFormat,
    InvalidToken,
    Forbidden,
}

/// The message of each rejection.
pub open spec fn rejection_text(r: AuthRejection) -> Seq<char> {
    match r {
        AuthRejection::MissingToken => "Missing authorization token"@,
        AuthRejection::InvalidFormat => "Invalid authorization format, expected Bearer"@,
        AuthRejection::InvalidToken => "Invalid or expired token"@,
        AuthRejection::Forbidden => "Forbidden: admin access required"@,
    }
}

impl AuthRejection {
    /// The message of this rejection.
    pub fn message(&self) -> (m: String)
        ensures
            m@ == rejection_text(*self),
    {
        match self {
            AuthRejection::MissingToken => String::from_str("Missing authorization token"),
            AuthRejection::InvalidFormat => String::from_str("Invalid authorization format, expected Bearer"),
            AuthRejection::InvalidToken => String::from_str("Invalid or expired token"),
            AuthRejection::Forbidden => String::from_str("Forbidden: admin access required"),
        }
    }

    /// The HTTP status of this rejection: 403 for `Forbidden`, 401 otherwise.
    pub fn status(&self) -> (s: u16)
        ensures
            s == (if *self == AuthRejection::Forbidden { 403u16 } else { 401u16 }),
    {
        match self {
            AuthRejection::Forbidden => 403,
            _ => 401,
        }
    }
}

/// Why hashing, checking a password, or making or reading a token failed.
#[derive(Debug, Clone, Copy, PartialEq, Eq, Structural)]
pub enum AuthError {
    /// Argon2 refused to hash the password.
    HashingFailed,
    /// A stored hash is not a PHC string.
    InvalidHash,
    /// The token could not be written.
    TokenEncoding,
    /// The expiry would fall outside the calendar range the clock library handles.
    ExpiryOutOfRange,
    /// The token is forged, malformed or expired.
    InvalidToken,
}

/// The message of each failure.
pub open spec fn auth_error_text(e: AuthError) -> Seq<char> {
    match e {
        AuthError::HashingFailed => "Password hashing failed"@,
        AuthError::InvalidHash => "Invalid password hash"@,
        AuthError::TokenEncoding => "Token encoding failed"@,
        AuthError::ExpiryOutOfRange => "Token expiry out of range"@,
        AuthError::InvalidToken => "Invalid token"@,
    }
}

impl AuthError {
    /// The message of this failure.
    pub fn message(&self) -> (m: String)
        ensures
            m@ == auth_error_text(*self),
    {
        match self {
            AuthError::HashingFailed => String::from_str("Password hashing failed"),
            AuthError::InvalidHash => String::from_str("Invalid password hash"),
            AuthError::TokenEncoding => String::from_str("Token encoding failed"),
            AuthError::ExpiryOutOfRange => String::from_str("Token expiry out of range"),
            AuthError::InvalidToken => String::from_str("Invalid token"),
        }
    }
}

/// What checking `password` against the stored `hash` gives.
pub open spec fn password_check(password: Seq<char>, hash: Seq<char>) -> Result<bool, AuthError> {
    if argon2_hash_parses(hash) {
        Ok(argon2_accepts(encode_utf8(password), hash))
    } else {
        Err(AuthError::InvalidHash)
    }
}

/// The longest password, in bytes, Argon2 hashes (2^32 - 1).
pub const MAX_PASSWORD_BYTES: u64 = 0xFFFF_FFFF;

/// Hashes a password with Argon2id and a fresh random salt, as a PHC string
/// that opens with `$argon2id$`. Whatever salt was drawn,
/// `verify_password` accepts the same password against the hash; only a
/// password over 2^32 - 1 bytes is refused.
pub fn hash_password(password: &str) -> (res: Result<String, AuthError>)
    ensures
        encode_utf8(password@).len() <= MAX_PASSWORD_BYTES ==> res is Ok,
        match res {
            Ok(h) => password_check(password@, h@) == Ok::<bool, AuthError>(true) && h@.len() >= 10
                && h@.take(10) == argon2id_prefix(),
            Err(e) => e == AuthError::HashingFailed,
        },
{
    match argon2_hash(password.as_bytes()) {
        Some(h) => Ok(h),
        None => Err(AuthError::HashingFailed),
    }
}

/// Checks a password against a stored Argon2 hash.
pub fn verify_password(password: &str, hash: &str) -> (res: Result<bool, AuthError>)
    ensures
        res == password_check(password@, hash@),
{
    match argon2_verify(password.as_bytes(), hash) {
        Some(b) => Ok(b),
        None => Err(AuthError::InvalidHash),
    }
}

/// Largest span, in seconds, of a time delta of the clock library.
pub const MAX_DELTA_SECS: i64 = 9223372036854775;

/// Earliest Unix time the clock library represents (year -262143).
pub const MIN_TIMESTAMP: i64 = -8334601315200;

/// Latest Unix time the clock library represents (end of year 262142).
pub const MAX_TIMESTAMP: i64 = 8210266876799;

/// Whether a token issued at `now` with a lifetime of `hours` hours has an
/// expiry the clock library can compute.
pub open spec fn expiry_in_range(now: int, hours: int) -> bool {
    &&& -MAX_DELTA_SECS <= hours * 3600 <= MAX_DELTA_SECS
    &&& MIN_TIMESTAMP <= now + hours * 3600 <= MAX_TIMESTAMP
}

/// The `exp` claim of a token issued at `now` for `hours` hours.
pub open spec fn expiry_claim(now: int, hours: int) -> usize {
    (now + hours * 3600) as usize
}

/// The token for `user`, signed with `secret`, issued at Unix time `now`,
/// valid for `expiry_hours` hours. It is refused exactly when the expiry
/// falls outside the calendar the clock library handles.
pub fn create_token_at(user: &UserInfo, secret: &str, expiry_hours: i64, now: i64) -> (res: Result<String, AuthError>)
    ensures
        res is Ok <==> expiry_in_range(now as int, expiry_hours as int),
        match res {
            Ok(t) => {
                &&& t@ == jwt_hs256_token(
                    user.id as int,
                    user.username@,
                    user.role@,
                    expiry_claim(now as int, expiry_hours as int) as int,
                    encode_utf8(secret@),
                )
                &&& jwt_hs256_claims(t@, encode_utf8(secret@)) == Some(
                    (
                        user.id as int,
                        user.username@,
                        user.role@,
                        expiry_claim(now as int, expiry_hours as int) as int,
                    ),
                )
            },
            Err(e) => e == AuthError::ExpiryOutOfRange,
        },
{
    let delta: i128 = (expiry_hours as i128) * 3600;
    if delta < -(MAX_DELTA_SECS as i128) || delta > MAX_DELTA_SECS as i128 {
        return Err(AuthError::ExpiryOutOfRange);
    }
    let t: i128 = (now as i128) + delta;
    if t < MIN_TIMESTAMP as i128 || t > MAX_TIMESTAMP as i128 {
        return Err(AuthError::ExpiryOutOfRange);
    }
    let exp = t as usize;
    match jwt_encode(user.id, user.username.as_str(), user.role.as_str(), exp, secret.as_bytes()) {
        Some(tok) => Ok(tok),
        None => Err(AuthError::TokenEncoding),
    }
}

/// The token for `user`, signed with `secret`, issued now and valid for
/// `expiry_hours` hours: `create_token_at` at the clock's current time. An
/// expiry outside the calendar the clock library handles is refused.
pub fn create_token(user: &UserInfo, secret: &str, expiry_hours: i64) -> (res: Result<String, AuthError>)
    ensures
        res matches Ok(t) ==> exists|now: int|
            expiry_in_range(now, expiry_hours as int) && jwt_hs256_claims(
                t@,
                encode_utf8(secret@),
            ) == Some(
                (user.id as int, user.username@, user.role@, expiry_claim(now, expiry_hours as int) as int),
            ),
        res matches Err(e) ==> e == AuthError::ExpiryOutOfRange,
        !(-MAX_DELTA_SECS <= expiry_hours * 3600 <= MAX_DELTA_SECS) ==> res == Err::<String, _>(
            AuthError::ExpiryOutOfRange,
        ),
{
    let now = unix_now();
    create_token_at(user, secret, expiry_hours, now)
}

/// Reads the claims of a token signed with `secret` whose expiry has not
/// passed. An expiry too large for `usize` is refused, as deserialising
/// the claims would refuse it.
pub fn validate_token(token: &str, secret: &str) -> (res: Result<Claims, AuthError>)
    ensures
        match res {
            Ok(c) => jwt_hs256_claims(token@, encode_utf8(secret@)) == Some(
                (c.sub as int, c.username@, c.role@, c.exp as int),
            ),
            Err(e) => e == AuthError::InvalidToken,
        },
        jwt_hs256_claims(token@, encode_utf8(secret@)) is None ==> res is Err,
        (jwt_hs256_claims(token@, encode_utf8(secret@)) matches Some(c) && c.3 > usize::MAX) ==> res is Err,
{
    match jwt_decode(token, secret.as_bytes()) {
        Some((sub, username, role, exp)) => {
            if exp > usize::MAX as u64 {
                return Err(AuthError::InvalidToken);
            }
            Ok(Claims { sub, username, role, exp: exp as usize })
        },
        None => Err(AuthError::InvalidToken),
    }
}

/// What the `Authorization` header gives: the token after `Bearer `.
pub open spec fn bearer_token(header: Option<Seq<char>>) -> Result<Seq<char>, AuthRejection> {
    match header {
        None => Err(AuthRejection::MissingToken),
        Some(h) => if has_prefix(h, "Bearer "@) {
            Ok(h.subrange(7, h.len() as int))
        } else {
            Err(AuthRejection::InvalidFormat)
        },
    }
}

/// The view of an optional text.
pub open spec fn opt_text(s: Option<&str>) -> Option<Seq<char>> {
    match s {
        Some(t) => Some(t@),
        None => None,
    }
}

/// Takes the token out of an `Authorization` header (absent when the
/// request has none or it is not visible ASCII).
pub fn extract_bearer_token(header: Option<&str>) -> (res: Result<String, AuthRejection>)
    ensures
        match res {
            Ok(t) => bearer_token(opt_text(header)) == Ok::<_, AuthRejection>(t@),
            Err(r) => bearer_token(opt_text(header)) == Err::<Seq<char>, _>(r),
        },
{
    proof {
        reveal_strlit("Bearer ");
    }
    match header {
        None => Err(AuthRejection::MissingToken),
        Some(h) => match strip_prefix(h, "Bearer ") {
            Some(t) => Ok(t),
            None => Err(AuthRejection::InvalidFormat),
        },
    }
}

/// Authenticates a request from its `Authorization` header: the bearer
/// token must carry claims signed with the server's secret and not be
/// expired; the user is the one the claims name.
pub fn authenticate(header: Option<&str>, secret: &JwtSecret) -> (res: Result<AuthenticatedUser, AuthRejection>)
    ensures
        bearer_token(opt_text(header)) matches Err(r) ==> res == Err::<AuthenticatedUser, _>(r),
        res matches Err(r) ==> r == AuthRejection::MissingToken || r
            == AuthRejection::InvalidFormat || r == AuthRejection::InvalidToken,
        res matches Ok(u) ==> (bearer_token(opt_text(header)) matches Ok(t) && jwt_hs256_claims(
            t,
            encode_utf8(secret.0@),
        ) matches Some(c) && c.0 == u.id && c.1 == u.username@ && c.2 == u.role@),
        bearer_token(opt_text(header)) matches Ok(t) ==> (jwt_hs256_claims(t, encode_utf8(secret.0@)) is None
            ==> res == Err::<AuthenticatedUser, _>(AuthRejection::InvalidToken)),
        bearer_token(opt_text(header)) is Ok ==> (res is Err ==> res == Err::<AuthenticatedUser, _>(
            AuthRejection::InvalidToken,
        )),
{
    let token = match extract_bearer_token(header) {
        Ok(t) => t,
        Err(r) => return Err(r),
    };
    match validate_token(token.as_str(), secret.0.as_str()) {
        Ok(claims) => Ok(AuthenticatedUser { id: claims.sub, username: claims.username, role: claims.role }),
        Err(_) => Err(AuthRejection::InvalidToken),
    }
}

/// Admits only users whose global role is `admin`.
pub fn require_admin(user: AuthenticatedUser) -> (res: Result<AdminUser, AuthRejection>)
    ensures
        user.role@ == "admin"@ ==> (res matches Ok(a) && a.0 == user),
        user.role@ != "admin"@ ==> res == Err::<AdminUser, _>(AuthRejection::Forbidden),
{
    if same_text(user.role.as_str(), "admin") {
        Ok(AdminUser(user))
    } else {
        Err(AuthRejection::Forbidden)
    }
}

} // verus!
