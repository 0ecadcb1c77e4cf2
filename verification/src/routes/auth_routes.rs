//! The decisions of the login, registration and identity handlers.
use crate::auth::{
    auth_error_text, create_token_at, expiry_claim, expiry_in_range, hash_password, password_check,
    verify_password, AuthError, AuthenticatedUser, MAX_DELTA_SECS, MAX_PASSWORD_BYTES,
};
use crate::errors::{fails_with, AppError, ErrorKind};
use crate::models::{CreateUserRequest, LoginResponse, UserInfo};
use crate::primitives::{argon2id_prefix, jwt_hs256_claims, unix_now};
use vstd::prelude::*;
use vstd::string::*;
use vstd::utf8::*;

verus! {

/// An account as the login lookup reads it.
#[derive(Debug, Clone)]
pub struct StoredAccount {
    pub id: i64,
    pub username: String,
    pub password_hash: String,
    pub role: String,
}

/// Whether `token`, signed with `secret`, carries the claims of `user` with
/// the expiry of a token issued at `now` for `hours` hours.
pub open spec fn token_at(token: Seq<char>, secret: Seq<char>, user: UserInfo, hours: i64, now: int) -> bool {
    jwt_hs256_claims(token, encode_utf8(secret)) == Some(
        (user.id as int, user.username@, user.role@, expiry_claim(now, hours as int) as int),
    )
}

/// Whether `token`, signed with `secret`, carries the claims of `user` with
/// an expiry `hours` hours after some moment of issue.
pub open spec fn token_names(token: Seq<char>, secret: Seq<char>, user: UserInfo, hours: i64) -> bool {
    exists|now: int| expiry_in_range(now, hours as int) && #[trigger] token_at(token, secret, user, hours, now)
}

/// Whether `e` is the server error of an expiry outside the calendar the
/// clock library handles.
pub open spec fn is_token_failure(e: AppError) -> bool {
    e.kind == ErrorKind::Internal && e.message@ == auth_error_text(AuthError::ExpiryOutOfRange)
}

/// Issues the token of a login for `user` at Unix time `now`, valid for
/// `expiry_hours` hours; only an expiry outside the clock library's
/// calendar is refused.
pub fn issue_login_at(user: UserInfo, secret: &str, expiry_hours: i64, now: i64) -> (res: Result<LoginResponse, AppError>)
    ensures
        res is Ok <==> expiry_in_range(now as int, expiry_hours as int),
        res matches Ok(r) ==> r.user == user && token_at(r.token@, secret@, user, expiry_hours, now as int),
        res matches Err(e) ==> is_token_failure(e),
{
    match create_token_at(&user, secret, expiry_hours, now) {
        Ok(token) => Ok(LoginResponse { token, user }),
        Err(e) => Err(AppError::internal(e.message().as_str())),
    }
}

/// Issues the token of a login for `user`, valid for `expiry_hours` hours,
/// at the clock's current time.
pub fn issue_login(user: UserInfo, secret: &str, expiry_hours: i64) -> (res: Result<LoginResponse, AppError>)
    ensures
        res matches Ok(r) ==> r.user == user && token_names(r.token@, secret@, user, expiry_hours),
        res matches Err(e) ==> is_token_failure(e),
        !(-MAX_DELTA_SECS <= expiry_hours * 3600 <= MAX_DELTA_SECS) ==> fails_with(res, ErrorKind::Internal, auth_error_text(AuthError::ExpiryOutOfRange)),
{
    let now = unix_now();
    let res = issue_login_at(user, secret, expiry_hours, now);
    assert(res matches Ok(r) ==> token_at(r.token@, secret@, r.user, expiry_hours, now as int));
    res
}

/// Why a login is refused before a token is issued: no such account, a
/// stored hash that does not parse, or a wrong password.
pub open spec fn login_refusal(account: Option<StoredAccount>, password: Seq<char>, missing: (ErrorKind, Seq<char>), wrong: Seq<char>) -> Option<(ErrorKind, Seq<char>)> {
    match account {
        None => Some(missing),
        Some(a) => match password_check(password, a.password_hash@) {
            Err(e) => Some((ErrorKind::Internal, auth_error_text(e))),
            Ok(false) => Some((ErrorKind::Unauthorized, wrong)),
            Ok(true) => None,
        },
    }
}

/// The identity of an account.
pub open spec fn account_user(a: StoredAccount) -> UserInfo {
    UserInfo { id: a.id, username: a.username, role: a.role }
}

/// What a login at Unix time `now` answers once no refusal applies: the
/// account's identity and a token issued at `now`, unless the expiry falls
/// outside the clock library's calendar.
pub open spec fn login_issued(res: Result<LoginResponse, AppError>, account: StoredAccount, secret: Seq<char>, hours: i64, now: int) -> bool {
    &&& res is Ok <==> expiry_in_range(now, hours as int)
    &&& res matches Ok(r) ==> r.user == account_user(account) && token_at(r.token@, secret, r.user, hours, now)
    &&& res matches Err(e) ==> is_token_failure(e)
}

/// Checks the password of the account found, if any, and issues its token
/// at Unix time `now`.
fn log_in_at(account: Option<StoredAccount>, password: &str, secret: &str, expiry_hours: i64, now: i64, missing_kind: ErrorKind, missing: &str, wrong: &str) -> (res: Result<LoginResponse, AppError>)
    ensures
        match login_refusal(account, password@, (missing_kind, missing@), wrong@) {
            Some((k, m)) => fails_with(res, k, m),
            None => login_issued(res, account.unwrap(), secret@, expiry_hours, now as int),
        },
{
    let a = match account {
        None => return Err(AppError::new(missing_kind, missing)),
        Some(a) => a,
    };
    match verify_password(password, a.password_hash.as_str()) {
        Err(e) => return Err(AppError::internal(e.message().as_str())),
        Ok(false) => return Err(AppError::unauthorized(wrong)),
        Ok(true) => {},
    }
    issue_login_at(UserInfo { id: a.id, username: a.username, role: a.role }, secret, expiry_hours, now)
}

/// Decides a login (`login`) at Unix time `now` from the account found under
/// the given user name: a missing account and a wrong password get the same
/// 401 answer; a right password gets the account's token.
pub fn finish_login_at(account: Option<StoredAccount>, password: &str, secret: &str, expiry_hours: i64, now: i64) -> (res: Result<LoginResponse, AppError>)
    ensures
        match login_refusal(account, password@, (ErrorKind::Unauthorized, "Invalid username or password"@), "Invalid username or password"@) {
            Some((k, m)) => fails_with(res, k, m),
            None => login_issued(res, account.unwrap(), secret@, expiry_hours, now as int),
        },
{
    log_in_at(
        account,
        password,
        secret,
        expiry_hours,
        now,
        ErrorKind::Unauthorized,
        "Invalid username or password",
        "Invalid username or password",
    )
}

/// Decides a login (`login`) at the clock's current time: `finish_login_at`
/// with the time read from the clock.
pub fn finish_login(account: Option<StoredAccount>, password: &str, secret: &str, expiry_hours: i64) -> (res: Result<LoginResponse, AppError>)
    ensures
        match login_refusal(account, password@, (ErrorKind::Unauthorized, "Invalid username or password"@), "Invalid username or password"@) {
            Some((k, m)) => fails_with(res, k, m),
            None => exists|now: int| #[trigger] login_issued(res, account.unwrap(), secret@, expiry_hours, now),
        },
{
    let now = unix_now();
    let res = finish_login_at(account, password, secret, expiry_hours, now);
    assert(login_refusal(account, password@, (ErrorKind::Unauthorized, "Invalid username or password"@), "Invalid username or password"@) is None
        ==> login_issued(res, account.unwrap(), secret@, expiry_hours, now as int));
    res
}

/// Decides the administrator's login (`admin_login`) at Unix time `now`
/// from the first administrator account, if there is one: none is 404, a
/// wrong password 401, a right one gets the account's token.
pub fn finish_admin_login_at(account: Option<StoredAccount>, password: &str, secret: &str, expiry_hours: i64, now: i64) -> (res: Result<LoginResponse, AppError>)
    ensures
        match login_refusal(account, password@, (ErrorKind::NotFound, "没有找到管理员账号，请使用 --reset-password 创建"@), "管理员密码错误"@) {
            Some((k, m)) => fails_with(res, k, m),
            None => login_issued(res, account.unwrap(), secret@, expiry_hours, now as int),
        },
{
    log_in_at(
        account,
        password,
        secret,
        expiry_hours,
        now,
        ErrorKind::NotFound,
        "没有找到管理员账号，请使用 --reset-password 创建",
        "管理员密码错误",
    )
}

/// Decides the administrator's login (`admin_login`) at the clock's current
/// time: `finish_admin_login_at` with the time read from the clock.
pub fn finish_admin_login(account: Option<StoredAccount>, password: &str, secret: &str, expiry_hours: i64) -> (res: Result<LoginResponse, AppError>)
    ensures
        match login_refusal(account, password@, (ErrorKind::NotFound, "没有找到管理员账号，请使用 --reset-password 创建"@), "管理员密码错误"@) {
            Some((k, m)) => fails_with(res, k, m),
            None => exists|now: int| #[trigger] login_issued(res, account.unwrap(), secret@, expiry_hours, now),
        },
{
    let now = unix_now();
    let res = finish_admin_login_at(account, password, secret, expiry_hours, now);
    assert(login_refusal(account, password@, (ErrorKind::NotFound, "没有找到管理员账号，请使用 --reset-password 创建"@), "管理员密码错误"@) is None
        ==> login_issued(res, account.unwrap(), secret@, expiry_hours, now as int));
    res
}

/// An account about to be stored: its name, the hash of its password, and
/// its global role.
#[derive(Debug, Clone)]
pub struct NewAccount {
    pub username: String,
    pub password_hash: String,
    pub role: String,
}

/// Prepares a self-registration (`register`): the account is always a
/// regular user, under the name as given; its Argon2id hash verifies the
/// password. Only a password over 2^32 - 1 bytes is refused.
pub fn prepare_registration(req: &CreateUserRequest) -> (res: Result<NewAccount, AppError>)
    ensures
        encode_utf8(req.password@).len() <= MAX_PASSWORD_BYTES ==> res is Ok,
        match res {
            Ok(a) => a.username@ == req.username@ && a.role@ == "user"@ && password_check(
                req.password@,
                a.password_hash@,
            ) == Ok::<bool, AuthError>(true) && a.password_hash@.len() >= 10
                && a.password_hash@.take(10) == argon2id_prefix(),
            Err(e) => is_error_of(e, AuthError::HashingFailed),
        },
{
    match hash_password(req.password.as_str()) {
        Ok(h) => Ok(NewAccount { username: req.username.clone(), password_hash: h, role: String::from_str("user") }),
        Err(e) => Err(AppError::internal(e.message().as_str())),
    }
}

/// Whether `e` is the server error of the failure `f`.
pub open spec fn is_error_of(e: AppError, f: AuthError) -> bool {
    e.kind == ErrorKind::Internal && e.message@ == auth_error_text(f)
}

/// The identity the token of a request names (`me`).
pub fn user_info_of(user: AuthenticatedUser) -> (u: UserInfo)
    ensures
        u.id == user.id && u.username == user.username && u.role == user.role,
{
    UserInfo { id: user.id, username: user.username, role: user.role }
}

/// An account stored with the hash a registration made logs in with the
/// password it was registered with: no refusal applies to it.
pub proof fn lemma_registered_account_logs_in(account: StoredAccount, password: Seq<char>, missing: (ErrorKind, Seq<char>), wrong: Seq<char>)
    requires
        password_check(password, account.password_hash@) == Ok::<bool, AuthError>(true),
    ensures
        login_refusal(Some(account), password, missing, wrong) is None,
{
}

} // verus!
