//! The decisions of the administration handlers: creating and deleting
//! users, and the login expiry setting.
use crate::auth::{hash_password, password_check, AuthError, MAX_PASSWORD_BYTES};
use crate::errors::{fails_with, is_error, AppError, ErrorKind};
use crate::models::{CreateUserRequest, UserRecord};
use crate::primitives::utc_now_text;
use crate::routes::auth_routes::{is_error_of, NewAccount};
use crate::text::{contains, contains_text, decimal, decimal_of_i64, is_blank, parse_i64, parsed_i64, trim, trimmed};
use vstd::prelude::*;
use vstd::string::*;
use vstd::utf8::*;

verus! {

/// The shortest password, in bytes, an administrator may give a new user.
pub const MIN_PASSWORD_BYTES: usize = 6;

/// Prepares a user the administrator creates (`create_user`): the name must
/// not be blank and the password must have at least six bytes; the account
/// is always a regular user, under the trimmed name, whatever role the
/// request names.
pub fn prepare_new_user(req: &CreateUserRequest) -> (res: Result<NewAccount, AppError>)
    ensures
        trimmed(req.username@).len() == 0 ==> fails_with(res, ErrorKind::BadRequest, "Username is required"@),
        trimmed(req.username@).len() > 0 && encode_utf8(req.password@).len() < MIN_PASSWORD_BYTES ==> fails_with(res, ErrorKind::BadRequest, "Password must be at least 6 characters"@),
        trimmed(req.username@).len() > 0 && MIN_PASSWORD_BYTES <= encode_utf8(req.password@).len()
            <= MAX_PASSWORD_BYTES ==> res is Ok,
        res matches Err(e) ==> e.kind == ErrorKind::BadRequest || is_error_of(e, AuthError::HashingFailed),
        res matches Ok(a) ==> {
            &&& trimmed(req.username@).len() > 0
            &&& encode_utf8(req.password@).len() >= MIN_PASSWORD_BYTES
            &&& a.username@ == trimmed(req.username@)
            &&& a.role@ == "user"@
            &&& password_check(req.password@, a.password_hash@) == Ok::<bool, AuthError>(true)
        },
{
    if is_blank(req.username.as_str()) {
        return Err(AppError::bad_request("Username is required"));
    }
    if req.password.as_str().as_bytes().len() < MIN_PASSWORD_BYTES {
        return Err(AppError::bad_request("Password must be at least 6 characters"));
    }
    match hash_password(req.password.as_str()) {
        Ok(h) => Ok(NewAccount { username: trim(req.username.as_str()), password_hash: h, role: String::from_str("user") }),
        Err(e) => Err(AppError::internal(e.message().as_str())),
    }
}

/// The answer to a failed insertion of an account: a name that is taken
/// (the store's message mentions `UNIQUE`) is 400, anything else a server
/// error with the store's message.
pub fn account_insert_error(db_message: &str) -> (e: AppError)
    ensures
        contains_text(db_message@, "UNIQUE"@) ==> is_error(e, ErrorKind::BadRequest, "Username already exists"@),
        !contains_text(db_message@, "UNIQUE"@) ==> is_error(e, ErrorKind::Internal, db_message@),
{
    if contains(db_message, "UNIQUE") {
        AppError::bad_request("Username already exists")
    } else {
        AppError::internal(db_message)
    }
}

/// The record answered after an account was created, stamped with the
/// current UTC time.
pub fn created_user_record(id: i64, account: NewAccount) -> (r: UserRecord)
    ensures
        r.id == id && r.username == account.username && r.role == account.role,
{
    UserRecord { id, username: account.username, role: account.role, created_at: utc_now_text() }
}

/// Decides deleting a user (`delete_user`), in this order: administrators
/// cannot delete themselves; the user must exist; the built-in `admin`
/// account is protected.
pub fn check_user_deletion(target_id: i64, admin_id: i64, target_username: Option<&str>) -> (res: Result<(), AppError>)
    ensures
        target_id == admin_id ==> fails_with(res, ErrorKind::BadRequest, "Cannot delete yourself"@),
        target_id != admin_id && target_username is None ==> fails_with(res, ErrorKind::NotFound, "User not found"@),
        target_id != admin_id && (target_username matches Some(u) && u@ == "admin"@) ==> fails_with(res, ErrorKind::Forbidden, "Cannot delete the built-in admin account"@),
        res is Ok <==> (target_id != admin_id && (target_username matches Some(u) && u@ != "admin"@)),
{
    if target_id == admin_id {
        return Err(AppError::bad_request("Cannot delete yourself"));
    }
    let name = match target_username {
        None => return Err(AppError::not_found("User not found")),
        Some(n) => n,
    };
    if crate::text::same_text(name, "admin") {
        return Err(AppError::forbidden("Cannot delete the built-in admin account"));
    }
    Ok(())
}

/// The login expiry, in hours, used when none is stored or it does not read.
pub const DEFAULT_EXPIRY_HOURS: i64 = 24;

/// The login expiry a stored setting gives.
pub open spec fn expiry_setting(stored: Option<Seq<char>>) -> i64 {
    match stored {
        Some(v) => match parsed_i64(v) {
            Some(h) => h,
            None => DEFAULT_EXPIRY_HOURS,
        },
        None => DEFAULT_EXPIRY_HOURS,
    }
}

/// Reads the login expiry from the stored setting (`get_settings`, and at
/// start-up): its decimal value, or 24 hours.
pub fn stored_expiry_hours(stored: Option<&str>) -> (h: i64)
    ensures
        h == expiry_setting(match stored {
            Some(s) => Some(s@),
            None => None,
        }),
{
    match stored {
        Some(v) => match parse_i64(v) {
            Some(h) => h,
            None => DEFAULT_EXPIRY_HOURS,
        },
        None => DEFAULT_EXPIRY_HOURS,
    }
}

/// The bounds of the login expiry an administrator may set, in hours.
pub const MIN_EXPIRY_HOURS: i64 = 1;

/// The bounds of the login expiry an administrator may set, in hours.
pub const MAX_EXPIRY_HOURS: i64 = 720;

/// Decides a settings update (`update_settings`): a given expiry must lie
/// between 1 and 720 hours; the text to store is its decimal form. No
/// expiry in the request changes nothing.
pub fn check_expiry_update(hours: Option<i64>) -> (res: Result<Option<String>, AppError>)
    ensures
        match hours {
            None => res matches Ok(v) && v is None,
            Some(h) => if MIN_EXPIRY_HOURS <= h <= MAX_EXPIRY_HOURS {
                res matches Ok(v) && v matches Some(t) && t@ == decimal(h as int)
            } else {
                fails_with(res, ErrorKind::BadRequest, "Login expiry must be between 1 and 720 hours"@)
            },
        },
{
    match hours {
        None => Ok(None),
        Some(h) => if h < MIN_EXPIRY_HOURS || h > MAX_EXPIRY_HOURS {
            Err(AppError::bad_request("Login expiry must be between 1 and 720 hours"))
        } else {
            Ok(Some(decimal_of_i64(h)))
        },
    }
}

/// A stored expiry setting reads back as the expiry that was stored.
pub proof fn lemma_expiry_setting_roundtrip(h: i64)
    requires
        MIN_EXPIRY_HOURS <= h <= MAX_EXPIRY_HOURS,
    ensures
        expiry_setting(Some(decimal(h as int))) == h,
{
    crate::text::lemma_parse_decimal(h);
}

} // verus!
