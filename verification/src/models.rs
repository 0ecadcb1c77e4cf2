//! The records that requests carry in and responses carry out.
use vstd::prelude::*;
use vstd::string::*;

verus! {

// ─── Auth ───────────────────────────────────────────────────────────────────

/// Credentials of a login.
#[derive(Debug, Clone)]
pub struct LoginRequest {
    pub username: String,
    pub password: String,
}

/// A token and the user it was issued to.
#[derive(Debug, Clone)]
pub struct LoginResponse {
    pub token: String,
    pub user: UserInfo,
}

/// The public identity of a user.
#[derive(Debug, Clone)]
pub struct UserInfo {
    pub id: i64,
    pub username: String,
    pub role: String,
}

/// The claims a token carries: user id, name, global role, expiry (Unix seconds).
#[derive(Debug, Clone)]
pub struct Claims {
    pub sub: i64,
    pub username: String,
    pub role: String,
    pub exp: usize,
}

// ─── Books (projects) ──────────────────────────────────────────────────────

/// A book in the list of books a user sees.
#[derive(Debug, Clone)]
pub struct BookSummary {
    pub id: i64,
    pub name: String,
    pub description: Option<String>,
    pub created_at: String,
    pub created_by: i64,
    pub member_count: i64,
    pub is_holder: bool,
}

/// A book as `GET /api/books/:id` shows it.
#[derive(Debug, Clone)]
pub struct BookDetail {
    pub id: i64,
    pub name: String,
    pub description: Option<String>,
    pub created_at: String,
    pub created_by: i64,
    pub member_count: i64,
    pub is_holder: bool,
}

/// A request to create a book.
#[derive(Debug, Clone)]
pub struct CreateBookRequest {
    pub name: String,
    pub description: Option<String>,
}

/// A request to change a book's name or description.
#[derive(Debug, Clone)]
pub struct UpdateBookRequest {
    pub name: Option<String>,
    pub description: Option<String>,
}

/// A member of a book and the member's role there.
#[derive(Debug, Clone)]
pub struct BookMember {
    pub id: i64,
    pub user_id: i64,
    pub username: String,
    pub role: String,
}

/// A request to add a user to a book.
#[derive(Debug, Clone)]
pub struct AddMemberRequest {
    pub username: String,
    pub role: String,
}

/// A request to change a member's role.
#[derive(Debug, Clone)]
pub struct UpdateMemberRoleRequest {
    pub role: String,
}

// ─── Sheets ─────────────────────────────────────────────────────────────────

/// A sheet of a book.
#[derive(Debug, Clone)]
pub struct Sheet {
    pub id: i64,
    pub book_id: i64,
    pub name: String,
    pub description: Option<String>,
    pub created_at: String,
    pub password_count: i64,
}

/// A request to create a sheet.
#[derive(Debug, Clone)]
pub struct CreateSheetRequest {
    pub name: String,
    pub description: Option<String>,
}

/// A request to change a sheet.
#[derive(Debug, Clone)]
pub struct UpdateSheetRequest {
    pub name: Option<String>,
    pub description: Option<String>,
}

// ─── Passwords ──────────────────────────────────────────────────────────────

/// A password entry as listed: never with the password itself.
#[derive(Debug, Clone)]
pub struct PasswordEntry {
    pub id: i64,
    pub sheet_id: i64,
    pub title: String,
    pub username: Option<String>,
    pub url: Option<String>,
    pub notes: Option<String>,
    pub updated_at: String,
    pub updated_by_username: String,
    pub has_password: bool,
}

/// A password entry with its decrypted password.
#[derive(Debug, Clone)]
pub struct PasswordDetail {
    pub id: i64,
    pub sheet_id: i64,
    pub title: String,
    pub username: Option<String>,
    pub password: String,
    pub url: Option<String>,
    pub notes: Option<String>,
    pub updated_at: String,
    pub updated_by_username: String,
}

/// A request to create a password entry.
#[derive(Debug, Clone)]
pub struct CreatePasswordRequest {
    pub title: String,
    pub username: Option<String>,
    pub password: String,
    pub url: Option<String>,
    pub notes: Option<String>,
}

/// A request to change a password entry; absent fields stay.
#[derive(Debug, Clone)]
pub struct UpdatePasswordRequest {
    pub title: Option<String>,
    pub username: Option<String>,
    pub password: Option<String>,
    pub url: Option<String>,
    pub notes: Option<String>,
}

// ─── Admin ──────────────────────────────────────────────────────────────────

/// A request to create a user (the role it names is ignored).
#[derive(Debug, Clone)]
pub struct CreateUserRequest {
    pub username: String,
    pub password: String,
    pub role: String,
}

/// A request to change a global role.
#[derive(Debug, Clone)]
pub struct UpdateRoleRequest {
    pub role: String,
}

/// A user as the administrator's list shows it.
#[derive(Debug, Clone)]
pub struct UserRecord {
    pub id: i64,
    pub username: String,
    pub role: String,
    pub created_at: String,
}

/// A user as the member picker shows it.
#[derive(Debug, Clone)]
pub struct UserBrief {
    pub id: i64,
    pub username: String,
}

// ─── Audit ──────────────────────────────────────────────────────────────────

/// One entry of the audit log.
#[derive(Debug, Clone)]
pub struct AuditLogEntry {
    pub id: i64,
    pub book_id: i64,
    pub sheet_id: Option<i64>,
    pub password_id: Option<i64>,
    pub user_id: i64,
    pub username: String,
    pub action: String,
    pub detail: String,
    pub created_at: String,
}

/// A filter of the audit log.
#[derive(Debug, Clone)]
pub struct AuditQuery {
    pub book_id: Option<i64>,
    pub action: Option<String>,
    pub limit: Option<i64>,
}

/// The query parameters of the audit log pages.
#[derive(Debug, Clone)]
pub struct AuditQueryParams {
    pub action: Option<String>,
    pub limit: Option<i64>,
    pub offset: Option<i64>,
}

// ─── Import / export ───────────────────────────────────────────────────────

/// One password entry as it is imported or exported.
#[derive(Debug, Clone)]
pub struct IoPassword {
    pub title: String,
    pub username: Option<String>,
    pub password: String,
    pub url: Option<String>,
    pub notes: Option<String>,
}

// ─── Generic response ──────────────────────────────────────────────────────

/// The envelope `{ success, data, error }` of a response.
#[derive(Debug, Clone)]
pub struct ApiResponse<T> {
    pub success: bool,
    pub data: Option<T>,
    pub error: Option<String>,
}

impl<T> ApiResponse<T> {
    /// A successful response carrying `data`.
    pub fn ok(data: T) -> (r: Self)
        ensures
            r.success && r.data == Some(data) && r.error is None,
    {
        ApiResponse { success: true, data: Some(data), error: None }
    }

    /// A failed response carrying the message `msg`.
    pub fn err(msg: &str) -> (r: Self)
        ensures
            !r.success,
            r.data is None,
            r.error matches Some(m) && m@ == msg@,
    {
        ApiResponse { success: false, data: None, error: Some(String::from_str(msg)) }
    }
}

} // verus!
