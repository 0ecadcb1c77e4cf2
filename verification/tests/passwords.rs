use collpasswd::crypto::{EccCrypto, MasterKey};
use collpasswd::errors::{AppError, ErrorKind};
use collpasswd::models::{AuditQueryParams, CreatePasswordRequest, CreateUserRequest, UpdatePasswordRequest};
use collpasswd::routes::admin_routes::{
    account_insert_error, check_expiry_update, check_user_deletion, created_user_record,
    prepare_new_user, stored_expiry_hours,
};
use collpasswd::auth::verify_password;
use collpasswd::routes::audit_routes::{plan_book_audit, plan_global_audit};
use collpasswd::routes::book_routes::prepare_book;
use collpasswd::models::CreateBookRequest;
use collpasswd::routes::password_routes::{
    audit_detail, keep_nonempty, load_book_public_key, password_entry, plan_password_update,
    reveal_password, seal_new_password, unlock_book_key, PasswordRecord, PasswordRow,
};

fn assert_err<T: std::fmt::Debug>(r: Result<T, AppError>, kind: ErrorKind, msg: &str) {
    let e = r.unwrap_err();
    assert_eq!(e.kind, kind);
    assert_eq!(e.message, msg);
}

fn new_book(mk: &MasterKey) -> (String, String) {
    let book = prepare_book(&CreateBookRequest { name: "B".into(), description: None }, mk).unwrap();
    (book.sealed_private_key, book.public_key_pem)
}

fn create_req(title: &str, username: Option<&str>, password: &str) -> CreatePasswordRequest {
    CreatePasswordRequest {
        title: title.into(),
        username: username.map(|s| s.to_string()),
        password: password.into(),
        url: Some("https://x".into()),
        notes: None,
    }
}

fn record(encrypted: String) -> PasswordRecord {
    PasswordRecord {
        id: 1,
        sheet_id: 2,
        title: "SSH".into(),
        username: Some("".into()),
        encrypted_password: encrypted,
        url: Some("10.0.0.1".into()),
        notes: None,
        updated_at: "t".into(),
        updated_by_username: "alice".into(),
    }
}

#[test]
fn stored_password_is_revealed_unchanged() {
    let mk = MasterKey::derive_from_password("admin", &[5u8; 16]);
    let (sealed_key, pem) = new_book(&mk);
    let n = seal_new_password(true, &create_req(" SSH ", Some("root"), "pä55 wörd"), Some(&pem)).unwrap();
    assert_eq!(n.title, "SSH");
    assert_eq!(n.username, "root");
    assert_eq!(n.notes, "");
    assert_eq!(n.detail, "SSH：root");
    let d = reveal_password(&mk, &sealed_key, record(n.encrypted_password)).unwrap();
    assert_eq!(d.password, "pä55 wörd");
    assert_eq!(d.username, None);
    assert_eq!(d.url.as_deref(), Some("10.0.0.1"));
}

#[test]
fn creation_refusals_in_order() {
    let mk = MasterKey::derive_from_password("admin", &[5u8; 16]);
    let (_, pem) = new_book(&mk);
    assert_err(seal_new_password(false, &create_req("", None, ""), None), ErrorKind::Forbidden, "You don't have edit permission in this project");
    assert_err(seal_new_password(true, &create_req("  ", None, ""), Some(&pem)), ErrorKind::BadRequest, "Title is required");
    assert_err(seal_new_password(true, &create_req("t", None, ""), Some(&pem)), ErrorKind::BadRequest, "Password is required");
    assert_err(seal_new_password(true, &create_req("t", None, "p"), None), ErrorKind::NotFound, "Book not found");
    assert_err(
        seal_new_password(true, &create_req("t", None, "p"), Some("junk")),
        ErrorKind::Internal,
        "Failed to load book public key: Failed to deserialize public key from PEM",
    );
    let n = seal_new_password(true, &create_req("t", Some(""), "p"), Some(&pem)).unwrap();
    assert_eq!(n.detail, "t：—");
}

#[test]
fn reveal_failures() {
    let mk = MasterKey::derive_from_password("admin", &[5u8; 16]);
    let other = MasterKey::derive_from_password("other", &[5u8; 16]);
    let (sealed_key, pem) = new_book(&mk);
    let n = seal_new_password(true, &create_req("t", None, "p"), Some(&pem)).unwrap();
    assert_err(
        reveal_password(&other, &sealed_key, record(n.encrypted_password.clone())),
        ErrorKind::Internal,
        "Failed to decrypt book key: Master key decrypt failed: Error",
    );
    assert_err(
        reveal_password(&mk, &sealed_key, record("!!".into())),
        ErrorKind::Internal,
        "Failed to decrypt password: Failed to decode base64 ciphertext",
    );
    let not_pem = mk.encrypt_private_key("no key here").unwrap();
    let e = unlock_book_key(&mk, &not_pem).err().unwrap();
    assert_eq!(e.kind, ErrorKind::Internal);
    assert_eq!(e.message, "Failed to load book key: Failed to deserialize secret key from PEM");
    let pk = load_book_public_key(Some(&pem)).unwrap();
    let bad_utf8 = EccCrypto::encrypt(&pk, &[0xff, 0xfe]).unwrap();
    assert_err(reveal_password(&mk, &sealed_key, record(bad_utf8)), ErrorKind::Internal, "Decrypted password is not valid UTF-8");
}

#[test]
fn listed_entries_hide_empty_fields() {
    let e = password_entry(PasswordRow {
        id: 1,
        sheet_id: 2,
        title: "t".into(),
        username: Some("".into()),
        url: Some("u".into()),
        notes: None,
        updated_at: "x".into(),
        updated_by_username: "".into(),
    });
    assert_eq!(e.username, None);
    assert_eq!(e.url.as_deref(), Some("u"));
    assert!(e.has_password);
    assert_eq!(keep_nonempty(Some(String::new())), None);
}

#[test]
fn audit_details() {
    assert_eq!(audit_detail("生产服务器 SSH", Some("root")), "生产服务器 SSH：root");
    assert_eq!(audit_detail("t", None), "t：—");
}

#[test]
fn password_update_plans() {
    let mk = MasterKey::derive_from_password("admin", &[5u8; 16]);
    let (sealed_key, pem) = new_book(&mk);
    let req = UpdatePasswordRequest {
        title: Some(" T ".into()),
        username: None,
        password: Some("new-pass".into()),
        url: None,
        notes: Some("n".into()),
    };
    let u = plan_password_update(true, &req, Some(&pem)).unwrap();
    assert_eq!(
        u.sql,
        "UPDATE passwords SET title = ?, encrypted_password = ?, notes = ?, updated_at = datetime('now', '+8 hours'), updated_by_user_id = ?, updated_by_username = ? WHERE id = ?"
    );
    assert_eq!(u.params.len(), 3);
    assert_eq!(u.params[0], "T");
    assert_eq!(u.params[2], "n");
    let d = reveal_password(&mk, &sealed_key, record(u.params[1].clone())).unwrap();
    assert_eq!(d.password, "new-pass");

    let none = UpdatePasswordRequest { title: None, username: None, password: None, url: None, notes: None };
    assert_err(plan_password_update(true, &none, None), ErrorKind::BadRequest, "No fields to update");
    assert_err(plan_password_update(false, &req, Some(&pem)), ErrorKind::Forbidden, "You don't have edit permission in this project");
    assert_err(plan_password_update(true, &req, None), ErrorKind::NotFound, "Book not found");
    let url_only = UpdatePasswordRequest { title: None, username: None, password: None, url: Some("".into()), notes: None };
    let u = plan_password_update(true, &url_only, None).unwrap();
    assert_eq!(u.params, vec!["".to_string()]);
}

fn params(action: Option<&str>, limit: Option<i64>, offset: Option<i64>) -> AuditQueryParams {
    AuditQueryParams { action: action.map(|s| s.to_string()), limit, offset }
}

#[test]
fn global_audit_is_for_admins() {
    assert_err(plan_global_audit("user", &params(None, None, None)), ErrorKind::Forbidden, "Admin access required");
    let p = plan_global_audit("admin", &params(None, None, None)).unwrap();
    assert_eq!(p.count_sql, "SELECT COUNT(*) FROM audit_logs a LEFT JOIN books b ON a.book_id = b.id WHERE 1=1");
    assert!(p.data_sql.ends_with("WHERE 1=1 ORDER BY a.created_at DESC LIMIT ?1 OFFSET ?2"));
    assert_eq!((p.limit, p.offset), (50, 0));
    assert!(p.params.is_empty());
    let p = plan_global_audit("admin", &params(Some("view_password"), Some(1000), Some(20))).unwrap();
    assert_eq!((p.limit, p.offset), (500, 20));
    assert_eq!(p.params, vec!["view_password".to_string()]);
    assert!(p.data_sql.ends_with("WHERE a.action = ?1 ORDER BY a.created_at DESC LIMIT ?2 OFFSET ?3"));
}

#[test]
fn book_audit_pages() {
    let p = plan_book_audit(42, &params(Some("create_password"), None, None));
    assert_eq!(p.count_sql, "SELECT COUNT(*) FROM audit_logs a LEFT JOIN books b ON a.book_id = b.id WHERE a.book_id = 42 AND a.action = ?1");
    assert_eq!((p.limit, p.offset), (20, 0));
    let p = plan_book_audit(-3, &params(None, Some(500), Some(5)));
    assert!(p.count_sql.ends_with("WHERE a.book_id = -3"));
    assert_eq!((p.limit, p.offset), (200, 5));
    let p = plan_book_audit(1, &params(None, Some(7), None));
    assert_eq!(p.limit, 7);
}

#[test]
fn new_users_are_regular() {
    let req = CreateUserRequest { username: "  frank ".into(), password: "123456".into(), role: "admin".into() };
    let a = prepare_new_user(&req).unwrap();
    assert_eq!(a.username, "frank");
    assert_eq!(a.role, "user");
    assert_eq!(verify_password("123456", &a.password_hash), Ok(true));
    let r = created_user_record(12, a);
    assert_eq!((r.id, r.username.as_str(), r.role.as_str()), (12, "frank", "user"));
    assert_eq!(r.created_at.len(), 19);
}

#[test]
fn new_user_refusals() {
    let blank = CreateUserRequest { username: " ".into(), password: "123456".into(), role: "".into() };
    assert_err(prepare_new_user(&blank), ErrorKind::BadRequest, "Username is required");
    let short = CreateUserRequest { username: "g".into(), password: "12345".into(), role: "".into() };
    assert_err(prepare_new_user(&short), ErrorKind::BadRequest, "Password must be at least 6 characters");
    // Six bytes in two characters pass the byte count.
    let wide = CreateUserRequest { username: "g".into(), password: "密码".into(), role: "".into() };
    assert!(prepare_new_user(&wide).is_ok());
}

#[test]
fn insert_errors() {
    let e = account_insert_error("UNIQUE constraint failed: users.username");
    assert_eq!((e.kind, e.message.as_str()), (ErrorKind::BadRequest, "Username already exists"));
    let e = account_insert_error("disk I/O error");
    assert_eq!((e.kind, e.message.as_str()), (ErrorKind::Internal, "disk I/O error"));
}

#[test]
fn user_deletion_checks() {
    assert_err(check_user_deletion(1, 1, Some("admin")), ErrorKind::BadRequest, "Cannot delete yourself");
    assert_err(check_user_deletion(2, 1, None), ErrorKind::NotFound, "User not found");
    assert_err(check_user_deletion(2, 1, Some("admin")), ErrorKind::Forbidden, "Cannot delete the built-in admin account");
    assert!(check_user_deletion(2, 1, Some("bob")).is_ok());
}

#[test]
fn expiry_settings() {
    assert_eq!(stored_expiry_hours(None), 24);
    assert_eq!(stored_expiry_hours(Some("72")), 72);
    assert_eq!(stored_expiry_hours(Some("abc")), 24);
    assert_eq!(stored_expiry_hours(Some("+5")), 5);
    assert_eq!(check_expiry_update(Some(72)).unwrap(), Some("72".to_string()));
    assert_eq!(stored_expiry_hours(Some(&check_expiry_update(Some(720)).unwrap().unwrap())), 720);
    assert_eq!(check_expiry_update(None).unwrap(), None);
    assert_err(check_expiry_update(Some(0)), ErrorKind::BadRequest, "Login expiry must be between 1 and 720 hours");
    assert_err(check_expiry_update(Some(721)), ErrorKind::BadRequest, "Login expiry must be between 1 and 720 hours");
}

#[test]
fn negative_page_limit_is_clamped_to_zero() {
    let p = plan_global_audit("admin", &params(None, Some(-1), None)).unwrap();
    assert_eq!(p.limit, 0);
    let p = plan_book_audit(3, &params(None, Some(-20), Some(2)));
    assert_eq!((p.limit, p.offset), (0, 2));
}
