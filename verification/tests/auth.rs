use base64::Engine;
use collpasswd::auth::{
    authenticate, create_token, create_token_at, extract_bearer_token, hash_password, require_admin,
    validate_token, verify_password, AuthError, AuthRejection, AuthenticatedUser, JwtSecret,
};
use collpasswd::errors::ErrorKind;
use collpasswd::models::{CreateUserRequest, UserInfo};
use collpasswd::routes::auth_routes::{
    finish_admin_login, finish_admin_login_at, finish_login, finish_login_at, issue_login,
    issue_login_at, prepare_registration, user_info_of, StoredAccount,
};

fn alice() -> UserInfo {
    UserInfo { id: 7, username: "alice".to_string(), role: "user".to_string() }
}

#[test]
fn hashed_password_verifies() {
    let h = hash_password("s3cret").unwrap();
    assert!(h.starts_with("$argon2id$"));
    assert_eq!(verify_password("s3cret", &h), Ok(true));
    assert_eq!(verify_password("other", &h), Ok(false));
}

#[test]
fn malformed_hash_is_an_error() {
    assert_eq!(verify_password("x", "not-a-hash"), Err(AuthError::InvalidHash));
    assert_eq!(AuthError::InvalidHash.message(), "Invalid password hash");
}

#[test]
fn token_carries_the_user() {
    let token = create_token(&alice(), "secret", 24).unwrap();
    let claims = validate_token(&token, "secret").unwrap();
    assert_eq!(claims.sub, 7);
    assert_eq!(claims.username, "alice");
    assert_eq!(claims.role, "user");
    assert!(validate_token(&token, "other secret").is_err());
}

#[test]
fn token_expiry_is_hours_after_issue() {
    let now = chrono::Utc::now().timestamp();
    let token = create_token_at(&alice(), "k", 2, now).unwrap();
    let claims = validate_token(&token, "k").unwrap();
    assert_eq!(claims.exp as i64, now + 7200);
}

#[test]
fn token_payload_lists_claims_in_order() {
    let token = create_token_at(&alice(), "k", 1, 1_700_000_000).unwrap();
    let payload = token.split('.').nth(1).unwrap();
    let json = base64::engine::general_purpose::URL_SAFE_NO_PAD.decode(payload).unwrap();
    assert_eq!(
        String::from_utf8(json).unwrap(),
        r#"{"sub":7,"username":"alice","role":"user","exp":1700003600}"#
    );
}

#[test]
fn expired_token_is_refused() {
    let token = create_token_at(&alice(), "k", -2, chrono::Utc::now().timestamp()).unwrap();
    assert_eq!(validate_token(&token, "k").err(), Some(AuthError::InvalidToken));
}

#[test]
fn absurd_expiry_is_refused() {
    assert_eq!(create_token(&alice(), "k", i64::MAX).err(), Some(AuthError::ExpiryOutOfRange));
}

#[test]
fn bearer_header_is_parsed() {
    assert_eq!(extract_bearer_token(Some("Bearer abc.def")), Ok("abc.def".to_string()));
    assert_eq!(extract_bearer_token(None), Err(AuthRejection::MissingToken));
    assert_eq!(extract_bearer_token(Some("Basic abc")), Err(AuthRejection::InvalidFormat));
    assert_eq!(extract_bearer_token(Some("bearer abc")), Err(AuthRejection::InvalidFormat));
}

#[test]
fn request_is_authenticated_by_its_token() {
    let secret = JwtSecret("server-secret".to_string());
    let token = create_token(&alice(), &secret.0, 24).unwrap();
    let header = format!("Bearer {}", token);
    let user = authenticate(Some(&header), &secret).unwrap();
    assert_eq!(user.id, 7);
    assert_eq!(user.username, "alice");
    assert_eq!(authenticate(Some("Bearer junk"), &secret).err(), Some(AuthRejection::InvalidToken));
    assert_eq!(authenticate(None, &secret).err(), Some(AuthRejection::MissingToken));
}

#[test]
fn rejections_have_messages_and_statuses() {
    assert_eq!(AuthRejection::MissingToken.message(), "Missing authorization token");
    assert_eq!(AuthRejection::InvalidFormat.message(), "Invalid authorization format, expected Bearer");
    assert_eq!(AuthRejection::InvalidToken.message(), "Invalid or expired token");
    assert_eq!(AuthRejection::Forbidden.message(), "Forbidden: admin access required");
    assert_eq!(AuthRejection::MissingToken.status(), 401);
    assert_eq!(AuthRejection::Forbidden.status(), 403);
}

#[test]
fn only_admins_pass_the_admin_check() {
    let admin = AuthenticatedUser { id: 1, username: "admin".to_string(), role: "admin".to_string() };
    assert_eq!(require_admin(admin).unwrap().0.id, 1);
    let user = AuthenticatedUser { id: 2, username: "bob".to_string(), role: "user".to_string() };
    assert_eq!(require_admin(user).err(), Some(AuthRejection::Forbidden));
}

fn account(password: &str, role: &str) -> StoredAccount {
    StoredAccount {
        id: 3,
        username: "carol".to_string(),
        password_hash: hash_password(password).unwrap(),
        role: role.to_string(),
    }
}

#[test]
fn login_with_right_password_issues_a_token() {
    let r = finish_login(Some(account("pw123456", "user")), "pw123456", "k", 24).unwrap();
    assert_eq!(r.user.id, 3);
    assert_eq!(r.user.username, "carol");
    assert_eq!(validate_token(&r.token, "k").unwrap().sub, 3);
}

#[test]
fn login_refusals_look_the_same() {
    let e = finish_login(Some(account("pw123456", "user")), "wrong", "k", 24).unwrap_err();
    assert_eq!(e.kind, ErrorKind::Unauthorized);
    assert_eq!(e.message, "Invalid username or password");
    let e = finish_login(None, "pw", "k", 24).unwrap_err();
    assert_eq!(e.kind, ErrorKind::Unauthorized);
    assert_eq!(e.message, "Invalid username or password");
    assert_eq!(e.status(), 401);
}

#[test]
fn login_with_broken_hash_is_a_server_error() {
    let acc = StoredAccount { id: 1, username: "x".into(), password_hash: "garbage".into(), role: "user".into() };
    let e = finish_login(Some(acc), "pw", "k", 24).unwrap_err();
    assert_eq!(e.kind, ErrorKind::Internal);
    assert_eq!(e.message, "Invalid password hash");
}

#[test]
fn admin_login_messages() {
    let e = finish_admin_login(None, "pw", "k", 24).unwrap_err();
    assert_eq!(e.kind, ErrorKind::NotFound);
    assert_eq!(e.message, "没有找到管理员账号，请使用 --reset-password 创建");
    let e = finish_admin_login(Some(account("right-one", "admin")), "wrong", "k", 24).unwrap_err();
    assert_eq!(e.kind, ErrorKind::Unauthorized);
    assert_eq!(e.message, "管理员密码错误");
    let r = finish_admin_login(Some(account("right-one", "admin")), "right-one", "k", 24).unwrap();
    assert_eq!(r.user.role, "admin");
}

#[test]
fn registration_makes_a_regular_user_that_can_log_in() {
    let req = CreateUserRequest { username: " dave ".into(), password: "pw".into(), role: "admin".into() };
    let acc = prepare_registration(&req).unwrap();
    assert_eq!(acc.username, " dave ");
    assert_eq!(acc.role, "user");
    let stored = StoredAccount { id: 9, username: acc.username, password_hash: acc.password_hash, role: acc.role };
    let r = finish_login(Some(stored), "pw", "k", 1).unwrap();
    assert_eq!(r.user.id, 9);
}

#[test]
fn issued_login_names_the_user() {
    let r = issue_login(alice(), "k", 5).unwrap();
    assert_eq!(r.user.username, "alice");
    assert_eq!(validate_token(&r.token, "k").unwrap().username, "alice");
    let e = issue_login(alice(), "k", i64::MIN).unwrap_err();
    assert_eq!(e.message, "Token expiry out of range");
}

#[test]
fn me_shows_the_token_identity() {
    let u = user_info_of(AuthenticatedUser { id: 5, username: "eve".into(), role: "user".into() });
    assert_eq!((u.id, u.username.as_str(), u.role.as_str()), (5, "eve", "user"));
}

#[test]
fn expiry_beyond_the_calendar_is_refused_at_a_given_time() {
    let latest = 8_210_266_876_799;
    assert_eq!(create_token_at(&alice(), "k", 1, latest).err(), Some(AuthError::ExpiryOutOfRange));
    assert!(create_token_at(&alice(), "k", 0, latest).is_ok());
    let e = issue_login_at(alice(), "k", 24, latest).unwrap_err();
    assert_eq!(e.message, "Token expiry out of range");
}

#[test]
fn login_at_a_given_time_issues_that_times_token() {
    let now = chrono::Utc::now().timestamp();
    let r = finish_login_at(Some(account("pw123456", "user")), "pw123456", "k", 3, now).unwrap();
    assert_eq!(r.user.id, 3);
    let claims = validate_token(&r.token, "k").unwrap();
    assert_eq!(claims.exp as i64, now + 3 * 3600);
    assert_eq!(claims.username, "carol");
    let e = finish_login_at(Some(account("pw123456", "user")), "nope", "k", 3, now).unwrap_err();
    assert_eq!(e.message, "Invalid username or password");
    let e = finish_admin_login_at(Some(account("pw123456", "admin")), "pw123456", "k", 24, 8_210_266_876_799).unwrap_err();
    assert_eq!(e.kind, ErrorKind::Internal);
    assert_eq!(e.message, "Token expiry out of range");
    let r = finish_admin_login_at(Some(account("pw123456", "admin")), "pw123456", "k", 1, now).unwrap();
    assert_eq!(r.user.role, "admin");
}

#[test]
fn well_signed_but_expired_bearer_token_is_invalid() {
    let secret = JwtSecret("server-secret".to_string());
    let token = create_token_at(&alice(), &secret.0, -1, chrono::Utc::now().timestamp()).unwrap();
    let header = format!("Bearer {}", token);
    assert_eq!(authenticate(Some(&header), &secret).err(), Some(AuthRejection::InvalidToken));
}

#[test]
fn registration_hash_is_argon2id() {
    let req = CreateUserRequest { username: "dave".to_string(), password: "pw".to_string(), role: "user".to_string() };
    let a = prepare_registration(&req).unwrap();
    assert!(a.password_hash.starts_with("$argon2id$"));
    assert_ne!(a.password_hash, "pw");
}
