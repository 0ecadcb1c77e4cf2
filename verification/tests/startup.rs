use collpasswd::auth::hash_password;
use collpasswd::crypto::MasterKey;
use collpasswd::models::ApiResponse;
use collpasswd::startup::{
    asset_path, check_startup_password, fresh_jwt_secret, key_action, password_setup_step, resolve_master_key,
    salt_text, serves_index_instead, static_answer, type_key, KeyAction, PasswordSetup, SaltError,
    StaticAnswer,
};
use collpasswd::text::{contains, decimal_of_i64, decimal_of_u64, is_blank, join_texts, parse_i64, strip_prefix, trim};

#[test]
fn first_start_password_dialogue() {
    assert_eq!(password_setup_step("12345", None), PasswordSetup::TooShort);
    assert_eq!(password_setup_step("123456", None), PasswordSetup::Confirm);
    assert_eq!(password_setup_step("123456", Some("123457")), PasswordSetup::Mismatch);
    assert_eq!(password_setup_step("123456", Some("123456")), PasswordSetup::Accepted);
    assert_eq!(PasswordSetup::TooShort.message().as_deref(), Some("密码至少需要 6 位，请重新输入"));
    assert_eq!(PasswordSetup::Mismatch.message().as_deref(), Some("两次输入不一致，请重新设置"));
    assert_eq!(PasswordSetup::Accepted.message(), None);
}

#[test]
fn later_start_password_check() {
    let h = hash_password("admin-pw").unwrap();
    assert_eq!(check_startup_password(Some(&h), "admin-pw"), Ok(()));
    assert_eq!(check_startup_password(Some(&h), "nope"), Err("❌ 密码错误".to_string()));
    assert_eq!(check_startup_password(None, "x"), Err("数据库中没有管理员账号".to_string()));
    assert_eq!(check_startup_password(Some("bad"), "x"), Err("验证失败: Invalid password hash".to_string()));
}

#[test]
fn stored_salt_gives_the_same_master_key() {
    let salt = MasterKey::generate_salt();
    let first = MasterKey::derive_from_password("pw", &salt);
    let again = resolve_master_key(&salt_text(&salt), "pw").unwrap();
    let sealed = first.encrypt_private_key("book key").unwrap();
    assert_eq!(again.decrypt_private_key(&sealed).unwrap(), "book key");
    assert_eq!(resolve_master_key("@@", "pw").err(), Some(SaltError::InvalidEncoding));
    assert_eq!(resolve_master_key("AAAA", "pw").err(), Some(SaltError::TooShort));
}

#[test]
fn masked_input_keys() {
    assert_eq!(key_action(b'\n'), KeyAction::Finish);
    assert_eq!(key_action(b'\r'), KeyAction::Finish);
    assert_eq!(key_action(0x7f), KeyAction::Erase);
    assert_eq!(key_action(0x08), KeyAction::Erase);
    assert_eq!(key_action(0x03), KeyAction::Abort);
    assert_eq!(key_action(b'a'), KeyAction::Append('a'));
    assert_eq!(key_action(0xe9), KeyAction::Append('é'));
}

#[test]
fn static_paths() {
    assert_eq!(asset_path("/"), "index.html");
    assert_eq!(asset_path(""), "index.html");
    assert_eq!(asset_path("//app.js"), "app.js");
    assert_eq!(asset_path("/css/site.css"), "css/site.css");
    assert!(serves_index_instead("books/1"));
    assert!(!serves_index_instead("api/books"));
    assert!(serves_index_instead("ap"));
    match static_answer("app.js", true, true) {
        StaticAnswer::Asset { path, content_type } => {
            assert_eq!(path, "app.js");
            assert_eq!(content_type, "text/javascript");
        }
        other => panic!("unexpected {:?}", other),
    }
    assert!(matches!(static_answer("x.bin", false, true), StaticAnswer::Index));
    assert!(matches!(static_answer("api/x", false, true), StaticAnswer::NotFound));
    assert!(matches!(static_answer("x", false, false), StaticAnswer::NotFound));
}

#[test]
fn unknown_extension_is_octet_stream() {
    match static_answer("data.zzz", true, false) {
        StaticAnswer::Asset { content_type, .. } => assert_eq!(content_type, "application/octet-stream"),
        other => panic!("unexpected {:?}", other),
    }
}

#[test]
fn api_responses() {
    let ok = ApiResponse::ok(3);
    assert!(ok.success && ok.data == Some(3) && ok.error.is_none());
    let err: ApiResponse<i32> = ApiResponse::err("bad");
    assert!(!err.success && err.data.is_none());
    assert_eq!(err.error.as_deref(), Some("bad"));
}

#[test]
fn text_helpers() {
    assert_eq!(trim("\u{3000} a b \n"), "a b");
    assert!(is_blank(" \t\u{a0}"));
    assert!(!is_blank(" x "));
    assert_eq!(parse_i64("-42"), Some(-42));
    assert_eq!(parse_i64("+7"), Some(7));
    assert_eq!(parse_i64("9223372036854775807"), Some(i64::MAX));
    assert_eq!(parse_i64("9223372036854775808"), None);
    assert_eq!(parse_i64("-9223372036854775808"), Some(i64::MIN));
    assert_eq!(parse_i64(" 1"), None);
    assert_eq!(parse_i64("-"), None);
    assert_eq!(decimal_of_i64(i64::MIN), "-9223372036854775808");
    assert_eq!(decimal_of_u64(0), "0");
    assert_eq!(collpasswd::text::concat("a", "é"), "aé");
    assert!(contains("abcUNIQUEdef", "UNIQUE"));
    assert!(!contains("abc", "abcd"));
    assert_eq!(strip_prefix("Bearer x", "Bearer "), Some("x".to_string()));
    assert_eq!(join_texts(&vec!["a".into(), "b".into()], ", "), "a, b");
    assert_eq!(join_texts(&vec![], ", "), "");
}

#[test]
fn each_run_signs_with_a_fresh_secret() {
    let a = fresh_jwt_secret();
    let b = fresh_jwt_secret();
    assert_eq!(a.0.len(), 36);
    assert_ne!(a.0, b.0);
}

#[test]
fn masked_input_applies_each_key() {
    let mut typed: Vec<char> = Vec::new();
    for &b in b"ab\x7fc\n" {
        if type_key(&mut typed, b) == KeyAction::Finish {
            break;
        }
    }
    assert_eq!(typed.iter().collect::<String>(), "ac");
    let mut empty: Vec<char> = Vec::new();
    assert_eq!(type_key(&mut empty, 0x08), KeyAction::Erase);
    assert!(empty.is_empty());
    assert_eq!(type_key(&mut empty, 0x03), KeyAction::Abort);
    assert!(empty.is_empty());
}
