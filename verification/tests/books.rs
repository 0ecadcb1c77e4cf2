use collpasswd::crypto::{EccCrypto, MasterKey};
use collpasswd::errors::{require_found, AppError, ErrorKind};
use collpasswd::models::{
    AddMemberRequest, CreateBookRequest, CreateSheetRequest, UpdateBookRequest, UpdateSheetRequest,
};
use collpasswd::routes::book_routes::{
    book_access_verdict, book_detail, book_detail_verdict, book_summary, build_update_sql, can_edit, check_book_deletion,
    check_member_addition, check_member_removal, check_member_role_change, created_book_detail,
    is_admin, lists_every_book, plan_book_update, prepare_book, require_affected,
    require_edit_permission, search_pattern, BookRow,
};
use collpasswd::routes::sheet_routes::{check_new_sheet, created_sheet, plan_sheet_update};

fn assert_err<T: std::fmt::Debug>(r: Result<T, AppError>, kind: ErrorKind, msg: &str) {
    let e = r.unwrap_err();
    assert_eq!(e.kind, kind);
    assert_eq!(e.message, msg);
}

#[test]
fn edit_rights() {
    assert!(can_edit(true, None));
    assert!(can_edit(false, Some("edit")));
    assert!(can_edit(false, Some("admin")));
    assert!(can_edit(false, Some("editor")));
    assert!(!can_edit(false, Some("view")));
    assert!(!can_edit(false, None));
    assert!(is_admin("admin"));
    assert!(!is_admin("Admin"));
    assert!(lists_every_book("admin"));
    assert!(!lists_every_book("user"));
}

#[test]
fn access_verdicts() {
    assert!(book_access_verdict(Some(true)).is_ok());
    assert_err(book_access_verdict(Some(false)), ErrorKind::NotFound, "Book not found");
    assert_err(book_access_verdict(None), ErrorKind::Internal, "Database error");
    assert_err(require_edit_permission(false), ErrorKind::Forbidden, "You don't have edit permission in this project");
    assert!(require_edit_permission(true).is_ok());
    assert_err(require_affected(0, "Sheet not found"), ErrorKind::NotFound, "Sheet not found");
    assert!(require_affected(2, "x").is_ok());
    assert_err(require_found::<i64>(None, "Sheet not found"), ErrorKind::NotFound, "Sheet not found");
    assert_eq!(require_found(Some(4), "x").unwrap(), 4);
}

#[test]
fn error_statuses() {
    assert_eq!(AppError::bad_request("x").status(), 400);
    assert_eq!(AppError::unauthorized("x").status(), 401);
    assert_eq!(AppError::forbidden("x").status(), 403);
    assert_eq!(AppError::not_found("x").status(), 404);
    assert_eq!(AppError::internal("x").status(), 500);
}

fn row(created_by: i64) -> BookRow {
    BookRow {
        id: 1,
        name: "Team".into(),
        description: None,
        created_at: "2024-01-01".into(),
        created_by,
        member_count: 3,
    }
}

#[test]
fn holder_flag_of_listed_books() {
    assert!(book_summary(row(5), 5).is_holder);
    assert!(!book_summary(row(5), 6).is_holder);
    assert_eq!(book_summary(row(5), 6).member_count, 3);
    assert!(book_detail(Some(row(5)), 5).unwrap().is_holder);
    assert_err(book_detail(None, 5), ErrorKind::NotFound, "Book not found");
}

#[test]
fn new_book_keys_belong_together() {
    let mk = MasterKey::derive_from_password("admin-pw", &[3u8; 16]);
    let req = CreateBookRequest { name: "  Servers ".into(), description: None };
    let book = prepare_book(&req, &mk).unwrap();
    assert_eq!(book.name, "Servers");
    assert_eq!(book.description, "");
    let pem = mk.decrypt_private_key(&book.sealed_private_key).unwrap();
    let sk = EccCrypto::secret_key_from_pem(&pem).unwrap();
    let pk = EccCrypto::public_key_from_pem(&book.public_key_pem).unwrap();
    let c = EccCrypto::encrypt(&pk, b"hunter2").unwrap();
    assert_eq!(EccCrypto::decrypt(&sk, &c).unwrap(), b"hunter2");
    assert_ne!(book.sealed_private_key, pem);
    assert!(!book.sealed_private_key.starts_with("-----BEGIN"));
}

#[test]
fn blank_book_name_is_refused() {
    let mk = MasterKey::derive_from_password("admin-pw", &[3u8; 16]);
    let req = CreateBookRequest { name: " \t ".into(), description: Some("d".into()) };
    assert_err(prepare_book(&req, &mk), ErrorKind::BadRequest, "Book name is required");
}

#[test]
fn created_book_is_held_by_its_creator() {
    let mk = MasterKey::derive_from_password("admin-pw", &[3u8; 16]);
    let req = CreateBookRequest { name: "B".into(), description: Some("about".into()) };
    let book = prepare_book(&req, &mk).unwrap();
    let d = created_book_detail(11, &book, 4, "now".into());
    assert_eq!((d.id, d.created_by, d.member_count, d.is_holder), (11, 4, 1, true));
    assert_eq!(d.description.as_deref(), Some("about"));
}

#[test]
fn update_statement_text() {
    let cols = vec!["name = ?".to_string(), "description = ?".to_string()];
    assert_eq!(build_update_sql("books", &cols), "UPDATE books SET name = ?, description = ? WHERE id = ?");
}

#[test]
fn book_update_plans() {
    let req = UpdateBookRequest { name: Some(" New ".into()), description: Some("".into()) };
    let u = plan_book_update(Some(1), 1, "user", &req).unwrap();
    assert_eq!(u.sql, "UPDATE books SET name = ?, description = ? WHERE id = ?");
    assert_eq!(u.params, vec!["New".to_string(), "".to_string()]);

    let blank_name = UpdateBookRequest { name: Some("  ".into()), description: None };
    assert_err(plan_book_update(Some(1), 1, "user", &blank_name), ErrorKind::BadRequest, "No fields to update");
    assert_err(plan_book_update(None, 1, "user", &req), ErrorKind::NotFound, "Book not found");
    assert_err(
        plan_book_update(Some(2), 1, "user", &req),
        ErrorKind::Forbidden,
        "Only the book holder or admin can update this project",
    );
    assert!(plan_book_update(Some(2), 1, "admin", &req).is_ok());
}

#[test]
fn book_deletion_rights() {
    assert!(check_book_deletion(Some(1), 1, "user").is_ok());
    assert!(check_book_deletion(Some(1), 2, "admin").is_ok());
    assert_err(check_book_deletion(Some(1), 2, "user"), ErrorKind::Forbidden, "Only the book holder or admin can delete this book");
    assert_err(check_book_deletion(None, 2, "admin"), ErrorKind::NotFound, "Book not found");
}

#[test]
fn member_addition_in_order() {
    let req = AddMemberRequest { username: "bob".into(), role: "view".into() };
    let m = check_member_addition(true, "user", &req, Some((8, "bob".into())), false).unwrap();
    assert_eq!((m.user_id, m.username.as_str(), m.role.as_str()), (8, "bob", "view"));
    assert_err(check_member_addition(false, "user", &req, None, false), ErrorKind::Forbidden, "Only the book holder can add members");
    let bad = AddMemberRequest { username: "bob".into(), role: "owner".into() };
    assert_err(check_member_addition(true, "user", &bad, None, false), ErrorKind::BadRequest, "Role must be 'edit' or 'view'");
    assert_err(check_member_addition(false, "admin", &req, None, false), ErrorKind::NotFound, "User not found");
    assert_err(
        check_member_addition(true, "user", &req, Some((8, "bob".into())), true),
        ErrorKind::BadRequest,
        "User is already a member of this book",
    );
}

#[test]
fn holder_stays_in_the_book() {
    assert_err(check_member_removal(true, "user", true), ErrorKind::Forbidden, "Cannot remove the book holder from the project");
    assert_err(check_member_removal(false, "user", false), ErrorKind::Forbidden, "Only the book holder can remove members");
    assert!(check_member_removal(false, "admin", false).is_ok());
    assert_err(check_member_role_change(true, "user", "edit", true), ErrorKind::Forbidden, "Cannot change the book holder's role");
    assert_err(check_member_role_change(true, "user", "boss", false), ErrorKind::BadRequest, "Role must be 'edit' or 'view'");
    assert_err(check_member_role_change(false, "user", "edit", false), ErrorKind::Forbidden, "Only the book holder can change member roles");
    assert!(check_member_role_change(true, "user", "edit", false).is_ok());
}

#[test]
fn search_patterns() {
    assert_eq!(search_pattern(Some("  ssh ")), Some("%ssh%".to_string()));
    assert_eq!(search_pattern(Some("   ")), None);
    assert_eq!(search_pattern(None), None);
}

#[test]
fn new_sheet_checks() {
    let req = CreateSheetRequest { name: " WiFi ".into(), description: None };
    assert_err(check_new_sheet(false, &req), ErrorKind::Forbidden, "You don't have edit permission in this project");
    let blank = CreateSheetRequest { name: "".into(), description: None };
    assert_err(check_new_sheet(true, &blank), ErrorKind::BadRequest, "Sheet name is required");
    let s = check_new_sheet(true, &req).unwrap();
    assert_eq!(s.name, "WiFi");
    let sheet = created_sheet(5, 2, &s, "t".into());
    assert_eq!((sheet.id, sheet.book_id, sheet.password_count), (5, 2, 0));
    assert_eq!(sheet.description, None);
}

#[test]
fn sheet_update_plans() {
    let req = UpdateSheetRequest { name: Some("  ".into()), description: None };
    let u = plan_sheet_update(true, &req).unwrap();
    assert_eq!(u.sql, "UPDATE sheets SET name = ? WHERE id = ?");
    assert_eq!(u.params, vec!["".to_string()]);
    let none = UpdateSheetRequest { name: None, description: None };
    assert_err(plan_sheet_update(true, &none), ErrorKind::BadRequest, "No fields to update");
    assert_err(plan_sheet_update(false, &req), ErrorKind::Forbidden, "You don't have edit permission in this project");
}

#[test]
fn admins_read_any_books_details() {
    assert!(book_detail_verdict(Some(false), "admin").is_ok());
    assert!(book_detail_verdict(None, "admin").is_ok());
    assert!(book_detail_verdict(Some(true), "user").is_ok());
    assert_err(book_detail_verdict(Some(false), "user"), ErrorKind::NotFound, "Book not found");
    assert_err(book_detail_verdict(None, "user"), ErrorKind::Internal, "Database error");
}
