use collpasswd::crypto::{EccCrypto, MasterKey};
use collpasswd::errors::ErrorKind;
use collpasswd::models::{CreateBookRequest, IoPassword};
use collpasswd::routes::book_routes::prepare_book;
use collpasswd::routes::io_routes::{
    entry_label, export_entries, export_group, import_sheet_name, insert_failure_line, plan_import,
    prepare_import_entry, sheet_format_line, ImportTally, SealedEntry,
};
use collpasswd::routes::password_routes::{load_book_public_key, unlock_book_key};
use collpasswd::routes::spreadsheet::{
    book_entries, book_template, book_workbook, check_upload, export_sheet_rows, first_sheet,
    preview_book_upload, preview_sheet_upload, render_xlsx, sheet_entries, sheet_tab_name,
    build_workbook, sheet_template, sheet_workbook, XlsxSheet,
};

fn entry(title: &str, username: Option<&str>, password: &str, url: Option<&str>) -> IoPassword {
    IoPassword {
        title: title.into(),
        username: username.map(|s| s.to_string()),
        password: password.into(),
        url: url.map(|s| s.to_string()),
        notes: None,
    }
}

fn sealed(title: &str, encrypted: String) -> SealedEntry {
    SealedEntry { title: title.into(), username: Some("".into()), encrypted_password: encrypted, url: None, notes: Some("n".into()) }
}

#[test]
fn import_labels() {
    assert_eq!(entry_label(&entry("", None, "p", None), 3), "#3");
    assert_eq!(entry_label(&entry("SSH", Some("root"), "p", Some("10.0.0.1")), 1), "#1: 标题=SSH | 用户名=root | 网址=10.0.0.1");
    assert_eq!(entry_label(&entry("", Some(""), "p", Some("u")), 12), "#12: 网址=u");
}

#[test]
fn imported_entries_export_back() {
    let mk = MasterKey::derive_from_password("admin", &[8u8; 16]);
    let book = prepare_book(&CreateBookRequest { name: "B".into(), description: None }, &mk).unwrap();
    let pk = load_book_public_key(Some(&book.public_key_pem)).unwrap();
    let row = prepare_import_entry(&pk, &entry(" WiFi ", None, "s3cret", None), 1).unwrap();
    assert_eq!(row.title, "WiFi");
    assert_eq!(row.username, "");
    assert_eq!(row.detail, " WiFi ：");
    assert_eq!(row.label, "#1: 标题= WiFi ");
    let sk = unlock_book_key(&mk, &book.sealed_private_key).unwrap();
    let out = export_entries(&sk, &vec![sealed("WiFi", row.encrypted_password)]);
    assert_eq!(out.len(), 1);
    assert_eq!(out[0].password, "s3cret");
    assert_eq!(out[0].username, None);
    assert_eq!(out[0].notes.as_deref(), Some("n"));
}

#[test]
fn import_refusals_and_plan() {
    let (_sk, pk) = EccCrypto::generate_keypair().unwrap();
    assert_eq!(prepare_import_entry(&pk, &entry(" ", None, "p", None), 2).err(), Some("#2: 标题= （标题为空）".to_string()));
    assert_eq!(prepare_import_entry(&pk, &entry("t", None, "", None), 4).err(), Some("#4: 标题=t（密码为空）".to_string()));
    let plan = plan_import(&pk, &vec![entry("a", None, "1", None), entry("", None, "", None), entry("c", None, "3", None)], 10);
    assert_eq!(plan.len(), 3);
    assert!(plan[0].is_ok());
    assert_eq!(plan[1].as_ref().err(), Some(&"#11（标题为空）".to_string()));
    assert_eq!(plan[2].as_ref().unwrap().label, "#12: 标题=c");
}

#[test]
fn export_marks_undecryptable_entries() {
    let (sk, pk) = EccCrypto::generate_keypair().unwrap();
    let good = EccCrypto::encrypt(&pk, b"pw").unwrap();
    let not_text = EccCrypto::encrypt(&pk, &[0xc3, 0x28]).unwrap();
    let rows = vec![sealed("a", good), sealed("b", "garbage".into()), sealed("c", not_text)];
    let out = export_entries(&sk, &rows);
    assert_eq!(out.len(), 3);
    assert_eq!(out[0].password, "pw");
    assert_eq!(out[1].title, "b");
    assert_eq!(out[1].password, "⚠️ DECRYPT FAILED");
    assert_eq!(out[2].title, "c");
    assert_eq!(out[2].password, "⚠️ DECRYPT FAILED");
}

#[test]
fn export_groups_skip_empty_sheets() {
    let (sk, _pk) = EccCrypto::generate_keypair().unwrap();
    assert!(export_group(&sk, 1, "empty".into(), &vec![]).is_none());
    let g = export_group(&sk, 2, "s".into(), &vec![sealed("x", "bad".into())]).unwrap();
    assert_eq!((g.sheet_id, g.sheet_name.as_str(), g.passwords.len()), (2, "s", 1));
}

#[test]
fn import_report_lines() {
    assert_eq!(insert_failure_line("#3"), "#3（数据库写入失败）");
    assert_eq!(import_sheet_name(None), "导入的密码");
    assert_eq!(import_sheet_name(Some("服务器")), "服务器");
    assert_eq!(sheet_format_line("x"), "表「x」格式错误");
    let mut t = ImportTally::new();
    t.record_imported();
    t.record_error("#2（密码为空）".into());
    t.record_imported();
    assert_eq!((t.imported, t.error_count()), (2, 1));
}

fn grid(rows: &[&[&str]]) -> Vec<Vec<String>> {
    rows.iter().map(|r| r.iter().map(|c| c.to_string()).collect()).collect()
}

#[test]
fn uploads_are_checked() {
    let e = check_upload(0).unwrap_err();
    assert_eq!((e.kind, e.message.as_str()), (ErrorKind::BadRequest, "未上传文件"));
    let e = check_upload(10 * 1024 * 1024 + 1).unwrap_err();
    assert_eq!(e.message, "文件过大（10MB 限制），请上传较小的文件");
    assert!(check_upload(10 * 1024 * 1024).is_ok());
    assert_eq!(first_sheet(&vec![]).unwrap_err().message, "XLSX 中没有工作表");
    assert_eq!(first_sheet(&vec!["a".into(), "b".into()]).unwrap(), "a");
}

#[test]
fn sheet_upload_rows() {
    let g = grid(&[
        &["Title", "Website", "PASSWORD", "备注"],
        &[" SSH ", " 10.0.0.1 ", " pw ", ""],
        &["", "", ""],
        &["only-title"],
    ]);
    let out = sheet_entries(&g).unwrap();
    assert_eq!(out.len(), 2);
    assert_eq!(out[0].title, "SSH");
    assert_eq!(out[0].password, "pw");
    assert_eq!(out[0].url.as_deref(), Some("10.0.0.1"));
    assert_eq!(out[0].notes, None);
    assert_eq!(out[0].username, None);
    assert_eq!(out[1].title, "only-title");
    assert_eq!(out[1].password, "");
    assert!(sheet_entries(&vec![]).unwrap().is_empty());
    assert_eq!(sheet_entries(&grid(&[&["password"]])).unwrap_err().message, "XLSX 缺少 title 列");
    assert_eq!(sheet_entries(&grid(&[&["title"]])).unwrap_err().message, "XLSX 缺少 password 列");
}

#[test]
fn workbook_upload_groups() {
    let sheets = vec![
        ("Servers".to_string(), grid(&[&["title", "password", "website"], &["a", "1", "x"]])),
        ("Empty".to_string(), grid(&[&["title", "password"]])),
        ("NoCols".to_string(), grid(&[&["name"], &["a"]])),
        ("Blank".to_string(), vec![]),
    ];
    let groups = book_entries(&sheets).unwrap();
    assert_eq!(groups.len(), 1);
    assert_eq!(groups[0].sheet_name, "Servers");
    // Only `url` names the address column in a workbook upload.
    assert_eq!(groups[0].passwords[0].url, None);
    let e = book_entries(&vec![("Empty".to_string(), grid(&[&["title", "password"]]))]).unwrap_err();
    assert_eq!(e.message, "XLSX 中没有找到有效数据（需要包含 title 和 password 列的工作表）");
}

#[test]
fn export_layouts() {
    let rows = export_sheet_rows(&vec![entry("t", None, "p", Some("u"))]);
    assert_eq!(rows, grid(&[&["title", "username", "password", "url", "notes"], &["t", "", "p", "u", ""]]));
    assert_eq!(sheet_tab_name("short"), "short");
    let long: String = std::iter::repeat('表').take(40).collect();
    assert_eq!(sheet_tab_name(&long).chars().count(), 31);
    let w = sheet_workbook(&vec![]);
    assert_eq!(w.len(), 1);
    assert!(w[0].bold_header && w[0].name.is_none());
    let w = book_workbook(&vec![("a".into(), vec![]), ("b".into(), vec![entry("t", None, "p", None)])]);
    assert_eq!(w.len(), 1);
    assert_eq!(w[0].name.as_deref(), Some("b"));
    let w = book_workbook(&vec![("a".into(), vec![])]);
    assert_eq!(w[0].rows, grid(&[&["无数据"]]));
    assert!(!w[0].bold_header);
}

#[test]
fn workbooks_are_written() {
    for w in [sheet_template(), book_template(), book_workbook(&vec![])] {
        let bytes = render_xlsx(&w).unwrap();
        assert_eq!(&bytes[0..4], b"PK\x03\x04");
    }
    assert_eq!(book_template()[1].name.as_deref(), Some("数据库密码"));
}

#[test]
fn exported_workbook_previews_back() {
    let entries = vec![entry("SSH", Some("root"), "p@ss", Some("10.0.0.1")), entry("WiFi", None, "abc", None)];
    let bytes = render_xlsx(&sheet_workbook(&entries)).unwrap();
    let back = preview_sheet_upload(bytes).unwrap();
    assert_eq!(back.len(), 2);
    assert_eq!(back[0].title, "SSH");
    assert_eq!(back[0].username.as_deref(), Some("root"));
    assert_eq!(back[0].password, "p@ss");
    assert_eq!(back[0].url.as_deref(), Some("10.0.0.1"));
    assert_eq!(back[1].username, None);

    let book = book_workbook(&vec![("Servers".into(), entries), ("Empty".into(), vec![])]);
    let groups = preview_book_upload(render_xlsx(&book).unwrap()).unwrap();
    assert_eq!(groups.len(), 1);
    assert_eq!(groups[0].sheet_name, "Servers");
    assert_eq!(groups[0].passwords[1].title, "WiFi");
}

#[test]
fn bad_uploads_are_refused() {
    assert_eq!(preview_sheet_upload(vec![]).unwrap_err().message, "未上传文件");
    let e = preview_sheet_upload(b"not a workbook".to_vec()).unwrap_err();
    assert_eq!(e.kind, ErrorKind::BadRequest);
    assert!(e.message.starts_with("无法解析 XLSX: "));
    let e = preview_book_upload(render_xlsx(&book_workbook(&vec![])).unwrap()).unwrap_err();
    assert_eq!(e.message, "XLSX 中没有找到有效数据（需要包含 title 和 password 列的工作表）");
    let e = preview_sheet_upload(render_xlsx(&book_workbook(&vec![])).unwrap()).unwrap_err();
    assert_eq!(e.message, "XLSX 缺少 title 列");
}

fn named(name: &str, required: bool) -> XlsxSheet {
    XlsxSheet { name: Some(name.to_string()), name_required: required, bold_header: false, rows: grid(&[&["a"]]) }
}

#[test]
fn workbook_names_decide_whether_it_is_written() {
    let e = render_xlsx(&vec![named("Servers", true), named("servers", true)]).unwrap_err();
    assert_eq!(e.kind, ErrorKind::Internal);
    assert!(render_xlsx(&vec![named("bad/name", true)]).is_err());
    // A refused name that is not required keeps the default one.
    let bytes = render_xlsx(&vec![named("bad/name", false), named("Other", true)]).unwrap();
    assert_eq!(&bytes[0..4], b"PK\x03\x04");
    // Two refused optional names fall back to distinct defaults.
    assert!(render_xlsx(&vec![named("a:b", false), named("c:d", false)]).is_ok());
    // A default name taken by a later sheet is a reuse.
    assert!(render_xlsx(&vec![named("a:b", false), named("sheet1", true)]).is_err());
}

#[test]
fn every_worksheet_of_an_upload_is_previewed_in_order() {
    let book = book_workbook(&vec![("A".into(), vec![entry("t1", None, "p1", None)]), ("B".into(), vec![entry("t2", None, "p2", None)])]);
    let groups = preview_book_upload(render_xlsx(&book).unwrap()).unwrap();
    assert_eq!(groups.len(), 2);
    assert_eq!(groups[1].sheet_name, "B");
    assert_eq!(groups[1].passwords[0].password, "p2");
    let first = preview_sheet_upload(render_xlsx(&book).unwrap()).unwrap();
    assert_eq!(first.len(), 1);
    assert_eq!(first[0].title, "t1");
}

#[test]
fn built_workbook_holds_the_named_sheets() {
    let mut wb = build_workbook(&vec![named("First", true), named("bad?name", false)]).unwrap();
    assert_eq!(wb.worksheet_from_index(0).unwrap().name(), "First");
    assert_eq!(wb.worksheet_from_index(1).unwrap().name(), "Sheet2");
    assert!(build_workbook(&vec![named("bad?name", true)]).is_err());
}

#[test]
fn written_cells_keep_their_positions() {
    let sheet = XlsxSheet {
        name: Some("Cells".to_string()),
        name_required: true,
        bold_header: true,
        rows: grid(&[&["h1", "h2"], &["a", "", "c"]]),
    };
    let bytes = render_xlsx(&vec![sheet]).unwrap();
    let mut wb: calamine::Xlsx<_> = calamine::open_workbook_from_rs(std::io::Cursor::new(bytes)).unwrap();
    assert_eq!(calamine::Reader::sheet_names(&wb), vec!["Cells".to_string()]);
    let range = calamine::Reader::worksheet_range(&mut wb, "Cells").unwrap();
    assert_eq!(range.get_value((0, 1)), Some(&calamine::Data::String("h2".to_string())));
    assert_eq!(range.get_value((1, 0)), Some(&calamine::Data::String("a".to_string())));
    assert_eq!(range.get_value((1, 2)), Some(&calamine::Data::String("c".to_string())));
    assert_eq!(range.get_value((1, 1)), Some(&calamine::Data::Empty));
}
