//! Export and import of password entries: decrypting a sheet's entries for
//! export, and sealing imported entries for the book's public key, with the
//! report of every entry that was not imported.
use crate::crypto::{
    ecies_open, master_open, CryptoError, EccCrypto, EccPublicKey, EccSecretKey, AES_GCM_MAX_PLAINTEXT,
};
use crate::models::IoPassword;
use crate::primitives::{
    p256_public_from_pem, p256_public_of, p256_secret_accepted, p256_secret_from_pem, p256_secret_pem,
    utf8_string,
};
use crate::routes::book_routes::book_keys_match;
use crate::routes::password_routes::{book_key_unlock, keep_nonempty, sealed_for, sealed_to, shown};
use crate::text::{concat, decimal, decimal_of_u64, is_blank, join_texts, joined, texts, trim, trimmed};
use vstd::prelude::*;
use vstd::string::*;
use vstd::utf8::*;

verus! {

/// The view of an optional text.
pub open spec fn opt_text_view(o: Option<String>) -> Option<Seq<char>> {
    match o {
        Some(s) => Some(s@),
        None => None,
    }
}

/// The view of an entry: title, user name, password, address, notes.
pub type EntryView = (Seq<char>, Option<Seq<char>>, Seq<char>, Option<Seq<char>>, Option<Seq<char>>);

/// The view of an entry.
pub open spec fn io_view(e: IoPassword) -> EntryView {
    (e.title@, opt_text_view(e.username), e.password@, opt_text_view(e.url), opt_text_view(e.notes))
}

/// The views of a list of entries.
pub open spec fn io_views(v: Seq<IoPassword>) -> Seq<EntryView> {
    v.map_values(|e: IoPassword| io_view(e))
}

/// A stored entry as export reads it, with its ciphertext.
#[derive(Debug, Clone)]
pub struct SealedEntry {
    pub title: String,
    pub username: Option<String>,
    pub encrypted_password: String,
    pub url: Option<String>,
    pub notes: Option<String>,
}

/// What export shows of one stored entry under the book's secret key:
/// the decrypted password, or a marker in its place when decryption fails
/// or the decrypted bytes are not UTF-8 text. Empty optional fields are
/// shown as none.
pub open spec fn exported_entry(secret: Seq<u8>, r: SealedEntry) -> EntryView {
    let password = match ecies_open(secret, r.encrypted_password@) {
        Ok(p) => if valid_utf8(p) {
            decode_utf8(p)
        } else {
            "⚠️ DECRYPT FAILED"@
        },
        Err(_) => "⚠️ DECRYPT FAILED"@,
    };
    (r.title@, opt_text_view(shown(r.username)), password, opt_text_view(shown(r.url)), opt_text_view(shown(r.notes)))
}

/// What export shows of a list of stored entries: one entry per row, in
/// order.
pub open spec fn exported(secret: Seq<u8>, rows: Seq<SealedEntry>) -> Seq<EntryView> {
    rows.map_values(|r: SealedEntry| exported_entry(secret, r))
}

/// A copy of an optional text.
fn copy_opt(o: &Option<String>) -> (r: Option<String>)
    ensures
        r == *o,
{
    match o {
        Some(s) => Some(s.clone()),
        None => None,
    }
}

/// Decrypts the stored entries of a sheet for export (`export_sheet`),
/// in order.
pub fn export_entries(sk: &EccSecretKey, rows: &Vec<SealedEntry>) -> (out: Vec<IoPassword>)
    ensures
        io_views(out@) == exported(sk@, rows@),
        out@.len() == rows@.len(),
{
    let mut out: Vec<IoPassword> = Vec::new();
    let n = rows.len();
    for i in 0..n
        invariant
            n == rows@.len(),
            io_views(out@) == exported(sk@, rows@.take(i as int)),
    {
        let r = &rows[i];
        let ghost before = out@;
        let password = match EccCrypto::decrypt(sk, r.encrypted_password.as_str()) {
            Err(_) => String::from_str("⚠️ DECRYPT FAILED"),
            Ok(p) => match utf8_string(p) {
                Some(text) => text,
                None => String::from_str("⚠️ DECRYPT FAILED"),
            },
        };
        out.push(
            IoPassword {
                title: r.title.clone(),
                username: keep_nonempty(copy_opt(&r.username)),
                password,
                url: keep_nonempty(copy_opt(&r.url)),
                notes: keep_nonempty(copy_opt(&r.notes)),
            },
        );
        assert(io_views(out@) =~= io_views(before).push(io_view(out@.last())));
        assert(exported(sk@, rows@.take(i + 1)) =~= exported(sk@, rows@.take(i as int)).push(
            exported_entry(sk@, rows@[i as int]),
        ));
    }
    assert(rows@.take(n as int) =~= rows@);
    out
}

/// The entries of one sheet in a book's export.
#[derive(Debug, Clone)]
pub struct ExportGroup {
    pub sheet_name: String,
    pub sheet_id: i64,
    pub passwords: Vec<IoPassword>,
}

/// One sheet of a book's export (`export_book`): a sheet without stored
/// entries is left out.
pub fn export_group(sk: &EccSecretKey, sheet_id: i64, sheet_name: String, rows: &Vec<SealedEntry>) -> (g: Option<ExportGroup>)
    ensures
        rows@.len() == 0 ==> g is None,
        rows@.len() > 0 ==> (g matches Some(grp) && grp.sheet_id == sheet_id && grp.sheet_name
            == sheet_name && io_views(grp.passwords@) == exported(sk@, rows@)),
{
    if rows.len() == 0 {
        return None;
    }
    Some(ExportGroup { sheet_name, sheet_id, passwords: export_entries(sk, rows) })
}

/// An entry that was sealed for a book's public key exports as the password
/// that was sealed, once the book's key is unsealed with the master key.
pub proof fn lemma_sealed_entry_exports(master: Seq<u8>, sealed_book_key: Seq<char>, public_pem: Seq<char>, secret: Seq<u8>, password: Seq<char>, r: SealedEntry)
    requires
        book_keys_match(master, sealed_book_key, public_pem),
        book_key_unlock(master, sealed_book_key) == Ok::<_, Seq<char>>(secret),
        sealed_for(public_pem, encode_utf8(password), r.encrypted_password@),
    ensures
        exported_entry(secret, r) == (r.title@, opt_text_view(shown(r.username)), password, opt_text_view(shown(r.url)), opt_text_view(shown(r.notes))),
{
    let s = choose|s: Seq<u8>|
        p256_secret_accepted(s) && #[trigger] master_open(master, sealed_book_key) == Ok::<_, CryptoError>(
            p256_secret_pem(s),
        ) && p256_secret_from_pem(p256_secret_pem(s)) == Some(s) && p256_public_from_pem(public_pem)
            == Some(p256_public_of(s));
    assert(secret == s);
    assert(ecies_open(s, r.encrypted_password@) == Ok::<_, CryptoError>(encode_utf8(password)));
    encode_utf8_valid_utf8(password);
    encode_utf8_decode_utf8(password);
}

// ─── import ────────────────────────────────────────────────────────────────

/// The parts that identify an entry in an import report: its title, its
/// user name and its address, each when not empty.
pub open spec fn identity_parts(e: IoPassword) -> Seq<Seq<char>> {
    (if e.title@.len() > 0 { seq!["标题="@ + e.title@] } else { seq![] }) + match e.username {
        Some(u) => if u@.len() > 0 { seq!["用户名="@ + u@] } else { seq![] },
        None => seq![],
    } + match e.url {
        Some(u) => if u@.len() > 0 { seq!["网址="@ + u@] } else { seq![] },
        None => seq![],
    }
}

/// The label of the `n`-th imported entry in the report: `#n`, then its
/// identity when it has one.
pub open spec fn import_label(e: IoPassword, n: int) -> Seq<char> {
    let identity = joined(identity_parts(e), " | "@);
    if identity.len() == 0 {
        "#"@ + decimal(n)
    } else {
        "#"@ + decimal(n) + ": "@ + identity
    }
}

proof fn lemma_joined_nonempty(parts: Seq<Seq<char>>, sep: Seq<char>)
    requires
        parts.len() > 0,
        forall|i: int| 0 <= i < parts.len() ==> (#[trigger] parts[i]).len() > 0,
    ensures
        joined(parts, sep).len() > 0,
    decreases parts.len(),
{
    if parts.len() > 1 {
        assert(parts.last() == parts[parts.len() - 1]);
    } else {
        assert(parts[0].len() > 0);
    }
}

/// Writes the label of the `n`-th imported entry.
pub fn entry_label(e: &IoPassword, n: u64) -> (l: String)
    ensures
        l@ == import_label(*e, n as int),
{
    let mut parts: Vec<String> = Vec::new();
    if !e.title.as_str().is_empty() {
        parts.push(concat("标题=", e.title.as_str()));
    }
    let ghost after_title = texts(parts@);
    if let Some(u) = &e.username {
        if !u.as_str().is_empty() {
            parts.push(concat("用户名=", u.as_str()));
        }
    }
    let ghost after_user = texts(parts@);
    if let Some(u) = &e.url {
        if !u.as_str().is_empty() {
            parts.push(concat("网址=", u.as_str()));
        }
    }
    proof {
        reveal_strlit("标题=");
        reveal_strlit("用户名=");
        reveal_strlit("网址=");
    }
    assert(texts(parts@) =~= identity_parts(*e));
    let identity = join_texts(&parts, " | ");
    proof {
        if parts@.len() > 0 {
            assert forall|i: int| 0 <= i < identity_parts(*e).len() implies (
            #[trigger] identity_parts(*e)[i]).len() > 0 by {
                assert(identity_parts(*e)[i] == parts@[i]@);
            }
            lemma_joined_nonempty(identity_parts(*e), " | "@);
        }
    }
    let number = decimal_of_u64(n);
    let mut label = concat("#", number.as_str());
    if !identity.as_str().is_empty() {
        label.append(": ");
        label.append(identity.as_str());
    }
    label
}

/// An imported entry ready to be stored: the trimmed title, the user name,
/// address and notes (empty when absent), the sealed password, the detail
/// of its audit entry, and its label in the report.
#[derive(Debug, Clone)]
pub struct ImportRow {
    pub title: String,
    pub username: String,
    pub encrypted_password: String,
    pub url: String,
    pub notes: String,
    pub detail: String,
    pub label: String,
}

/// The text of an optional field, empty when absent.
pub open spec fn text_or_empty(o: Option<String>) -> Seq<char> {
    match o {
        Some(s) => s@,
        None => seq![],
    }
}

/// Why the `n`-th imported entry is refused, as its line in the report:
/// a blank title, an empty password, or a password beyond what AES-GCM
/// seals.
pub open spec fn import_refusal(e: IoPassword, n: int) -> Option<Seq<char>> {
    if trimmed(e.title@).len() == 0 {
        Some(import_label(e, n) + "（标题为空）"@)
    } else if e.password@.len() == 0 {
        Some(import_label(e, n) + "（密码为空）"@)
    } else if encode_utf8(e.password@).len() > AES_GCM_MAX_PLAINTEXT {
        Some(import_label(e, n) + "（加密失败）"@)
    } else {
        None
    }
}

/// Whether `row` is what the `n`-th imported entry `e` stores, sealed for
/// the public key `point`.
pub open spec fn is_import_row(row: ImportRow, e: IoPassword, n: int, point: Seq<u8>) -> bool {
    &&& row.title@ == trimmed(e.title@)
    &&& row.username@ == text_or_empty(e.username)
    &&& row.url@ == text_or_empty(e.url)
    &&& row.notes@ == text_or_empty(e.notes)
    &&& sealed_to(point, encode_utf8(e.password@), row.encrypted_password@)
    &&& row.detail@ == e.title@ + "："@ + text_or_empty(e.username)
    &&& row.label@ == import_label(e, n)
}

/// Law: the row an imported entry stores keeps every field of the entry:
/// the title trimmed, and the user name, address and notes as given, each
/// empty only when the entry has none.
pub proof fn law_import_row_keeps_fields(row: ImportRow, e: IoPassword, n: int, point: Seq<u8>)
    requires
        is_import_row(row, e, n, point),
    ensures
        row.title@ == trimmed(e.title@),
        match e.username {
            Some(u) => row.username@ == u@,
            None => row.username@.len() == 0,
        },
        match e.url {
            Some(u) => row.url@ == u@,
            None => row.url@.len() == 0,
        },
        match e.notes {
            Some(t) => row.notes@ == t@,
            None => row.notes@.len() == 0,
        },
{
}

/// An optional field's text, empty when absent.
fn or_empty(o: &Option<String>) -> (s: String)
    ensures
        s@ == text_or_empty(*o),
{
    match o {
        Some(t) => t.clone(),
        None => String::new(),
    }
}

/// Decides the `n`-th entry of an import (`import_sheet`, `import_book`):
/// refused with its report line, or sealed for the book's public key.
pub fn prepare_import_entry(pk: &EccPublicKey, e: &IoPassword, n: u64) -> (res: Result<ImportRow, String>)
    ensures
        match import_refusal(*e, n as int) {
            Some(line) => res matches Err(l) && l@ == line,
            None => res matches Ok(row) && is_import_row(row, *e, n as int, pk@),
        },
{
    let label = entry_label(e, n);
    if is_blank(e.title.as_str()) {
        return Err(concat(label.as_str(), "（标题为空）"));
    }
    if e.password.as_str().is_empty() {
        return Err(concat(label.as_str(), "（密码为空）"));
    }
    let encrypted_password = match EccCrypto::encrypt(pk, e.password.as_str().as_bytes()) {
        Ok(c) => c,
        Err(_) => return Err(concat(label.as_str(), "（加密失败）")),
    };
    let username = or_empty(&e.username);
    let mut detail = concat(e.title.as_str(), "：");
    detail.append(username.as_str());
    Ok(
        ImportRow {
            title: trim(e.title.as_str()),
            username,
            encrypted_password,
            url: or_empty(&e.url),
            notes: or_empty(&e.notes),
            detail,
            label,
        },
    )
}

/// Decides every entry of an import, numbered from `first`, in order.
pub fn plan_import(pk: &EccPublicKey, entries: &Vec<IoPassword>, first: u64) -> (plan: Vec<Result<ImportRow, String>>)
    requires
        first + entries@.len() <= u64::MAX,
    ensures
        plan@.len() == entries@.len(),
        forall|i: int|
            0 <= i < entries@.len() ==> match import_refusal(entries@[i], first + i) {
                Some(line) => #[trigger] plan@[i] matches Err(l) && l@ == line,
                None => plan@[i] matches Ok(row) && is_import_row(row, entries@[i], first + i, pk@),
            },
{
    let mut plan: Vec<Result<ImportRow, String>> = Vec::new();
    let n = entries.len();
    for i in 0..n
        invariant
            n == entries@.len(),
            first + n <= u64::MAX,
            plan@.len() == i,
            forall|k: int|
                0 <= k < i ==> match import_refusal(entries@[k], first + k) {
                    Some(line) => #[trigger] plan@[k] matches Err(l) && l@ == line,
                    None => plan@[k] matches Ok(row) && is_import_row(row, entries@[k], first + k, pk@),
                },
    {
        let r = prepare_import_entry(pk, &entries[i], first + i as u64);
        plan.push(r);
    }
    plan
}

/// The report line of an entry the store refused to write.
pub fn insert_failure_line(label: &str) -> (l: String)
    ensures
        l@ == label@ + "（数据库写入失败）"@,
{
    concat(label, "（数据库写入失败）")
}

/// The name of an imported sheet: the given one, or a default.
pub fn import_sheet_name(name: Option<&str>) -> (s: String)
    ensures
        match name {
            Some(n) => s@ == n@,
            None => s@ == "导入的密码"@,
        },
{
    match name {
        Some(n) => String::from_str(n),
        None => String::from_str("导入的密码"),
    }
}

/// The report line of an imported sheet whose entries do not read.
pub fn sheet_format_line(name: &str) -> (l: String)
    ensures
        l@ == "表「"@ + name@ + "」格式错误"@,
{
    let mut l = concat("表「", name);
    l.append("」格式错误");
    l
}

/// The running result of an import: how many entries were stored, and the
/// report line of each that was not, in order.
#[derive(Debug, Clone)]
pub struct ImportTally {
    pub imported: i64,
    pub error_details: Vec<String>,
}

impl ImportTally {
    /// Nothing imported yet.
    pub fn new() -> (t: ImportTally)
        ensures
            t.imported == 0 && t.error_details@.len() == 0,
    {
        ImportTally { imported: 0, error_details: Vec::new() }
    }

    /// Counts one stored entry.
    pub fn record_imported(&mut self)
        requires
            old(self).imported < i64::MAX,
        ensures
            final(self).imported == old(self).imported + 1,
            final(self).error_details@ == old(self).error_details@,
    {
        self.imported = self.imported + 1;
    }

    /// Reports one entry that was not stored.
    pub fn record_error(&mut self, line: String)
        ensures
            final(self).imported == old(self).imported,
            final(self).error_details@ == old(self).error_details@.push(line),
    {
        self.error_details.push(line);
    }

    /// How many entries were not stored.
    pub fn error_count(&self) -> (n: usize)
        ensures
            n == self.error_details@.len(),
    {
        self.error_details.len()
    }
}

} // verus!
