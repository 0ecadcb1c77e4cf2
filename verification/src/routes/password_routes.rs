//! The decisions of the password handlers: listing without secrets,
//! revealing one password, sealing a new or changed password for the book's
//! public key, and the audit detail of each change.
use crate::crypto::{
    crypto_error_text, ecies_open, master_open, CryptoError, EccCrypto, EccPublicKey, EccSecretKey,
    MasterKey, AES_GCM_MAX_PLAINTEXT,
};
use crate::errors::{fails_with, AppError, ErrorKind};
use crate::models::{CreatePasswordRequest, PasswordDetail, PasswordEntry, UpdatePasswordRequest};
use crate::primitives::{
    p256_public_from_pem, p256_public_of, p256_secret_accepted, p256_secret_from_pem, utf8_string,
    wipe_string,
};
use crate::routes::book_routes::{book_keys_match, require_edit_permission};
use crate::text::{concat, is_blank, join_texts, joined, texts, trim, trimmed};
use vstd::prelude::*;
use vstd::string::*;
use vstd::utf8::*;

verus! {

/// The optional text as shown: an empty text is shown as none.
pub open spec fn shown(o: Option<String>) -> Option<String> {
    match o {
        Some(s) => if s@.len() > 0 {
            Some(s)
        } else {
            None
        },
        None => None,
    }
}

/// Drops an empty optional text.
pub fn keep_nonempty(o: Option<String>) -> (r: Option<String>)
    ensures
        r == shown(o),
{
    match o {
        Some(s) => if s.as_str().is_empty() {
            None
        } else {
            Some(s)
        },
        None => None,
    }
}

/// The audit detail of a password entry: its title, a full-width colon, and
/// its user name, or an em dash when it has none.
pub open spec fn entry_detail(title: Seq<char>, username: Option<Seq<char>>) -> Seq<char> {
    title + "："@ + match username {
        Some(u) => u,
        None => "—"@,
    }
}

/// The view of an optional text.
pub open spec fn opt_seq(o: Option<&str>) -> Option<Seq<char>> {
    match o {
        Some(s) => Some(s@),
        None => None,
    }
}

/// Writes the audit detail of a password entry.
pub fn audit_detail(title: &str, username: Option<&str>) -> (d: String)
    ensures
        d@ == entry_detail(title@, opt_seq(username)),
{
    let mut d = concat(title, "：");
    match username {
        Some(u) => d.append(u),
        None => d.append("—"),
    }
    d
}

/// A password entry as the store lists it, without its ciphertext.
#[derive(Debug, Clone)]
pub struct PasswordRow {
    pub id: i64,
    pub sheet_id: i64,
    pub title: String,
    pub username: Option<String>,
    pub url: Option<String>,
    pub notes: Option<String>,
    pub updated_at: String,
    pub updated_by_username: String,
}

/// A listed entry (`list_passwords`): empty optional fields are shown as
/// none, and the password is never part of it.
pub fn password_entry(row: PasswordRow) -> (e: PasswordEntry)
    ensures
        e.id == row.id && e.sheet_id == row.sheet_id && e.title == row.title && e.updated_at
            == row.updated_at && e.updated_by_username == row.updated_by_username,
        e.username == shown(row.username) && e.url == shown(row.url) && e.notes == shown(
            row.notes,
        ),
        e.has_password,
{
    PasswordEntry {
        id: row.id,
        sheet_id: row.sheet_id,
        title: row.title,
        username: keep_nonempty(row.username),
        url: keep_nonempty(row.url),
        notes: keep_nonempty(row.notes),
        updated_at: row.updated_at,
        updated_by_username: row.updated_by_username,
        has_password: true,
    }
}

/// A password entry as the store holds it, with its ciphertext.
#[derive(Debug, Clone)]
pub struct PasswordRecord {
    pub id: i64,
    pub sheet_id: i64,
    pub title: String,
    pub username: Option<String>,
    pub encrypted_password: String,
    pub url: Option<String>,
    pub notes: Option<String>,
    pub updated_at: String,
    pub updated_by_username: String,
}

/// What unsealing a book's private key gives: the secret scalar, or the
/// message of the failure.
pub open spec fn book_key_unlock(master: Seq<u8>, sealed: Seq<char>) -> Result<Seq<u8>, Seq<char>> {
    match master_open(master, sealed) {
        Err(e) => Err("Failed to decrypt book key: "@ + crypto_error_text(e)),
        Ok(pem) => match p256_secret_from_pem(pem) {
            None => Err("Failed to load book key: "@ + crypto_error_text(CryptoError::SecretKeyFromPem)),
            Some(s) => Ok(s),
        },
    }
}

/// What revealing a password gives: the password text, or the message of
/// the failure.
pub open spec fn password_reveal(master: Seq<u8>, sealed: Seq<char>, ciphertext: Seq<char>) -> Result<Seq<char>, Seq<char>> {
    match book_key_unlock(master, sealed) {
        Err(m) => Err(m),
        Ok(s) => match ecies_open(s, ciphertext) {
            Err(e) => Err("Failed to decrypt password: "@ + crypto_error_text(e)),
            Ok(p) => if valid_utf8(p) {
                Ok(decode_utf8(p))
            } else {
                Err("Decrypted password is not valid UTF-8"@)
            },
        },
    }
}

/// Unseals a book's private key with the master key; the PEM text it passes
/// through is wiped once the key is read.
pub fn unlock_book_key(master: &MasterKey, sealed: &str) -> (res: Result<EccSecretKey, AppError>)
    ensures
        match book_key_unlock(master@, sealed@) {
            Ok(s) => res matches Ok(sk) && sk@ == s,
            Err(m) => fails_with(res, ErrorKind::Internal, m),
        },
{
    let mut pem = match master.decrypt_private_key(sealed) {
        Ok(p) => p,
        Err(e) => {
            let msg = concat("Failed to decrypt book key: ", e.message().as_str());
            return Err(AppError::internal(msg.as_str()));
        },
    };
    let sk = match EccCrypto::secret_key_from_pem(pem.as_str()) {
        Ok(k) => k,
        Err(e) => {
            let msg = concat("Failed to load book key: ", e.message().as_str());
            return Err(AppError::internal(msg.as_str()));
        },
    };
    wipe_string(&mut pem);
    Ok(sk)
}

/// Reveals one password (`get_password`): the book key is unsealed with the
/// master key, the password decrypted with it and read as UTF-8 text; each
/// failure is a server error with its message.
pub fn reveal_password(master: &MasterKey, sealed_book_key: &str, rec: PasswordRecord) -> (res: Result<PasswordDetail, AppError>)
    ensures
        match password_reveal(master@, sealed_book_key@, rec.encrypted_password@) {
            Ok(p) => res matches Ok(d) && d.password@ == p && d.id == rec.id && d.sheet_id
                == rec.sheet_id && d.title == rec.title && d.username == shown(rec.username)
                && d.url == shown(rec.url) && d.notes == shown(rec.notes) && d.updated_at
                == rec.updated_at && d.updated_by_username == rec.updated_by_username,
            Err(m) => fails_with(res, ErrorKind::Internal, m),
        },
{
    let sk = match unlock_book_key(master, sealed_book_key) {
        Ok(k) => k,
        Err(e) => return Err(e),
    };
    let plain = match EccCrypto::decrypt(&sk, rec.encrypted_password.as_str()) {
        Ok(p) => p,
        Err(e) => {
            let msg = concat("Failed to decrypt password: ", e.message().as_str());
            return Err(AppError::internal(msg.as_str()));
        },
    };
    let password = match utf8_string(plain) {
        Some(s) => s,
        None => return Err(AppError::internal("Decrypted password is not valid UTF-8")),
    };
    Ok(
        PasswordDetail {
            id: rec.id,
            sheet_id: rec.sheet_id,
            title: rec.title,
            username: keep_nonempty(rec.username),
            password,
            url: keep_nonempty(rec.url),
            notes: keep_nonempty(rec.notes),
            updated_at: rec.updated_at,
            updated_by_username: rec.updated_by_username,
        },
    )
}

/// Whether `ciphertext` decrypts to `plaintext` under every secret key whose
/// public key is `point`.
pub open spec fn sealed_to(point: Seq<u8>, plaintext: Seq<u8>, ciphertext: Seq<char>) -> bool {
    forall|s: Seq<u8>|
        p256_secret_accepted(s) && p256_public_of(s) == point ==> #[trigger] ecies_open(s, ciphertext)
            == Ok::<_, CryptoError>(plaintext)
}

/// Whether `ciphertext` decrypts to `plaintext` under every secret key whose
/// public key is the one written in `public_pem`.
pub open spec fn sealed_for(public_pem: Seq<char>, plaintext: Seq<u8>, ciphertext: Seq<char>) -> bool {
    p256_public_from_pem(public_pem) matches Some(pk) && sealed_to(pk, plaintext, ciphertext)
}

/// What sealing a password for a book fails with: a missing book, a public
/// key that does not read, or a password beyond what AES-GCM seals.
pub open spec fn seal_failure(public_pem: Option<Seq<char>>, plaintext: Seq<u8>) -> Option<(ErrorKind, Seq<char>)> {
    match public_pem {
        None => Some((ErrorKind::NotFound, "Book not found"@)),
        Some(pem) => if p256_public_from_pem(pem) is None {
            Some(
                (
                    ErrorKind::Internal,
                    "Failed to load book public key: "@ + crypto_error_text(CryptoError::PublicKeyFromPem),
                ),
            )
        } else if plaintext.len() > AES_GCM_MAX_PLAINTEXT {
            Some(
                (
                    ErrorKind::Internal,
                    "Failed to encrypt password: "@ + crypto_error_text(CryptoError::AesEncrypt),
                ),
            )
        } else {
            None
        },
    }
}

/// Reads the public key of a book from the PEM text looked up for it: a
/// missing book is 404, a text that does not read a server error.
pub fn load_book_public_key(book_public_key: Option<&str>) -> (res: Result<EccPublicKey, AppError>)
    ensures
        match book_public_key {
            None => fails_with(res, ErrorKind::NotFound, "Book not found"@),
            Some(pem) => match p256_public_from_pem(pem@) {
                None => fails_with(res, ErrorKind::Internal, "Failed to load book public key: "@
                    + crypto_error_text(CryptoError::PublicKeyFromPem)),
                Some(pk) => res matches Ok(k) && k@ == pk,
            },
        },
{
    let pem = match book_public_key {
        None => return Err(AppError::not_found("Book not found")),
        Some(p) => p,
    };
    match EccCrypto::public_key_from_pem(pem) {
        Ok(k) => Ok(k),
        Err(e) => {
            let msg = concat("Failed to load book public key: ", e.message().as_str());
            Err(AppError::internal(msg.as_str()))
        },
    }
}

/// Seals a password for the book whose public key PEM was looked up.
fn seal_password(book_public_key: Option<&str>, password: &str) -> (res: Result<String, AppError>)
    ensures
        match seal_failure(opt_seq(book_public_key), encode_utf8(password@)) {
            Some((k, m)) => fails_with(res, k, m),
            None => res matches Ok(c) && sealed_for(book_public_key.unwrap()@, encode_utf8(password@), c@),
        },
{
    let pk = match load_book_public_key(book_public_key) {
        Ok(k) => k,
        Err(e) => return Err(e),
    };
    match EccCrypto::encrypt(&pk, password.as_bytes()) {
        Ok(c) => Ok(c),
        Err(e) => {
            let msg = concat("Failed to encrypt password: ", e.message().as_str());
            Err(AppError::internal(msg.as_str()))
        },
    }
}

/// What a new password entry stores, and the detail of its audit entry.
#[derive(Debug, Clone)]
pub struct NewPassword {
    pub title: String,
    pub username: String,
    pub encrypted_password: String,
    pub url: String,
    pub notes: String,
    pub detail: String,
}

/// The text of an optional field, empty when it is absent.
pub open spec fn or_empty(o: Option<String>) -> Seq<char> {
    match o {
        Some(s) => s@,
        None => seq![],
    }
}

/// An optional field's text, empty when it is absent.
fn text_or_empty(o: &Option<String>) -> (s: String)
    ensures
        s@ == or_empty(*o),
{
    match o {
        Some(t) => t.clone(),
        None => String::new(),
    }
}

/// The user name as the audit detail shows it: none when empty.
pub open spec fn shown_text(s: Seq<char>) -> Option<Seq<char>> {
    if s.len() == 0 {
        None
    } else {
        Some(s)
    }
}

/// Decides creating a password entry (`create_password`), in this order:
/// the user needs edit rights; the title must not be blank; the password
/// must not be empty; then the password is sealed for the book's public key.
pub fn seal_new_password(can_edit: bool, req: &CreatePasswordRequest, book_public_key: Option<&str>) -> (res: Result<NewPassword, AppError>)
    ensures
        !can_edit ==> fails_with(res, ErrorKind::Forbidden, "You don't have edit permission in this project"@),
        can_edit && trimmed(req.title@).len() == 0 ==> fails_with(res, ErrorKind::BadRequest, "Title is required"@),
        can_edit && trimmed(req.title@).len() > 0 && req.password@.len() == 0 ==> fails_with(res, ErrorKind::BadRequest, "Password is required"@),
        can_edit && trimmed(req.title@).len() > 0 && req.password@.len() > 0 ==> match seal_failure(
            opt_seq(book_public_key),
            encode_utf8(req.password@),
        ) {
            Some((k, m)) => fails_with(res, k, m),
            None => res matches Ok(n) && {
                &&& n.title@ == trimmed(req.title@)
                &&& n.username@ == or_empty(req.username)
                &&& n.url@ == or_empty(req.url)
                &&& n.notes@ == or_empty(req.notes)
                &&& sealed_for(book_public_key.unwrap()@, encode_utf8(req.password@), n.encrypted_password@)
                &&& n.detail@ == entry_detail(trimmed(req.title@), shown_text(or_empty(req.username)))
            },
        },
{
    match require_edit_permission(can_edit) {
        Ok(()) => {},
        Err(e) => return Err(e),
    }
    if is_blank(req.title.as_str()) {
        return Err(AppError::bad_request("Title is required"));
    }
    if req.password.as_str().is_empty() {
        return Err(AppError::bad_request("Password is required"));
    }
    let encrypted_password = match seal_password(book_public_key, req.password.as_str()) {
        Ok(c) => c,
        Err(e) => return Err(e),
    };
    let title = trim(req.title.as_str());
    let username = text_or_empty(&req.username);
    let url = text_or_empty(&req.url);
    let notes = text_or_empty(&req.notes);
    let detail = if username.as_str().is_empty() {
        audit_detail(title.as_str(), None)
    } else {
        audit_detail(title.as_str(), Some(username.as_str()))
    };
    Ok(NewPassword { title, username, encrypted_password, url, notes, detail })
}

/// The columns a password update sets, in order, before the bookkeeping
/// columns: each field the request carries.
pub open spec fn password_update_columns(req: UpdatePasswordRequest) -> Seq<Seq<char>> {
    (if req.title is Some { seq!["title = ?"@] } else { seq![] })
        + (if req.username is Some { seq!["username = ?"@] } else { seq![] })
        + (if req.password is Some { seq!["encrypted_password = ?"@] } else { seq![] })
        + (if req.url is Some { seq!["url = ?"@] } else { seq![] })
        + (if req.notes is Some { seq!["notes = ?"@] } else { seq![] })
}

/// The values of those columns: the trimmed title, the user name, the
/// password's ciphertext `sealed`, the address and the notes.
pub open spec fn password_update_values(req: UpdatePasswordRequest, sealed: Seq<char>) -> Seq<Seq<char>> {
    (match req.title { Some(t) => seq![trimmed(t@)], None => seq![] })
        + (match req.username { Some(u) => seq![u@], None => seq![] })
        + (if req.password is Some { seq![sealed] } else { seq![] })
        + (match req.url { Some(u) => seq![u@], None => seq![] })
        + (match req.notes { Some(n) => seq![n@], None => seq![] })
}

/// One when an optional field is carried, zero otherwise.
pub open spec fn carried(o: Option<String>) -> nat {
    if o is Some {
        1
    } else {
        0
    }
}

/// Law: a password update sets exactly the fields its request carries, in
/// the order title, user name, password, address, notes: each carried field
/// has its `column = ?` at the position that counts the carried fields
/// before it, and the value bound there is that field's (the trimmed title,
/// the user name as given, the password's ciphertext `sealed`, the address,
/// the notes).
pub proof fn law_update_sets_every_carried_field(req: UpdatePasswordRequest, sealed: Seq<char>)
    ensures
        password_update_columns(req).len() == password_update_values(req, sealed).len(),
        password_update_columns(req).len() == carried(req.title) + carried(req.username) + carried(
            req.password,
        ) + carried(req.url) + carried(req.notes),
        req.title matches Some(t) ==> password_update_columns(req)[0] == "title = ?"@
            && password_update_values(req, sealed)[0] == trimmed(t@),
        req.username matches Some(u) ==> {
            let k = carried(req.title) as int;
            password_update_columns(req)[k] == "username = ?"@ && password_update_values(req, sealed)[k] == u@
        },
        req.password is Some ==> {
            let k = (carried(req.title) + carried(req.username)) as int;
            password_update_columns(req)[k] == "encrypted_password = ?"@ && password_update_values(
                req,
                sealed,
            )[k] == sealed
        },
        req.url matches Some(u) ==> {
            let k = (carried(req.title) + carried(req.username) + carried(req.password)) as int;
            password_update_columns(req)[k] == "url = ?"@ && password_update_values(req, sealed)[k] == u@
        },
        req.notes matches Some(n) ==> {
            let k = (carried(req.title) + carried(req.username) + carried(req.password) + carried(
                req.url,
            )) as int;
            password_update_columns(req)[k] == "notes = ?"@ && password_update_values(req, sealed)[k] == n@
        },
{
    let c1: Seq<Seq<char>> = if req.title is Some { seq!["title = ?"@] } else { seq![] };
    let c2: Seq<Seq<char>> = if req.username is Some { seq!["username = ?"@] } else { seq![] };
    let c3: Seq<Seq<char>> = if req.password is Some { seq!["encrypted_password = ?"@] } else { seq![] };
    let c4: Seq<Seq<char>> = if req.url is Some { seq!["url = ?"@] } else { seq![] };
    let c5: Seq<Seq<char>> = if req.notes is Some { seq!["notes = ?"@] } else { seq![] };
    let v1: Seq<Seq<char>> = match req.title { Some(t) => seq![trimmed(t@)], None => seq![] };
    let v2: Seq<Seq<char>> = match req.username { Some(u) => seq![u@], None => seq![] };
    let v3: Seq<Seq<char>> = if req.password is Some { seq![sealed] } else { seq![] };
    let v4: Seq<Seq<char>> = match req.url { Some(u) => seq![u@], None => seq![] };
    let v5: Seq<Seq<char>> = match req.notes { Some(n) => seq![n@], None => seq![] };
    assert(password_update_columns(req) == c1 + c2 + c3 + c4 + c5);
    assert(password_update_values(req, sealed) == v1 + v2 + v3 + v4 + v5);
    assert(c1.len() == carried(req.title) && v1.len() == c1.len());
    assert(c2.len() == carried(req.username) && v2.len() == c2.len());
    assert(c3.len() == carried(req.password) && v3.len() == c3.len());
    assert(c4.len() == carried(req.url) && v4.len() == c4.len());
    assert(c5.len() == carried(req.notes) && v5.len() == c5.len());
    let k2 = c1.len() as int;
    let k3 = k2 + c2.len();
    let k4 = k3 + c3.len();
    let k5 = k4 + c4.len();
    assert((c1 + c2 + c3 + c4 + c5).len() == k5 + c5.len());
    if req.title is Some {
        assert((c1 + c2 + c3 + c4 + c5)[0] == c1[0]);
        assert((v1 + v2 + v3 + v4 + v5)[0] == v1[0]);
    }
    if req.username is Some {
        assert((c1 + c2 + c3 + c4 + c5)[k2] == c2[0]);
        assert((v1 + v2 + v3 + v4 + v5)[k2] == v2[0]);
    }
    if req.password is Some {
        assert((c1 + c2 + c3 + c4 + c5)[k3] == c3[0]);
        assert((v1 + v2 + v3 + v4 + v5)[k3] == v3[0]);
    }
    if req.url is Some {
        assert((c1 + c2 + c3 + c4 + c5)[k4] == c4[0]);
        assert((v1 + v2 + v3 + v4 + v5)[k4] == v4[0]);
    }
    if req.notes is Some {
        assert((c1 + c2 + c3 + c4 + c5)[k5] == c5[0]);
        assert((v1 + v2 + v3 + v4 + v5)[k5] == v5[0]);
    }
}

/// The columns every password update also sets.
pub open spec fn bookkeeping_columns() -> Seq<Seq<char>> {
    seq![
        "updated_at = datetime('now', '+8 hours')"@,
        "updated_by_user_id = ?"@,
        "updated_by_username = ?"@,
    ]
}

/// A password update: the statement and the text values of its first
/// placeholders; the user's id, the user's name and the entry's id are
/// bound after them, in that order.
#[derive(Debug, Clone)]
pub struct PasswordUpdate {
    pub sql: String,
    pub params: Vec<String>,
}

/// Decides a password update (`update_password`): the user needs edit
/// rights; a new password is sealed for the book's public key; a request
/// that changes nothing is 400.
pub fn plan_password_update(can_edit: bool, req: &UpdatePasswordRequest, book_public_key: Option<&str>) -> (res: Result<PasswordUpdate, AppError>)
    ensures
        !can_edit ==> fails_with(res, ErrorKind::Forbidden, "You don't have edit permission in this project"@),
        can_edit && password_update_columns(*req).len() == 0 ==> fails_with(res, ErrorKind::BadRequest, "No fields to update"@),
        can_edit ==> match req.password {
            Some(p) => match seal_failure(opt_seq(book_public_key), encode_utf8(p@)) {
                Some((k, m)) => fails_with(res, k, m),
                None => true,
            },
            None => true,
        },
        res matches Ok(u) ==> {
            &&& can_edit
            &&& password_update_columns(*req).len() > 0
            &&& u.sql@ == "UPDATE passwords SET "@ + joined(
                password_update_columns(*req) + bookkeeping_columns(),
                ", "@,
            ) + " WHERE id = ?"@
            &&& match req.password {
                None => texts(u.params@) == password_update_values(*req, seq![]),
                Some(p) => exists|c: Seq<char>|
                    sealed_for(book_public_key.unwrap()@, encode_utf8(p@), c) && texts(u.params@)
                        == #[trigger] password_update_values(*req, c),
            }
        },
        can_edit && password_update_columns(*req).len() > 0 && (req.password matches Some(p) ==> seal_failure(opt_seq(book_public_key), encode_utf8(p@)) is None) ==> res is Ok,
{
    match require_edit_permission(can_edit) {
        Ok(()) => {},
        Err(e) => return Err(e),
    }
    let mut cols: Vec<String> = Vec::new();
    let mut params: Vec<String> = Vec::new();
    let ghost mut sealed: Seq<char> = seq![];
    if let Some(title) = &req.title {
        cols.push(String::from_str("title = ?"));
        params.push(trim(title.as_str()));
    }
    if let Some(username) = &req.username {
        cols.push(String::from_str("username = ?"));
        params.push(username.clone());
    }
    if let Some(password) = &req.password {
        let c = match seal_password(book_public_key, password.as_str()) {
            Ok(c) => c,
            Err(e) => return Err(e),
        };
        proof {
            sealed = c@;
        }
        cols.push(String::from_str("encrypted_password = ?"));
        params.push(c);
    }
    if let Some(url) = &req.url {
        cols.push(String::from_str("url = ?"));
        params.push(url.clone());
    }
    if let Some(notes) = &req.notes {
        cols.push(String::from_str("notes = ?"));
        params.push(notes.clone());
    }
    assert(texts(cols@) =~= password_update_columns(*req));
    assert(texts(params@) =~= password_update_values(*req, sealed));
    if cols.len() == 0 {
        return Err(AppError::bad_request("No fields to update"));
    }
    let ghost fields = texts(cols@);
    cols.push(String::from_str("updated_at = datetime('now', '+8 hours')"));
    cols.push(String::from_str("updated_by_user_id = ?"));
    cols.push(String::from_str("updated_by_username = ?"));
    assert(texts(cols@) =~= fields + bookkeeping_columns());
    let set = join_texts(&cols, ", ");
    let mut sql = String::from_str("UPDATE passwords SET ");
    sql.append(set.as_str());
    sql.append(" WHERE id = ?");
    Ok(PasswordUpdate { sql, params })
}

/// What a user sees of a password after it was sealed for a book: a book
/// whose sealed private key and public key belong together reveals, through
/// the master key, exactly the password that was sealed for its public key.
pub proof fn lemma_sealed_password_reveals(master: Seq<u8>, sealed_book_key: Seq<char>, public_pem: Seq<char>, password: Seq<char>, ciphertext: Seq<char>)
    requires
        book_keys_match(master, sealed_book_key, public_pem),
        sealed_for(public_pem, encode_utf8(password), ciphertext),
    ensures
        password_reveal(master, sealed_book_key, ciphertext) == Ok::<_, Seq<char>>(password),
{
    let s = choose|s: Seq<u8>|
        p256_secret_accepted(s) && #[trigger] master_open(master, sealed_book_key) == Ok::<_, CryptoError>(
            crate::primitives::p256_secret_pem(s),
        ) && p256_secret_from_pem(crate::primitives::p256_secret_pem(s)) == Some(s)
            && p256_public_from_pem(public_pem) == Some(p256_public_of(s));
    assert(book_key_unlock(master, sealed_book_key) == Ok::<_, Seq<char>>(s));
    assert(ecies_open(s, ciphertext) == Ok::<_, CryptoError>(encode_utf8(password)));
    encode_utf8_valid_utf8(password);
    encode_utf8_decode_utf8(password);
}

} // verus!
