//! Who may see and change a book, and the decisions of the book and member
//! handlers: each takes what the handler read from the store and gives the
//! error to answer or what to write.
use crate::crypto::{master_open, CryptoError, EccCrypto, MasterKey};
use crate::errors::{fails_with, AppError, ErrorKind};
use crate::models::{AddMemberRequest, BookDetail, BookSummary, CreateBookRequest, UpdateBookRequest};
use crate::primitives::{
    is_base64_char, p256_public_from_pem, p256_public_of, p256_secret_accepted, p256_secret_from_pem,
    p256_secret_pem, pem_armored,
};
use crate::text::{concat, is_blank, join_texts, joined, same_text, texts, trim, trimmed};
use vstd::prelude::*;
use vstd::string::*;
use vstd::utf8::*;

verus! {

/// The global role of an administrator.
pub open spec fn is_admin_role(role: Seq<char>) -> bool {
    role == "admin"@
}

/// Member roles that may edit a book's sheets and passwords. Besides
/// `edit`, two older names of it are still honoured.
pub open spec fn is_edit_role(role: Seq<char>) -> bool {
    role == "edit"@ || role == "admin"@ || role == "editor"@
}

/// Member roles a holder may give.
pub open spec fn is_member_role(role: Seq<char>) -> bool {
    role == "edit"@ || role == "view"@
}

/// Whether a user may edit a book: its holder may; a member may when the
/// membership role is an edit role.
pub open spec fn may_edit(is_holder: bool, member_role: Option<Seq<char>>) -> bool {
    is_holder || (member_role matches Some(r) && is_edit_role(r))
}

/// The view of an optional text.
pub open spec fn opt_view(s: Option<&str>) -> Option<Seq<char>> {
    match s {
        Some(t) => Some(t@),
        None => None,
    }
}

/// Whether `role` is the administrator's global role.
pub fn is_admin(role: &str) -> (b: bool)
    ensures
        b == is_admin_role(role@),
{
    same_text(role, "admin")
}

/// Decides whether a user may edit a book (`can_edit_book`), from whether
/// the user is its holder and the user's membership role, if any.
pub fn can_edit(is_holder: bool, member_role: Option<&str>) -> (b: bool)
    ensures
        b == may_edit(is_holder, opt_view(member_role)),
{
    if is_holder {
        return true;
    }
    match member_role {
        Some(r) => same_text(r, "edit") || same_text(r, "admin") || same_text(r, "editor"),
        None => false,
    }
}

/// The verdict of `check_book_access` on the membership lookup: a member
/// passes, a non-member is told the book does not exist, and a failed
/// lookup is a server error.
pub fn book_access_verdict(lookup: Option<bool>) -> (res: Result<(), AppError>)
    ensures
        lookup == Some(true) ==> res is Ok,
        lookup == Some(false) ==> fails_with(res, ErrorKind::NotFound, "Book not found"@),
        lookup is None ==> fails_with(res, ErrorKind::Internal, "Database error"@),
{
    match lookup {
        Some(true) => Ok(()),
        Some(false) => Err(AppError::not_found("Book not found")),
        None => Err(AppError::internal("Database error")),
    }
}

/// The verdict on reading a book's details (`get_book`): an administrator
/// may read any book's details; anyone else is judged by membership, as
/// `book_access_verdict` does.
pub fn book_detail_verdict(lookup: Option<bool>, role: &str) -> (res: Result<(), AppError>)
    ensures
        is_admin_role(role@) ==> res is Ok,
        !is_admin_role(role@) && lookup == Some(true) ==> res is Ok,
        !is_admin_role(role@) && lookup == Some(false) ==> fails_with(res, ErrorKind::NotFound, "Book not found"@),
        !is_admin_role(role@) && lookup is None ==> fails_with(res, ErrorKind::Internal, "Database error"@),
{
    if is_admin(role) {
        return Ok(());
    }
    book_access_verdict(lookup)
}

/// Refuses a change of sheets or passwords by a user without edit rights.
pub fn require_edit_permission(can_edit: bool) -> (res: Result<(), AppError>)
    ensures
        can_edit ==> res is Ok,
        !can_edit ==> fails_with(res, ErrorKind::Forbidden,
            "You don't have edit permission in this project"@,
        ),
{
    if can_edit {
        Ok(())
    } else {
        Err(AppError::forbidden("You don't have edit permission in this project"))
    }
}

/// Refuses an update or deletion that matched no row.
pub fn require_affected(affected: usize, what: &str) -> (res: Result<(), AppError>)
    ensures
        affected > 0 ==> res is Ok,
        affected == 0 ==> fails_with(res, ErrorKind::NotFound, what@),
{
    if affected == 0 {
        Err(AppError::not_found(what))
    } else {
        Ok(())
    }
}

/// A book as the store returns it, with its member count.
#[derive(Debug, Clone)]
pub struct BookRow {
    pub id: i64,
    pub name: String,
    pub description: Option<String>,
    pub created_at: String,
    pub created_by: i64,
    pub member_count: i64,
}

/// Whether the list of books shows every book (to an administrator) rather
/// than the books the user belongs to.
pub fn lists_every_book(role: &str) -> (b: bool)
    ensures
        b == is_admin_role(role@),
{
    is_admin(role)
}

/// A listed book as `user_id` sees it: the holder is the book's creator.
pub fn book_summary(row: BookRow, user_id: i64) -> (b: BookSummary)
    ensures
        b.id == row.id && b.name == row.name && b.description == row.description
            && b.created_at == row.created_at && b.created_by == row.created_by
            && b.member_count == row.member_count,
        b.is_holder == (row.created_by == user_id),
{
    BookSummary {
        id: row.id,
        name: row.name,
        description: row.description,
        created_at: row.created_at,
        created_by: row.created_by,
        member_count: row.member_count,
        is_holder: row.created_by == user_id,
    }
}

/// A book's details as `user_id` sees them (`get_book`); a missing row is
/// answered with 404.
pub fn book_detail(row: Option<BookRow>, user_id: i64) -> (res: Result<BookDetail, AppError>)
    ensures
        row is None ==> fails_with(res, ErrorKind::NotFound, "Book not found"@),
        row matches Some(r) ==> (res matches Ok(b) && b.id == r.id && b.name == r.name
            && b.description == r.description && b.created_at == r.created_at && b.created_by
            == r.created_by && b.member_count == r.member_count && b.is_holder == (r.created_by
            == user_id)),
{
    match row {
        None => Err(AppError::not_found("Book not found")),
        Some(r) => Ok(
            BookDetail {
                id: r.id,
                name: r.name,
                description: r.description,
                created_at: r.created_at,
                created_by: r.created_by,
                member_count: r.member_count,
                is_holder: r.created_by == user_id,
            },
        ),
    }
}

/// What a new book stores: its trimmed name, its description (empty when
/// none was given), its private key sealed with the master key, and its
/// public key as PEM.
#[derive(Debug, Clone)]
pub struct NewBook {
    pub name: String,
    pub description: String,
    pub sealed_private_key: String,
    pub public_key_pem: String,
}

/// Whether the sealed private key and the public key of a new book belong
/// together: unsealing gives the PEM of a secret key, which reads back as
/// that key, and whose public key is the stored one. What is stored is never the PEM itself.
pub open spec fn book_keys_match(master: Seq<u8>, sealed: Seq<char>, public_pem: Seq<char>) -> bool {
    exists|s: Seq<u8>|
        p256_secret_accepted(s) && #[trigger] master_open(master, sealed) == Ok::<_, CryptoError>(
            p256_secret_pem(s),
        ) && p256_secret_from_pem(p256_secret_pem(s)) == Some(s) && p256_public_from_pem(
            public_pem,
        ) == Some(p256_public_of(s)) && sealed != p256_secret_pem(s)
}

/// The description that is stored when a request may omit it.
pub open spec fn description_or_empty(d: Option<String>) -> Seq<char> {
    match d {
        Some(s) => s@,
        None => seq![],
    }
}

/// Makes the stored parts of a new book (`create_book`): a blank name is
/// refused; otherwise a fresh key pair is made, its private key sealed
/// with the master key, and its public key written as PEM. Nothing else
/// can fail.
pub fn prepare_book(req: &CreateBookRequest, master_key: &MasterKey) -> (res: Result<NewBook, AppError>)
    ensures
        trimmed(req.name@).len() == 0 ==> fails_with(res, ErrorKind::BadRequest,
            "Book name is required"@,
        ),
        trimmed(req.name@).len() > 0 ==> res is Ok,
        res matches Ok(b) ==> {
            &&& trimmed(req.name@).len() > 0
            &&& b.name@ == trimmed(req.name@)
            &&& b.description@ == description_or_empty(req.description)
            &&& book_keys_match(master_key@, b.sealed_private_key@, b.public_key_pem@)
        },
{
    if is_blank(req.name.as_str()) {
        return Err(AppError::bad_request("Book name is required"));
    }
    let (sk, pk) = match EccCrypto::generate_keypair() {
        Ok(pair) => pair,
        Err(e) => return Err(AppError::internal(e.message().as_str())),
    };
    let sk_pem = match EccCrypto::secret_key_to_pem(&sk) {
        Ok(p) => p,
        Err(e) => return Err(AppError::internal(e.message().as_str())),
    };
    let pk_pem = match EccCrypto::public_key_to_pem(&pk) {
        Ok(p) => p,
        Err(e) => return Err(AppError::internal(e.message().as_str())),
    };
    let sealed = match master_key.encrypt_private_key(sk_pem.as_str()) {
        Ok(c) => c,
        Err(e) => {
            let msg = concat("Failed to encrypt private key: ", e.message().as_str());
            return Err(AppError::internal(msg.as_str()));
        },
    };
    let description = match &req.description {
        Some(d) => d.clone(),
        None => String::new(),
    };
    let name = trim(req.name.as_str());
    proof {
        assert(p256_public_from_pem(pk_pem@) == Some(p256_public_of(sk@)));
        assert(master_open(master_key@, sealed@) == Ok::<_, CryptoError>(p256_secret_pem(sk@)));
        lemma_sealed_text_is_not_pem(sealed@, sk_pem@);
    }
    Ok(NewBook { name, description, sealed_private_key: sealed, public_key_pem: pk_pem })
}

/// Base64 text never opens a PEM armour: `-` is not in its alphabet.
proof fn lemma_sealed_text_is_not_pem(sealed: Seq<char>, pem: Seq<char>)
    requires
        forall|i: int| 0 <= i < sealed.len() ==> is_base64_char(#[trigger] sealed[i]),
        pem_armored(pem),
    ensures
        sealed != pem,
{
    assert(pem.take(10)[0] == '-');
    if sealed == pem {
        assert(is_base64_char(sealed[0]));
    }
}

/// The details answered after a book was created: the creator is its holder
/// and its only member; an empty description is shown as none.
pub fn created_book_detail(book_id: i64, book: &NewBook, user_id: i64, created_at: String) -> (d: BookDetail)
    ensures
        d.id == book_id && d.name@ == book.name@ && d.created_at == created_at
            && d.created_by == user_id && d.member_count == 1 && d.is_holder,
        book.description@.len() == 0 ==> d.description is None,
        book.description@.len() > 0 ==> (d.description matches Some(s) && s@ == book.description@),
{
    let description = if book.description.as_str().is_empty() {
        None
    } else {
        Some(book.description.clone())
    };
    BookDetail {
        id: book_id,
        name: book.name.clone(),
        description,
        created_at,
        created_by: user_id,
        member_count: 1,
        is_holder: true,
    }
}

/// An `UPDATE` statement: its text, and the text values of its `?`
/// placeholders in order; the row id is bound last, after these.
#[derive(Debug, Clone)]
pub struct UpdateStatement {
    pub sql: String,
    pub params: Vec<String>,
}

/// The text of `UPDATE <table> SET <assignments> WHERE id = ?`.
pub open spec fn update_sql(table: Seq<char>, assignments: Seq<Seq<char>>) -> Seq<char> {
    "UPDATE "@ + table + " SET "@ + joined(assignments, ", "@) + " WHERE id = ?"@
}

/// Writes `UPDATE <table> SET <assignments> WHERE id = ?`.
pub fn build_update_sql(table: &str, assignments: &Vec<String>) -> (sql: String)
    ensures
        sql@ == update_sql(table@, texts(assignments@)),
{
    let set = join_texts(assignments, ", ");
    let mut sql = String::from_str("UPDATE ");
    sql.append(table);
    sql.append(" SET ");
    sql.append(set.as_str());
    sql.append(" WHERE id = ?");
    sql
}

/// Whether the user is the holder of a book created by `created_by`, or an
/// administrator.
pub open spec fn holder_or_admin(created_by: i64, user_id: i64, user_role: Seq<char>) -> bool {
    created_by == user_id || is_admin_role(user_role)
}

/// The assignments of a book update: a given, non-blank name (trimmed),
/// then a given description.
pub open spec fn book_update_fields(req: UpdateBookRequest) -> Seq<(Seq<char>, Seq<char>)> {
    let name_part = book_name_part(req.name);
    let desc_part: Seq<(Seq<char>, Seq<char>)> = match req.description {
        Some(d) => seq![("description = ?"@, d@)],
        None => seq![],
    };
    name_part + desc_part
}

/// The name assignment of a book update: only a non-blank name is set.
pub open spec fn book_name_part(name: Option<String>) -> Seq<(Seq<char>, Seq<char>)> {
    match name {
        Some(n) => if trimmed(n@).len() > 0 {
            seq![("name = ?"@, trimmed(n@))]
        } else {
            seq![]
        },
        None => seq![],
    }
}

/// The first components of a list of pairs.
pub open spec fn firsts(p: Seq<(Seq<char>, Seq<char>)>) -> Seq<Seq<char>> {
    p.map_values(|x: (Seq<char>, Seq<char>)| x.0)
}

/// The second components of a list of pairs.
pub open spec fn seconds(p: Seq<(Seq<char>, Seq<char>)>) -> Seq<Seq<char>> {
    p.map_values(|x: (Seq<char>, Seq<char>)| x.1)
}

/// Decides a book update (`update_book`): a missing book is 404; only its
/// holder or an administrator may change it; a request that changes nothing
/// is 400. Otherwise the statement sets the given fields.
pub fn plan_book_update(created_by: Option<i64>, user_id: i64, user_role: &str, req: &UpdateBookRequest) -> (res: Result<UpdateStatement, AppError>)
    ensures
        created_by is None ==> fails_with(res, ErrorKind::NotFound, "Book not found"@),
        (created_by matches Some(c) && !holder_or_admin(c, user_id, user_role@)) ==> fails_with(res, ErrorKind::Forbidden, "Only the book holder or admin can update this project"@),
        (created_by matches Some(c) && holder_or_admin(c, user_id, user_role@) && book_update_fields(*req).len() == 0)
            ==> fails_with(res, ErrorKind::BadRequest, "No fields to update"@),
        res matches Ok(u) ==> {
            &&& created_by matches Some(c) && holder_or_admin(c, user_id, user_role@)
            &&& book_update_fields(*req).len() > 0
            &&& u.sql@ == update_sql("books"@, firsts(book_update_fields(*req)))
            &&& texts(u.params@) == seconds(book_update_fields(*req))
        },
        (created_by matches Some(c) && holder_or_admin(c, user_id, user_role@) && book_update_fields(*req).len() > 0) ==> res is Ok,
{
    let c = match created_by {
        None => return Err(AppError::not_found("Book not found")),
        Some(c) => c,
    };
    if c != user_id && !is_admin(user_role) {
        return Err(AppError::forbidden("Only the book holder or admin can update this project"));
    }
    let mut cols: Vec<String> = Vec::new();
    let mut params: Vec<String> = Vec::new();
    let ghost name_part = book_name_part(req.name);
    if let Some(name) = &req.name {
        if !is_blank(name.as_str()) {
            cols.push(String::from_str("name = ?"));
            params.push(trim(name.as_str()));
        }
    }
    assert(texts(cols@) =~= firsts(name_part));
    assert(texts(params@) =~= seconds(name_part));
    if let Some(desc) = &req.description {
        cols.push(String::from_str("description = ?"));
        params.push(desc.clone());
    }
    assert(texts(cols@) =~= firsts(book_update_fields(*req)));
    assert(texts(params@) =~= seconds(book_update_fields(*req)));
    if cols.len() == 0 {
        return Err(AppError::bad_request("No fields to update"));
    }
    let sql = build_update_sql("books", &cols);
    Ok(UpdateStatement { sql, params })
}

/// Decides a book deletion (`delete_book`): a missing book is 404; only its
/// holder or an administrator may delete it.
pub fn check_book_deletion(created_by: Option<i64>, user_id: i64, user_role: &str) -> (res: Result<(), AppError>)
    ensures
        created_by is None ==> fails_with(res, ErrorKind::NotFound, "Book not found"@),
        (created_by matches Some(c) && !holder_or_admin(c, user_id, user_role@)) ==> fails_with(res, ErrorKind::Forbidden, "Only the book holder or admin can delete this book"@),
        (created_by matches Some(c) && holder_or_admin(c, user_id, user_role@)) ==> res is Ok,
{
    match created_by {
        None => Err(AppError::not_found("Book not found")),
        Some(c) => if c != user_id && !is_admin(user_role) {
            Err(AppError::forbidden("Only the book holder or admin can delete this book"))
        } else {
            Ok(())
        },
    }
}

/// A member about to be added: the user's id and name, and the role.
#[derive(Debug, Clone)]
pub struct NewMember {
    pub user_id: i64,
    pub username: String,
    pub role: String,
}

/// Decides adding a member (`add_member`), in this order: only the holder
/// or an administrator may add; the role must be `edit` or `view`; the user
/// must exist; the user must not already be a member.
pub fn check_member_addition(actor_is_holder: bool, actor_role: &str, req: &AddMemberRequest, target: Option<(i64, String)>, already_member: bool) -> (res: Result<NewMember, AppError>)
    ensures
        !actor_is_holder && !is_admin_role(actor_role@) ==> fails_with(res, ErrorKind::Forbidden,
            "Only the book holder can add members"@,
        ),
        (actor_is_holder || is_admin_role(actor_role@)) && !is_member_role(req.role@) ==> fails_with(res, ErrorKind::BadRequest, "Role must be 'edit' or 'view'"@),
        (actor_is_holder || is_admin_role(actor_role@)) && is_member_role(req.role@) && target is None
            ==> fails_with(res, ErrorKind::NotFound, "User not found"@),
        (actor_is_holder || is_admin_role(actor_role@)) && is_member_role(req.role@) && target is Some
            && already_member ==> fails_with(res, ErrorKind::BadRequest,
            "User is already a member of this book"@,
        ),
        res matches Ok(m) ==> {
            &&& actor_is_holder || is_admin_role(actor_role@)
            &&& is_member_role(req.role@)
            &&& !already_member
            &&& target matches Some(t) && m.user_id == t.0 && m.username == t.1
            &&& m.role@ == req.role@
        },
        (actor_is_holder || is_admin_role(actor_role@)) && is_member_role(req.role@) && target is Some
            && !already_member ==> res is Ok,
{
    if !actor_is_holder && !is_admin(actor_role) {
        return Err(AppError::forbidden("Only the book holder can add members"));
    }
    if !same_text(req.role.as_str(), "edit") && !same_text(req.role.as_str(), "view") {
        return Err(AppError::bad_request("Role must be 'edit' or 'view'"));
    }
    let (user_id, username) = match target {
        None => return Err(AppError::not_found("User not found")),
        Some(t) => t,
    };
    if already_member {
        return Err(AppError::bad_request("User is already a member of this book"));
    }
    Ok(NewMember { user_id, username, role: req.role.clone() })
}

/// Decides removing a member (`remove_member`): only the holder or an
/// administrator may remove, and the holder can never be removed.
pub fn check_member_removal(actor_is_holder: bool, actor_role: &str, target_is_holder: bool) -> (res: Result<(), AppError>)
    ensures
        !actor_is_holder && !is_admin_role(actor_role@) ==> fails_with(res, ErrorKind::Forbidden,
            "Only the book holder can remove members"@,
        ),
        (actor_is_holder || is_admin_role(actor_role@)) && target_is_holder ==> fails_with(res, ErrorKind::Forbidden, "Cannot remove the book holder from the project"@),
        res is Ok <==> ((actor_is_holder || is_admin_role(actor_role@)) && !target_is_holder),
{
    if !actor_is_holder && !is_admin(actor_role) {
        return Err(AppError::forbidden("Only the book holder can remove members"));
    }
    if target_is_holder {
        return Err(AppError::forbidden("Cannot remove the book holder from the project"));
    }
    Ok(())
}

/// Decides a change of a member's role (`update_member_role`), in this
/// order: only the holder or an administrator may change roles; the role
/// must be `edit` or `view`; the holder's role can never be changed.
pub fn check_member_role_change(actor_is_holder: bool, actor_role: &str, new_role: &str, target_is_holder: bool) -> (res: Result<(), AppError>)
    ensures
        !actor_is_holder && !is_admin_role(actor_role@) ==> fails_with(res, ErrorKind::Forbidden,
            "Only the book holder can change member roles"@,
        ),
        (actor_is_holder || is_admin_role(actor_role@)) && !is_member_role(new_role@) ==> fails_with(res, ErrorKind::BadRequest, "Role must be 'edit' or 'view'"@),
        (actor_is_holder || is_admin_role(actor_role@)) && is_member_role(new_role@) && target_is_holder
            ==> fails_with(res, ErrorKind::Forbidden, "Cannot change the book holder's role"@),
        res is Ok <==> ((actor_is_holder || is_admin_role(actor_role@)) && is_member_role(new_role@)
            && !target_is_holder),
{
    if !actor_is_holder && !is_admin(actor_role) {
        return Err(AppError::forbidden("Only the book holder can change member roles"));
    }
    if !same_text(new_role, "edit") && !same_text(new_role, "view") {
        return Err(AppError::bad_request("Role must be 'edit' or 'view'"));
    }
    if target_is_holder {
        return Err(AppError::forbidden("Cannot change the book holder's role"));
    }
    Ok(())
}

/// The `LIKE` pattern of a search (`search_book`): `None` when the trimmed
/// query is empty or absent (no search is run), else `%query%`.
pub fn search_pattern(q: Option<&str>) -> (p: Option<String>)
    ensures
        match q {
            None => p is None,
            Some(t) => if trimmed(t@).len() == 0 {
                p is None
            } else {
                p matches Some(s) && s@ == "%"@ + trimmed(t@) + "%"@
            },
        },
{
    match q {
        None => None,
        Some(t) => {
            let trimmed_q = trim(t);
            if trimmed_q.as_str().is_empty() {
                None
            } else {
                let mut p = String::from_str("%");
                p.append(trimmed_q.as_str());
                p.append("%");
                Some(p)
            }
        },
    }
}

} // verus!
