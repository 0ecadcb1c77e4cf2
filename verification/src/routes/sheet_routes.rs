//! The decisions of the sheet handlers.
use crate::errors::{fails_with, AppError, ErrorKind};
use crate::models::{CreateSheetRequest, Sheet, UpdateSheetRequest};
use crate::routes::book_routes::{
    build_update_sql, description_or_empty, firsts, require_edit_permission, seconds, update_sql,
    UpdateStatement,
};
use crate::text::{is_blank, texts, trim, trimmed};
use vstd::prelude::*;
use vstd::string::*;

verus! {

/// What a new sheet stores: its trimmed name and its description (empty
/// when none was given).
#[derive(Debug, Clone)]
pub struct NewSheet {
    pub name: String,
    pub description: String,
}

/// Decides creating a sheet (`create_sheet`): the user needs edit rights,
/// then a non-blank name.
pub fn check_new_sheet(can_edit: bool, req: &CreateSheetRequest) -> (res: Result<NewSheet, AppError>)
    ensures
        !can_edit ==> fails_with(res, ErrorKind::Forbidden, "You don't have edit permission in this project"@),
        can_edit && trimmed(req.name@).len() == 0 ==> fails_with(res, ErrorKind::BadRequest, "Sheet name is required"@),
        res matches Ok(s) ==> {
            &&& can_edit
            &&& trimmed(req.name@).len() > 0
            &&& s.name@ == trimmed(req.name@)
            &&& s.description@ == description_or_empty(req.description)
        },
        can_edit && trimmed(req.name@).len() > 0 ==> res is Ok,
{
    match require_edit_permission(can_edit) {
        Ok(()) => {},
        Err(e) => return Err(e),
    }
    if is_blank(req.name.as_str()) {
        return Err(AppError::bad_request("Sheet name is required"));
    }
    let description = match &req.description {
        Some(d) => d.clone(),
        None => String::new(),
    };
    Ok(NewSheet { name: trim(req.name.as_str()), description })
}

/// The sheet answered after it was created: no passwords yet, and an empty
/// description shown as none.
pub fn created_sheet(sheet_id: i64, book_id: i64, sheet: &NewSheet, created_at: String) -> (s: Sheet)
    ensures
        s.id == sheet_id && s.book_id == book_id && s.name@ == sheet.name@ && s.created_at
            == created_at && s.password_count == 0,
        sheet.description@.len() == 0 ==> s.description is None,
        sheet.description@.len() > 0 ==> (s.description matches Some(d) && d@ == sheet.description@),
{
    let description = if sheet.description.as_str().is_empty() {
        None
    } else {
        Some(sheet.description.clone())
    };
    Sheet {
        id: sheet_id,
        book_id,
        name: sheet.name.clone(),
        description,
        created_at,
        password_count: 0,
    }
}

/// The assignments of a sheet update: a given name (trimmed, even when
/// that leaves it empty), then a given description.
pub open spec fn sheet_update_fields(req: UpdateSheetRequest) -> Seq<(Seq<char>, Seq<char>)> {
    let name_part: Seq<(Seq<char>, Seq<char>)> = match req.name {
        Some(n) => seq![("name = ?"@, trimmed(n@))],
        None => seq![],
    };
    let desc_part: Seq<(Seq<char>, Seq<char>)> = match req.description {
        Some(d) => seq![("description = ?"@, d@)],
        None => seq![],
    };
    name_part + desc_part
}

/// Decides a sheet update (`update_sheet`): the user needs edit rights, and
/// a request that changes nothing is 400.
pub fn plan_sheet_update(can_edit: bool, req: &UpdateSheetRequest) -> (res: Result<UpdateStatement, AppError>)
    ensures
        !can_edit ==> fails_with(res, ErrorKind::Forbidden, "You don't have edit permission in this project"@),
        can_edit && sheet_update_fields(*req).len() == 0 ==> fails_with(res, ErrorKind::BadRequest, "No fields to update"@),
        res matches Ok(u) ==> {
            &&& can_edit
            &&& sheet_update_fields(*req).len() > 0
            &&& u.sql@ == update_sql("sheets"@, firsts(sheet_update_fields(*req)))
            &&& texts(u.params@) == seconds(sheet_update_fields(*req))
        },
        can_edit && sheet_update_fields(*req).len() > 0 ==> res is Ok,
{
    match require_edit_permission(can_edit) {
        Ok(()) => {},
        Err(e) => return Err(e),
    }
    let mut cols: Vec<String> = Vec::new();
    let mut params: Vec<String> = Vec::new();
    if let Some(name) = &req.name {
        cols.push(String::from_str("name = ?"));
        params.push(trim(name.as_str()));
    }
    if let Some(desc) = &req.description {
        cols.push(String::from_str("description = ?"));
        params.push(desc.clone());
    }
    assert(texts(cols@) =~= firsts(sheet_update_fields(*req)));
    assert(texts(params@) =~= seconds(sheet_update_fields(*req)));
    if cols.len() == 0 {
        return Err(AppError::bad_request("No fields to update"));
    }
    let sql = build_update_sql("sheets", &cols);
    Ok(UpdateStatement { sql, params })
}

} // verus!
