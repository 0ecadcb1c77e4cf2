//! The audit log queries: who may read which log, the filter, and the page.
use crate::errors::{fails_with, AppError, ErrorKind};
use crate::models::AuditQueryParams;
use crate::routes::book_routes::{is_admin, is_admin_role};
use crate::text::{concat, decimal, decimal_of_i64, join_texts, joined, texts};
use vstd::prelude::*;
use vstd::string::*;

verus! {

/// The conditions of an audit query: the scope (when not empty), then the
/// action filter (when given), whose value is the first placeholder.
pub open spec fn audit_conditions(base: Seq<char>, action: Option<String>) -> Seq<Seq<char>> {
    (if base.len() > 0 { seq![base] } else { seq![] }) + (if action is Some {
        seq!["a.action = ?1"@]
    } else {
        seq![]
    })
}

/// The `WHERE` condition of an audit query: the conditions joined with
/// `AND`, or `1=1` when there is none.
pub open spec fn audit_where_sql(base: Seq<char>, action: Option<String>) -> Seq<char> {
    if audit_conditions(base, action).len() == 0 {
        "1=1"@
    } else {
        joined(audit_conditions(base, action), " AND "@)
    }
}

/// The text values of the placeholders of the condition.
pub open spec fn audit_where_params(action: Option<String>) -> Seq<Seq<char>> {
    match action {
        Some(a) => seq![a@],
        None => seq![],
    }
}

/// The count query of a condition.
pub open spec fn audit_count_sql(cond: Seq<char>) -> Seq<char> {
    "SELECT COUNT(*) FROM audit_logs a LEFT JOIN books b ON a.book_id = b.id WHERE "@ + cond
}

/// The page query of a condition whose placeholders number `n`: the page's
/// limit and offset are the next two placeholders.
pub open spec fn audit_data_sql(cond: Seq<char>, n: nat) -> Seq<char> {
    "SELECT a.id, a.book_id, COALESCE(b.name, '') as book_name, a.sheet_id, a.password_id, a.user_id, a.username, a.action, a.detail, a.created_at FROM audit_logs a LEFT JOIN books b ON a.book_id = b.id WHERE "@
        + cond + " ORDER BY a.created_at DESC LIMIT ?"@ + decimal(n + 1int) + " OFFSET ?"@ + decimal(
        n + 2int,
    )
}

/// The size of a page: the requested limit, or the default, kept between 0
/// and `max` (a negative limit would lift the bound in the store).
pub open spec fn page_limit(limit: Option<i64>, default: i64, max: i64) -> i64 {
    let l = match limit {
        Some(l) => l,
        None => default,
    };
    if l < 0 {
        0
    } else if l < max {
        l
    } else {
        max
    }
}

/// A page never asks for more entries than its bound, nor for a negative
/// number; a request without a limit asks for the default.
pub proof fn lemma_page_limit_bounded(limit: Option<i64>, default: i64, max: i64)
    requires
        0 <= default <= max,
    ensures
        0 <= page_limit(limit, default, max) <= max,
        limit is None ==> page_limit(limit, default, max) == default,
        limit matches Some(l) ==> (0 <= l <= max ==> page_limit(limit, default, max) == l),
{
}

/// The queries of one page of an audit log: the count, the page, the text
/// values of the condition's placeholders, and the page's limit and offset
/// (bound after those values in the page query).
#[derive(Debug, Clone)]
pub struct AuditQueryPlan {
    pub count_sql: String,
    pub data_sql: String,
    pub params: Vec<String>,
    pub limit: i64,
    pub offset: i64,
}

/// Whether `p` is the plan of the audit page with scope `base`, the query
/// parameters `q`, and the page size default and bound.
pub open spec fn is_audit_plan(p: AuditQueryPlan, base: Seq<char>, q: AuditQueryParams, default: i64, max: i64) -> bool {
    &&& p.count_sql@ == audit_count_sql(audit_where_sql(base, q.action))
    &&& p.data_sql@ == audit_data_sql(audit_where_sql(base, q.action), audit_where_params(q.action).len())
    &&& texts(p.params@) == audit_where_params(q.action)
    &&& p.limit == page_limit(q.limit, default, max)
    &&& p.offset == match q.offset {
        Some(o) => o,
        None => 0i64,
    }
}

/// Builds the plan of an audit page.
fn build_audit_plan(base: &str, q: &AuditQueryParams, default: i64, max: i64) -> (p: AuditQueryPlan)
    ensures
        is_audit_plan(p, base@, *q, default, max),
{
    let mut conds: Vec<String> = Vec::new();
    let mut params: Vec<String> = Vec::new();
    if !base.is_empty() {
        conds.push(String::from_str(base));
    }
    if let Some(a) = &q.action {
        conds.push(String::from_str("a.action = ?1"));
        params.push(a.clone());
    }
    assert(texts(conds@) =~= audit_conditions(base@, q.action));
    assert(texts(params@) =~= audit_where_params(q.action));
    let cond = if conds.len() == 0 {
        String::from_str("1=1")
    } else {
        join_texts(&conds, " AND ")
    };
    let count_sql = concat("SELECT COUNT(*) FROM audit_logs a LEFT JOIN books b ON a.book_id = b.id WHERE ", cond.as_str());
    let n = params.len() as i64;
    let mut data_sql = String::from_str(
        "SELECT a.id, a.book_id, COALESCE(b.name, '') as book_name, a.sheet_id, a.password_id, a.user_id, a.username, a.action, a.detail, a.created_at FROM audit_logs a LEFT JOIN books b ON a.book_id = b.id WHERE ",
    );
    data_sql.append(cond.as_str());
    data_sql.append(" ORDER BY a.created_at DESC LIMIT ?");
    data_sql.append(decimal_of_i64(n + 1).as_str());
    data_sql.append(" OFFSET ?");
    data_sql.append(decimal_of_i64(n + 2).as_str());
    let l = match q.limit {
        Some(l) => l,
        None => default,
    };
    let limit = if l < 0 {
        0
    } else if l < max {
        l
    } else {
        max
    };
    let offset = match q.offset {
        Some(o) => o,
        None => 0,
    };
    AuditQueryPlan { count_sql, data_sql, params, limit, offset }
}

/// Plans a page of the global audit log (`list_audit_global`): only an
/// administrator may read it; pages hold 50 entries by default, at most 500.
pub fn plan_global_audit(role: &str, q: &AuditQueryParams) -> (res: Result<AuditQueryPlan, AppError>)
    ensures
        !is_admin_role(role@) ==> fails_with(res, ErrorKind::Forbidden, "Admin access required"@),
        is_admin_role(role@) ==> (res matches Ok(p) && is_audit_plan(p, seq![], *q, 50, 500)),
{
    if !is_admin(role) {
        return Err(AppError::forbidden("Admin access required"));
    }
    proof {
        reveal_strlit("");
    }
    assert(""@ =~= Seq::<char>::empty());
    Ok(build_audit_plan("", q, 50, 500))
}

/// The scope condition of a book's audit log.
pub open spec fn book_scope(book_id: i64) -> Seq<char> {
    "a.book_id = "@ + decimal(book_id as int)
}

/// Plans a page of a book's audit log (`list_audit_book`), for a member of
/// the book: pages hold 20 entries by default, at most 200.
pub fn plan_book_audit(book_id: i64, q: &AuditQueryParams) -> (p: AuditQueryPlan)
    ensures
        is_audit_plan(p, book_scope(book_id), *q, 20, 200),
{
    let base = concat("a.book_id = ", decimal_of_i64(book_id).as_str());
    build_audit_plan(base.as_str(), q, 20, 200)
}

} // verus!
