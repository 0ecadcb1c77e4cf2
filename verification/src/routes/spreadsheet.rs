//! Spreadsheets: reading password entries from the cell texts of uploaded
//! worksheets, and laying out and writing the XLSX files of exports and
//! import templates.
use crate::errors::{fails_with, AppError, ErrorKind};
use crate::models::IoPassword;
use crate::primitives::{
    names_distinct_lowercase, std_lowercase, to_lowercase, xlsx_add_worksheet, xlsx_bold,
    paired_sheets, xlsx_book_cells, xlsx_book_names, xlsx_contents, xlsx_default_name,
    xlsx_file_sheets, xlsx_format_bold, xlsx_name_valid, xlsx_open, xlsx_save,
    xlsx_set_name, xlsx_sheet_cells, xlsx_sheet_names, xlsx_sheets_of, xlsx_workbook,
    xlsx_worksheet_cells, xlsx_worksheet_name, xlsx_worksheets_added, xlsx_write_formatted, xlsx_write_string, zip_signature,
    SheetRead, XLSX_COLS, XLSX_MAX_TEXT, XLSX_ROWS,
};
use crate::routes::io_routes::{io_view, io_views, opt_text_view, EntryView};
use crate::text::{concat, same_text, texts, trim, trimmed};
use vstd::prelude::*;
use vstd::string::*;

verus! {

/// The largest upload accepted, in bytes (10 MB).
pub const MAX_XLSX_SIZE: usize = 10485760;

/// Refuses an empty upload or one over the size limit.
pub fn check_upload(len: usize) -> (res: Result<(), AppError>)
    ensures
        len == 0 ==> fails_with(res, ErrorKind::BadRequest, "未上传文件"@),
        len > MAX_XLSX_SIZE ==> fails_with(res, ErrorKind::BadRequest, "文件过大（10MB 限制），请上传较小的文件"@),
        0 < len <= MAX_XLSX_SIZE ==> res is Ok,
{
    if len == 0 {
        return Err(AppError::bad_request("未上传文件"));
    }
    if len > MAX_XLSX_SIZE {
        return Err(AppError::bad_request("文件过大（10MB 限制），请上传较小的文件"));
    }
    Ok(())
}

/// The first worksheet of an uploaded workbook.
pub fn first_sheet(names: &Vec<String>) -> (res: Result<String, AppError>)
    ensures
        names@.len() == 0 ==> fails_with(res, ErrorKind::BadRequest, "XLSX 中没有工作表"@),
        names@.len() > 0 ==> (res matches Ok(n) && n == names@[0]),
{
    if names.len() == 0 {
        return Err(AppError::bad_request("XLSX 中没有工作表"));
    }
    Ok(names[0].clone())
}

/// The index of the first header whose lower-cased text is one of `names`,
/// looking from `from` on.
pub open spec fn first_column(lowered: Seq<Seq<char>>, names: Seq<Seq<char>>, from: int) -> Option<int>
    decreases lowered.len() - from,
{
    if from >= lowered.len() || from < 0 {
        None
    } else if names.contains(lowered[from]) {
        Some(from)
    } else {
        first_column(lowered, names, from + 1)
    }
}

/// The lower-cased texts of a header row.
pub open spec fn lowered_headers(header: Seq<Seq<char>>) -> Seq<Seq<char>> {
    header.map_values(|h: Seq<char>| std_lowercase(h))
}

/// Lower-cases every header.
fn lower_all(header: &Vec<String>) -> (out: Vec<String>)
    ensures
        texts(out@) == lowered_headers(texts(header@)),
{
    let mut out: Vec<String> = Vec::new();
    let n = header.len();
    for i in 0..n
        invariant
            n == header@.len(),
            texts(out@) == lowered_headers(texts(header@)).take(i as int),
    {
        let ghost before = out@;
        out.push(to_lowercase(header[i].as_str()));
        assert(texts(header@)[i as int] == header@[i as int]@);
        assert(texts(out@) =~= texts(before).push(out@[i as int]@));
        assert(texts(out@) =~= lowered_headers(texts(header@)).take(i + 1));
    }
    assert(lowered_headers(texts(header@)).take(n as int) =~= lowered_headers(texts(header@)));
    out
}

/// Whether `s` is one of `names`.
fn is_one_of(s: &str, names: &Vec<String>) -> (b: bool)
    ensures
        b == texts(names@).contains(s@),
{
    let n = names.len();
    for i in 0..n
        invariant
            n == names@.len(),
            forall|k: int| 0 <= k < i ==> names@[k]@ != s@,
    {
        if same_text(names[i].as_str(), s) {
            assert(texts(names@)[i as int] == s@);
            return true;
        }
    }
    assert forall|k: int| 0 <= k < texts(names@).len() implies texts(names@)[k] != s@ by {
        assert(texts(names@)[k] == names@[k]@);
    }
    false
}

/// A position as a column index.
pub open spec fn to_col(c: Option<int>) -> Option<usize> {
    match c {
        Some(i) => Some(i as usize),
        None => None,
    }
}

/// The column whose lower-cased header is one of `names`, if any.
fn find_column(lowered: &Vec<String>, names: &Vec<String>) -> (c: Option<usize>)
    ensures
        c == to_col(first_column(texts(lowered@), texts(names@), 0)),
{
    let n = lowered.len();
    let mut i: usize = n;
    let mut found: Option<usize> = None;
    let ghost l = texts(lowered@);
    let ghost m = texts(names@);
    while i > 0
        invariant
            n == lowered@.len(),
            l == texts(lowered@),
            m == texts(names@),
            i <= n,
            found == to_col(first_column(l, m, i as int)),
        decreases i,
    {
        i = i - 1;
        if is_one_of(lowered[i].as_str(), names) {
            found = Some(i);
        }
    }
    found
}

/// The trimmed text of the cell of `row` in column `col`, if the row has it.
pub open spec fn cell_at(row: Seq<Seq<char>>, col: Option<int>) -> Option<Seq<char>> {
    match col {
        Some(c) => if 0 <= c < row.len() {
            Some(trimmed(row[c]))
        } else {
            None
        },
        None => None,
    }
}

/// A text, or the empty text for none.
pub open spec fn or_blank(o: Option<Seq<char>>) -> Seq<char> {
    match o {
        Some(s) => s,
        None => seq![],
    }
}

/// A text, or none when it is empty.
pub open spec fn present(o: Option<Seq<char>>) -> Option<Seq<char>> {
    match o {
        Some(s) => if s.len() > 0 { Some(s) } else { None },
        None => None,
    }
}

/// The columns of the fields of an entry in a worksheet.
#[derive(Debug, Clone, Copy)]
pub struct Columns {
    pub title: usize,
    pub password: usize,
    pub username: Option<usize>,
    pub url: Option<usize>,
    pub notes: Option<usize>,
}

/// A column as an optional position.
pub open spec fn at(c: Option<usize>) -> Option<int> {
    match c {
        Some(i) => Some(i as int),
        None => None,
    }
}

/// The entry one data row gives: none when both its title and its password
/// are empty.
pub open spec fn row_entry(row: Seq<Seq<char>>, cols: Columns) -> Option<EntryView> {
    let title = or_blank(cell_at(row, Some(cols.title as int)));
    let password = or_blank(cell_at(row, Some(cols.password as int)));
    if title.len() == 0 && password.len() == 0 {
        None
    } else {
        Some(
            (
                title,
                present(cell_at(row, at(cols.username))),
                password,
                present(cell_at(row, at(cols.url))),
                present(cell_at(row, at(cols.notes))),
            ),
        )
    }
}

/// The entries of a run of data rows, in order.
pub open spec fn rows_entries(rows: Seq<Seq<Seq<char>>>, cols: Columns) -> Seq<EntryView>
    decreases rows.len(),
{
    if rows.len() == 0 {
        seq![]
    } else {
        let before = rows_entries(rows.drop_last(), cols);
        match row_entry(rows.last(), cols) {
            Some(v) => before.push(v),
            None => before,
        }
    }
}

/// The cell texts of a worksheet, row by row.
pub open spec fn grid_view(g: Seq<Vec<String>>) -> Seq<Seq<Seq<char>>> {
    g.map_values(|r: Vec<String>| texts(r@))
}

/// The trimmed text of a cell, if the row has the column.
fn cell(row: &Vec<String>, col: Option<usize>) -> (c: Option<String>)
    ensures
        opt_text_view(c) == cell_at(texts(row@), at(col)),
{
    match col {
        Some(i) => if i < row.len() {
            Some(trim(row[i].as_str()))
        } else {
            None
        },
        None => None,
    }
}

/// A text, or the empty text for none.
fn blank_if_none(o: Option<String>) -> (s: String)
    ensures
        s@ == or_blank(opt_text_view(o)),
{
    match o {
        Some(s) => s,
        None => String::new(),
    }
}

/// A text, or none when it is empty.
fn none_if_blank(o: Option<String>) -> (r: Option<String>)
    ensures
        opt_text_view(r) == present(opt_text_view(o)),
{
    match o {
        Some(s) => if s.as_str().is_empty() {
            None
        } else {
            Some(s)
        },
        None => None,
    }
}

/// The entries of the data rows of a worksheet (the rows after the header).
fn entries_of_rows(grid: &Vec<Vec<String>>, cols: Columns) -> (out: Vec<IoPassword>)
    requires
        grid@.len() > 0,
    ensures
        io_views(out@) == rows_entries(grid_view(grid@).drop_first(), cols),
{
    let mut out: Vec<IoPassword> = Vec::new();
    let n = grid.len();
    let ghost data = grid_view(grid@).drop_first();
    for i in 1..n
        invariant
            n == grid@.len(),
            n > 0,
            data == grid_view(grid@).drop_first(),
            io_views(out@) == rows_entries(data.take(i - 1), cols),
    {
        let row = &grid[i];
        assert(data.take(i as int).drop_last() =~= data.take(i - 1));
        assert(data.take(i as int).last() == texts(row@));
        let title = blank_if_none(cell(row, Some(cols.title)));
        let password = blank_if_none(cell(row, Some(cols.password)));
        if !(title.as_str().is_empty() && password.as_str().is_empty()) {
            let ghost before = out@;
            out.push(
                IoPassword {
                    title,
                    username: none_if_blank(cell(row, cols.username)),
                    password,
                    url: none_if_blank(cell(row, cols.url)),
                    notes: none_if_blank(cell(row, cols.notes)),
                },
            );
            assert(io_views(out@) =~= io_views(before).push(io_view(out@.last())));
        }
    }
    assert(data.take(n - 1) =~= data);
    out
}

/// Texts as a vector of strings.
fn names_of(a: &str, b: Option<&str>, c: Option<&str>) -> (v: Vec<String>)
    ensures
        texts(v@) == seq![a@] + match b { Some(t) => seq![t@], None => seq![] } + match c { Some(t) => seq![t@], None => seq![] },
{
    let mut v: Vec<String> = Vec::new();
    v.push(String::from_str(a));
    if let Some(t) = b {
        v.push(String::from_str(t));
    }
    if let Some(t) = c {
        v.push(String::from_str(t));
    }
    assert(texts(v@) =~= seq![a@] + match b { Some(t) => seq![t@], None => seq![] } + match c { Some(t) => seq![t@], None => seq![] });
    v
}

/// The columns of a worksheet with these lower-cased headers: the first
/// header named `title`, `password` and `username`, and the first of
/// `url_names` and of `notes_names`; none without a title or password
/// column.
pub open spec fn columns_of(lowered: Seq<Seq<char>>, url_names: Seq<Seq<char>>, notes_names: Seq<Seq<char>>) -> Option<Columns> {
    match (first_column(lowered, seq!["title"@], 0), first_column(lowered, seq!["password"@], 0)) {
        (Some(t), Some(p)) => Some(
            Columns {
                title: t as usize,
                password: p as usize,
                username: to_col(first_column(lowered, seq!["username"@], 0)),
                url: to_col(first_column(lowered, url_names, 0)),
                notes: to_col(first_column(lowered, notes_names, 0)),
            },
        ),
        _ => None,
    }
}

/// The address headers a single-sheet upload recognises.
pub open spec fn sheet_url_names() -> Seq<Seq<char>> {
    seq!["url"@, "website"@]
}

/// The notes headers a single-sheet upload recognises.
pub open spec fn sheet_notes_names() -> Seq<Seq<char>> {
    seq!["notes"@, "note"@, "备注"@]
}

/// Finds the columns of a worksheet from its header row.
fn find_columns(header: &Vec<String>, url_names: &Vec<String>, notes_names: &Vec<String>) -> (res: (Option<usize>, Option<usize>, Option<Columns>))
    ensures
        res.0 == to_col(first_column(lowered_headers(texts(header@)), seq!["title"@], 0)),
        res.1 == to_col(first_column(lowered_headers(texts(header@)), seq!["password"@], 0)),
        res.2 == columns_of(lowered_headers(texts(header@)), texts(url_names@), texts(notes_names@)),
{
    let lowered = lower_all(header);
    let title_names = names_of("title", None, None);
    let user_names = names_of("username", None, None);
    let pass_names = names_of("password", None, None);
    assert(texts(title_names@) =~= seq!["title"@]);
    assert(texts(user_names@) =~= seq!["username"@]);
    assert(texts(pass_names@) =~= seq!["password"@]);
    let title = find_column(&lowered, &title_names);
    let password = find_column(&lowered, &pass_names);
    let cols = match (title, password) {
        (Some(t), Some(p)) => Some(
            Columns {
                title: t,
                password: p,
                username: find_column(&lowered, &user_names),
                url: find_column(&lowered, url_names),
                notes: find_column(&lowered, notes_names),
            },
        ),
        _ => None,
    };
    (title, password, cols)
}

/// What the single-sheet preview reads from the cell texts of a worksheet:
/// its entries, or the message of a missing column.
pub open spec fn sheet_preview_of(grid: Seq<Seq<Seq<char>>>) -> Result<Seq<EntryView>, Seq<char>> {
    if grid.len() == 0 {
        Ok(seq![])
    } else {
        let lowered = lowered_headers(grid[0]);
        if first_column(lowered, seq!["title"@], 0) is None {
            Err("XLSX 缺少 title 列"@)
        } else if first_column(lowered, seq!["password"@], 0) is None {
            Err("XLSX 缺少 password 列"@)
        } else {
            Ok(rows_entries(grid.drop_first(), columns_of(lowered, sheet_url_names(), sheet_notes_names()).unwrap()))
        }
    }
}

/// Reads the entries of the first worksheet of an upload (the single-sheet
/// preview): the first row names the columns, compared lower-cased; the
/// title and password columns must be there; rows without a title and a
/// password are skipped. A worksheet without rows has no entries.
pub fn sheet_entries(grid: &Vec<Vec<String>>) -> (res: Result<Vec<IoPassword>, AppError>)
    ensures
        match sheet_preview_of(grid_view(grid@)) {
            Ok(v) => res matches Ok(o) && io_views(o@) == v,
            Err(m) => fails_with(res, ErrorKind::BadRequest, m),
        },
        grid@.len() == 0 ==> (res matches Ok(v) && v@.len() == 0),
        grid@.len() > 0 ==> {
            let lowered = lowered_headers(grid_view(grid@)[0]);
            if first_column(lowered, seq!["title"@], 0) is None {
                fails_with(res, ErrorKind::BadRequest, "XLSX 缺少 title 列"@)
            } else if first_column(lowered, seq!["password"@], 0) is None {
                fails_with(res, ErrorKind::BadRequest, "XLSX 缺少 password 列"@)
            } else {
                res matches Ok(v) && io_views(v@) == rows_entries(
                    grid_view(grid@).drop_first(),
                    columns_of(lowered, sheet_url_names(), sheet_notes_names()).unwrap(),
                )
            }
        },
{
    if grid.len() == 0 {
        return Ok(Vec::new());
    }
    let url_names = names_of("url", Some("website"), None);
    let notes_names = names_of("notes", Some("note"), Some("备注"));
    assert(texts(url_names@) =~= sheet_url_names());
    assert(texts(notes_names@) =~= sheet_notes_names());
    assert(texts(grid@[0]@) == grid_view(grid@)[0]);
    let (title, password, cols) = find_columns(&grid[0], &url_names, &notes_names);
    if title.is_none() {
        return Err(AppError::bad_request("XLSX 缺少 title 列"));
    }
    if password.is_none() {
        return Err(AppError::bad_request("XLSX 缺少 password 列"));
    }
    let c = match cols {
        Some(c) => c,
        None => {
            proof {
                assert(false);
            }
            return Ok(Vec::new());
        },
    };
    Ok(entries_of_rows(grid, c))
}

/// Whether column `j` is the first header whose lower-cased text is one of
/// `names`.
pub open spec fn is_first_header(header: Seq<Seq<char>>, names: Seq<Seq<char>>, j: int) -> bool {
    &&& 0 <= j < header.len()
    &&& names.contains(std_lowercase(header[j]))
    &&& forall|k: int| 0 <= k < j ==> !names.contains(std_lowercase(#[trigger] header[k]))
}

/// The trimmed text of a row's cell in column `c`; empty where the row is
/// shorter.
pub open spec fn text_in(row: Seq<Seq<char>>, c: int) -> Seq<char> {
    if 0 <= c < row.len() {
        trimmed(row[c])
    } else {
        seq![]
    }
}

/// How many of the data rows before row `i` (rows 1 to `i - 1`) have a
/// title or a password in columns `t` and `p`.
pub open spec fn entries_before(grid: Seq<Seq<Seq<char>>>, t: int, p: int, i: int) -> nat
    decreases i,
{
    if i <= 1 {
        0
    } else {
        entries_before(grid, t, p, i - 1) + if text_in(grid[i - 1], t).len() > 0 || text_in(
            grid[i - 1],
            p,
        ).len() > 0 {
            1nat
        } else {
            0nat
        }
    }
}

/// The first header among `names`, found by `first_column` from any
/// earlier column.
proof fn lemma_first_column_finds(header: Seq<Seq<char>>, names: Seq<Seq<char>>, j: int, from: int)
    requires
        is_first_header(header, names, j),
        0 <= from <= j,
    ensures
        first_column(lowered_headers(header), names, from) == Some(j),
    decreases j - from,
{
    let l = lowered_headers(header);
    assert(l[from] == std_lowercase(header[from]));
    if from < j {
        assert(!names.contains(std_lowercase(header[from])));
        lemma_first_column_finds(header, names, j, from + 1);
    }
}

/// Without any header among `names`, `first_column` finds nothing.
proof fn lemma_first_column_none(header: Seq<Seq<char>>, names: Seq<Seq<char>>, from: int)
    requires
        0 <= from,
        forall|k: int| 0 <= k < header.len() ==> !names.contains(std_lowercase(#[trigger] header[k])),
    ensures
        first_column(lowered_headers(header), names, from) is None,
    decreases header.len() - from,
{
    if from < header.len() {
        assert(lowered_headers(header)[from] == std_lowercase(header[from]));
        lemma_first_column_none(header, names, from + 1);
    }
}

/// Whether some header is one of `names`.
pub open spec fn has_header(header: Seq<Seq<char>>, names: Seq<Seq<char>>) -> bool {
    exists|k: int| 0 <= k < header.len() && names.contains(std_lowercase(#[trigger] header[k]))
}

/// The optional field row `i` of a worksheet gives from the first column
/// headed by one of `names`: its trimmed text when not empty; none when the
/// text is empty, the row is shorter, or no column has such a header.
pub open spec fn optional_field(grid: Seq<Seq<Seq<char>>>, names: Seq<Seq<char>>, i: int) -> Option<Seq<char>> {
    if has_header(grid[0], names) {
        let j = choose|j: int| is_first_header(grid[0], names, j);
        if text_in(grid[i], j).len() > 0 {
            Some(text_in(grid[i], j))
        } else {
            None
        }
    } else {
        None
    }
}

/// Where some header is one of `names`, the first such is a first header.
proof fn lemma_first_header_exists(header: Seq<Seq<char>>, names: Seq<Seq<char>>, k: int)
    requires
        0 <= k < header.len(),
        names.contains(std_lowercase(header[k])),
    ensures
        exists|j: int| is_first_header(header, names, j),
    decreases k,
{
    if exists|m: int| 0 <= m < k && names.contains(std_lowercase(#[trigger] header[m])) {
        let m = choose|m: int| 0 <= m < k && names.contains(std_lowercase(#[trigger] header[m]));
        lemma_first_header_exists(header, names, m);
    } else {
        assert(is_first_header(header, names, k));
    }
}

/// There is one first header among `names`.
proof fn lemma_first_header_unique(header: Seq<Seq<char>>, names: Seq<Seq<char>>, a: int, b: int)
    requires
        is_first_header(header, names, a),
        is_first_header(header, names, b),
    ensures
        a == b,
{
    if a < b {
        assert(!names.contains(std_lowercase(header[a])));
    } else if b < a {
        assert(!names.contains(std_lowercase(header[b])));
    }
}

/// The column `columns_of` picks for an optional field gives the field
/// `optional_field` describes.
proof fn lemma_optional_column(grid: Seq<Seq<Seq<char>>>, names: Seq<Seq<char>>, i: int)
    requires
        0 <= i < grid.len(),
        grid[0].len() <= usize::MAX,
    ensures
        present(cell_at(grid[i], at(to_col(first_column(lowered_headers(grid[0]), names, 0)))))
            == optional_field(grid, names, i),
{
    if has_header(grid[0], names) {
        let k = choose|k: int| 0 <= k < grid[0].len() && names.contains(std_lowercase(#[trigger] grid[0][k]));
        lemma_first_header_exists(grid[0], names, k);
        let j = choose|j: int| is_first_header(grid[0], names, j);
        lemma_first_column_finds(grid[0], names, j, 0);
        assert(at(to_col(Some(j))) == Some(j));
    } else {
        lemma_first_column_none(grid[0], names, 0);
    }
}

/// Each data row that gives an entry gives it at the position that counts
/// the entries of the rows before it.
proof fn lemma_rows_entries_at(rows: Seq<Seq<Seq<char>>>, cols: Columns, m: int, n: int)
    requires
        0 <= m < n <= rows.len(),
        row_entry(rows[m], cols) is Some,
    ensures
        rows_entries(rows.take(m), cols).len() < rows_entries(rows.take(n), cols).len(),
        rows_entries(rows.take(n), cols)[rows_entries(rows.take(m), cols).len() as int] == row_entry(
            rows[m],
            cols,
        ).unwrap(),
    decreases n - m,
{
    assert(rows.take(n).drop_last() =~= rows.take(n - 1));
    assert(rows.take(n).last() == rows[n - 1]);
    if n == m + 1 {
    } else {
        lemma_rows_entries_at(rows, cols, m, n - 1);
    }
}

/// The entries of the first `m` data rows are as many as those rows with a
/// title or a password.
proof fn lemma_rows_entries_count(grid: Seq<Seq<Seq<char>>>, cols: Columns, m: int)
    requires
        grid.len() > 0,
        0 <= m < grid.len(),
    ensures
        rows_entries(grid.drop_first().take(m), cols).len() == entries_before(
            grid,
            cols.title as int,
            cols.password as int,
            m + 1,
        ),
    decreases m,
{
    let rows = grid.drop_first();
    if m > 0 {
        assert(rows.take(m).drop_last() =~= rows.take(m - 1));
        assert(rows.take(m).last() == grid[m]);
        lemma_rows_entries_count(grid, cols, m - 1);
    } else {
        assert(rows.take(0) =~= Seq::<Seq<Seq<char>>>::empty());
    }
}

/// Law: the single-sheet preview reads each data row that has a title or a
/// password into an entry, in row order (after as many entries as the rows
/// before it that have one), with the trimmed title and password of that
/// row and, from the first columns headed `username`, `url` or `website`,
/// and `notes`, `note` or `备注` (compared lower-cased), the row's trimmed
/// user name, address and notes: a non-empty text is the field, an empty or
/// missing cell gives none.
pub proof fn law_sheet_preview_reads_rows(grid: Seq<Seq<Seq<char>>>, t: int, p: int, i: int)
    requires
        1 <= i < grid.len(),
        grid[0].len() <= usize::MAX,
        is_first_header(grid[0], seq!["title"@], t),
        is_first_header(grid[0], seq!["password"@], p),
        text_in(grid[i], t).len() > 0 || text_in(grid[i], p).len() > 0,
    ensures
        sheet_preview_of(grid) matches Ok(v) && {
            let k = entries_before(grid, t, p, i) as int;
            &&& k < v.len()
            &&& v[k].0 == text_in(grid[i], t)
            &&& v[k].1 == optional_field(grid, seq!["username"@], i)
            &&& v[k].2 == text_in(grid[i], p)
            &&& v[k].3 == optional_field(grid, sheet_url_names(), i)
            &&& v[k].4 == optional_field(grid, sheet_notes_names(), i)
        },
{
    let lowered = lowered_headers(grid[0]);
    lemma_first_column_finds(grid[0], seq!["title"@], t, 0);
    lemma_first_column_finds(grid[0], seq!["password"@], p, 0);
    lemma_optional_column(grid, seq!["username"@], i);
    lemma_optional_column(grid, sheet_url_names(), i);
    lemma_optional_column(grid, sheet_notes_names(), i);
    let cols = columns_of(lowered, sheet_url_names(), sheet_notes_names()).unwrap();
    assert(cols.title as int == t && cols.password as int == p);
    let rows = grid.drop_first();
    assert(rows[i - 1] == grid[i]);
    assert(row_entry(rows[i - 1], cols) is Some);
    lemma_rows_entries_at(rows, cols, i - 1, rows.len() as int);
    lemma_rows_entries_count(grid, cols, i - 1);
    assert(rows.take(rows.len() as int) =~= rows);
}

/// What one worksheet of a workbook upload gives: none when it has no rows
/// or lacks the title or password column (only `url` and `notes` name the
/// address and notes there).
pub open spec fn book_sheet_view(grid: Seq<Seq<Seq<char>>>) -> Option<Seq<EntryView>> {
    if grid.len() == 0 {
        None
    } else {
        match columns_of(lowered_headers(grid[0]), seq!["url"@], seq!["notes"@]) {
            Some(c) => Some(rows_entries(grid.drop_first(), c)),
            None => None,
        }
    }
}

/// The worksheets of a workbook upload as views: each name with its cell
/// texts.
pub open spec fn sheets_view(sheets: Seq<(String, Vec<Vec<String>>)>) -> Seq<(Seq<char>, Seq<Seq<Seq<char>>>)> {
    sheets.map_values(|e: (String, Vec<Vec<String>>)| (e.0@, grid_view(e.1@)))
}

/// The groups of a workbook preview: each worksheet that gives at least one
/// entry, with its name, in order.
pub open spec fn book_preview(sheets: Seq<(Seq<char>, Seq<Seq<Seq<char>>>)>) -> Seq<(Seq<char>, Seq<EntryView>)>
    decreases sheets.len(),
{
    if sheets.len() == 0 {
        seq![]
    } else {
        let before = book_preview(sheets.drop_last());
        match book_sheet_view(sheets.last().1) {
            Some(v) => if v.len() > 0 {
                before.push((sheets.last().0, v))
            } else {
                before
            },
            None => before,
        }
    }
}

/// The entries read from one worksheet of a workbook upload.
#[derive(Debug, Clone)]
pub struct PreviewGroup {
    pub sheet_name: String,
    pub passwords: Vec<IoPassword>,
}

/// The view of a preview group.
pub open spec fn group_view(g: PreviewGroup) -> (Seq<char>, Seq<EntryView>) {
    (g.sheet_name@, io_views(g.passwords@))
}

/// The message of a workbook upload in which no worksheet gives an entry.
pub open spec fn no_data_message() -> Seq<char> {
    "XLSX 中没有找到有效数据（需要包含 title 和 password 列的工作表）"@
}

/// Reads every worksheet of a workbook upload (the workbook preview), in
/// order: worksheets that give no entry are left out, and an upload where
/// none gives one is refused.
pub fn book_entries(sheets: &Vec<(String, Vec<Vec<String>>)>) -> (res: Result<Vec<PreviewGroup>, AppError>)
    ensures
        book_preview(sheets_view(sheets@)).len() == 0 ==> fails_with(res, ErrorKind::BadRequest,
            no_data_message(),
        ),
        book_preview(sheets_view(sheets@)).len() > 0 ==> (res matches Ok(groups) && groups@.map_values(
            |g: PreviewGroup| group_view(g),
        ) == book_preview(sheets_view(sheets@))),
{
    let mut groups: Vec<PreviewGroup> = Vec::new();
    let n = sheets.len();
    let url_names = names_of("url", None, None);
    let notes_names = names_of("notes", None, None);
    assert(texts(url_names@) =~= seq!["url"@]);
    assert(texts(notes_names@) =~= seq!["notes"@]);
    for i in 0..n
        invariant
            n == sheets@.len(),
            texts(url_names@) == seq!["url"@],
            texts(notes_names@) == seq!["notes"@],
            groups@.map_values(|g: PreviewGroup| group_view(g)) == book_preview(
                sheets_view(sheets@.take(i as int)),
            ),
    {
        let (name, grid) = &sheets[i];
        assert(sheets_view(sheets@.take(i + 1)).drop_last() =~= sheets_view(sheets@.take(i as int)));
        assert(sheets_view(sheets@.take(i + 1)).last() == (name@, grid_view(grid@)));
        let ghost before = groups@;
        if grid.len() > 0 {
            assert(texts(grid@[0]@) == grid_view(grid@)[0]);
            let (_t, _p, cols) = find_columns(&grid[0], &url_names, &notes_names);
            if let Some(c) = cols {
                let v = entries_of_rows(grid, c);
                if v.len() > 0 {
                    groups.push(PreviewGroup { sheet_name: name.clone(), passwords: v });
                    assert(groups@.map_values(|g: PreviewGroup| group_view(g)) =~= before.map_values(
                        |g: PreviewGroup| group_view(g),
                    ).push(group_view(groups@.last())));
                }
            }
        }
    }
    assert(sheets@.take(n as int) =~= sheets@);
    if groups.len() == 0 {
        return Err(AppError::bad_request("XLSX 中没有找到有效数据（需要包含 title 和 password 列的工作表）"));
    }
    Ok(groups)
}

/// The message of an upload the reader cannot open.
pub open spec fn open_failure(m: Seq<char>) -> Seq<char> {
    "无法解析 XLSX: "@ + m
}

/// The message of a worksheet of a workbook upload that does not read.
pub open spec fn sheet_read_failure(name: Seq<char>, m: Seq<char>) -> Seq<char> {
    "读取工作表「"@ + name + "」失败: "@ + m
}

/// What reading every worksheet gives, in order: each one's name and
/// cells, or the message of the first one that does not read.
pub open spec fn sheets_read(sheets: Seq<(Seq<char>, SheetRead)>) -> Result<Seq<(Seq<char>, Seq<Seq<Seq<char>>>)>, Seq<char>>
    decreases sheets.len(),
{
    if sheets.len() == 0 {
        Ok(seq![])
    } else {
        match sheets_read(sheets.drop_last()) {
            Err(m) => Err(m),
            Ok(before) => match sheets.last().1 {
                Ok(g) => Ok(before.push((sheets.last().0, g))),
                Err(m) => Err(sheet_read_failure(sheets.last().0, m)),
            },
        }
    }
}

/// Once a worksheet fails to read, reading the ones after it changes
/// nothing: the first failure is the answer.
proof fn lemma_first_read_failure(sheets: Seq<(Seq<char>, SheetRead)>, k: int)
    requires
        0 <= k <= sheets.len(),
        sheets_read(sheets.take(k)) is Err,
    ensures
        sheets_read(sheets) == sheets_read(sheets.take(k)),
    decreases sheets.len() - k,
{
    if k < sheets.len() {
        assert(sheets.take(k + 1).drop_last() =~= sheets.take(k));
        lemma_first_read_failure(sheets, k + 1);
    } else {
        assert(sheets.take(k) =~= sheets);
    }
}

/// What the single-sheet preview of an upload the reader read as
/// `contents` answers: the entries of its first worksheet, or the message
/// of the refusal.
pub open spec fn sheet_upload_view(contents: Result<Seq<(Seq<char>, SheetRead)>, Seq<char>>) -> Result<Seq<EntryView>, Seq<char>> {
    match contents {
        Err(m) => Err(open_failure(m)),
        Ok(sheets) => if sheets.len() == 0 {
            Err("XLSX 中没有工作表"@)
        } else {
            match sheets[0].1 {
                Err(m) => Err("读取工作表失败: "@ + m),
                Ok(g) => sheet_preview_of(g),
            }
        },
    }
}

/// What the workbook preview of an upload the reader read as `contents`
/// answers: the groups of its worksheets, or the message of the refusal.
pub open spec fn book_upload_view(contents: Result<Seq<(Seq<char>, SheetRead)>, Seq<char>>) -> Result<Seq<(Seq<char>, Seq<EntryView>)>, Seq<char>> {
    match contents {
        Err(m) => Err(open_failure(m)),
        Ok(sheets) => match sheets_read(sheets) {
            Err(m) => Err(m),
            Ok(gs) => if book_preview(gs).len() == 0 {
                Err(no_data_message())
            } else {
                Ok(book_preview(gs))
            },
        },
    }
}

/// Reads the entries of the first worksheet of an uploaded XLSX file (the
/// single-sheet preview, `parse_xlsx_passwords`): the upload must not be
/// empty nor over the size limit; a file that does not open, a workbook
/// without worksheets, and a first worksheet that does not read are refused
/// with the reader's message; the entries are what `sheet_entries` reads
/// from that worksheet's cells.
pub fn preview_sheet_upload(bytes: Vec<u8>) -> (res: Result<Vec<IoPassword>, AppError>)
    ensures
        bytes@.len() == 0 ==> fails_with(res, ErrorKind::BadRequest, "未上传文件"@),
        bytes@.len() > MAX_XLSX_SIZE ==> fails_with(res, ErrorKind::BadRequest, "文件过大（10MB 限制），请上传较小的文件"@),
        0 < bytes@.len() <= MAX_XLSX_SIZE ==> match sheet_upload_view(xlsx_contents(bytes@)) {
            Ok(v) => res matches Ok(o) && io_views(o@) == v,
            Err(m) => fails_with(res, ErrorKind::BadRequest, m),
        },
{
    match check_upload(bytes.len()) {
        Ok(()) => {},
        Err(e) => return Err(e),
    }
    let ghost b = bytes@;
    let mut wb = match xlsx_open(bytes) {
        Ok(w) => w,
        Err(m) => return Err(AppError::bad_request(concat("无法解析 XLSX: ", m.as_str()).as_str())),
    };
    let ghost all = xlsx_sheets_of(wb);
    let names = xlsx_sheet_names(&wb);
    let name = match first_sheet(&names) {
        Ok(n) => n,
        Err(e) => return Err(e),
    };
    assert(all[0].0 == name@);
    let grid = match xlsx_sheet_cells(&mut wb, name.as_str()) {
        Ok(g) => g,
        Err(m) => return Err(AppError::bad_request(concat("读取工作表失败: ", m.as_str()).as_str())),
    };
    sheet_entries(&grid)
}

/// Reads the entries of every worksheet of an uploaded XLSX file (the
/// workbook preview, `preview_book_xlsx`): the upload must not be empty nor
/// over the size limit; a file that does not open and the first worksheet
/// that does not read are refused with the reader's message; the groups are
/// what `book_entries` reads from all worksheets' names and cells, in order.
pub fn preview_book_upload(bytes: Vec<u8>) -> (res: Result<Vec<PreviewGroup>, AppError>)
    ensures
        bytes@.len() == 0 ==> fails_with(res, ErrorKind::BadRequest, "未上传文件"@),
        bytes@.len() > MAX_XLSX_SIZE ==> fails_with(res, ErrorKind::BadRequest, "文件过大（10MB 限制），请上传较小的文件"@),
        0 < bytes@.len() <= MAX_XLSX_SIZE ==> match book_upload_view(xlsx_contents(bytes@)) {
            Ok(v) => res matches Ok(groups) && groups@.map_values(|g: PreviewGroup| group_view(g)) == v,
            Err(m) => fails_with(res, ErrorKind::BadRequest, m),
        },
{
    match check_upload(bytes.len()) {
        Ok(()) => {},
        Err(e) => return Err(e),
    }
    let ghost b = bytes@;
    let mut wb = match xlsx_open(bytes) {
        Ok(w) => w,
        Err(m) => return Err(AppError::bad_request(concat("无法解析 XLSX: ", m.as_str()).as_str())),
    };
    let ghost all = xlsx_sheets_of(wb);
    let names = xlsx_sheet_names(&wb);
    let mut sheets: Vec<(String, Vec<Vec<String>>)> = Vec::new();
    let n = names.len();
    assert(all.take(0) =~= seq![]);
    assert(sheets_view(sheets@) =~= seq![]);
    for i in 0..n
        invariant
            n == names@.len(),
            n == all.len(),
            b == bytes@,
            0 < b.len() <= MAX_XLSX_SIZE,
            xlsx_contents(b) == Ok::<_, Seq<char>>(all),
            xlsx_sheets_of(wb) == all,
            forall|j: int| 0 <= j < n ==> #[trigger] names@[j]@ == all[j].0,
            sheets_read(all.take(i as int)) == Ok::<_, Seq<char>>(sheets_view(sheets@)),
    {
        assert(all.take(i + 1).drop_last() =~= all.take(i as int));
        assert(all.take(i + 1).last() == all[i as int]);
        assert(all[i as int].0 == names@[i as int]@);
        let grid = match xlsx_sheet_cells(&mut wb, names[i].as_str()) {
            Ok(g) => g,
            Err(m) => {
                let mut msg = concat("读取工作表「", names[i].as_str());
                msg.append("」失败: ");
                msg.append(m.as_str());
                proof {
                    assert(msg@ == sheet_read_failure(all[i as int].0, m@));
                    lemma_first_read_failure(all, i + 1);
                }
                return Err(AppError::bad_request(msg.as_str()));
            },
        };
        let ghost before = sheets@;
        sheets.push((names[i].clone(), grid));
        assert(sheets_view(sheets@) =~= sheets_view(before).push((all[i as int].0, grid_view(grid@))));
    }
    assert(all.take(n as int) =~= all);
    book_entries(&sheets)
}

// ─── writing workbooks ──────────────────────────────────────────────────────

/// A worksheet to write: its name (none keeps the default one), whether a
/// name the crate refuses fails the whole file, whether the first row is
/// bold, and the texts of its cells, row by row from the first cell.
#[derive(Debug, Clone)]
pub struct XlsxSheet {
    pub name: Option<String>,
    pub name_required: bool,
    pub bold_header: bool,
    pub rows: Vec<Vec<String>>,
}

/// The view of a worksheet to write.
pub open spec fn sheet_view(s: XlsxSheet) -> (Option<Seq<char>>, bool, bool, Seq<Seq<Seq<char>>>) {
    (opt_text_view(s.name), s.name_required, s.bold_header, grid_view(s.rows@))
}

/// The views of the worksheets of a workbook.
pub open spec fn workbook_view(v: Seq<XlsxSheet>) -> Seq<(Option<Seq<char>>, bool, bool, Seq<Seq<Seq<char>>>)> {
    v.map_values(|s: XlsxSheet| sheet_view(s))
}

/// The header row of an exported worksheet.
pub open spec fn export_header() -> Seq<Seq<char>> {
    seq!["title"@, "username"@, "password"@, "url"@, "notes"@]
}

/// The row of one exported entry: absent fields are empty cells.
pub open spec fn export_row(e: IoPassword) -> Seq<Seq<char>> {
    seq![e.title@, or_blank(opt_text_view(e.username)), e.password@, or_blank(opt_text_view(e.url)), or_blank(opt_text_view(e.notes))]
}

/// The rows of an exported worksheet: the header, then one row per entry.
pub open spec fn export_rows(entries: Seq<IoPassword>) -> Seq<Seq<Seq<char>>> {
    seq![export_header()] + entries.map_values(|e: IoPassword| export_row(e))
}

/// The text of an optional field of an entry, empty when it has none.
pub open spec fn field_or_empty(o: Option<String>) -> Seq<char> {
    match o {
        Some(s) => s@,
        None => seq![],
    }
}

/// Law: an exported worksheet has the header row and then one row per
/// entry, in order; the row of an entry holds its title, user name,
/// password, address and notes in that order, an absent field as an empty
/// cell.
pub proof fn law_export_rows_hold_every_field(entries: Seq<IoPassword>, i: int)
    requires
        0 <= i < entries.len(),
    ensures
        export_rows(entries).len() == entries.len() + 1,
        export_rows(entries)[0] == seq!["title"@, "username"@, "password"@, "url"@, "notes"@],
        export_rows(entries)[i + 1] == seq![
            entries[i].title@,
            field_or_empty(entries[i].username),
            entries[i].password@,
            field_or_empty(entries[i].url),
            field_or_empty(entries[i].notes),
        ],
{
    let e = entries[i];
    assert(or_blank(opt_text_view(e.username)) == field_or_empty(e.username));
    assert(or_blank(opt_text_view(e.url)) == field_or_empty(e.url));
    assert(or_blank(opt_text_view(e.notes)) == field_or_empty(e.notes));
}

/// A row of five texts.
fn row_of(a: &str, b: &str, c: &str, d: &str, e: &str) -> (v: Vec<String>)
    ensures
        texts(v@) == seq![a@, b@, c@, d@, e@],
{
    let mut v: Vec<String> = Vec::new();
    v.push(String::from_str(a));
    v.push(String::from_str(b));
    v.push(String::from_str(c));
    v.push(String::from_str(d));
    v.push(String::from_str(e));
    assert(texts(v@) =~= seq![a@, b@, c@, d@, e@]);
    v
}

/// The text of an optional field, empty when absent.
fn field_text(o: &Option<String>) -> (s: &str)
    ensures
        s@ == or_blank(opt_text_view(*o)),
{
    proof {
        reveal_strlit("");
    }
    match o {
        Some(t) => t.as_str(),
        None => "",
    }
}

/// Lays out the rows of an exported worksheet.
pub fn export_sheet_rows(entries: &Vec<IoPassword>) -> (rows: Vec<Vec<String>>)
    ensures
        grid_view(rows@) == export_rows(entries@),
{
    proof {
        reveal_strlit("");
    }
    let mut rows: Vec<Vec<String>> = Vec::new();
    rows.push(row_of("title", "username", "password", "url", "notes"));
    let n = entries.len();
    for i in 0..n
        invariant
            n == entries@.len(),
            grid_view(rows@) == seq![export_header()] + entries@.take(i as int).map_values(
                |e: IoPassword| export_row(e),
            ),
    {
        let e = &entries[i];
        let ghost before = rows@;
        rows.push(
            row_of(

                e.title.as_str(),
                field_text(&e.username),
                e.password.as_str(),
                field_text(&e.url),
                field_text(&e.notes),
            ),
        );
        assert(grid_view(rows@) =~= grid_view(before).push(export_row(entries@[i as int])));
        assert(entries@.take(i + 1).map_values(|e: IoPassword| export_row(e)) =~= entries@.take(
            i as int,
        ).map_values(|e: IoPassword| export_row(e)).push(export_row(entries@[i as int])));
    }
    assert(entries@.take(n as int) =~= entries@);
    rows
}

/// The name of a worksheet tab: the first 31 characters of the name.
pub open spec fn tab_name(name: Seq<char>) -> Seq<char> {
    if name.len() <= 31 {
        name
    } else {
        name.take(31)
    }
}

/// Cuts a sheet's name to a worksheet tab's length.
pub fn sheet_tab_name(name: &str) -> (t: String)
    ensures
        t@ == tab_name(name@),
{
    let chars = crate::text::chars_of(name);
    if chars.len() <= 31 {
        return String::from_str(name);
    }
    let head = vstd::slice::slice_subrange(chars.as_slice(), 0, 31);
    crate::text::string_from_chars(head)
}

/// The workbook of a sheet's export (`export_sheet_xlsx`): one worksheet,
/// its header bold.
pub fn sheet_workbook(entries: &Vec<IoPassword>) -> (w: Vec<XlsxSheet>)
    ensures
        workbook_view(w@) == seq![(None::<Seq<char>>, false, true, export_rows(entries@))],
{
    let mut w: Vec<XlsxSheet> = Vec::new();
    w.push(XlsxSheet { name: None, name_required: false, bold_header: true, rows: export_sheet_rows(entries) });
    assert(workbook_view(w@) =~= seq![(None::<Seq<char>>, false, true, export_rows(entries@))]);
    w
}

/// The worksheets of a book's export: one per sheet that has entries, named
/// after it, in order.
pub open spec fn book_sheets(sheets: Seq<(String, Vec<IoPassword>)>) -> Seq<(Option<Seq<char>>, bool, bool, Seq<Seq<Seq<char>>>)>
    decreases sheets.len(),
{
    if sheets.len() == 0 {
        seq![]
    } else {
        let before = book_sheets(sheets.drop_last());
        let (name, entries) = sheets.last();
        if entries@.len() > 0 {
            before.push((Some(tab_name(name@)), false, true, export_rows(entries@)))
        } else {
            before
        }
    }
}

/// The worksheet of a book's export when no sheet has entries.
pub open spec fn no_data_sheet() -> (Option<Seq<char>>, bool, bool, Seq<Seq<Seq<char>>>) {
    (None, false, false, seq![seq!["无数据"@]])
}

/// The workbook of a book's export (`export_book_xlsx`): a worksheet per
/// sheet with entries; a single "no data" worksheet when there is none.
pub fn book_workbook(sheets: &Vec<(String, Vec<IoPassword>)>) -> (w: Vec<XlsxSheet>)
    ensures
        book_sheets(sheets@).len() > 0 ==> workbook_view(w@) == book_sheets(sheets@),
        book_sheets(sheets@).len() == 0 ==> workbook_view(w@) == seq![no_data_sheet()],
{
    let mut w: Vec<XlsxSheet> = Vec::new();
    let n = sheets.len();
    for i in 0..n
        invariant
            n == sheets@.len(),
            workbook_view(w@) == book_sheets(sheets@.take(i as int)),
    {
        let (name, entries) = &sheets[i];
        assert(sheets@.take(i + 1).drop_last() =~= sheets@.take(i as int));
        assert(sheets@.take(i + 1).last() == sheets@[i as int]);
        if entries.len() > 0 {
            let ghost before = w@;
            w.push(
                XlsxSheet {
                    name: Some(sheet_tab_name(name.as_str())),
                    name_required: false,
                    bold_header: true,
                    rows: export_sheet_rows(entries),
                },
            );
            assert(workbook_view(w@) =~= workbook_view(before).push(sheet_view(w@.last())));
        }
    }
    assert(sheets@.take(n as int) =~= sheets@);
    if w.len() == 0 {
        let mut cell: Vec<String> = Vec::new();
        cell.push(String::from_str("无数据"));
        assert(texts(cell@) =~= seq!["无数据"@]);
        let mut rows: Vec<Vec<String>> = Vec::new();
        rows.push(cell);
        assert(grid_view(rows@) =~= seq![seq!["无数据"@]]);
        w.push(XlsxSheet { name: None, name_required: false, bold_header: false, rows });
        assert(workbook_view(w@) =~= seq![no_data_sheet()]);
    }
    w
}

/// The import template of a sheet (`template_sheet_xlsx`): the header and
/// two sample rows.
pub fn sheet_template() -> (w: Vec<XlsxSheet>)
    ensures
        w@.len() == 1,
        workbook_view(w@)[0] == (None::<Seq<char>>, false, true, seq![
            export_header(),
            seq!["生产服务器 SSH"@, "root"@, "请输入密码"@, "192.168.1.1"@, "root 用户"@],
            seq!["测试服务器"@, "admin"@, "请输入密码"@, "10.0.0.1"@, "开发环境"@],
        ]),
{
    let mut rows: Vec<Vec<String>> = Vec::new();
    rows.push(row_of("title", "username", "password", "url", "notes"));
    rows.push(row_of("生产服务器 SSH", "root", "请输入密码", "192.168.1.1", "root 用户"));
    rows.push(row_of("测试服务器", "admin", "请输入密码", "10.0.0.1", "开发环境"));
    let mut w: Vec<XlsxSheet> = Vec::new();
    w.push(XlsxSheet { name: None, name_required: false, bold_header: true, rows });
    assert(grid_view(w@[0].rows@) =~= seq![
        export_header(),
        seq!["生产服务器 SSH"@, "root"@, "请输入密码"@, "192.168.1.1"@, "root 用户"@],
        seq!["测试服务器"@, "admin"@, "请输入密码"@, "10.0.0.1"@, "开发环境"@],
    ]);
    w
}

/// The import template of a book (`template_book_xlsx`): a worksheet of
/// server passwords with two sample rows and one of database passwords with
/// one, each named.
pub fn book_template() -> (w: Vec<XlsxSheet>)
    ensures
        w@.len() == 2,
        workbook_view(w@)[0] == (Some("服务器密码"@), true, true, seq![
            export_header(),
            seq!["生产服务器 SSH"@, "root"@, "请输入密码"@, "192.168.1.1"@, "root 用户"@],
            seq!["测试服务器"@, "admin"@, "请输入密码"@, "10.0.0.1"@, "开发环境"@],
        ]),
        workbook_view(w@)[1] == (Some("数据库密码"@), true, true, seq![
            export_header(),
            seq!["MySQL 生产"@, "dbadmin"@, "请输入密码"@, "db01.example.com"@, "主库"@],
        ]),
{
    let mut first: Vec<Vec<String>> = Vec::new();
    first.push(row_of("title", "username", "password", "url", "notes"));
    first.push(row_of("生产服务器 SSH", "root", "请输入密码", "192.168.1.1", "root 用户"));
    first.push(row_of("测试服务器", "admin", "请输入密码", "10.0.0.1", "开发环境"));
    let mut second: Vec<Vec<String>> = Vec::new();
    second.push(row_of("title", "username", "password", "url", "notes"));
    second.push(row_of("MySQL 生产", "dbadmin", "请输入密码", "db01.example.com", "主库"));
    let mut w: Vec<XlsxSheet> = Vec::new();
    w.push(XlsxSheet { name: Some(String::from_str("服务器密码")), name_required: true, bold_header: true, rows: first });
    w.push(XlsxSheet { name: Some(String::from_str("数据库密码")), name_required: true, bold_header: true, rows: second });
    assert(grid_view(w@[0].rows@) =~= seq![
        export_header(),
        seq!["生产服务器 SSH"@, "root"@, "请输入密码"@, "192.168.1.1"@, "root 用户"@],
        seq!["测试服务器"@, "admin"@, "请输入密码"@, "10.0.0.1"@, "开发环境"@],
    ]);
    assert(grid_view(w@[1].rows@) =~= seq![
        export_header(),
        seq!["MySQL 生产"@, "dbadmin"@, "请输入密码"@, "db01.example.com"@, "主库"@],
    ]);
    w
}

/// Whether the cells of a worksheet fit in it: at most 1,048,576 rows of at
/// most 16,384 cells, each text of at most 32,767 characters.
pub open spec fn cells_fit(rows: Seq<Seq<Seq<char>>>) -> bool {
    &&& rows.len() <= XLSX_ROWS
    &&& forall|r: int| 0 <= r < rows.len() ==> #[trigger] rows[r].len() <= XLSX_COLS
    &&& forall|r: int, c: int|
        0 <= r < rows.len() && 0 <= c < rows[r].len() ==> #[trigger] rows[r][c].len() <= XLSX_MAX_TEXT
}

/// The name the `i`-th worksheet is written under: its own when the writer
/// accepts it, the default `Sheet` and its number otherwise.
pub open spec fn written_name(s: (Option<Seq<char>>, bool, bool, Seq<Seq<Seq<char>>>), i: int) -> Seq<char> {
    match s.0 {
        Some(n) => if xlsx_name_valid(n) {
            n
        } else {
            xlsx_default_name(i + 1)
        },
        None => xlsx_default_name(i + 1),
    }
}

/// The names the worksheets are written under, in order.
pub open spec fn written_names(v: Seq<(Option<Seq<char>>, bool, bool, Seq<Seq<Seq<char>>>)>) -> Seq<Seq<char>> {
    Seq::new(v.len(), |i: int| written_name(v[i], i))
}

/// Whether every worksheet of a workbook can be filled: every required name
/// is one the writer accepts, and the cells of every worksheet fit.
pub open spec fn workbook_buildable(v: Seq<(Option<Seq<char>>, bool, bool, Seq<Seq<Seq<char>>>)>) -> bool {
    &&& forall|i: int|
        0 <= i < v.len() && (#[trigger] v[i]).1 && v[i].0 is Some ==> xlsx_name_valid(v[i].0->0)
    &&& forall|i: int| 0 <= i < v.len() ==> cells_fit((#[trigger] v[i]).3)
}

/// Whether a workbook can be written: it can be built, and no two
/// worksheets are written under the same name, compared lower-cased.
pub open spec fn workbook_writable(v: Seq<(Option<Seq<char>>, bool, bool, Seq<Seq<Seq<char>>>)>) -> bool {
    &&& workbook_buildable(v)
    &&& names_distinct_lowercase(written_names(v))
}

/// The most worksheets one workbook is built with (the writer counts them
/// in a `u16`).
pub const MAX_XLSX_SHEETS: usize = 65535;

/// Whether a cell of a grid is stored: a text that is not empty, or any
/// text in bold (an empty one is a formatted blank).
pub open spec fn cell_kept(text: Seq<char>, bold: bool) -> bool {
    text.len() > 0 || bold
}

/// The cells of a grid before row `r` and, in row `r`, before column `c`,
/// each with its text and whether it is bold (the first row, when the header
/// is bold); empty texts that are not bold are not stored.
pub open spec fn cells_before(g: Seq<Seq<Seq<char>>>, bold_header: bool, r: int, c: int) -> Map<(int, int), (Seq<char>, bool)> {
    Map::new(
        |k: (int, int)|
            0 <= k.0 < g.len() && 0 <= k.1 < g[k.0].len() && (k.0 < r || (k.0 == r && k.1 < c))
                && cell_kept(g[k.0][k.1], bold_header && k.0 == 0),
        |k: (int, int)| (g[k.0][k.1], bold_header && k.0 == 0),
    )
}

/// The cells a worksheet holds once a grid is written into it from the
/// first cell: every stored cell of the grid at its own row and column.
pub open spec fn sheet_cells(g: Seq<Seq<Seq<char>>>, bold_header: bool) -> Map<(int, int), (Seq<char>, bool)> {
    cells_before(g, bold_header, g.len() as int, 0)
}

/// The cells of each worksheet of a workbook, in order.
pub open spec fn written_cells(v: Seq<(Option<Seq<char>>, bool, bool, Seq<Seq<Seq<char>>>)>) -> Seq<Map<(int, int), (Seq<char>, bool)>> {
    Seq::new(v.len(), |i: int| sheet_cells(v[i].3, v[i].2))
}

/// Writes the cells of one worksheet from the first, the first row bold
/// when asked; every writer failure is a server error. Cells that fit are
/// always written; once written, the worksheet holds exactly the stored
/// cells of the grid, each at its own row and column. The worksheet keeps
/// its name.
fn fill_sheet(ws: &mut rust_xlsxwriter::Worksheet, sheet: &XlsxSheet, bold: &rust_xlsxwriter::Format) -> (res: Result<(), AppError>)
    requires
        xlsx_worksheet_cells(*old(ws)) == Map::<(int, int), (Seq<char>, bool)>::empty(),
        xlsx_format_bold(*bold),
    ensures
        xlsx_worksheet_name(*final(ws)) == xlsx_worksheet_name(*old(ws)),
        cells_fit(grid_view(sheet.rows@)) ==> res is Ok,
        res is Ok ==> xlsx_worksheet_cells(*final(ws)) == sheet_cells(grid_view(sheet.rows@), sheet.bold_header),
        res matches Err(e) ==> e.kind == ErrorKind::Internal,
{
    let ghost g = grid_view(sheet.rows@);
    let ghost b = sheet.bold_header;
    let nrows = sheet.rows.len();
    assert(cells_before(g, b, 0, 0) =~= Map::<(int, int), (Seq<char>, bool)>::empty());
    for r in 0..nrows
        invariant
            nrows == sheet.rows@.len(),
            g == grid_view(sheet.rows@),
            b == sheet.bold_header,
            xlsx_format_bold(*bold),
            xlsx_worksheet_name(*ws) == xlsx_worksheet_name(*old(ws)),
            xlsx_worksheet_cells(*ws) == cells_before(g, b, r as int, 0),
    {
        let cells = &sheet.rows[r];
        let row: u32 = if r < XLSX_ROWS as usize { r as u32 } else { XLSX_ROWS };
        let ncols = cells.len();
        assert(g[r as int] == texts(cells@));
        for c in 0..ncols
            invariant
                nrows == sheet.rows@.len(),
                0 <= r < nrows,
                g == grid_view(sheet.rows@),
                b == sheet.bold_header,
                xlsx_format_bold(*bold),
                cells == sheet.rows@[r as int],
                ncols == cells@.len(),
                g[r as int] == texts(cells@),
                row < XLSX_ROWS ==> row == r,
                cells_fit(g) ==> row == r,
                xlsx_worksheet_name(*ws) == xlsx_worksheet_name(*old(ws)),
                xlsx_worksheet_cells(*ws) == cells_before(g, b, r as int, c as int),
        {
            let col: u16 = if c < XLSX_COLS as usize { c as u16 } else { XLSX_COLS };
            assert(texts(cells@)[c as int] == cells@[c as int]@);
            let ghost before = xlsx_worksheet_cells(*ws);
            proof {
                if cells_fit(g) {
                    assert(g[r as int].len() <= XLSX_COLS);
                    assert(g[r as int][c as int].len() <= XLSX_MAX_TEXT);
                    assert(row < XLSX_ROWS && col < XLSX_COLS);
                }
            }
            let written = if r == 0 && sheet.bold_header {
                xlsx_write_formatted(ws, row, col, cells[c].as_str(), bold)
            } else {
                xlsx_write_string(ws, row, col, cells[c].as_str())
            };
            match written {
                Ok(()) => {},
                Err(m) => return Err(AppError::internal(m.as_str())),
            }
            proof {
                let t = g[r as int][c as int];
                let fb = b && r == 0;
                if cell_kept(t, fb) {
                    assert(row == r && col == c);
                    assert(xlsx_worksheet_cells(*ws) == before.insert((r as int, c as int), (t, fb)));
                    assert(cells_before(g, b, r as int, c + 1) =~= before.insert((r as int, c as int), (t, fb)));
                } else {
                    assert(xlsx_worksheet_cells(*ws) == before);
                    assert(cells_before(g, b, r as int, c + 1) =~= before);
                }
            }
        }
        assert(cells_before(g, b, r as int, ncols as int) =~= cells_before(g, b, r + 1, 0));
    }
    Ok(())
}

/// Builds the workbook of the given worksheets, in order: each named as
/// `written_names` says (a required name the writer refuses fails the whole
/// workbook), each holding exactly the stored cells of its grid, the first
/// row bold when asked. Every writer failure is a server error, and a
/// workbook every worksheet of which can be filled is always built.
pub fn build_workbook(sheets: &Vec<XlsxSheet>) -> (res: Result<rust_xlsxwriter::Workbook, AppError>)
    requires
        sheets@.len() <= MAX_XLSX_SHEETS,
    ensures
        workbook_buildable(workbook_view(sheets@)) ==> res is Ok,
        res matches Err(e) ==> e.kind == ErrorKind::Internal,
        res matches Ok(wb) ==> xlsx_book_names(wb) == written_names(workbook_view(sheets@))
            && xlsx_book_cells(wb) == written_cells(workbook_view(sheets@)),
{
    let mut wb = xlsx_workbook();
    let bold = xlsx_bold();
    let n = sheets.len();
    let ghost v = workbook_view(sheets@);
    assert(written_names(v).take(0) =~= Seq::<Seq<char>>::empty());
    assert(written_cells(v).take(0) =~= Seq::<Map<(int, int), (Seq<char>, bool)>>::empty());
    for i in 0..n
        invariant
            n == sheets@.len(),
            n <= MAX_XLSX_SHEETS,
            v == workbook_view(sheets@),
            xlsx_format_bold(bold),
            xlsx_worksheets_added(wb) == i,
            xlsx_book_names(wb) == written_names(v).take(i as int),
            xlsx_book_cells(wb) == written_cells(v).take(i as int),
    {
        let sheet = &sheets[i];
        assert(v[i as int] == sheet_view(*sheet));
        let ghost names_before = xlsx_book_names(wb);
        let ghost cells_before_sheet = xlsx_book_cells(wb);
        let ws = xlsx_add_worksheet(&mut wb);
        if let Some(name) = &sheet.name {
            match xlsx_set_name(ws, name.as_str()) {
                Ok(()) => {},
                Err(m) => if sheet.name_required {
                    return Err(AppError::internal(m.as_str()));
                },
            }
        }
        match fill_sheet(ws, sheet, &bold) {
            Ok(()) => {},
            Err(e) => return Err(e),
        }
        assert(xlsx_worksheet_name(*ws) == written_name(v[i as int], i as int));
        assert(written_names(v).take(i + 1) =~= names_before.push(written_name(v[i as int], i as int)));
        assert(written_cells(v).take(i + 1) =~= cells_before_sheet.push(sheet_cells(v[i as int].3, v[i as int].2)));
    }
    assert(written_names(v).take(n as int) =~= written_names(v));
    assert(written_cells(v).take(n as int) =~= written_cells(v));
    Ok(wb)
}

/// The worksheets an XLSX file written from `v` holds: each under its
/// written name, with the stored cells of its grid.
pub open spec fn written_file(v: Seq<(Option<Seq<char>>, bool, bool, Seq<Seq<Seq<char>>>)>) -> Seq<(Seq<char>, Map<(int, int), (Seq<char>, bool)>)> {
    Seq::new(v.len(), |i: int| (written_name(v[i], i), sheet_cells(v[i].3, v[i].2)))
}

/// Writes a workbook as XLSX bytes (a ZIP archive, as every XLSX file is):
/// the bytes that saving `build_workbook`'s workbook gives, so the file
/// holds each worksheet under its written name with the stored cells of its
/// grid; a build or save failure is a server error. A workbook that
/// `workbook_writable` admits is always written.
pub fn render_xlsx(sheets: &Vec<XlsxSheet>) -> (res: Result<Vec<u8>, AppError>)
    requires
        sheets@.len() <= MAX_XLSX_SHEETS,
    ensures
        workbook_writable(workbook_view(sheets@)) ==> res is Ok,
        res matches Err(e) ==> e.kind == ErrorKind::Internal,
        res matches Ok(b) ==> b@.len() >= 4 && b@.take(4) == zip_signature(),
        res matches Ok(b) ==> (sheets@.len() > 0 ==> xlsx_file_sheets(b@) == written_file(
            workbook_view(sheets@),
        )),
{
    let mut wb = match build_workbook(sheets) {
        Ok(w) => w,
        Err(e) => return Err(e),
    };
    let ghost v = workbook_view(sheets@);
    assert(paired_sheets(written_names(v), written_cells(v)) =~= written_file(v));
    match xlsx_save(&mut wb) {
        Ok(bytes) => Ok(bytes),
        Err(m) => Err(AppError::internal(m.as_str())),
    }
}

} // verus!
