//! Table exports: the file names of parts and temporary files, the columns
//! and query of an export, the text of CSV and SQL lines, and progress.
use vstd::prelude::*;
use crate::cells::{csv_field, csv_value, cell_plain_text, sql_value, sql_value_text, CellValue};
use crate::sql::{bracket_ident, bracket_ident_seq, build_where_clause, first_unknown_operator, unsupported_operator_text, join_seq, join_strings, strings_view, where_clause, Filter};
use crate::text::{dec, pad_left, push_char, str_eq, u64_to_string_padded3};

verus! {

/// What a table export was asked for.
pub struct TableExportSpec {
    pub connection_id: String,
    pub schema: String,
    pub table: String,
    pub filters: Vec<Filter>,
    pub selected_columns: Vec<String>,
    pub format: String,
    pub file_path: String,
}

// ---------------------------------------------------------------------------
// Paths
// ---------------------------------------------------------------------------

// The std path functions below split and join paths by the syntax of the
// target the crate is built for. Their results are named, not written out:
// each is a function of the text it is given alone. A `&str` is valid UTF-8,
// so the lossy conversion back to text never replaces a character.

/// What `Path::parent` gives for a path, as text.
pub uninterp spec fn parent_of_path(path: Seq<char>) -> Option<Seq<char>>;

/// What `Path::file_stem` gives for a path, as text.
pub uninterp spec fn file_stem_of_path(path: Seq<char>) -> Option<Seq<char>>;

/// What `Path::extension` gives for a path, as text.
pub uninterp spec fn extension_of_path(path: Seq<char>) -> Option<Seq<char>>;

/// What `Path::file_name` gives for a path, as text.
pub uninterp spec fn file_name_of_path(path: Seq<char>) -> Option<Seq<char>>;

/// What `Path::join` gives for a parent and a name, as text.
pub uninterp spec fn joined_path(parent: Seq<char>, name: Seq<char>) -> Seq<char>;

/// What `Path::with_file_name` gives for a path and a name, as text.
pub uninterp spec fn path_renamed(path: Seq<char>, name: Seq<char>) -> Seq<char>;

pub open spec fn text_option(o: Option<String>) -> Option<Seq<char>> {
    match o {
        Some(s) => Some(s@),
        None => None,
    }
}

/// `Path::parent`, as text: the result is `parent_of_path` of the path.
#[verifier::external_body]
fn path_parent(path: &str) -> (r: Option<String>)
    ensures
        text_option(r) == parent_of_path(path@),
{
    match std::path::Path::new(path).parent() {
        Some(p) => Some(p.to_string_lossy().into_owned()),
        None => None,
    }
}

/// `Path::file_stem`, as text: the result is `file_stem_of_path` of the path.
#[verifier::external_body]
fn path_file_stem(path: &str) -> (r: Option<String>)
    ensures
        text_option(r) == file_stem_of_path(path@),
{
    match std::path::Path::new(path).file_stem() {
        Some(s) => Some(s.to_string_lossy().into_owned()),
        None => None,
    }
}

/// `Path::extension`, as text: the result is `extension_of_path` of the path.
#[verifier::external_body]
fn path_extension(path: &str) -> (r: Option<String>)
    ensures
        text_option(r) == extension_of_path(path@),
{
    match std::path::Path::new(path).extension() {
        Some(s) => Some(s.to_string_lossy().into_owned()),
        None => None,
    }
}

/// `Path::file_name`, as text: the result is `file_name_of_path` of the path.
#[verifier::external_body]
fn path_file_name(path: &str) -> (r: Option<String>)
    ensures
        text_option(r) == file_name_of_path(path@),
{
    match std::path::Path::new(path).file_name() {
        Some(s) => Some(s.to_string_lossy().into_owned()),
        None => None,
    }
}

/// `Path::join`, as text: the result is `joined_path` of its arguments.
#[verifier::external_body]
fn path_join(parent: &str, name: &str) -> (r: String)
    ensures
        r@ == joined_path(parent@, name@),
{
    std::path::Path::new(parent).join(name).to_string_lossy().into_owned()
}

/// `Path::with_file_name`, as text: the result is `path_renamed` of its
/// arguments.
#[verifier::external_body]
fn path_with_file_name(path: &str, name: &str) -> (r: String)
    ensures
        r@ == path_renamed(path@, name@),
{
    std::path::Path::new(path).with_file_name(name).to_string_lossy().into_owned()
}

/// `stem.part-NNN.extension`, the part number zero-padded to three digits.
pub open spec fn part_file_name_text(stem: Seq<char>, part: nat, extension: Seq<char>) -> Seq<char> {
    stem + ".part-"@ + pad_left(dec(part), 3, '0') + seq!['.'] + extension
}

/// The file name of an export part; the extension defaults to `xlsx`.
pub fn part_file_name(stem: &str, part: u32, extension: Option<String>) -> (r: String)
    ensures
        r@ == part_file_name_text(stem@, part as nat, match extension {
            Some(e) => e@,
            None => "xlsx"@,
        }),
{
    let mut r = String::from_str(stem);
    r.append(".part-");
    r.append(u64_to_string_padded3(part as u64).as_str());
    push_char(&mut r, '.');
    match extension {
        Some(e) => r.append(e.as_str()),
        None => r.append("xlsx"),
    }
    r
}

/// `.name.tag.tmp`, or `.name.tmp` without a tag.
pub open spec fn hidden_temp_name_text(name: Seq<char>, tag: Option<Seq<char>>) -> Seq<char> {
    seq!['.'] + name + match tag {
        Some(t) => seq!['.'] + t,
        None => seq![],
    } + ".tmp"@
}

/// The hidden temporary file name an export writes before it is renamed.
pub fn hidden_temp_name(name: &str, tag: Option<&str>) -> (r: String)
    ensures
        r@ == hidden_temp_name_text(name@, match tag {
            Some(t) => Some(t@),
            None => None,
        }),
{
    let mut r = String::new();
    push_char(&mut r, '.');
    r.append(name);
    match tag {
        Some(t) => {
            push_char(&mut r, '.');
            r.append(t);
        },
        None => {},
    }
    r.append(".tmp");
    r
}

/// The path of a numbered part beside `path`, or `None` when the path has
/// no file stem: the part file name joined to the path's parent (the empty
/// text when it has none), the extension defaulting to `xlsx`.
pub open spec fn part_path_text(path: Seq<char>, part: nat) -> Option<Seq<char>> {
    match file_stem_of_path(path) {
        Some(stem) => Some(joined_path(
            match parent_of_path(path) {
                Some(p) => p,
                None => seq![],
            },
            part_file_name_text(stem, part, match extension_of_path(path) {
                Some(e) => e,
                None => "xlsx"@,
            }),
        )),
        None => None,
    }
}

/// `part_path`: the path of part `part` beside the requested file. It fails
/// only when the path has no file stem.
pub fn part_path(path: &str, part: u32) -> (r: Result<String, String>)
    ensures
        match part_path_text(path@, part as nat) {
            Some(p) => r matches Ok(q) && q@ == p,
            None => r matches Err(e) && e@ == "Invalid export file name"@,
        },
{
    let parent = match path_parent(path) {
        Some(p) => p,
        None => String::new(),
    };
    let stem = match path_file_stem(path) {
        Some(s) => s,
        None => {
            return Err(String::from_str("Invalid export file name"));
        },
    };
    let name = part_file_name(stem.as_str(), part, path_extension(path));
    Ok(path_join(parent.as_str(), name.as_str()))
}

/// The path with its file name replaced by the hidden temporary name, or
/// `None` when the path has no file name.
pub open spec fn temp_path_text(path: Seq<char>, tag: Option<Seq<char>>) -> Option<Seq<char>> {
    match file_name_of_path(path) {
        Some(name) => Some(path_renamed(path, hidden_temp_name_text(name, tag))),
        None => None,
    }
}

/// `tmp_path`: the hidden `.name.job.tmp` file beside the export. It fails
/// only when the path has no file name.
pub fn tmp_path(path: &str, job_id: &str) -> (r: Result<String, String>)
    ensures
        match temp_path_text(path@, Some(job_id@)) {
            Some(p) => r matches Ok(q) && q@ == p,
            None => r matches Err(e) && e@ == "Invalid export path"@,
        },
{
    let name = match path_file_name(path) {
        Some(n) => n,
        None => {
            return Err(String::from_str("Invalid export path"));
        },
    };
    let hidden = hidden_temp_name(name.as_str(), Some(job_id));
    Ok(path_with_file_name(path, hidden.as_str()))
}

/// `export_part_path`: the requested path itself for a single part, else
/// the numbered part beside it.
pub fn export_part_path(base_path: &str, part_index: u32, total_parts: u32) -> (r: Result<String, String>)
    ensures
        total_parts <= 1 ==> (r matches Ok(p) && p@ == base_path@),
        total_parts > 1 ==> match part_path_text(base_path@, part_index as nat) {
            Some(p) => r matches Ok(q) && q@ == p,
            None => r matches Err(e) && e@ == "Invalid Excel export file name"@,
        },
{
    if total_parts <= 1 {
        return Ok(String::from_str(base_path));
    }
    let parent = match path_parent(base_path) {
        Some(p) => p,
        None => String::new(),
    };
    let stem = match path_file_stem(base_path) {
        Some(s) => s,
        None => {
            return Err(String::from_str("Invalid Excel export file name"));
        },
    };
    let name = part_file_name(stem.as_str(), part_index, path_extension(base_path));
    Ok(path_join(parent.as_str(), name.as_str()))
}

/// `export_temp_path`: the hidden `.name.tmp` file beside the export.
pub fn export_temp_path(final_path: &str) -> (r: Result<String, String>)
    ensures
        match temp_path_text(final_path@, None) {
            Some(p) => r matches Ok(q) && q@ == p,
            None => r matches Err(e) && e@ == "Invalid Excel export file path"@,
        },
{
    let name = match path_file_name(final_path) {
        Some(n) => n,
        None => {
            return Err(String::from_str("Invalid Excel export file path"));
        },
    };
    let hidden = hidden_temp_name(name.as_str(), None);
    Ok(path_with_file_name(final_path, hidden.as_str()))
}

// ---------------------------------------------------------------------------
// Part sizes
// ---------------------------------------------------------------------------

pub const XLSX_MAX_PACKAGE_BYTES: u64 = 3_800_000_000;
pub const XLSX_TARGET_PART_BYTES: u64 = 450_000_000;
pub const XLSX_ESTIMATED_BYTES_PER_ROW: u64 = 500;
pub const XLSX_ESTIMATED_FIXED_BYTES: u64 = 2_000_000;
pub const XLSX_PART_BYTES: u64 = 450_000_000;
pub const XLSX_ZIP32_LIMIT_BYTES: u64 = 3_800_000_000;

/// The rows an Excel part is planned for: the part budget (the target size,
/// at most the package limit, less the fixed overhead) over the estimated
/// size of a row, at least one.
pub open spec fn rows_per_part() -> int {
    let target = if XLSX_TARGET_PART_BYTES <= XLSX_MAX_PACKAGE_BYTES {
        XLSX_TARGET_PART_BYTES as int
    } else {
        XLSX_MAX_PACKAGE_BYTES as int
    };
    let budget = if target >= XLSX_ESTIMATED_FIXED_BYTES {
        target - XLSX_ESTIMATED_FIXED_BYTES
    } else {
        0
    };
    let rows = budget / (XLSX_ESTIMATED_BYTES_PER_ROW as int);
    if rows >= 1 {
        rows
    } else {
        1
    }
}

/// `xlsx_rows_per_part`.
pub fn xlsx_rows_per_part() -> (r: i64)
    ensures
        r == rows_per_part(),
        r >= 1,
{
    let target = if XLSX_TARGET_PART_BYTES <= XLSX_MAX_PACKAGE_BYTES {
        XLSX_TARGET_PART_BYTES
    } else {
        XLSX_MAX_PACKAGE_BYTES
    };
    let budget = target.saturating_sub(XLSX_ESTIMATED_FIXED_BYTES);
    let rows = budget / XLSX_ESTIMATED_BYTES_PER_ROW;
    let rows = if rows >= 1 {
        rows
    } else {
        1
    };
    rows as i64
}

// ---------------------------------------------------------------------------
// The export's columns, query and lines
// ---------------------------------------------------------------------------

/// The formats a table export writes.
#[derive(Clone, Copy, Debug, PartialEq, Eq, Structural)]
pub enum ExportFormat {
    Csv,
    Json,
    Sql,
    Xlsx,
}

pub open spec fn format_named(f: Seq<char>) -> Option<ExportFormat> {
    if f == "csv"@ {
        Some(ExportFormat::Csv)
    } else if f == "json"@ {
        Some(ExportFormat::Json)
    } else if f == "sql"@ {
        Some(ExportFormat::Sql)
    } else if f == "xlsx"@ {
        Some(ExportFormat::Xlsx)
    } else {
        None
    }
}

/// The format an export names, or the error for any other.
pub fn parse_export_format(format: &str) -> (r: Result<ExportFormat, String>)
    ensures
        match r {
            Ok(f) => format_named(format@) == Some(f),
            Err(e) => format_named(format@) is None && e@ == "Unsupported backend export format"@,
        },
{
    if str_eq(format, "csv") {
        Ok(ExportFormat::Csv)
    } else if str_eq(format, "json") {
        Ok(ExportFormat::Json)
    } else if str_eq(format, "sql") {
        Ok(ExportFormat::Sql)
    } else if str_eq(format, "xlsx") {
        Ok(ExportFormat::Xlsx)
    } else {
        Err(String::from_str("Unsupported backend export format"))
    }
}

/// The table's columns that an export keeps, with their positions: all of
/// them when none is selected, else those selected, in table order.
pub open spec fn kept_columns(columns: Seq<Seq<char>>, selected: Seq<Seq<char>>) -> Seq<(nat, Seq<char>)>
    decreases columns.len(),
{
    if columns.len() == 0 {
        seq![]
    } else {
        let rest = kept_columns(columns.drop_last(), selected);
        if selected.len() == 0 || selected.contains(columns.last()) {
            rest.push(((columns.len() - 1) as nat, columns.last()))
        } else {
            rest
        }
    }
}

pub open spec fn indexed_view(v: Seq<(usize, String)>) -> Seq<(nat, Seq<char>)> {
    v.map_values(|p: (usize, String)| (p.0 as nat, p.1@))
}

fn contains_string(v: &Vec<String>, s: &str) -> (b: bool)
    ensures
        b == strings_view(v@).contains(s@),
{
    let mut i: usize = 0;
    while i < v.len()
        invariant
            i <= v.len(),
            forall|k: int| 0 <= k < i ==> v@[k]@ != s@,
        decreases v.len() - i,
    {
        if str_eq(v[i].as_str(), s) {
            assert(strings_view(v@)[i as int] == s@);
            return true;
        }
        i = i + 1;
    }
    assert forall|k: int| 0 <= k < strings_view(v@).len() implies strings_view(v@)[k] != s@ by {
        assert(strings_view(v@)[k] == v@[k]@);
    }
    false
}

/// The columns an export writes (see `kept_columns`), or the error when it
/// would write none.
pub fn export_columns(columns: &Vec<String>, selected: &Vec<String>) -> (r: Result<Vec<(usize, String)>, String>)
    ensures
        match r {
            Ok(v) => indexed_view(v@) == kept_columns(strings_view(columns@), strings_view(selected@))
                && v@.len() > 0,
            Err(e) => kept_columns(strings_view(columns@), strings_view(selected@)).len() == 0
                && e@ == "No columns selected for export"@,
        },
{
    let mut kept: Vec<(usize, String)> = Vec::new();
    let mut i: usize = 0;
    while i < columns.len()
        invariant
            i <= columns.len(),
            indexed_view(kept@) == kept_columns(strings_view(columns@).take(i as int), strings_view(selected@)),
        decreases columns.len() - i,
    {
        let ghost prefix = strings_view(columns@).take(i + 1);
        assert(prefix.drop_last() =~= strings_view(columns@).take(i as int));
        assert(prefix.last() == columns@[i as int]@);
        if selected.len() == 0 || contains_string(selected, columns[i].as_str()) {
            let ghost prev = kept@;
            kept.push((i, String::from_str(columns[i].as_str())));
            assert(indexed_view(kept@) =~= indexed_view(prev).push((i as nat, columns@[i as int]@)));
        }
        i = i + 1;
    }
    assert(strings_view(columns@).take(columns.len() as int) =~= strings_view(columns@));
    if kept.len() == 0 {
        Err(String::from_str("No columns selected for export"))
    } else {
        Ok(kept)
    }
}

/// `[c1], [c2], ...`.
pub open spec fn column_list_text(names: Seq<Seq<char>>) -> Seq<char> {
    join_seq(names.map_values(|n: Seq<char>| bracket_ident_seq(n)), ", "@)
}

fn column_list(names: &Vec<String>) -> (r: String)
    ensures
        r@ == column_list_text(strings_view(names@)),
{
    let mut quoted: Vec<String> = Vec::new();
    let mut i: usize = 0;
    while i < names.len()
        invariant
            i <= names.len(),
            strings_view(quoted@) == strings_view(names@).take(i as int).map_values(
                |n: Seq<char>| bracket_ident_seq(n),
            ),
        decreases names.len() - i,
    {
        let ghost prev = quoted@;
        let q = bracket_ident(names[i].as_str());
        let ghost qv = q@;
        quoted.push(q);
        assert(strings_view(quoted@) =~= strings_view(prev).push(qv));
        assert(strings_view(names@).take(i + 1).map_values(|n: Seq<char>| bracket_ident_seq(n))
            =~= strings_view(names@).take(i as int).map_values(|n: Seq<char>| bracket_ident_seq(n)).push(
            bracket_ident_seq(names@[i as int]@),
        ));
        i = i + 1;
    }
    assert(strings_view(names@).take(names.len() as int) =~= strings_view(names@));
    join_strings(&quoted, ", ")
}

/// `[schema].[table]`.
pub open spec fn full_table_text(schema: Seq<char>, table: Seq<char>) -> Seq<char> {
    bracket_ident_seq(schema) + seq!['.'] + bracket_ident_seq(table)
}

/// The query an export streams its rows from.
pub open spec fn export_query_text(headers: Seq<Seq<char>>, schema: Seq<char>, table: Seq<char>, filters: Seq<Filter>) -> Seq<char> {
    "SELECT "@ + column_list_text(headers) + " FROM "@ + full_table_text(schema, table) + seq![' ']
        + where_clause(filters)
}

/// `SELECT [columns] FROM [schema].[table] WHERE ...`.
/// Refused, with the filter error, when a filter's operator is unknown.
pub fn export_query(headers: &Vec<String>, schema: &str, table: &str, filters: &[Filter]) -> (r: Result<String, String>)
    ensures
        match first_unknown_operator(filters@) {
            Some(op) => r matches Err(e) && e@ == unsupported_operator_text(op),
            None => r matches Ok(q) && q@ == export_query_text(strings_view(headers@), schema@, table@, filters@),
        },
{
    let w = match build_where_clause(filters) {
        Ok(w) => w,
        Err(e) => {
            return Err(e);
        },
    };
    let mut r = String::from_str("SELECT ");
    r.append(column_list(headers).as_str());
    r.append(" FROM ");
    r.append(bracket_ident(schema).as_str());
    push_char(&mut r, '.');
    r.append(bracket_ident(table).as_str());
    push_char(&mut r, ' ');
    r.append(w.as_str());
    Ok(r)
}

/// A CSV line of cells, without its line break.
pub open spec fn csv_line_text(values: Seq<CellValue>) -> Seq<char> {
    join_seq(values.map_values(|v: CellValue| csv_field(cell_plain_text(v))), seq![','])
}

/// The CSV line of a row.
pub fn csv_line(values: &Vec<CellValue>) -> (r: String)
    ensures
        r@ == csv_line_text(values@),
{
    let mut fields: Vec<String> = Vec::new();
    let mut i: usize = 0;
    while i < values.len()
        invariant
            i <= values.len(),
            strings_view(fields@) == values@.take(i as int).map_values(
                |v: CellValue| csv_field(cell_plain_text(v)),
            ),
        decreases values.len() - i,
    {
        let ghost prev = fields@;
        let f = csv_value(&values[i]);
        let ghost fv = f@;
        fields.push(f);
        assert(strings_view(fields@) =~= strings_view(prev).push(fv));
        assert(values@.take(i + 1).map_values(|v: CellValue| csv_field(cell_plain_text(v)))
            =~= values@.take(i as int).map_values(|v: CellValue| csv_field(cell_plain_text(v))).push(
            csv_field(cell_plain_text(values@[i as int])),
        ));
        i = i + 1;
    }
    assert(values@.take(values.len() as int) =~= values@);
    proof {
        reveal_strlit(",");
    }
    let r = join_strings(&fields, ",");
    assert(","@ =~= seq![',']);
    r
}

/// The CSV header line: each column name as a text cell.
pub open spec fn csv_header_text(headers: Seq<Seq<char>>) -> Seq<char> {
    join_seq(headers.map_values(|h: Seq<char>| csv_field(h)), seq![','])
}

/// The CSV header line of an export.
pub fn csv_header(headers: &Vec<String>) -> (r: String)
    ensures
        r@ == csv_header_text(strings_view(headers@)),
{
    let mut values: Vec<CellValue> = Vec::new();
    let mut i: usize = 0;
    while i < headers.len()
        invariant
            i <= headers.len(),
            values@.len() == i,
            forall|k: int| 0 <= k < i ==> ((#[trigger] values@[k]) matches CellValue::Text(t) && t@ == headers@[k]@),
        decreases headers.len() - i,
    {
        values.push(CellValue::Text(String::from_str(headers[i].as_str())));
        i = i + 1;
    }
    let r = csv_line(&values);
    assert(values@.map_values(|v: CellValue| csv_field(cell_plain_text(v))) =~= strings_view(headers@).map_values(
        |h: Seq<char>| csv_field(h),
    ));
    r
}

/// The first lines of a SQL export.
pub open spec fn sql_preamble_text(schema: Seq<char>, table: Seq<char>) -> Seq<char> {
    "-- Export of "@ + full_table_text(schema, table) + "\n-- Generated by Sage Data Bridge\n"@
}

/// The comment that opens a SQL export (its line break not included).
pub fn sql_preamble(schema: &str, table: &str) -> (r: String)
    ensures
        r@ == sql_preamble_text(schema@, table@),
{
    let mut r = String::from_str("-- Export of ");
    r.append(bracket_ident(schema).as_str());
    push_char(&mut r, '.');
    r.append(bracket_ident(table).as_str());
    r.append("\n-- Generated by Sage Data Bridge\n");
    r
}

/// An `INSERT` statement for a row.
pub open spec fn insert_line_text(schema: Seq<char>, table: Seq<char>, headers: Seq<Seq<char>>, values: Seq<CellValue>) -> Seq<char> {
    "INSERT INTO "@ + full_table_text(schema, table) + " ("@ + column_list_text(headers) + ") VALUES ("@
        + join_seq(values.map_values(|v: CellValue| sql_value_text(v)), ", "@) + ");"@
}

/// The `INSERT` statement of a row of a SQL export (without its line break).
pub fn insert_line(schema: &str, table: &str, headers: &Vec<String>, values: &Vec<CellValue>) -> (r: String)
    ensures
        r@ == insert_line_text(schema@, table@, strings_view(headers@), values@),
{
    let mut rendered: Vec<String> = Vec::new();
    let mut i: usize = 0;
    while i < values.len()
        invariant
            i <= values.len(),
            strings_view(rendered@) == values@.take(i as int).map_values(|v: CellValue| sql_value_text(v)),
        decreases values.len() - i,
    {
        let ghost prev = rendered@;
        let f = sql_value(&values[i]);
        let ghost fv = f@;
        rendered.push(f);
        assert(strings_view(rendered@) =~= strings_view(prev).push(fv));
        assert(values@.take(i + 1).map_values(|v: CellValue| sql_value_text(v)) =~= values@.take(
            i as int,
        ).map_values(|v: CellValue| sql_value_text(v)).push(sql_value_text(values@[i as int])));
        i = i + 1;
    }
    assert(values@.take(values.len() as int) =~= values@);
    let mut r = String::from_str("INSERT INTO ");
    r.append(bracket_ident(schema).as_str());
    push_char(&mut r, '.');
    r.append(bracket_ident(table).as_str());
    r.append(" (");
    r.append(column_list(headers).as_str());
    r.append(") VALUES (");
    r.append(join_strings(&rendered, ", ").as_str());
    r.append(");");
    r
}

/// The cells of a row for a worksheet: each value's text, numbers flagged.
pub fn xlsx_cells(values: &Vec<CellValue>) -> (r: (Vec<String>, Vec<bool>))
    ensures
        r.0@.len() == values@.len(),
        r.1@.len() == values@.len(),
        forall|i: int| 0 <= i < values@.len() ==> (#[trigger] r.0@[i])@ == cell_plain_text(values@[i])
            && r.1@[i] == (values@[i] is Number),
{
    let mut texts: Vec<String> = Vec::new();
    let mut numeric: Vec<bool> = Vec::new();
    let mut i: usize = 0;
    while i < values.len()
        invariant
            i <= values.len(),
            texts@.len() == i,
            numeric@.len() == i,
            forall|k: int| 0 <= k < i ==> (#[trigger] texts@[k])@ == cell_plain_text(values@[k])
                && numeric@[k] == (values@[k] is Number),
        decreases values.len() - i,
    {
        let (t, n) = match &values[i] {
            CellValue::Null => (String::new(), false),
            CellValue::Text(t) => (String::from_str(t.as_str()), false),
            CellValue::Number(x) => (String::from_str(x.as_str()), true),
            CellValue::Bool(b) => (String::from_str(if *b {
                "true"
            } else {
                "false"
            }), false),
            CellValue::Other(t) => (String::from_str(t.as_str()), false),
        };
        texts.push(t);
        numeric.push(n);
        i = i + 1;
    }
    (texts, numeric)
}

// ---------------------------------------------------------------------------
// Progress
// ---------------------------------------------------------------------------

/// The percentage shown while rows are written: the share of the counted
/// rows written so far, at most 99 (100 only once the file is in place),
/// and 99 when the count is unknown.
pub open spec fn progress_percent(processed: int, total: int) -> int {
    if total <= 0 {
        99
    } else {
        let done = if processed < total {
            processed
        } else {
            total
        };
        let p = (done * 100) / total;
        if p < 0 {
            0
        } else if p > 99 {
            99
        } else {
            p
        }
    }
}

/// `percent` of a running export job.
pub fn export_percent(processed: i64, total: i64) -> (r: u8)
    requires
        processed >= 0,
        total <= i64::MAX / 100,
    ensures
        r as int == progress_percent(processed as int, total as int),
        total > 0 ==> r <= 99 && (processed >= total ==> r == 99) && (processed < total ==> r * total
            <= processed * 100 && processed * 100 < (r + 1) * total),
        total <= 0 ==> r == 99,
{
    proof {
        if total > 0 {
            lemma_percent_is_the_share_written(processed as int, total as int);
        }
    }
    if total <= 0 {
        return 99;
    }
    let done = if processed < total {
        processed
    } else {
        total
    };
    assert(0 <= done * 100 <= total * 100) by (nonlinear_arith)
        requires
            0 <= done <= total,
    ;
    let p = (done * 100) / total;
    if p < 0 {
        0
    } else if p > 99 {
        99
    } else {
        p as u8
    }
}

/// The time limit of an export's queries: the configured query limit (the
/// default when it cannot be read), and never under five minutes.
pub fn export_timeout_secs(configured: Option<u64>) -> (secs: u64)
    ensures
        secs == (match configured {
            Some(t) => if t < 300 {
                300u64
            } else {
                t
            },
            None => 300u64,
        }),
{
    let t = match configured {
        Some(t) => t,
        None => crate::connection::DEFAULT_QUERY_TIMEOUT_SECS,
    };
    if t < 300 {
        300
    } else {
        t
    }
}

/// The number of Excel parts a ledger export of `total` rows is split into:
/// one for no rows, else the rows over the rows of a part, rounded up.
pub open spec fn part_count_of(total: int, per_part: int) -> int {
    if total <= 0 {
        1
    } else {
        let n = (total + per_part - 1) / per_part;
        if n >= 1 {
            n
        } else {
            1
        }
    }
}

/// The parts of a ledger export, or the error when there would be more than
/// a `u32` can count.
/// The parts of an export hold every row and none holds more than its
/// share: for a positive total, the part count times the rows per part
/// reaches the total, and one part fewer falls short of it.
pub proof fn lemma_part_count_is_the_ceiling(total: int, per_part: int)
    requires
        per_part >= 1,
    ensures
        total > 0 ==> part_count_of(total, per_part) * per_part >= total
            && (part_count_of(total, per_part) - 1) * per_part < total,
        total <= 0 ==> part_count_of(total, per_part) == 1,
{
    if total > 0 {
        let n = (total + per_part - 1) / per_part;
        assert(n * per_part <= total + per_part - 1 && total + per_part - 1 < (n + 1) * per_part) by (nonlinear_arith)
            requires
                n == (total + per_part - 1) / per_part,
                per_part >= 1,
        ;
        assert(n >= 1) by (nonlinear_arith)
            requires
                n == (total + per_part - 1) / per_part,
                per_part >= 1,
                total > 0,
        ;
        assert(n * per_part - per_part == (n - 1) * per_part) by (nonlinear_arith);
        assert((n + 1) * per_part == n * per_part + per_part) by (nonlinear_arith);
        assert(part_count_of(total, per_part) == n);
    }
}

pub fn ledger_part_count(total: i64, rows_per_part: i64) -> (r: Result<u32, String>)
    requires
        rows_per_part >= 1,
        total <= i64::MAX - rows_per_part,
    ensures
        part_count_of(total as int, rows_per_part as int) <= u32::MAX <==> r is Ok,
        r is Ok ==> r->Ok_0 as int == part_count_of(total as int, rows_per_part as int),
        r is Err ==> r->Err_0@ == "Grand Livre export would create too many Excel part files"@,
        r matches Ok(n) ==> (total > 0 ==> n * rows_per_part >= total && (n - 1) * rows_per_part < total),
        r matches Ok(n) ==> (total <= 0 ==> n == 1),
{
    proof {
        lemma_part_count_is_the_ceiling(total as int, rows_per_part as int);
    }
    if total <= 0 {
        return Ok(1);
    }
    let n = (total + rows_per_part - 1) / rows_per_part;
    let n = if n >= 1 {
        n
    } else {
        1
    };
    if n > 0xffff_ffffi64 {
        return Err(String::from_str("Grand Livre export would create too many Excel part files"));
    }
    Ok(n as u32)
}

/// The percentage a ledger export shows: the share of the counted rows
/// written, at most 99 while writing, and 100 when nothing was counted.
pub open spec fn ledger_percent_of(loaded: int, total: int) -> int {
    if total <= 0 {
        100
    } else {
        let done = if loaded < total {
            loaded
        } else {
            total
        };
        let p = (done * 100) / total;
        if p < 0 {
            0
        } else if p > 99 {
            99
        } else {
            p
        }
    }
}

/// A percentage shown while writing is the share of the counted rows that
/// are written, rounded down and held at 99 until the end: with a positive
/// total it is at most 99, it is 99 once every row is written, and otherwise
/// it is the largest whole percent not above the share written.
pub proof fn lemma_percent_is_the_share_written(loaded: int, total: int)
    requires
        loaded >= 0,
        total > 0,
    ensures
        0 <= ledger_percent_of(loaded, total) <= 99,
        loaded >= total ==> ledger_percent_of(loaded, total) == 99,
        loaded < total ==> ledger_percent_of(loaded, total) * total <= loaded * 100
            && loaded * 100 < (ledger_percent_of(loaded, total) + 1) * total,
        ledger_percent_of(loaded, total) == progress_percent(loaded, total),
{
    if loaded < total {
        let p = (loaded * 100) / total;
        assert(p * total <= loaded * 100 && loaded * 100 < (p + 1) * total && 0 <= p && p < 100) by (nonlinear_arith)
            requires
                p == (loaded * 100) / total,
                0 <= loaded < total,
        ;
    } else {
        assert((total * 100) / total == 100) by (nonlinear_arith)
            requires
                total > 0,
        ;
    }
}

pub fn ledger_export_percent(loaded: i64, total: i64) -> (r: u8)
    requires
        loaded >= 0,
        total <= i64::MAX / 100,
    ensures
        r as int == ledger_percent_of(loaded as int, total as int),
        total > 0 ==> r <= 99 && (loaded >= total ==> r == 99) && (loaded < total ==> r * total <= loaded * 100
            && loaded * 100 < (r + 1) * total),
        total <= 0 ==> r == 100,
{
    proof {
        if total > 0 {
            lemma_percent_is_the_share_written(loaded as int, total as int);
        }
    }
    if total <= 0 {
        return 100;
    }
    let done = if loaded < total {
        loaded
    } else {
        total
    };
    assert(0 <= done * 100 <= total * 100) by (nonlinear_arith)
        requires
            0 <= done <= total,
    ;
    let p = (done * 100) / total;
    if p < 0 {
        0
    } else if p > 99 {
        99
    } else {
        p as u8
    }
}

/// Whether an Excel export closes its part and starts the next one: the
/// part has reached its size and rows remain.
pub open spec fn starts_new_part(format: ExportFormat, bytes: u64, processed: i64, total: i64) -> bool {
    format == ExportFormat::Xlsx && bytes >= XLSX_PART_BYTES && processed < total
}

pub fn should_start_new_part(format: ExportFormat, bytes: u64, processed: i64, total: i64) -> (b: bool)
    ensures
        b == starts_new_part(format, bytes, processed, total),
{
    format == ExportFormat::Xlsx && bytes >= XLSX_PART_BYTES && processed < total
}

} // verus!
