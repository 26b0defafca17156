//! Finding the accounting tables of a database: the candidate table names,
//! the `INFORMATION_SCHEMA` queries, and the readings of their results.
use vstd::prelude::*;
use crate::cells::{cell_text, named_cell, row_string, CellValue, NameIndex};
use crate::ledger::{ColumnMap, DetectedTable};
use crate::sql::{sql_literal, sql_literal_seq};
use crate::text::{ascii_lower, to_ascii_lowercase};

verus! {

pub open spec fn str_seqs(v: Seq<&str>) -> Seq<Seq<char>> {
    v.map_values(|s: &str| s@)
}

/// The tables that may hold the accounting entries, in order of preference.
pub fn entry_table_candidates() -> (r: Vec<&'static str>)
    ensures
        str_seqs(r@) == seq!["F_ECRITUREC"@, "ECRITUREC"@, "GL_ENTRIES"@, "JOURNAL_ENTRIES"@],
{
    let mut r: Vec<&'static str> = Vec::new();
    r.push("F_ECRITUREC");
    r.push("ECRITUREC");
    r.push("GL_ENTRIES");
    r.push("JOURNAL_ENTRIES");
    assert(str_seqs(r@) =~= seq!["F_ECRITUREC"@, "ECRITUREC"@, "GL_ENTRIES"@, "JOURNAL_ENTRIES"@]);
    r
}

/// The tables that may hold the accounts, in order of preference.
pub fn account_table_candidates() -> (r: Vec<&'static str>)
    ensures
        str_seqs(r@) == seq!["F_COMPTEG"@, "COMPTEG"@, "F_COMPTET"@, "COMPTET"@, "ACCOUNTS"@, "GL_ACCOUNTS"@],
{
    let mut r: Vec<&'static str> = Vec::new();
    r.push("F_COMPTEG");
    r.push("COMPTEG");
    r.push("F_COMPTET");
    r.push("COMPTET");
    r.push("ACCOUNTS");
    r.push("GL_ACCOUNTS");
    assert(str_seqs(r@) =~= seq!["F_COMPTEG"@, "COMPTEG"@, "F_COMPTET"@, "COMPTET"@, "ACCOUNTS"@, "GL_ACCOUNTS"@]);
    r
}

/// The tables that may hold the third parties, in order of preference.
pub fn tiers_table_candidates() -> (r: Vec<&'static str>)
    ensures
        str_seqs(r@) == seq!["F_COMPTET"@, "COMPTET"@, "F_TIERS"@, "TIERS"@, "CUSTOMERS"@, "SUPPLIERS"@],
{
    let mut r: Vec<&'static str> = Vec::new();
    r.push("F_COMPTET");
    r.push("COMPTET");
    r.push("F_TIERS");
    r.push("TIERS");
    r.push("CUSTOMERS");
    r.push("SUPPLIERS");
    assert(str_seqs(r@) =~= seq!["F_COMPTET"@, "COMPTET"@, "F_TIERS"@, "TIERS"@, "CUSTOMERS"@, "SUPPLIERS"@]);
    r
}

/// The columns of a third parties table that may hold a code, in order of
/// preference.
pub fn tiers_lookup_code_candidates() -> (r: Vec<&'static str>)
    ensures
        str_seqs(r@) == seq!["CT_Num"@, "TIERS_CODE"@, "CODE_TIERS"@, "ACCOUNT_NO"@, "CUSTOMER_NO"@, "SUPPLIER_NO"@],
{
    let mut r: Vec<&'static str> = Vec::new();
    r.push("CT_Num");
    r.push("TIERS_CODE");
    r.push("CODE_TIERS");
    r.push("ACCOUNT_NO");
    r.push("CUSTOMER_NO");
    r.push("SUPPLIER_NO");
    assert(str_seqs(r@) =~= seq!["CT_Num"@, "TIERS_CODE"@, "CODE_TIERS"@, "ACCOUNT_NO"@, "CUSTOMER_NO"@, "SUPPLIER_NO"@]);
    r
}

/// The columns of a third parties table that may hold a name, in order of
/// preference.
pub fn tiers_lookup_label_candidates() -> (r: Vec<&'static str>)
    ensures
        str_seqs(r@) == seq!["CT_Intitule"@, "TIERS_NAME"@, "LIBELLE"@, "NAME"@, "ACCOUNT_NAME"@, "CUSTOMER_NAME"@, "SUPPLIER_NAME"@],
{
    let mut r: Vec<&'static str> = Vec::new();
    r.push("CT_Intitule");
    r.push("TIERS_NAME");
    r.push("LIBELLE");
    r.push("NAME");
    r.push("ACCOUNT_NAME");
    r.push("CUSTOMER_NAME");
    r.push("SUPPLIER_NAME");
    assert(str_seqs(r@) =~= seq!["CT_Intitule"@, "TIERS_NAME"@, "LIBELLE"@, "NAME"@, "ACCOUNT_NAME"@, "CUSTOMER_NAME"@, "SUPPLIER_NAME"@]);
    r
}

/// The columns of a third parties table that may hold its kind, in order of
/// preference.
pub fn tiers_type_candidates() -> (r: Vec<&'static str>)
    ensures
        str_seqs(r@) == seq!["CT_Type"@, "TIERS_TYPE"@, "ACCOUNT_TYPE"@, "TYPE_TIERS"@],
{
    let mut r: Vec<&'static str> = Vec::new();
    r.push("CT_Type");
    r.push("TIERS_TYPE");
    r.push("ACCOUNT_TYPE");
    r.push("TYPE_TIERS");
    assert(str_seqs(r@) =~= seq!["CT_Type"@, "TIERS_TYPE"@, "ACCOUNT_TYPE"@, "TYPE_TIERS"@]);
    r
}

/// The columns that may hold an account's number, in order of preference.
pub fn account_code_candidates() -> (r: Vec<&'static str>)
    ensures
        str_seqs(r@) == crate::ledger::account_candidates(),
{
    let mut r: Vec<&'static str> = Vec::new();
    r.push("CG_Num");
    r.push("CT_Num");
    r.push("COMPTE");
    r.push("ACCOUNT_NO");
    assert(str_seqs(r@) =~= crate::ledger::account_candidates());
    r
}

/// The columns that may hold an account's label, in order of preference.
pub fn account_label_candidates() -> (r: Vec<&'static str>)
    ensures
        str_seqs(r@) == crate::ledger::account_label_candidates(),
{
    let mut r: Vec<&'static str> = Vec::new();
    r.push("CG_Intitule");
    r.push("CT_Intitule");
    r.push("LIBELLE_COMPTE");
    r.push("ACCOUNT_LABEL");
    r.push("ACCOUNT_NAME");
    assert(str_seqs(r@) =~= crate::ledger::account_label_candidates());
    r
}

/// The query that finds a base table by name, preferring the `dbo` schema.
pub open spec fn table_lookup_query_text(candidate: Seq<char>) -> Seq<char> {
    "
            SELECT TOP 1
                TABLE_SCHEMA AS schema_name,
                TABLE_NAME AS table_name
            FROM INFORMATION_SCHEMA.TABLES
            WHERE TABLE_TYPE = 'BASE TABLE'
              AND TABLE_NAME = "@
        + sql_literal_seq(candidate)
        + "
            ORDER BY CASE WHEN TABLE_SCHEMA = 'dbo' THEN 0 ELSE 1 END, TABLE_SCHEMA
            "@
}

pub fn table_lookup_query(candidate: &str) -> (r: String)
    ensures
        r@ == table_lookup_query_text(candidate@),
{
    let mut r = String::from_str(
        "
            SELECT TOP 1
                TABLE_SCHEMA AS schema_name,
                TABLE_NAME AS table_name
            FROM INFORMATION_SCHEMA.TABLES
            WHERE TABLE_TYPE = 'BASE TABLE'
              AND TABLE_NAME = ",
    );
    r.append(sql_literal(candidate).as_str());
    r.append(
        "
            ORDER BY CASE WHEN TABLE_SCHEMA = 'dbo' THEN 0 ELSE 1 END, TABLE_SCHEMA
            ",
    );
    r
}

/// The table a lookup found: its schema (`dbo` when it reads as nothing) and
/// its name (the candidate when it reads as nothing).
pub open spec fn found_table(row: Seq<CellValue>, idx: NameIndex, candidate: Seq<char>) -> (Seq<char>, Seq<char>) {
    (
        match cell_text(named_cell(row, idx, "schema_name"@)) {
            Some(s) => s,
            None => "dbo"@,
        },
        match cell_text(named_cell(row, idx, "table_name"@)) {
            Some(s) => s,
            None => candidate,
        },
    )
}

/// The table the first row of a lookup names.
pub fn detected_table_from_row(row: &[CellValue], indexes: &NameIndex, candidate: &str) -> (r: DetectedTable)
    ensures
        (r.schema@, r.name@) == found_table(row@, *indexes, candidate@),
{
    let schema = match row_string(row, indexes, "schema_name") {
        Some(s) => s,
        None => String::from_str("dbo"),
    };
    let name = match row_string(row, indexes, "table_name") {
        Some(s) => s,
        None => String::from_str(candidate),
    };
    DetectedTable { schema, name }
}

/// The query that lists a table's columns in their order.
pub open spec fn columns_query_text(t: DetectedTable) -> Seq<char> {
    "
        SELECT COLUMN_NAME
        FROM INFORMATION_SCHEMA.COLUMNS
        WHERE TABLE_SCHEMA = "@
        + sql_literal_seq(t.schema@)
        + "
          AND TABLE_NAME = "@
        + sql_literal_seq(t.name@)
        + "
        ORDER BY ORDINAL_POSITION
        "@
}

pub fn columns_query(table: &DetectedTable) -> (r: String)
    ensures
        r@ == columns_query_text(*table),
{
    let mut r = String::from_str(
        "
        SELECT COLUMN_NAME
        FROM INFORMATION_SCHEMA.COLUMNS
        WHERE TABLE_SCHEMA = ",
    );
    r.append(sql_literal(table.schema.as_str()).as_str());
    r.append(
        "
          AND TABLE_NAME = ",
    );
    r.append(sql_literal(table.name.as_str()).as_str());
    r.append(
        "
        ORDER BY ORDINAL_POSITION
        ",
    );
    r
}

/// The column names the rows of a column listing give, in order; rows
/// whose name reads as nothing give none.
pub open spec fn listed_columns(rows: Seq<Vec<CellValue>>, idx: NameIndex) -> Seq<Seq<char>>
    decreases rows.len(),
{
    if rows.len() == 0 {
        seq![]
    } else {
        listed_columns(rows.drop_last(), idx) + match cell_text(named_cell(rows.last()@, idx, "column_name"@)) {
            Some(n) => seq![n],
            None => seq![],
        }
    }
}

/// The columns of a table from its column listing, each under its
/// lower-cased name.
pub fn column_map_from_rows(rows: &Vec<Vec<CellValue>>, indexes: &NameIndex) -> (r: ColumnMap)
    ensures
        r.pairs() == listed_columns(rows@, *indexes).map_values(|n: Seq<char>| (ascii_lower(n), n)),
{
    let mut columns = ColumnMap::new();
    let mut i: usize = 0;
    while i < rows.len()
        invariant
            i <= rows@.len(),
            columns.pairs() == listed_columns(rows@.take(i as int), *indexes).map_values(
                |n: Seq<char>| (ascii_lower(n), n),
            ),
        decreases rows@.len() - i,
    {
        proof {
            assert(rows@.take(i + 1).drop_last() =~= rows@.take(i as int));
            assert(rows@.take(i + 1).last() == rows@[i as int]);
        }
        match row_string(rows[i].as_slice(), indexes, "column_name") {
            Some(name) => {
                let key = to_ascii_lowercase(name.as_str());
                let ghost n = name@;
                columns.insert(key, name);
                proof {
                    assert(listed_columns(rows@.take(i + 1), *indexes) =~= listed_columns(
                        rows@.take(i as int),
                        *indexes,
                    ).push(n));
                    assert(listed_columns(rows@.take(i + 1), *indexes).map_values(
                        |n: Seq<char>| (ascii_lower(n), n),
                    ) =~= listed_columns(rows@.take(i as int), *indexes).map_values(
                        |n: Seq<char>| (ascii_lower(n), n),
                    ).push((ascii_lower(n), n)));
                }
            },
            None => {
                proof {
                    assert(listed_columns(rows@.take(i + 1), *indexes) =~= listed_columns(
                        rows@.take(i as int),
                        *indexes,
                    ));
                }
            },
        }
        i = i + 1;
    }
    assert(rows@.take(rows@.len() as int) =~= rows@);
    columns
}

} // verus!
