//! The catalog of a database as the explorer shows it: its databases,
//! tables, columns and foreign keys, and the pages of a table's rows.
use vstd::prelude::*;
use crate::cells::CellValue;
use crate::sql::{bracket_ident, bracket_ident_seq, build_where_clause, first_unknown_operator, unsupported_operator_text, where_clause, Filter};
use crate::text::{dec, push_char, replace_char, replace_char_seq, u64_to_string};

verus! {

/// The user databases of the server, by name.
pub const DATABASES_QUERY: &'static str = "
        SELECT name
        FROM sys.databases
        WHERE name NOT IN ('master', 'tempdb', 'model', 'msdb')
        ORDER BY name
    ";

/// The user tables with their row counts, by schema and name.
pub const TABLES_QUERY: &'static str = "
        SELECT
            s.name AS schema_name,
            t.name AS table_name,
            CAST(p.rows AS BIGINT) AS row_count
        FROM sys.tables t
        INNER JOIN sys.schemas s ON t.schema_id = s.schema_id
        INNER JOIN sys.indexes i ON t.object_id = i.object_id AND i.index_id IN (0, 1)
        INNER JOIN sys.partitions p ON i.object_id = p.object_id AND i.index_id = p.index_id
        WHERE t.type = 'U'
          AND t.is_ms_shipped = 0
        ORDER BY s.name, t.name
    ";

/// The foreign keys, column by column.
pub const RELATIONSHIPS_QUERY: &'static str = "
        SELECT
            fk.name AS constraint_name,
            src_schema.name AS source_schema,
            src_table.name AS source_table,
            src_col.name AS source_column,
            dst_schema.name AS target_schema,
            dst_table.name AS target_table,
            dst_col.name AS target_column,
            fkc.constraint_column_id AS ordinal
        FROM sys.foreign_keys fk
        INNER JOIN sys.foreign_key_columns fkc
            ON fk.object_id = fkc.constraint_object_id
        INNER JOIN sys.tables src_table
            ON fk.parent_object_id = src_table.object_id
        INNER JOIN sys.schemas src_schema
            ON src_table.schema_id = src_schema.schema_id
        INNER JOIN sys.columns src_col
            ON src_col.object_id = src_table.object_id
           AND src_col.column_id = fkc.parent_column_id
        INNER JOIN sys.tables dst_table
            ON fk.referenced_object_id = dst_table.object_id
        INNER JOIN sys.schemas dst_schema
            ON dst_table.schema_id = dst_schema.schema_id
        INNER JOIN sys.columns dst_col
            ON dst_col.object_id = dst_table.object_id
           AND dst_col.column_id = fkc.referenced_column_id
        ORDER BY
            src_schema.name,
            src_table.name,
            fk.name,
            fkc.constraint_column_id
    ";

/// A table of the database.
#[derive(Debug)]
pub struct TableInfo {
    pub schema: String,
    pub name: String,
    pub full_name: String,
    pub row_count: Option<i64>,
}

/// A column of a table.
#[derive(Debug)]
pub struct ColumnInfo {
    pub name: String,
    pub data_type: String,
    pub is_nullable: bool,
    pub is_primary_key: bool,
    pub ordinal: i32,
    pub max_length: Option<i32>,
    pub precision: Option<i32>,
    pub scale: Option<i32>,
}

/// One column of a foreign key.
#[derive(Debug)]
pub struct RelationshipInfo {
    pub constraint_name: String,
    pub source_schema: String,
    pub source_table: String,
    pub source_column: String,
    pub target_schema: String,
    pub target_table: String,
    pub target_column: String,
    pub ordinal: i32,
}

/// A page of a table's rows.
pub struct TableData {
    pub columns: Vec<ColumnInfo>,
    pub rows: Vec<Vec<CellValue>>,
    pub total_count: i64,
    pub page: u32,
    pub page_size: u32,
}

pub open spec fn text_or(o: Option<String>, default: Seq<char>) -> Seq<char> {
    match o {
        Some(s) => s@,
        None => default,
    }
}

fn string_or(o: Option<String>, default: &str) -> (r: String)
    ensures
        r@ == text_or(o, default@),
{
    match o {
        Some(s) => s,
        None => String::from_str(default),
    }
}

/// A table as listed: a missing schema reads `dbo`, a missing name empty.
pub fn table_info(schema: Option<String>, name: Option<String>, row_count: Option<i64>) -> (r: TableInfo)
    ensures
        r.schema@ == text_or(schema, "dbo"@),
        r.name@ == text_or(name, ""@),
        r.full_name@ == "["@ + r.schema@ + "].["@ + r.name@ + "]"@,
        r.row_count == row_count,
{
    let schema = string_or(schema, "dbo");
    let name = string_or(name, "");
    let mut full_name = String::from_str("[");
    full_name.append(schema.as_str());
    full_name.append("].[");
    full_name.append(name.as_str());
    push_char(&mut full_name, ']');
    proof {
        reveal_strlit("[");
        reveal_strlit("].[");
        reveal_strlit("]");
    }
    assert(full_name@ =~= "["@ + schema@ + "].["@ + name@ + "]"@);
    TableInfo { schema, name, full_name, row_count }
}

/// The columns of a table with their types, nullability and primary key.
pub open spec fn columns_query_text(schema: Seq<char>, table: Seq<char>) -> Seq<char> {
    "
        SELECT
            c.name AS column_name,
            tp.name AS data_type,
            c.is_nullable,
            CAST(CASE WHEN pk.column_id IS NOT NULL THEN 1 ELSE 0 END AS BIT) AS is_primary_key,
            c.column_id AS ordinal,
            c.max_length,
            c.precision,
            c.scale
        FROM sys.columns c
        INNER JOIN sys.tables t ON c.object_id = t.object_id
        INNER JOIN sys.schemas s ON t.schema_id = s.schema_id
        INNER JOIN sys.types tp ON c.user_type_id = tp.user_type_id
        LEFT JOIN (
            SELECT ic.object_id, ic.column_id
            FROM sys.index_columns ic
            INNER JOIN sys.indexes i ON ic.object_id = i.object_id AND ic.index_id = i.index_id
            WHERE i.is_primary_key = 1
        ) pk ON c.object_id = pk.object_id AND c.column_id = pk.column_id
        WHERE s.name = '"@
        + replace_char_seq(schema, '\'', seq!['\'', '\''])
        + "'
          AND t.name = '"@
        + replace_char_seq(table, '\'', seq!['\'', '\''])
        + "'
        ORDER BY c.column_id
        "@
}

pub fn columns_query(schema: &str, table: &str) -> (r: String)
    ensures
        r@ == columns_query_text(schema@, table@),
{
    let schema_escaped = replace_char(schema, '\'', "''");
    let table_escaped = replace_char(table, '\'', "''");
    proof {
        reveal_strlit("''");
        assert("''"@ =~= seq!['\'', '\'']);
    }
    let mut r = String::new();
    r.append("
        SELECT
            c.name AS column_name,
            tp.name AS data_type,
            c.is_nullable,
            CAST(CASE WHEN pk.column_id IS NOT NULL THEN 1 ELSE 0 END AS BIT) AS is_primary_key,
            c.column_id AS ordinal,
            c.max_length,
            c.precision,
            c.scale
        FROM sys.columns c
        INNER JOIN sys.tables t ON c.object_id = t.object_id
        INNER JOIN sys.schemas s ON t.schema_id = s.schema_id
        INNER JOIN sys.types tp ON c.user_type_id = tp.user_type_id
        LEFT JOIN (
            SELECT ic.object_id, ic.column_id
            FROM sys.index_columns ic
            INNER JOIN sys.indexes i ON ic.object_id = i.object_id AND ic.index_id = i.index_id
            WHERE i.is_primary_key = 1
        ) pk ON c.object_id = pk.object_id AND c.column_id = pk.column_id
        WHERE s.name = '");
    r.append(schema_escaped.as_str());
    r.append("'
          AND t.name = '");
    r.append(table_escaped.as_str());
    r.append("'
        ORDER BY c.column_id
        ");
    r
}

/// A column as listed: a missing name or type reads empty, nullability
/// defaults to true, the primary-key flag to false, the ordinal to 0.
pub fn column_info(
    name: Option<String>,
    data_type: Option<String>,
    is_nullable: Option<bool>,
    is_primary_key: Option<bool>,
    ordinal: Option<i32>,
    max_length: Option<i16>,
    precision: Option<u8>,
    scale: Option<u8>,
) -> (r: ColumnInfo)
    ensures
        r.name@ == text_or(name, ""@),
        r.data_type@ == text_or(data_type, ""@),
        r.is_nullable == match is_nullable {
            Some(b) => b,
            None => true,
        },
        r.is_primary_key == match is_primary_key {
            Some(b) => b,
            None => false,
        },
        r.ordinal == match ordinal {
            Some(o) => o,
            None => 0,
        },
        r.max_length == match max_length {
            Some(v) => Some(v as i32),
            None => None::<i32>,
        },
        r.precision == match precision {
            Some(v) => Some(v as i32),
            None => None::<i32>,
        },
        r.scale == match scale {
            Some(v) => Some(v as i32),
            None => None::<i32>,
        },
{
    ColumnInfo {
        name: string_or(name, ""),
        data_type: string_or(data_type, ""),
        is_nullable: match is_nullable {
            Some(b) => b,
            None => true,
        },
        is_primary_key: match is_primary_key {
            Some(b) => b,
            None => false,
        },
        ordinal: match ordinal {
            Some(o) => o,
            None => 0,
        },
        max_length: match max_length {
            Some(v) => Some(v as i32),
            None => None,
        },
        precision: match precision {
            Some(v) => Some(v as i32),
            None => None,
        },
        scale: match scale {
            Some(v) => Some(v as i32),
            None => None,
        },
    }
}

/// The texts of a foreign key column as the query returns them.
pub struct RelationshipRow {
    pub constraint_name: Option<String>,
    pub source_schema: Option<String>,
    pub source_table: Option<String>,
    pub source_column: Option<String>,
    pub target_schema: Option<String>,
    pub target_table: Option<String>,
    pub target_column: Option<String>,
    pub ordinal: Option<i32>,
}

/// A foreign key column as listed: missing schemas read `dbo`, other
/// missing texts empty, a missing ordinal 0.
pub fn relationship_info(row: RelationshipRow) -> (r: RelationshipInfo)
    ensures
        r.constraint_name@ == text_or(row.constraint_name, ""@),
        r.source_schema@ == text_or(row.source_schema, "dbo"@),
        r.source_table@ == text_or(row.source_table, ""@),
        r.source_column@ == text_or(row.source_column, ""@),
        r.target_schema@ == text_or(row.target_schema, "dbo"@),
        r.target_table@ == text_or(row.target_table, ""@),
        r.target_column@ == text_or(row.target_column, ""@),
        r.ordinal == match row.ordinal {
            Some(o) => o,
            None => 0,
        },
{
    RelationshipInfo {
        constraint_name: string_or(row.constraint_name, ""),
        source_schema: string_or(row.source_schema, "dbo"),
        source_table: string_or(row.source_table, ""),
        source_column: string_or(row.source_column, ""),
        target_schema: string_or(row.target_schema, "dbo"),
        target_table: string_or(row.target_table, ""),
        target_column: string_or(row.target_column, ""),
        ordinal: match row.ordinal {
            Some(o) => o,
            None => 0,
        },
    }
}

/// `[schema].[table]`, each part quoted.
pub open spec fn full_table_text(schema: Seq<char>, table: Seq<char>) -> Seq<char> {
    bracket_ident_seq(schema) + seq!['.'] + bracket_ident_seq(table)
}

fn full_table(schema: &str, table: &str) -> (r: String)
    ensures
        r@ == full_table_text(schema@, table@),
{
    let mut r = bracket_ident(schema);
    push_char(&mut r, '.');
    r.append(bracket_ident(table).as_str());
    r
}

/// The number of rows the filters keep.
pub open spec fn table_count_query_text(schema: Seq<char>, table: Seq<char>, filters: Seq<Filter>) -> Seq<char> {
    "SELECT COUNT_BIG(*) FROM "@ + full_table_text(schema, table) + " "@ + where_clause(filters)
}

/// Refused, with the filter error, when a filter's operator is unknown.
pub fn table_count_query(schema: &str, table: &str, filters: &[Filter]) -> (r: Result<String, String>)
    ensures
        match first_unknown_operator(filters@) {
            Some(op) => r matches Err(e) && e@ == unsupported_operator_text(op),
            None => r matches Ok(q) && q@ == table_count_query_text(schema@, table@, filters@),
        },
{
    let w = match build_where_clause(filters) {
        Ok(w) => w,
        Err(e) => {
            return Err(e);
        },
    };
    let mut r = String::from_str("SELECT COUNT_BIG(*) FROM ");
    r.append(full_table(schema, table).as_str());
    push_char(&mut r, ' ');
    r.append(w.as_str());
    proof {
        reveal_strlit("SELECT COUNT_BIG(*) FROM ");
        reveal_strlit(" ");
    }
    assert(r@ =~= table_count_query_text(schema@, table@, filters@));
    Ok(r)
}

/// One page of the rows the filters keep, in the table's own order.
pub open spec fn table_page_query_text(schema: Seq<char>, table: Seq<char>, filters: Seq<Filter>, page: u32, page_size: u32) -> Seq<char> {
    "
        SELECT *
        FROM "@
        + full_table_text(schema, table)
        + "
        "@
        + where_clause(filters)
        + "
        ORDER BY (SELECT NULL)
        OFFSET "@
        + dec((page * page_size) as nat)
        + " ROWS
        FETCH NEXT "@
        + dec(page_size as nat)
        + " ROWS ONLY
        "@
}

/// The page query of the table explorer. The first row of a page is the
/// page number times the page size, which must fit in 32 bits. Refused,
/// with the filter error, when a filter's operator is unknown.
pub fn table_page_query(schema: &str, table: &str, filters: &[Filter], page: u32, page_size: u32) -> (r: Result<String, String>)
    requires
        page * page_size <= u32::MAX,
    ensures
        match first_unknown_operator(filters@) {
            Some(op) => r matches Err(e) && e@ == unsupported_operator_text(op),
            None => r matches Ok(q) && q@ == table_page_query_text(schema@, table@, filters@, page, page_size),
        },
{
    let full_table = full_table(schema, table);
    let where_clause = match build_where_clause(filters) {
        Ok(w) => w,
        Err(e) => {
            return Err(e);
        },
    };
    let offset: u32 = page * page_size;
    let offset_text = u64_to_string(offset as u64);
    let page_size_text = u64_to_string(page_size as u64);
    let mut r = String::new();
    r.append("
        SELECT *
        FROM ");
    r.append(full_table.as_str());
    r.append("
        ");
    r.append(where_clause.as_str());
    r.append("
        ORDER BY (SELECT NULL)
        OFFSET ");
    r.append(offset_text.as_str());
    r.append(" ROWS
        FETCH NEXT ");
    r.append(page_size_text.as_str());
    r.append(" ROWS ONLY
        ");
    Ok(r)
}

} // verus!
