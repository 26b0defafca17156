use sage_data_bridge::sql::{
    bracket_ident, build_where_clause, decimal_or_zero, join_strings, odbc_escape, qualify,
    split_char, sql_literal, table_name, text_or_empty, Filter,
};
use sage_data_bridge::xlsx::{sheet_name, xlsx_col_name, xml_escape, TableXlsxWriter};
use sage_data_bridge::zip::{as_zip_u32, update_crc32, ZipStream};

fn filter(column: &str, operator: &str, value: Option<&str>, value2: Option<&str>, data_type: Option<&str>) -> Filter {
    Filter {
        column: column.into(),
        operator: operator.into(),
        value: value.map(|v| v.to_string()),
        value2: value2.map(|v| v.to_string()),
        data_type: data_type.map(|v| v.to_string()),
    }
}

#[test]
fn crc32_check_value() {
    assert_eq!(!update_crc32(0xFFFF_FFFF, b"123456789"), 0xCBF4_3926);
    assert_eq!(update_crc32(0, b""), 0);
    let whole = update_crc32(0, b"hello world");
    let split = update_crc32(update_crc32(0, b"hello "), b"world");
    assert_eq!(whole, split);
}

#[test]
fn zip32_limits() {
    assert_eq!(as_zip_u32(7), Ok(7));
    assert!(as_zip_u32(u32::MAX as u64 + 1).is_err());
}

#[test]
fn stored_archive_layout() {
    let mut zip = ZipStream::new();
    zip.add_entry("a.txt", "hello").unwrap();
    let bytes = zip.finish().unwrap();
    assert_eq!(&bytes[0..4], &[0x50, 0x4b, 0x03, 0x04]);
    let end = bytes.len() - 22;
    assert_eq!(&bytes[end..end + 4], &[0x50, 0x4b, 0x05, 0x06]);
    assert_eq!(u16::from_le_bytes([bytes[end + 10], bytes[end + 11]]), 1);
}

#[test]
fn xml_and_columns() {
    assert_eq!(xml_escape("a<b>&\"c'"), "a&lt;b&gt;&amp;&quot;c&apos;");
    assert_eq!(xlsx_col_name(0), "A");
    assert_eq!(xlsx_col_name(25), "Z");
    assert_eq!(xlsx_col_name(26), "AA");
    assert_eq!(xlsx_col_name(702), "AAA");
    assert_eq!(sheet_name(1), "Grand Livre");
    assert_eq!(sheet_name(3), "Grand Livre 3");
}

#[test]
fn workbook_with_one_sheet() {
    let mut writer = TableXlsxWriter::new(vec!["id".into(), "name".into()]).unwrap();
    writer.write_row(&["1".to_string(), "x".to_string()], &[true, false]).unwrap();
    let (sheets, bytes) = writer.finish().unwrap();
    assert_eq!(sheets, 1);
    assert!(bytes.len() > 22);
}

#[test]
fn quoting_helpers() {
    assert_eq!(bracket_ident("a]b"), "[a]]b]");
    assert_eq!(sql_literal("l'a"), "'l''a'");
    assert_eq!(qualify("e", "EC_Date"), "e.[EC_Date]");
    assert_eq!(table_name("dbo", "T"), "[dbo].[T]");
    assert_eq!(decimal_or_zero("x"), "COALESCE(TRY_CAST(x AS DECIMAL(38, 6)), CAST(0 AS DECIMAL(38, 6)))");
    assert_eq!(text_or_empty("x", 64), "COALESCE(CAST(x AS NVARCHAR(64)), CAST('' AS NVARCHAR(64)))");
    assert_eq!(odbc_escape("p}w"), "{p}}w}");
    assert_eq!(join_strings(&vec!["a".into(), "b".into()], ", "), "a, b");
    assert_eq!(split_char("a,,b", ','), vec!["a".to_string(), String::new(), "b".to_string()]);
}

#[test]
fn where_clauses() {
    assert_eq!(build_where_clause(&[]).unwrap(), "");
    assert_eq!(build_where_clause(&[filter("", "=", Some("1"), None, None)]).unwrap(), "");
    assert_eq!(
        build_where_clause(&[
            filter("name", "LIKE", Some("O'%"), None, Some("nvarchar")),
            filter("id", "IN", Some("1, 2 ,3"), None, Some("int")),
            filter("d", "BETWEEN", Some("2025-01-01"), Some("2025-12-31"), None),
            filter("x", "IS NULL", None, None, None),
        ])
        .unwrap(),
        "WHERE [name] LIKE 'O''%' AND [id] IN (1, 2, 3) AND [d] BETWEEN '2025-01-01' AND '2025-12-31' AND [x] IS NULL"
    );
    assert_eq!(
        build_where_clause(&[filter("c", "<>", None, None, Some("money"))]).unwrap(),
        "WHERE [c] <> ''"
    );
    assert_eq!(
        build_where_clause(&[filter("a", ">=", Some("-12.50"), None, Some("decimal"))]).unwrap(),
        "WHERE [a] >= -12.50"
    );
}

#[test]
fn where_clause_values_never_become_sql() {
    assert_eq!(
        build_where_clause(&[filter("id", "=", Some("1 OR 1=1"), None, Some("int"))]).unwrap(),
        "WHERE [id] = '1 OR 1=1'"
    );
    assert_eq!(
        build_where_clause(&[filter("id", "IN", Some("1,2) OR (1=1"), None, Some("int"))]).unwrap(),
        "WHERE [id] IN (1, '2) OR (1=1')"
    );
    assert_eq!(
        build_where_clause(&[filter("n", "1=1 OR", Some("x"), None, None)]).unwrap_err(),
        "Unsupported filter operator: 1=1 OR"
    );
    assert_eq!(build_where_clause(&[filter("", "DROP", Some("x"), None, None)]).unwrap(), "");
}
