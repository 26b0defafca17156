use sage_data_bridge::cells::{
    column_index_map, csv_value, parse_i64, row_bool, row_i64, row_string, sql_value,
    value_as_bool, value_as_i64, value_as_string, CellValue,
};
use sage_data_bridge::export::{
    csv_header, csv_line, export_columns, export_part_path, export_percent, export_query,
    export_temp_path, export_timeout_secs, hidden_temp_name, insert_line, parse_export_format,
    part_file_name, part_path, should_start_new_part, sql_preamble, tmp_path, xlsx_cells,
    xlsx_rows_per_part, ExportFormat,
};
use sage_data_bridge::sql::Filter;

fn text(s: &str) -> CellValue {
    CellValue::Text(s.into())
}

#[test]
fn quotes_csv_and_sql_values() {
    assert_eq!(csv_value(&text("a,\"b\"")), "\"a,\"\"b\"\"\"");
    assert_eq!(sql_value(&text("l'entreprise")), "N'l''entreprise'");
    assert_eq!(sql_value(&CellValue::Null), "NULL");
}

#[test]
fn creates_excel_part_paths() {
    assert_eq!(part_path("/tmp/export.xlsx", 3).unwrap(), "/tmp/export.part-003.xlsx");
}

#[test]
fn temporary_and_part_paths() {
    assert_eq!(tmp_path("/tmp/export.csv", "job1").unwrap(), "/tmp/.export.csv.job1.tmp");
    assert_eq!(export_temp_path("/tmp/gl.xlsx").unwrap(), "/tmp/.gl.xlsx.tmp");
    assert_eq!(export_part_path("/tmp/gl.xlsx", 2, 1).unwrap(), "/tmp/gl.xlsx");
    assert_eq!(export_part_path("/tmp/gl.xlsx", 2, 5).unwrap(), "/tmp/gl.part-002.xlsx");
    assert_eq!(part_path("/tmp/noext", 12).unwrap(), "/tmp/noext.part-012.xlsx");
    assert_eq!(part_file_name("a", 1234, Some("csv".into())), "a.part-1234.csv");
    assert_eq!(hidden_temp_name("f.xlsx", None), ".f.xlsx.tmp");
    assert_eq!(tmp_path("/", "j").unwrap_err(), "Invalid export path");
    assert_eq!(export_part_path("/", 1, 2).unwrap_err(), "Invalid Excel export file name");
}

#[test]
fn rows_per_part_from_budget() {
    assert_eq!(xlsx_rows_per_part(), 896000);
}

#[test]
fn csv_and_sql_lines() {
    let values = vec![CellValue::Number("12.5".into()), CellValue::Bool(true), CellValue::Null, text("x\ny")];
    assert_eq!(csv_line(&values), "12.5,true,,\"x\ny\"");
    assert_eq!(csv_header(&vec!["id".into(), "a,b".into()]), "id,\"a,b\"");
    assert_eq!(
        insert_line("dbo", "T", &vec!["id".into(), "name".into()], &vec![CellValue::Number("1".into()), text("O'Neil")]),
        "INSERT INTO [dbo].[T] ([id], [name]) VALUES (1, N'O''Neil');"
    );
    assert_eq!(sql_preamble("dbo", "T"), "-- Export of [dbo].[T]\n-- Generated by Sage Data Bridge\n");
    assert_eq!(sql_value(&CellValue::Bool(false)), "0");
    assert_eq!(sql_value(&CellValue::Other("[1,2]".into())), "N'[1,2]'");
    let (cells, numeric) = xlsx_cells(&values);
    assert_eq!(cells, vec!["12.5".to_string(), "true".to_string(), String::new(), "x\ny".to_string()]);
    assert_eq!(numeric, vec![true, false, false, false]);
}

#[test]
fn export_columns_and_query() {
    let cols: Vec<String> = vec!["id".into(), "name".into(), "amount".into()];
    let all = export_columns(&cols, &vec![]).unwrap();
    assert_eq!(all.len(), 3);
    let some = export_columns(&cols, &vec!["amount".into(), "id".into()]).unwrap();
    assert_eq!(some, vec![(0, "id".to_string()), (2, "amount".to_string())]);
    assert_eq!(export_columns(&cols, &vec!["zzz".into()]).unwrap_err(), "No columns selected for export");
    let filters = vec![Filter {
        column: "amount".into(),
        operator: ">".into(),
        value: Some("10".into()),
        value2: None,
        data_type: Some("decimal".into()),
    }];
    assert_eq!(
        export_query(&vec!["id".into(), "amount".into()], "dbo", "T", &filters).unwrap(),
        "SELECT [id], [amount] FROM [dbo].[T] WHERE [amount] > 10"
    );
    assert_eq!(export_query(&vec!["id".into()], "dbo", "T", &[]).unwrap(), "SELECT [id] FROM [dbo].[T] ");
}

#[test]
fn export_progress_and_limits() {
    assert_eq!(export_percent(50, 200), 25);
    assert_eq!(export_percent(500, 200), 99);
    assert_eq!(export_percent(5, 0), 99);
    assert_eq!(export_timeout_secs(Some(30)), 300);
    assert_eq!(export_timeout_secs(Some(900)), 900);
    assert_eq!(export_timeout_secs(None), 300);
    assert!(should_start_new_part(ExportFormat::Xlsx, 450_000_000, 10, 11));
    assert!(!should_start_new_part(ExportFormat::Xlsx, 450_000_000, 11, 11));
    assert!(!should_start_new_part(ExportFormat::Csv, 900_000_000, 1, 11));
    assert_eq!(parse_export_format("json"), Ok(ExportFormat::Json));
    assert_eq!(parse_export_format("xml").unwrap_err(), "Unsupported backend export format");
}

#[test]
fn cell_readings() {
    assert_eq!(value_as_string(Some(&text("  abc "))), Some("abc".to_string()));
    assert_eq!(value_as_string(Some(&text("   "))), None);
    assert_eq!(value_as_string(Some(&CellValue::Bool(true))), Some("1".to_string()));
    assert_eq!(value_as_string(None), None);
    assert_eq!(value_as_i64(Some(&CellValue::Number("42".into()))), 42);
    assert_eq!(value_as_i64(Some(&CellValue::Number("4.5".into()))), 0);
    assert_eq!(value_as_i64(Some(&text(" -7 "))), -7);
    assert_eq!(value_as_i64(Some(&CellValue::Bool(true))), 1);
    assert!(value_as_bool(Some(&text(" YES "))));
    assert!(!value_as_bool(Some(&text("no"))));
    assert!(value_as_bool(Some(&CellValue::Number("3".into()))));
    assert_eq!(parse_i64("9223372036854775807"), Some(i64::MAX));
    assert_eq!(parse_i64("-9223372036854775808"), Some(i64::MIN));
    assert_eq!(parse_i64("9223372036854775808"), None);
    assert_eq!(parse_i64("+12"), Some(12));
    assert_eq!(parse_i64("-"), None);
    assert_eq!(parse_i64(""), None);
    assert_eq!(parse_i64("1_0"), None);
}

#[test]
fn rows_by_column_name() {
    let index = column_index_map(&vec!["Schema_Name".into(), "COUNT".into(), "flag".into()]);
    let row = vec![text(" dbo "), CellValue::Number("3".into()), text("true")];
    assert_eq!(row_string(&row, &index, "schema_name"), Some("dbo".to_string()));
    assert_eq!(row_i64(&row, &index, "count"), 3);
    assert!(row_bool(&row, &index, "FLAG"));
    assert_eq!(row_string(&row, &index, "missing"), None);
    assert_eq!(row_i64(&row[..1], &index, "count"), 0);
}
