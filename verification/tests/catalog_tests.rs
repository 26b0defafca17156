use sage_data_bridge::catalog::{
    column_info, columns_query, relationship_info, table_count_query, table_info, table_page_query,
    RelationshipRow, DATABASES_QUERY, RELATIONSHIPS_QUERY, TABLES_QUERY,
};
use sage_data_bridge::sql::Filter;

#[test]
fn tables_are_named_with_their_schema() {
    let t = table_info(None, Some("F_COMPTEG".into()), Some(12));
    assert_eq!(t.schema, "dbo");
    assert_eq!(t.full_name, "[dbo].[F_COMPTEG]");
    assert_eq!(t.row_count, Some(12));
    let u = table_info(Some("compta".into()), None, None);
    assert_eq!(u.full_name, "[compta].[]");
}

#[test]
fn catalog_queries_skip_system_objects() {
    assert!(DATABASES_QUERY.contains("WHERE name NOT IN ('master', 'tempdb', 'model', 'msdb')"));
    assert!(TABLES_QUERY.contains("AND t.is_ms_shipped = 0"));
    assert!(RELATIONSHIPS_QUERY.contains("FROM sys.foreign_keys fk"));
    let q = columns_query("dbo", "O'Neil");
    assert!(q.contains("WHERE s.name = 'dbo'\n          AND t.name = 'O''Neil'"));
    assert!(q.contains("ORDER BY c.column_id"));
}

#[test]
fn columns_and_keys_take_defaults() {
    let c = column_info(Some("CG_Num".into()), None, None, Some(true), Some(3), Some(17), None, Some(2));
    assert_eq!((c.name.as_str(), c.data_type.as_str()), ("CG_Num", ""));
    assert!(c.is_nullable);
    assert!(c.is_primary_key);
    assert_eq!((c.ordinal, c.max_length, c.precision, c.scale), (3, Some(17), None, Some(2)));
    let r = relationship_info(RelationshipRow {
        constraint_name: Some("FK_1".into()),
        source_schema: None,
        source_table: Some("F_ECRITUREC".into()),
        source_column: Some("CG_Num".into()),
        target_schema: None,
        target_table: Some("F_COMPTEG".into()),
        target_column: None,
        ordinal: None,
    });
    assert_eq!((r.source_schema.as_str(), r.target_schema.as_str()), ("dbo", "dbo"));
    assert_eq!((r.target_column.as_str(), r.ordinal), ("", 0));
}

#[test]
fn table_pages_are_counted_and_fetched() {
    let filters = vec![Filter {
        column: "JO_Num".into(),
        operator: "=".into(),
        value: Some("VE".into()),
        value2: None,
        data_type: Some("varchar".into()),
    }];
    let count = table_count_query("dbo", "F_ECRITURE]C", &filters).unwrap();
    assert!(count.starts_with("SELECT COUNT_BIG(*) FROM [dbo].[F_ECRITURE]]C] WHERE "));
    assert_eq!(table_count_query("dbo", "T", &[]).unwrap(), "SELECT COUNT_BIG(*) FROM [dbo].[T] ");
    assert_eq!(
        table_page_query("dbo", "T", &[], 3, 50).unwrap(),
        "\n        SELECT *\n        FROM [dbo].[T]\n        \n        ORDER BY (SELECT NULL)\n        OFFSET 150 ROWS\n        FETCH NEXT 50 ROWS ONLY\n        "
    );
}
