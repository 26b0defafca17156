use sage_data_bridge::cells::CellValue;
use sage_data_bridge::connection::ConnectionConfig;
use sage_data_bridge::schema::{SageEdition, SageSchema};
use sage_data_bridge::ledger::DetectedTable;
use sage_data_bridge::session::{
    found_tables, lookup_names_given, mapping_preview_query, needs_entry_date_probe,
    prefers_schema_hint, probe_column_query, probe_tables_query, schema_entry_context,
    schema_lookup_context, schema_names_entries, Sessions, SAGE1000_PROBE_TABLES,
    SAGE100_PROBE_TABLES,
};

fn profile(database: &str) -> ConnectionConfig {
    ConnectionConfig {
        id: "c1".into(),
        name: "Compta".into(),
        host: "srv".into(),
        instance_name: String::new(),
        port: 1433,
        database: database.into(),
        username: "sa".into(),
        password: "pw".into(),
        use_windows_auth: false,
        encrypt: false,
        trust_cert: true,
        sage_edition: "auto".into(),
        custom_schema: None,
    }
}

#[test]
fn probes_list_the_candidate_tables() {
    assert_eq!(
        probe_tables_query(&SAGE100_PROBE_TABLES),
        "SELECT TABLE_NAME FROM INFORMATION_SCHEMA.TABLES WHERE TABLE_TYPE = 'BASE TABLE' AND TABLE_NAME IN ('F_ECRITUREC', 'F_COMPTET', 'F_TIERS', 'F_JOURNAL')"
    );
    assert_eq!(
        probe_column_query("TECRITURE", "e'Date"),
        "SELECT 1 FROM INFORMATION_SCHEMA.COLUMNS WHERE TABLE_NAME = 'TECRITURE' AND COLUMN_NAME = 'e''Date'"
    );
    let rows = vec![
        vec![CellValue::Text("TECRITURE".into())],
        vec![CellValue::Null],
        vec![],
        vec![CellValue::Text("TTIERS".into())],
    ];
    assert_eq!(found_tables(&rows), vec!["TECRITURE".to_string(), "TTIERS".to_string()]);
    assert_eq!(SAGE1000_PROBE_TABLES.len(), 5);
    assert!(needs_entry_date_probe(&vec!["tEcriture".to_string()]));
    assert!(!needs_entry_date_probe(&vec!["TTIERS".to_string()]));
}

#[test]
fn mapping_previews_read_the_mapped_columns() {
    let mut schema = SageSchema::for_edition(&SageEdition::Generic);
    schema.table_ecritures = String::new();
    assert_eq!(mapping_preview_query(&schema).unwrap_err(), "Table des écritures non spécifiée");
    schema.table_ecritures = "ECR]TURES".into();
    schema.col_date = "EC_Date".into();
    schema.col_journal = String::new();
    schema.col_compte = " case when 1=1 then 'x' end".into();
    schema.col_libelle = String::new();
    schema.col_debit = String::new();
    schema.col_credit = String::new();
    assert_eq!(
        mapping_preview_query(&schema).unwrap(),
        "SELECT TOP 5 [EC_Date] AS [Date],  case when 1=1 then 'x' end AS [Compte] FROM [ECR]]TURES]"
    );
    schema.col_date = String::new();
    schema.col_compte = String::new();
    assert_eq!(mapping_preview_query(&schema).unwrap(), "SELECT TOP 5 * FROM [ECR]]TURES]");
}

#[test]
fn connections_move_from_connecting_to_connected() {
    let mut s = Sessions::new();
    s.connect_db("c1".into(), profile("COMPTA"));
    assert_eq!(s.get_connection_statuses(), vec![("c1".to_string(), "connecting".to_string())]);
    s.connect_succeeded("c1".into(), SageSchema::for_edition(&SageEdition::Sage100));
    assert_eq!(s.get_connection_statuses(), vec![("c1".to_string(), "connected".to_string())]);
    assert_eq!(s.get_active_schema("c1").unwrap().edition, SageEdition::Sage100);
    let all = s.get_active_schemas();
    assert_eq!(all.len(), 1);
    assert_eq!(all[0], ("c1".to_string(), "sage100".to_string()));
    s.connect_db("c2".into(), profile("PAIE"));
    s.connect_failed("c2", "login failed".into());
    let statuses = s.get_connection_statuses();
    assert!(statuses.contains(&("c2".to_string(), "error".to_string())));
    s.disconnect_db("c1");
    assert!(s.get_active_schema("c1").is_none());
    assert!(s.get_active_schemas().is_empty());
    assert_eq!(s.get_connection_statuses(), vec![("c2".to_string(), "error".to_string())]);
}

#[test]
fn a_failed_switch_returns_to_the_previous_database() {
    let mut s = Sessions::new();
    assert_eq!(s.switch_database("c1".into(), profile("COMPTA"), "  ").err().unwrap(), "Database name is required");
    s.connect_db("c1".into(), profile("COMPTA"));
    s.connect_succeeded("c1".into(), SageSchema::for_edition(&SageEdition::Sage100));
    let plan = s.switch_database("c1".into(), profile("COMPTA"), " ARCHIVE ").ok().unwrap();
    assert_eq!(plan.next.database, "ARCHIVE");
    assert_eq!(plan.fallback.database, "COMPTA");
    assert_eq!(s.get_connection_statuses(), vec![("c1".to_string(), "connecting".to_string())]);
    s.switch_failed("c1".into(), plan.fallback, "no such database".into());
    assert_eq!(s.get_connection_statuses(), vec![("c1".to_string(), "error".to_string())]);
    let plan = s.switch_database("c1".into(), profile("COMPTA"), "ARCHIVE").ok().unwrap();
    s.switch_succeeded("c1".into(), plan.next, SageSchema::for_edition(&SageEdition::Sage1000));
    assert_eq!(s.get_connection_statuses(), vec![("c1".to_string(), "connected".to_string())]);
    assert_eq!(s.get_active_schema("c1").unwrap().edition, SageEdition::Sage1000);
}

#[test]
fn stored_mappings_read_the_entries() {
    let mut schema = SageSchema::for_edition(&SageEdition::Sage100);
    assert!(schema_names_entries(&schema));
    assert!(prefers_schema_hint(Some(&schema)));
    assert!(!prefers_schema_hint(None));
    assert!(!prefers_schema_hint(Some(&SageSchema::for_edition(&SageEdition::Generic))));
    schema.col_journal = String::new();
    schema.col_debit = "  case when EC_Sens = 0 then EC_Montant else 0 end".into();
    schema.col_credit = "EC_Credit".into();
    let table = DetectedTable { schema: "dbo".into(), name: schema.table_ecritures.clone() };
    let ctx = schema_entry_context(&schema, table);
    assert_eq!(ctx.table.schema, "dbo");
    assert!(ctx.journal_col.is_none());
    assert_eq!(ctx.date_col, schema.col_date);
    assert_eq!(
        ctx.debit_expr,
        "COALESCE(TRY_CAST(  case when EC_Sens = 0 then EC_Montant else 0 end AS DECIMAL(38, 6)), CAST(0 AS DECIMAL(38, 6)))"
    );
    assert_eq!(ctx.credit_expr, "COALESCE(TRY_CAST(e.[EC_Credit] AS DECIMAL(38, 6)), CAST(0 AS DECIMAL(38, 6)))");
    schema.col_date = String::new();
    assert!(!schema_names_entries(&schema));
    assert!(lookup_names_given("F_COMPTEG", "CG_Num", "CG_Intitule"));
    assert!(!lookup_names_given("F_COMPTEG", "", "CG_Intitule"));
    let lookup = schema_lookup_context(DetectedTable { schema: "dbo".into(), name: "F_COMPTET".into() }, "CT_Num", "CT_Intitule", "");
    assert_eq!(lookup.code_col, "CT_Num");
    assert!(lookup.type_col.is_none());
}

#[test]
fn deleting_a_connection_closes_its_session() {
    let mut c = sage_data_bridge::config::AppConfig {
        connections: vec![profile("COMPTA")],
        saved_queries: vec![],
        query_history: vec![],
        input_history: vec![],
        password_hash: Some("h".into()),
        admin_password_hash: None,
        query_timeout_secs: 30,
        dashboard_timeout_secs: 60,
        login_timeout_secs: 15,
        account_ar: "411000".into(),
        account_sales: "701000".into(),
        account_vat: "443100".into(),
    };
    let mut s = Sessions::new();
    s.connect_db("c1".into(), profile("COMPTA"));
    s.connect_succeeded("c1".into(), SageSchema::for_edition(&SageEdition::Sage1000));
    s.connect_db("c2".into(), profile("PAIE"));
    s.delete_connection(&mut c, "c1");
    assert!(c.connections.is_empty());
    assert_eq!(c.password_hash, Some("h".to_string()));
    assert!(s.get_active_schema("c1").is_none());
    assert!(s.get_active_schemas().is_empty());
    assert_eq!(s.get_connection_statuses(), vec![("c2".to_string(), "connecting".to_string())]);
}
