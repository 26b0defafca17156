use sage_data_bridge::ledger::{
    annual_account_condition, balance_movement_condition, empty_vec_response,
    entry_context_from_columns, join_warnings, lookup_context_from_columns,
    non_opening_journal_condition, pick_column, resolve_amount_exprs, resolve_balance_period,
    sage1000_document_sql, sage1000_piece_join, ColumnMap, DetectedTable, Sage1000Context,
};

fn table(schema: &str, name: &str) -> DetectedTable {
    DetectedTable { schema: schema.into(), name: name.into() }
}

fn columns(names: &[&str]) -> ColumnMap {
    ColumnMap::from_column_names(&names.iter().map(|s| s.to_string()).collect::<Vec<String>>())
}

#[test]
fn balance_period_keeps_a_same_year_range() {
    let period = resolve_balance_period("2025-03-01", "2025-09-30").unwrap();
    assert_eq!(period.annual_from, "2025-03-01");
    assert_eq!(period.annual_to, "2025-09-30");
}

#[test]
fn balance_period_clamps_annual_accounts_to_start_year() {
    let period = resolve_balance_period("2025-07-01", "2026-06-30").unwrap();
    assert_eq!(period.annual_from, "2025-07-01");
    assert_eq!(period.annual_to, "2025-12-31");
}

#[test]
fn balance_period_rejects_invalid_or_reversed_dates() {
    assert!(resolve_balance_period("2025-13-01", "2025-12-31").is_err());
    assert!(resolve_balance_period("2025-12-31", "2025-01-01").is_err());
}

#[test]
fn annual_movement_condition_excludes_opening_journals() {
    let period = resolve_balance_period("2025-01-01", "2026-03-31").unwrap();
    let sql = balance_movement_condition("account_no", "parsed_date", "journal", true, &period);
    assert!(sql.contains("account_no LIKE '6%'"));
    assert!(sql.contains("account_no LIKE '7%'"));
    assert!(sql.contains("'2025-12-31'"));
    assert!(sql.contains("NOT IN ('RAN', 'AN', 'OUV')"));
}

#[test]
fn balance_period_error_messages() {
    assert_eq!(
        resolve_balance_period("x", "2025-01-01").unwrap_err(),
        "Invalid Balance start date; expected YYYY-MM-DD"
    );
    assert_eq!(
        resolve_balance_period("2025-01-01", "2025-02-30").unwrap_err(),
        "Invalid Balance end date; expected YYYY-MM-DD"
    );
    assert_eq!(
        resolve_balance_period("2025-12-31", "2025-01-01").unwrap_err(),
        "Balance start date must not be after end date"
    );
    let same_day = resolve_balance_period("2024-02-29", "2024-02-29").unwrap();
    assert_eq!(same_day.date_from, "2024-02-29");
    assert_eq!(same_day.annual_to, "2024-02-29");
}

#[test]
fn movement_condition_exact_text() {
    let period = resolve_balance_period("2025-01-01", "2025-06-30").unwrap();
    assert_eq!(annual_account_condition("a"), "(a LIKE '6%' OR a LIKE '7%')");
    assert_eq!(non_opening_journal_condition("j", false), "1 = 1");
    assert_eq!(
        non_opening_journal_condition("j", true),
        "UPPER(LTRIM(RTRIM(j))) NOT IN ('RAN', 'AN', 'OUV')"
    );
    assert_eq!(
        balance_movement_condition("a", "d", "j", false, &period),
        "((NOT (a LIKE '6%' OR a LIKE '7%') AND d BETWEEN '2025-01-01' AND '2025-06-30') OR ((a LIKE '6%' OR a LIKE '7%') AND d BETWEEN '2025-01-01' AND '2025-06-30' AND 1 = 1))"
    );
}

#[test]
fn warnings_join_without_blanks() {
    assert_eq!(join_warnings(vec!["  ".into(), String::new()]), None);
    assert_eq!(
        join_warnings(vec!["first".into(), " ".into(), "second".into()]),
        Some("first | second".to_string())
    );
    let empty = empty_vec_response::<u8>(vec!["only".into()]);
    assert!(empty.data.is_empty());
    assert_eq!(empty.warning, Some("only".to_string()));
}

#[test]
fn detected_table_names_are_quoted() {
    assert_eq!(table("dbo", "F_ECRITUREC").sql_name(), "[dbo].[F_ECRITUREC]");
    assert_eq!(table("a]b", "t").sql_name(), "[a]]b].[t]");
}

#[test]
fn sage1000_joins_follow_the_tables_found() {
    let full = Sage1000Context {
        entries: table("dbo", "TECRITURE"),
        accounts: table("dbo", "TCOMPTEGENERAL"),
        tiers: None,
        role_tiers: None,
        pieces: Some(table("dbo", "TPIECE")),
        journals: Some(table("dbo", "TJOURNAL")),
    };
    assert_eq!(sage1000_piece_join(&full), "LEFT JOIN [dbo].[TPIECE] p ON e.[oidpiece] = p.[oid]");
    let doc = sage1000_document_sql(&full);
    assert_eq!(
        doc.join_sql,
        "LEFT JOIN [dbo].[TPIECE] p ON e.[oidpiece] = p.[oid]\n            LEFT JOIN [dbo].[TJOURNAL] j ON p.[oidjournal] = j.[oid]"
    );
    assert_eq!(
        doc.ref_piece_expr,
        "COALESCE(CAST(p.[numero] AS NVARCHAR(128)), CAST('' AS NVARCHAR(128)))"
    );
    assert!(doc.journal_expr.starts_with("COALESCE(CAST(j.[code] AS NVARCHAR(64))"));

    let bare = Sage1000Context {
        entries: table("dbo", "TECRITURE"),
        accounts: table("dbo", "TCOMPTEGENERAL"),
        tiers: None,
        role_tiers: None,
        pieces: None,
        journals: Some(table("dbo", "TJOURNAL")),
    };
    let doc = sage1000_document_sql(&bare);
    assert_eq!(doc.join_sql, "");
    assert_eq!(doc.journal_expr, "CAST('' AS NVARCHAR(64))");
    assert_eq!(doc.ref_piece_expr, "CAST('' AS NVARCHAR(128))");
}

#[test]
fn pick_column_ignores_case_and_keeps_candidate_order() {
    let cols = columns(&["ec_date", "CG_NUM", "Montant"]);
    assert_eq!(pick_column(&cols, &["DATE", "EC_Date"]), Some("ec_date".to_string()));
    assert_eq!(pick_column(&cols, &["cg_num"]), Some("CG_NUM".to_string()));
    assert_eq!(pick_column(&cols, &["missing"]), None);
    let mut later = columns(&["Amount"]);
    later.insert("amount".into(), "AMOUNT".into());
    assert_eq!(later.get("amount"), Some("AMOUNT".to_string()));
}

#[test]
fn amounts_from_sign_or_from_two_columns() {
    let signed = columns(&["EC_Montant", "EC_Sens"]);
    let (debit, credit) = resolve_amount_exprs("e", &signed).unwrap();
    assert_eq!(
        debit,
        "CASE WHEN COALESCE(TRY_CAST(e.[EC_Sens] AS INT), 0) = 0 THEN COALESCE(TRY_CAST(e.[EC_Montant] AS DECIMAL(38, 6)), CAST(0 AS DECIMAL(38, 6))) ELSE CAST(0 AS DECIMAL(38, 6)) END"
    );
    assert!(credit.contains(") = 1 THEN "));
    let split = columns(&["DEBIT", "CREDIT"]);
    let (debit, credit) = resolve_amount_exprs("x", &split).unwrap();
    assert_eq!(debit, "COALESCE(TRY_CAST(x.[DEBIT] AS DECIMAL(38, 6)), CAST(0 AS DECIMAL(38, 6)))");
    assert_eq!(credit, "COALESCE(TRY_CAST(x.[CREDIT] AS DECIMAL(38, 6)), CAST(0 AS DECIMAL(38, 6)))");
    assert!(resolve_amount_exprs("e", &columns(&["DEBIT"])).is_none());
}

#[test]
fn entry_context_reports_missing_parts() {
    let (ctx, warnings) = entry_context_from_columns(table("dbo", "GL"), &columns(&["DEBIT"]));
    assert!(ctx.is_none());
    assert_eq!(
        warnings,
        vec![
            "[dbo].[GL] is missing a supported date column".to_string(),
            "[dbo].[GL] is missing a supported account column".to_string(),
            "[dbo].[GL] is missing supported debit/credit columns".to_string(),
        ]
    );
    let (ctx, warnings) = entry_context_from_columns(
        table("dbo", "F_ECRITUREC"),
        &columns(&["EC_Date", "CG_Num", "JO_Num", "EC_Montant", "EC_Sens", "EC_Lettrage"]),
    );
    assert!(warnings.is_empty());
    let ctx = ctx.unwrap();
    assert_eq!(ctx.date_col, "EC_Date");
    assert_eq!(ctx.account_col, "CG_Num");
    assert_eq!(ctx.journal_col, Some("JO_Num".to_string()));
    assert_eq!(ctx.lettrage_col, Some("EC_Lettrage".to_string()));
    assert_eq!(ctx.ref_piece_col, None);
}

#[test]
fn lookup_context_needs_code_and_label() {
    let cols = columns(&["CG_Num", "CG_Intitule", "CG_Type"]);
    let ctx = lookup_context_from_columns(table("dbo", "F_COMPTEG"), &cols, &["CG_Num"], &["CG_Intitule"], &["CG_Type"]).unwrap();
    assert_eq!(ctx.code_col, "CG_Num");
    assert_eq!(ctx.type_col, Some("CG_Type".to_string()));
    assert!(lookup_context_from_columns(table("dbo", "X"), &cols, &["CT_Num"], &["CG_Intitule"], &[]).is_none());
}
