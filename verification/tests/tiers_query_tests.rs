use sage_data_bridge::ledger::{DetectedTable, EntryContext, Sage1000Context};
use sage_data_bridge::ledger_sql::{tiers_code_column, tiers_search_filter, tiers_type_filter};
use sage_data_bridge::tiers_sql::{
    dashboard_tiers_query, entries_finance_cte, sage1000_finance_cte, source_type_expr,
    EMPTY_ENTRIES_FINANCE_CTE, EMPTY_SAGE1000_FINANCE_CTE, TIER_JOIN,
};

fn table(name: &str) -> DetectedTable {
    DetectedTable { schema: "dbo".into(), name: name.into() }
}

fn sage1000(with_roles: bool) -> Sage1000Context {
    Sage1000Context {
        entries: table("TECRITURE"),
        accounts: table("TCOMPTEGENERAL"),
        tiers: Some(table("TTIERS")),
        role_tiers: if with_roles { Some(table("TROLETIERS")) } else { None },
        pieces: None,
        journals: None,
    }
}

fn entries(tiers: Option<&str>) -> EntryContext {
    EntryContext {
        table: table("F_ECRITUREC"),
        date_col: "EC_Date".into(),
        journal_col: None,
        account_col: "CG_Num".into(),
        account_label_col: None,
        tiers_code_col: tiers.map(|t| t.to_string()),
        description_col: None,
        ref_piece_col: None,
        lettrage_col: None,
        debit_expr: "D".into(),
        credit_expr: "C".into(),
    }
}

#[test]
fn third_party_types_read_ct_type_numbers() {
    assert_eq!(source_type_expr(true, Some("CT_Type"), "t.[CT_Type]"), "N'unknown'");
    assert_eq!(source_type_expr(false, None, "x"), "N'unknown'");
    let ct = source_type_expr(false, Some("ct_type"), "t.[CT_Type]");
    assert!(ct.starts_with("CASE WHEN TRY_CAST(t.[CT_Type] AS INT) = 0 THEN N'client' WHEN TRY_CAST(t.[CT_Type] AS INT) = 1 THEN N'fournisseur' WHEN TRY_CAST(t.[CT_Type] AS INT) = 2 THEN N'les_deux' WHEN UPPER"));
    assert!(ct.ends_with("ELSE N'unknown' END"));
    let words = source_type_expr(false, Some("TYPE"), "t.[TYPE]");
    assert!(words.starts_with("CASE  WHEN UPPER(LTRIM(RTRIM(CAST(t.[TYPE] AS NVARCHAR(64))))) IN (N'CLIENT'"));
}

#[test]
fn finance_comes_from_roles_or_entries() {
    let (cte, warning) = sage1000_finance_cte(&sage1000(true));
    assert!(warning.is_none());
    assert!(cte.contains("FROM [dbo].[TROLETIERS] rt"));
    assert!(cte.contains("LEFT JOIN [dbo].[TCOMPTEGENERAL] ap ON rt.[oidcomptePrivilegie] = ap.[oid]"));
    let (cte, warning) = sage1000_finance_cte(&sage1000(false));
    assert_eq!(cte, EMPTY_SAGE1000_FINANCE_CTE);
    assert_eq!(
        warning.unwrap(),
        "TROLETIERS was not detected; customer/supplier roles and balances are unavailable"
    );
    let (cte, warning) = entries_finance_cte(&Some(entries(Some("CT_Num"))));
    assert!(warning.is_none());
    assert!(cte.contains("tiers_code = COALESCE(CAST(e.[CT_Num] AS NVARCHAR(100)), CAST('' AS NVARCHAR(100)))"));
    assert!(cte.contains("FROM [dbo].[F_ECRITUREC] e"));
    for context in [Some(entries(None)), None] {
        let (cte, warning) = entries_finance_cte(&context);
        assert_eq!(cte, EMPTY_ENTRIES_FINANCE_CTE);
        assert!(warning.unwrap().starts_with("No compatible tier code"));
    }
}

#[test]
fn the_dashboard_lists_a_hundred_third_parties() {
    let sql = dashboard_tiers_query(
        "t.[CT_Num]",
        "CODE",
        "NAME",
        "N'unknown'",
        "[dbo].[F_COMPTET]",
        EMPTY_ENTRIES_FINANCE_CTE,
        tiers_type_filter(Some("clients")),
        &tiers_search_filter(Some(" dup ")),
    );
    assert!(sql.contains("source_id = t.[CT_Num]"));
    assert!(sql.contains("FROM [dbo].[F_COMPTET] t"));
    assert!(sql.contains(TIER_JOIN));
    assert!(sql.contains("SELECT TOP (100)"));
    assert!(sql.contains(" AND tiers_type IN (N'client', N'les_deux')"));
    assert!(sql.contains("LIKE '%dup%'"));
    assert!(sql.contains("ORDER BY name, code"));
}

#[test]
fn the_auxiliary_ledger_needs_a_tiers_column() {
    assert_eq!(tiers_code_column(&entries(Some("CT_Num"))), Ok("CT_Num".to_string()));
    assert_eq!(
        tiers_code_column(&entries(None)),
        Err("No tiers code column detected on accounting entries".to_string())
    );
}
