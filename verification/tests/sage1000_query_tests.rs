use sage_data_bridge::ledger::{BalancePeriod, DetectedTable, Sage1000Context};
use sage_data_bridge::ledger_sql::TiersKind;
use sage_data_bridge::schema::{SageEdition, SageSchema};
use sage_data_bridge::sage1000_sql::{
    analytics_route, sage1000_auxiliary_plan, AnalyticsRoute, SAGE1000_TABLES_MISSING,
    sage1000_auxiliary_blocker, sage1000_auxiliary_query, sage1000_auxiliary_stream_base,
    sage1000_cumulative_balance_query, sage1000_ledger_stream_base, CumulTables,
    SAGE1000_AUXILIARY_ORDER, SAGE1000_AUXILIARY_WARNING, SAGE1000_LEDGER_ORDER,
    SAGE1000_LEDGER_WARNING,
};

fn table(schema: &str, name: &str) -> DetectedTable {
    DetectedTable { schema: schema.into(), name: name.into() }
}

fn context(with_roles: bool, with_tiers: bool, with_pieces: bool) -> Sage1000Context {
    Sage1000Context {
        entries: table("dbo", "TECRITURE"),
        accounts: table("dbo", "TCOMPTEGENERAL"),
        tiers: if with_tiers { Some(table("dbo", "TTIERS")) } else { None },
        role_tiers: if with_roles { Some(table("dbo", "TROLETIERS")) } else { None },
        pieces: if with_pieces { Some(table("dbo", "TPIECE")) } else { None },
        journals: None,
    }
}

#[test]
fn sage1000_auxiliary_ledger_needs_roles_and_third_parties() {
    assert_eq!(
        sage1000_auxiliary_blocker(&None).unwrap(),
        "Sage 1000 tables TECRITURE and TCOMPTEGENERAL were not detected"
    );
    assert_eq!(
        sage1000_auxiliary_blocker(&Some(context(false, true, true))).unwrap(),
        "Sage 1000 table TROLETIERS was not detected"
    );
    assert_eq!(
        sage1000_auxiliary_blocker(&Some(context(true, false, true))).unwrap(),
        "Sage 1000 table TTIERS was not detected"
    );
    assert!(sage1000_auxiliary_blocker(&Some(context(true, true, false))).is_none());
}

#[test]
fn sage1000_auxiliary_query_selects_the_kind_of_third_party() {
    let sql = sage1000_auxiliary_query(
        &context(true, true, true),
        TiersKind::Suppliers,
        "2024-01-01",
        "2024-12-31",
        Some(" 401 "),
    );
    assert!(sql.contains("LEFT JOIN [dbo].[TROLETIERS] rt ON e.[oidroleTiers] = rt.[oid]"));
    assert!(sql.contains("LEFT JOIN [dbo].[TTIERS] t ON COALESCE(rt.[oidTiers], p.[oidTiers]) = t.[oid]"));
    assert!(sql.contains("LEFT JOIN [dbo].[TCOMPTEGENERAL] ap ON rt.[oidcomptePrivilegie] = ap.[oid]"));
    assert!(sql.contains(
        "(LEFT(COALESCE(CAST(ap.[codeCompte] AS NVARCHAR(64)), CAST('' AS NVARCHAR(64))), 2) = '40' OR LEFT(COALESCE(CAST(cg.[codeCompte] AS NVARCHAR(64)), CAST('' AS NVARCHAR(64))), 2) = '40')"
    ));
    assert!(sql.contains("BETWEEN '2024-01-01' AND '2024-12-31'"));
    assert!(sql.contains(" AND COALESCE(CAST(cg.[codeCompte] AS NVARCHAR(64)), CAST('' AS NVARCHAR(64))) LIKE '401%'"));
    assert!(sql.contains("PARTITION BY tiers_code"));
    assert!(sql.contains("ORDER BY account_no, tiers_code, sort_row"));

    let customers = sage1000_auxiliary_query(
        &context(true, true, false),
        TiersKind::Customers,
        "2024-01-01",
        "2024-12-31",
        None,
    );
    assert!(customers.contains("LEFT JOIN [dbo].[TTIERS] t ON rt.[oidTiers] = t.[oid]"));
    assert!(customers.contains(", 2) = '41'"));
    assert!(!customers.contains("LIKE '41"));
}

#[test]
fn sage1000_ledger_stream_reads_entries_with_their_pieces() {
    assert_eq!(SAGE1000_LEDGER_ORDER, "account_no, parsed_date, entry_number");
    assert_eq!(SAGE1000_LEDGER_WARNING, "Sage 1000 tables TECRITURE / TCOMPTEGENERAL non détectées");
    let base = sage1000_ledger_stream_base(&context(false, false, true), "2024-01-01", "2024-03-31", None);
    assert!(base.starts_with("WITH base AS (SELECT parsed_date = TRY_CAST(e.[eDate] AS DATE), journal = "));
    assert!(base.contains("FROM [dbo].[TECRITURE] e LEFT JOIN [dbo].[TCOMPTEGENERAL] cg ON e.[oidcompteGeneral] = cg.[oid] LEFT JOIN [dbo].[TPIECE] p ON e.[oidpiece] = p.[oid]"));
    assert!(base.contains("entry_number = COALESCE(TRY_CAST(e.[numero] AS BIGINT), 0)"));
    assert!(base.ends_with("<> '' )"));
}

#[test]
fn sage1000_auxiliary_stream_falls_back_on_collective_accounts() {
    assert_eq!(SAGE1000_AUXILIARY_ORDER, "account_no, tiers_code, parsed_date, entry_number");
    assert_eq!(SAGE1000_AUXILIARY_WARNING, "Sage 1000 tables non détectées");
    let bare = sage1000_auxiliary_stream_base(&context(false, false, false), TiersKind::Customers, "2024-01-01", "2024-12-31", Some("411"));
    assert!(bare.contains("tiers_code = CAST('' AS NVARCHAR(64))"));
    assert!(bare.contains("tiers_name = CAST('' AS NVARCHAR(255))"));
    assert!(bare.contains("LIKE '41%' OR COALESCE(CAST(cg.[codeCompte] AS NVARCHAR(64)), CAST('' AS NVARCHAR(64))) LIKE '411%')"));
    assert!(bare.contains("description = CAST('' AS NVARCHAR(255))"));
    let full = sage1000_auxiliary_stream_base(&context(true, true, false), TiersKind::Suppliers, "2024-01-01", "2024-12-31", None);
    assert!(full.contains("LEFT JOIN [dbo].[TROLETIERS] rt ON e.[oidroleTiers] = rt.[oid]\n            LEFT JOIN [dbo].[TTIERS] t ON rt.[oidTiers] = t.[oid]"));
    assert!(full.contains("LEFT JOIN [dbo].[TCOMPTEGENERAL] ap ON rt.[oidcomptePrivilegie] = ap.[oid]"));
    assert!(full.contains(", 2) = '40'"));
    let pieces_only = sage1000_auxiliary_stream_base(&context(false, true, true), TiersKind::Suppliers, "2024-01-01", "2024-12-31", None);
    assert!(pieces_only.contains("LEFT JOIN [dbo].[TTIERS] t ON p.[oidTiers] = t.[oid]"));
    assert!(pieces_only.contains("LIKE '40%'"));
}

#[test]
fn sage1000_cumulative_balance_reads_the_period_totals() {
    let tables = CumulTables {
        period_cumul: table("dbo", "TCUMULPERIODECOMPTE"),
        opening_cumul: table("dbo", "TCUMULANOUVEAUCOMPTE"),
        exercises: table("dbo", "TEXERCICE"),
        periods: table("dbo", "TPERIODE"),
    };
    let period = BalancePeriod {
        date_from: "2024-01-01".into(),
        date_to: "2024-06-30".into(),
        annual_from: "2024-01-01".into(),
        annual_to: "2024-06-30".into(),
    };
    let sql = sage1000_cumulative_balance_query(&tables, &context(false, false, false), &period, Some("6"));
    assert!(sql.contains("FROM [dbo].[TEXERCICE] ex\n            WHERE '2024-01-01' BETWEEN CAST(ex.dateDebut AS date) AND CAST(ex.dateFin AS date)"));
    assert!(sql.contains("FROM [dbo].[TCUMULANOUVEAUCOMPTE] an"));
    assert!(sql.contains("JOIN [dbo].[TPERIODE] per ON cp.oidPeriode = per.oid"));
    assert!(sql.contains("AND CAST(per.dateFin AS date) <= '2024-06-30'"));
    assert!(sql.contains("FROM [dbo].[TECRITURE] e"));
    assert!(sql.contains("FROM [dbo].[TCOMPTEGENERAL] cg"));
    assert!(sql.contains(" AND COALESCE(CAST(cg.[codeCompte] AS NVARCHAR(64)), CAST('' AS NVARCHAR(64))) LIKE '6%'"));
    assert!(sql.contains("account_label = COALESCE(CAST(cg.[Caption] AS NVARCHAR(255)), CAST('' AS NVARCHAR(255)))"));
}

#[test]
fn the_schema_hint_chooses_the_sage1000_route_first() {
    let sage1000 = SageSchema::for_edition(&SageEdition::Sage1000);
    let sage100 = SageSchema::for_edition(&SageEdition::Sage100);
    assert!(matches!(analytics_route(Some(&sage1000), None), AnalyticsRoute::Sage1000Missing));
    assert!(matches!(analytics_route(Some(&sage100), None), AnalyticsRoute::Entries));
    assert!(matches!(analytics_route(None, None), AnalyticsRoute::Entries));
    assert!(matches!(analytics_route(Some(&sage100), Some(context(true, true, true))), AnalyticsRoute::Sage1000(_)));
    assert!(matches!(analytics_route(Some(&sage1000), Some(context(false, false, false))), AnalyticsRoute::Sage1000(_)));
    assert_eq!(SAGE1000_TABLES_MISSING, "Sage 1000 tables TECRITURE and TCOMPTEGENERAL were not detected");
}

#[test]
fn the_sage1000_auxiliary_plan_names_the_missing_table() {
    assert_eq!(
        sage1000_auxiliary_plan(&None, TiersKind::Customers, "2024-01-01", "2024-12-31", None).unwrap_err(),
        "Sage 1000 tables TECRITURE and TCOMPTEGENERAL were not detected"
    );
    assert_eq!(
        sage1000_auxiliary_plan(&Some(context(false, true, true)), TiersKind::Customers, "2024-01-01", "2024-12-31", None).unwrap_err(),
        "Sage 1000 table TROLETIERS was not detected"
    );
    let plan = sage1000_auxiliary_plan(&Some(context(true, true, true)), TiersKind::Suppliers, "2024-01-01", "2024-12-31", Some(" 401 ")).unwrap();
    let direct = sage1000_auxiliary_query(&context(true, true, true), TiersKind::Suppliers, "2024-01-01", "2024-12-31", Some(" 401 "));
    assert_eq!(plan, direct);
}
