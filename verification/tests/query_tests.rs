use sage_data_bridge::ledger_sql::{
    account_filter_expr, kpi_prefix_filter, kpi_summary_query, month_of, parse_tiers_kind, TiersKind,
};
use sage_data_bridge::streaming::{
    auxiliary_page_query, count_query, ledger_page_query, stream_fetch_size, stream_next_offset,
    STREAM_CHUNK_SIZE,
};

#[test]
fn account_prefix_filter_is_trimmed_and_quoted() {
    assert_eq!(account_filter_expr("a.no", Some(" 41 ")), " AND a.no LIKE '41%'");
    assert_eq!(account_filter_expr("a.no", Some("4'1")), " AND a.no LIKE '4''1%'");
    assert_eq!(account_filter_expr("a.no", Some("   ")), "");
    assert_eq!(account_filter_expr("a.no", None), "");
}

#[test]
fn dashboard_prefix_filter_matches_account_numbers() {
    assert_eq!(kpi_prefix_filter(Some("6")), " AND account_no LIKE '6%'");
    assert_eq!(kpi_prefix_filter(Some("")), "");
    let sql = kpi_summary_query("WITH base AS (SELECT 1)", "2025-01-01", "2025-12-31", Some("51"));
    assert!(sql.contains("WITH base AS (SELECT 1)"));
    assert!(sql.contains("BETWEEN '2025-01-01' AND '2025-12-31'"));
    assert!(sql.contains(" AND account_no LIKE '51%'"));
}

#[test]
fn third_party_kinds_are_named_in_any_case() {
    assert_eq!(parse_tiers_kind(" Clients ").unwrap(), TiersKind::Customers);
    assert_eq!(parse_tiers_kind("FOURNISSEURS").unwrap(), TiersKind::Suppliers);
    assert_eq!(
        parse_tiers_kind("salaries").unwrap_err(),
        "tiers_type must be 'fournisseurs' or 'clients'"
    );
}

#[test]
fn months_are_held_between_one_and_twelve() {
    assert_eq!(month_of(-3), 1);
    assert_eq!(month_of(0), 1);
    assert_eq!(month_of(5), 5);
    assert_eq!(month_of(13), 12);
}

#[test]
fn stream_pages_stop_at_the_preview_limit() {
    assert_eq!(stream_fetch_size(0, None), Some(STREAM_CHUNK_SIZE));
    assert_eq!(stream_fetch_size(0, Some(0)), Some(STREAM_CHUNK_SIZE));
    assert_eq!(stream_fetch_size(0, Some(500)), Some(500));
    assert_eq!(stream_fetch_size(2000, Some(2500)), Some(500));
    assert_eq!(stream_fetch_size(2500, Some(2500)), None);
    assert_eq!(stream_next_offset(0, 2000, 2000), Some(2000));
    assert_eq!(stream_next_offset(2000, 10, 2000), None);
}

#[test]
fn stream_queries_page_the_base_expression() {
    assert_eq!(
        count_query("WITH base AS (X)"),
        "WITH base AS (X) SELECT COUNT(*) AS total FROM base WHERE parsed_date IS NOT NULL"
    );
    let page = ledger_page_query("WITH base AS (X)", "account_no, parsed_date", 4000, 2000);
    assert!(page.ends_with("ORDER BY account_no, parsed_date\nOFFSET 4000 ROWS FETCH NEXT 2000 ROWS ONLY"));
    assert!(page.contains("AS [date], journal, account_no"));
    let aux = auxiliary_page_query("WITH base AS (X)", "tiers_code", 0, 15);
    assert!(aux.contains("tiers_code, tiers_name"));
    assert!(aux.ends_with("OFFSET 0 ROWS FETCH NEXT 15 ROWS ONLY"));
}
