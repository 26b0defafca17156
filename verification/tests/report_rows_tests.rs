use std::str::FromStr;

use rust_decimal::Decimal;
use sage_data_bridge::cells::{column_index_map, value_as_decimal, CellValue};
use sage_data_bridge::decimal::{Amount, RunningBalances};
use sage_data_bridge::rows::{
    auxiliaire_stream_row, balance_rows, dashboard_kpis, exploitation_row, tiers_row,
};

fn decimal(a: &Amount) -> Decimal {
    Decimal::deserialize(a.bytes)
}

fn dec(text: &str) -> Decimal {
    Decimal::from_str(text).unwrap()
}

fn names(cols: &[&str]) -> Vec<String> {
    cols.iter().map(|c| c.to_string()).collect()
}

#[test]
fn cells_read_as_decimals() {
    assert_eq!(decimal(&value_as_decimal(Some(&CellValue::Number("12.5".into())))), dec("12.5"));
    assert_eq!(decimal(&value_as_decimal(Some(&CellValue::Text(" 3.25 ".into())))), dec("3.25"));
    assert_eq!(decimal(&value_as_decimal(Some(&CellValue::Text("abc".into())))), Decimal::ZERO);
    assert_eq!(decimal(&value_as_decimal(Some(&CellValue::Bool(true)))), Decimal::ONE);
    assert_eq!(decimal(&value_as_decimal(Some(&CellValue::Null))), Decimal::ZERO);
    assert_eq!(decimal(&value_as_decimal(None)), Decimal::ZERO);
}

#[test]
fn balance_rows_read_every_column() {
    let idx = column_index_map(&names(&[
        "ACCOUNT_NO", "account_label", "ouverture_debit", "ouverture_credit", "mvt_debit", "mvt_credit",
        "cloture_debit", "cloture_credit",
    ]));
    let rows = vec![vec![
        CellValue::Text("601000".into()),
        CellValue::Null,
        CellValue::Number("1".into()),
        CellValue::Number("2".into()),
        CellValue::Number("3".into()),
        CellValue::Number("4".into()),
        CellValue::Number("5".into()),
        CellValue::Text("x".into()),
    ]];
    let out = balance_rows(&rows, &idx);
    assert_eq!(out.len(), 1);
    assert_eq!(out[0].account_no, "601000");
    assert_eq!(out[0].account_label, "");
    assert_eq!(decimal(&out[0].mvt_credit), dec("4"));
    assert_eq!(decimal(&out[0].cloture_credit), Decimal::ZERO);
}

#[test]
fn streamed_auxiliary_rows_run_a_balance_per_third_party() {
    let idx = column_index_map(&names(&["tiers_code", "debit", "credit", "account_no"]));
    let mut balances = RunningBalances::new();
    let a = auxiliaire_stream_row(
        &[CellValue::Text("C1".into()), CellValue::Number("50".into()), CellValue::Number("0".into()), CellValue::Text("411".into())],
        &idx,
        &mut balances,
    )
    .unwrap();
    let b = auxiliaire_stream_row(
        &[CellValue::Text("C2".into()), CellValue::Number("5".into()), CellValue::Number("0".into()), CellValue::Text("411".into())],
        &idx,
        &mut balances,
    )
    .unwrap();
    let c = auxiliaire_stream_row(
        &[CellValue::Text("C1".into()), CellValue::Number("0".into()), CellValue::Number("20".into()), CellValue::Text("411".into())],
        &idx,
        &mut balances,
    )
    .unwrap();
    assert_eq!(decimal(&a.running_balance), dec("50"));
    assert_eq!(decimal(&b.running_balance), dec("5"));
    assert_eq!(decimal(&c.running_balance), dec("30"));
    assert!(!c.is_total_row);
    assert_eq!(c.tiers_name, "");
    assert_eq!(c.date, None);
}

#[test]
fn dashboard_kpis_are_zero_without_a_summary_row() {
    let summary_idx = column_index_map(&names(&["total_ventes", "nb_ecritures"]));
    let top_idx = column_index_map(&names(&["account", "label", "amount"]));
    let evo_idx = column_index_map(&names(&["month", "ventes", "achats"]));
    let top = vec![vec![
        CellValue::Text("706".into()),
        CellValue::Text("Prestations".into()),
        CellValue::Number("900".into()),
    ]];
    let kpis = dashboard_kpis(&vec![], &summary_idx, &top, &top_idx, &vec![], &top_idx, &vec![], &evo_idx);
    assert_eq!(decimal(&kpis.total_ventes), Decimal::ZERO);
    assert_eq!(kpis.nb_ecritures, 0);
    assert_eq!(kpis.top_charges.len(), 1);
    assert_eq!(kpis.top_charges[0].label, "Prestations");
    assert_eq!(decimal(&kpis.top_charges[0].amount), dec("900"));
    assert!(kpis.top_produits.is_empty());

    let summary = vec![vec![CellValue::Number("1500.75".into()), CellValue::Number("42".into())]];
    let kpis = dashboard_kpis(&summary, &summary_idx, &vec![], &top_idx, &vec![], &top_idx, &vec![], &evo_idx);
    assert_eq!(decimal(&kpis.total_ventes), dec("1500.75"));
    assert_eq!(decimal(&kpis.total_achats), Decimal::ZERO);
    assert_eq!(kpis.nb_ecritures, 42);
}

#[test]
fn tiers_rows_default_their_type_and_keep_missing_amounts_absent() {
    let idx = column_index_map(&names(&["code", "name", "tiers_type", "debit", "balance"]));
    let t = tiers_row(
        &[
            CellValue::Text("F001".into()),
            CellValue::Text("ACME".into()),
            CellValue::Text("   ".into()),
            CellValue::Null,
            CellValue::Number("-12.40".into()),
        ],
        &idx,
    );
    assert_eq!(t.tiers_type, "unknown");
    assert!(t.debit.is_none());
    assert!(t.credit.is_none());
    assert_eq!(decimal(t.balance.as_ref().unwrap()), dec("-12.40"));
    assert_eq!(t.account_no, None);
}

#[test]
fn exploitation_rows_hold_the_month_between_one_and_twelve() {
    let idx = column_index_map(&names(&["account_no", "month", "debit"]));
    let low = exploitation_row(&[CellValue::Text("601".into()), CellValue::Number("0".into()), CellValue::Number("1".into())], &idx);
    let high = exploitation_row(&[CellValue::Text("601".into()), CellValue::Number("14".into()), CellValue::Number("1".into())], &idx);
    let mid = exploitation_row(&[CellValue::Text("601".into()), CellValue::Text("7".into()), CellValue::Number("1".into())], &idx);
    assert_eq!(low.month, 1);
    assert_eq!(high.month, 12);
    assert_eq!(mid.month, 7);
    assert_eq!(decimal(&mid.credit), Decimal::ZERO);
}
