use std::str::FromStr;

use rust_decimal::Decimal;
use sage_data_bridge::cells::{column_index_map, CellValue};
use sage_data_bridge::decimal::{Amount, RunningBalances};
use sage_data_bridge::ledger_xlsx::{
    ledger_entry_from_row, page_ledger_rows, report_ledger_row, GrandLivreRow, GrandLivreXlsxWriter,
};

fn amount(text: &str) -> Amount {
    Amount { bytes: Decimal::from_str(text).unwrap().serialize() }
}

fn decimal(a: &Amount) -> Decimal {
    Decimal::deserialize(a.bytes)
}

fn entry(account: &str, label: &str, date: &str, debit: &str, credit: &str, balance: &str) -> GrandLivreRow {
    GrandLivreRow {
        row_type: "entry".to_string(),
        date: Some(date.to_string()),
        journal: Some("VT".to_string()),
        account_no: account.to_string(),
        account_label: label.to_string(),
        ref_piece: Some("F-1".to_string()),
        lettrage: None,
        debit: amount(debit),
        credit: amount(credit),
        solde_cumule: amount(balance),
        total_debit: None,
        total_credit: None,
        solde: None,
    }
}

fn text_of(bytes: &[u8]) -> String {
    String::from_utf8_lossy(bytes).to_string()
}

fn written_workbook(rows: &[GrandLivreRow]) -> (u32, String) {
    let mut writer = GrandLivreXlsxWriter::new().unwrap();
    let mut out = Vec::new();
    for row in rows {
        writer.write_entry(row).unwrap();
        out.extend(writer.flush().unwrap());
    }
    let (sheets, rest) = writer.finish().unwrap();
    out.extend(rest);
    (sheets, text_of(&out))
}

#[test]
fn ledger_workbook_groups_entries_under_account_headers_and_totals() {
    let rows = vec![
        entry("401000", "Fournisseurs", "01/01/2025", "10.00", "0.00", "10.00"),
        entry("401000", "Fournisseurs", "02/01/2025", "20.00", "5.00", "25.00"),
        entry("411000", "Clients", "03/01/2025", "0.00", "7.50", "-7.50"),
    ];
    let (sheets, text) = written_workbook(&rows);
    assert_eq!(sheets, 1);
    assert!(text.contains("<c r=\"A1\" t=\"inlineStr\"><is><t>Date</t></is></c>"));
    assert!(text.contains("<c r=\"I1\" t=\"inlineStr\"><is><t>Solde cumule</t></is></c>"));
    assert!(text.contains("<c r=\"A2\" t=\"inlineStr\"><is><t>401000 - Fournisseurs</t></is></c>"));
    assert!(text.contains("<c r=\"A3\" t=\"inlineStr\"><is><t>01/01/2025</t></is></c>"));
    assert!(text.contains("<c r=\"G4\"><v>20.00</v></c>"));
    assert!(text.contains("<c r=\"A5\" t=\"inlineStr\"><is><t>Total</t></is></c>"));
    assert!(text.contains("<c r=\"G5\"><v>30.00</v></c>"));
    assert!(text.contains("<c r=\"H5\"><v>5.00</v></c>"));
    assert!(text.contains("<c r=\"I5\"><v>25.00</v></c>"));
    assert!(text.contains("<c r=\"A6\" t=\"inlineStr\"><is><t>411000 - Clients</t></is></c>"));
    assert!(text.contains("<c r=\"H8\"><v>7.50</v></c>"));
    assert!(text.contains("<c r=\"I8\"><v>-7.50</v></c>"));
    assert!(text.contains("<sheet name=\"Grand Livre\" sheetId=\"1\" r:id=\"rId1\"/>"));
}

#[test]
fn ledger_workbook_without_entries_has_only_the_header_row() {
    let (sheets, text) = written_workbook(&[]);
    assert_eq!(sheets, 1);
    assert!(text.contains("<row r=\"1\">"));
    assert!(!text.contains("<row r=\"2\">"));
    assert!(text.contains("xl/worksheets/sheet1.xml"));
    assert!(text.contains("[Content_Types].xml"));
}

#[test]
fn ledger_workbook_is_a_zip_archive() {
    let (_, text) = written_workbook(&[entry("512", "Banque", "05/02/2025", "1", "0", "1")]);
    assert!(text.starts_with("PK\u{3}\u{4}"));
    assert!(text.contains("PK\u{5}\u{6}"));
}

#[test]
fn running_balances_follow_each_account() {
    let mut balances = RunningBalances::new();
    let first = balances.advance("401", &amount("100.00"), &amount("30.00")).unwrap();
    assert_eq!(decimal(&first), Decimal::from_str("70.00").unwrap());
    let other = balances.advance("411", &amount("5"), &amount("0")).unwrap();
    assert_eq!(decimal(&other), Decimal::from_str("5").unwrap());
    let second = balances.advance("401", &amount("0.00"), &amount("20.00")).unwrap();
    assert_eq!(decimal(&second), Decimal::from_str("50.00").unwrap());
}

#[test]
fn running_balance_overflow_is_an_error() {
    let mut balances = RunningBalances::new();
    let max = Amount { bytes: Decimal::MAX.serialize() };
    let min = Amount { bytes: Decimal::MIN.serialize() };
    balances.advance("401", &max, &amount("0")).unwrap();
    assert_eq!(balances.advance("401", &max, &amount("0")).unwrap_err(), "Addition overflowed");
    assert_eq!(balances.advance("512", &max, &min).unwrap_err(), "Subtraction overflowed");
}

fn ledger_columns() -> Vec<String> {
    ["date", "journal", "account_no", "account_label", "ref_piece", "lettrage", "debit", "credit"]
        .iter()
        .map(|c| c.to_string())
        .collect()
}

#[test]
fn ledger_entry_from_row_carries_the_running_balance() {
    let idx = column_index_map(&ledger_columns());
    let mut balances = RunningBalances::new();
    let row1 = vec![
        CellValue::Text("01/01/2025".into()),
        CellValue::Text("VT".into()),
        CellValue::Text("411000".into()),
        CellValue::Text("Clients".into()),
        CellValue::Text("F-1".into()),
        CellValue::Null,
        CellValue::Number("120.5".into()),
        CellValue::Number("0".into()),
    ];
    let e1 = ledger_entry_from_row(&row1, &idx, &mut balances).unwrap();
    assert_eq!(e1.row_type, "entry");
    assert_eq!(e1.account_no, "411000");
    assert_eq!(e1.lettrage, None);
    assert_eq!(decimal(&e1.solde_cumule), Decimal::from_str("120.5").unwrap());
    let mut row2 = row1.clone();
    row2[6] = CellValue::Number("0".into());
    row2[7] = CellValue::Text(" 20.5 ".into());
    let e2 = ledger_entry_from_row(&row2, &idx, &mut balances).unwrap();
    assert_eq!(decimal(&e2.credit), Decimal::from_str("20.5").unwrap());
    assert_eq!(decimal(&e2.solde_cumule), Decimal::from_str("100.0").unwrap());
    assert!(e2.total_debit.is_none() && e2.solde.is_none());
}

#[test]
fn report_ledger_rows_mark_subtotals_and_drop_zero_totals_of_entries() {
    let mut columns = ledger_columns();
    columns.extend(["solde_cumule", "is_subtotal_row", "total_debit", "total_credit", "solde"].iter().map(|c| c.to_string()));
    let idx = column_index_map(&columns);
    let entry_row = vec![
        CellValue::Text("01/01/2025".into()),
        CellValue::Text("VT".into()),
        CellValue::Text("401".into()),
        CellValue::Text("Fournisseurs".into()),
        CellValue::Null,
        CellValue::Null,
        CellValue::Number("10".into()),
        CellValue::Number("0".into()),
        CellValue::Number("10".into()),
        CellValue::Bool(false),
        CellValue::Number("0.00".into()),
        CellValue::Number("3".into()),
        CellValue::Null,
    ];
    let e = report_ledger_row(&entry_row, &idx);
    assert_eq!(e.row_type, "entry");
    assert!(e.total_debit.is_none());
    assert_eq!(decimal(e.total_credit.as_ref().unwrap()), Decimal::from_str("3").unwrap());
    assert!(e.solde.is_none());

    let mut subtotal_row = entry_row.clone();
    subtotal_row[9] = CellValue::Number("1".into());
    let s = report_ledger_row(&subtotal_row, &idx);
    assert_eq!(s.row_type, "subtotal");
    assert_eq!(decimal(s.total_debit.as_ref().unwrap()), Decimal::ZERO);
    assert_eq!(decimal(s.solde.as_ref().unwrap()), Decimal::ZERO);

    let page = page_ledger_rows(&vec![entry_row.clone()], &idx);
    assert_eq!(page.len(), 1);
    assert!(page[0].total_credit.is_none());
    assert_eq!(decimal(&page[0].solde_cumule), Decimal::from_str("10").unwrap());
}
