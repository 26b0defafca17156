use sage_data_bridge::bridge::{
    adapter_for, amount_text, batch_totals, group_by_account, invoice_lines_from_schema,
    looks_like_revenue_account, non_empty_or, payment_lines_from_schema, prefix,
    push_schema_posting_line, sql_number, tax_code_for_rate, validate_canonical_batch, AdapterKind,
    BridgeDocumentSummary, PostingBatch, PostingLine, ResolvedDocumentContext,
    ResolvedDocumentLine, SchemaLine,
};

fn line(account: &str, debit: i64, credit: i64) -> PostingLine {
    PostingLine {
        line_no: 0,
        role: String::new(),
        general_account: account.into(),
        auxiliary_account: String::new(),
        label: String::new(),
        debit,
        credit,
    }
}

fn batch(journal: &str, piece: &str, debit: i64, credit: i64, lines: Vec<PostingLine>) -> PostingBatch {
    PostingBatch {
        id: String::new(),
        source_kind: String::new(),
        source_id: String::new(),
        journal_code: journal.into(),
        piece_number: piece.into(),
        posting_date: String::new(),
        status: String::new(),
        total_debit: debit,
        total_credit: credit,
        lines,
    }
}

#[test]
fn schema_posting_lines_are_balanced() {
    let mut lines = Vec::new();
    push_schema_posting_line(&mut lines, "customer", "debit", "411000".into(), "C0001".into(), "Facture FAC-2026-000001".into(), 118000).unwrap();
    push_schema_posting_line(&mut lines, "sales", "credit", "701000".into(), String::new(), "Facture FAC-2026-000001".into(), 100000).unwrap();
    push_schema_posting_line(&mut lines, "tax", "credit", "443000".into(), String::new(), "Facture FAC-2026-000001".into(), 18000).unwrap();
    let debit: i64 = lines.iter().map(|line| line.debit).sum();
    let credit: i64 = lines.iter().map(|line| line.credit).sum();
    assert_eq!(lines.len(), 3);
    assert_eq!(lines[0].general_account, "411000");
    assert_eq!(debit, 118000);
    assert_eq!(credit, 118000);
}

#[test]
fn document_number_prefixes_are_distinct() {
    assert_eq!(prefix("Devis"), "DEV");
    assert_eq!(prefix("Facture"), "FAC");
    assert_eq!(prefix("Avoir"), "AVO");
}

#[test]
fn bridge_tax_codes_use_french_ohada_prefix() {
    assert_eq!(tax_code_for_rate(1800), "TVA18");
    assert_eq!(tax_code_for_rate(1850), "TVA18_50");
}

#[test]
fn sage_adapters_keep_delivery_disabled() {
    let b = batch("VT", "FAC-2026-000001", 11800, 11800, vec![line("411000", 11800, 0), line("701000", 0, 11800)]);
    let adapter = adapter_for("sage100");
    adapter.validate(&b).unwrap();
    assert_eq!(adapter.build_package(&b).delivery_enabled, Some(false));
    assert_eq!(adapter.delivery_enabled(), false);
    assert_eq!(adapter.package_format(), Some("sage100-neutral-v1"));
    let package = adapter.build_package(&b);
    assert_eq!(package.format, Some("sage100-neutral-v1"));
    assert_eq!(package.field_candidates[0], ("date", "EC_Date"));
    assert_eq!(package.field_candidates.len(), 9);
    assert_eq!(package.canonical_batch.piece_number, "FAC-2026-000001");
    let neutral = adapter_for("other").build_package(&b);
    assert_eq!((neutral.format, neutral.delivery_enabled, neutral.field_candidates.len()), (None, None, 0));
    let sage1000 = adapter_for("SAGE1000").build_package(&b);
    assert_eq!(sage1000.field_candidates[7], ("journal", "UNKNOWN"));
}

#[test]
fn zero_amounts_add_no_line_and_missing_accounts_fail() {
    let mut lines = Vec::new();
    push_schema_posting_line(&mut lines, "tax", "credit", String::new(), String::new(), "x".into(), 0).unwrap();
    assert!(lines.is_empty());
    let err = push_schema_posting_line(&mut lines, "tax", "credit", "  ".into(), String::new(), "x".into(), 5).unwrap_err();
    assert_eq!(err, "Accounting schema role 'tax' resolved no account");
    push_schema_posting_line(&mut lines, "bank", "DEBIT", "512000".into(), String::new(), "x".into(), 7).unwrap();
    assert_eq!(lines[0].line_no, 1);
    assert_eq!(lines[0].debit, 7);
    assert_eq!(lines[0].credit, 0);
}

#[test]
fn canonical_checks_in_order() {
    assert_eq!(validate_canonical_batch(&batch("VT", "P", 0, 0, vec![])).unwrap_err(), "Posting batch has no lines");
    assert_eq!(validate_canonical_batch(&batch("VT", "P", 10, 9, vec![line("411", 10, 0)])).unwrap_err(), "Posting batch is not balanced");
    assert_eq!(
        validate_canonical_batch(&batch("VT", "P", 10, 10, vec![line(" ", 10, 0)])).unwrap_err(),
        "Every posting line requires a general account"
    );
    let ok = batch("", "P", 10, 10, vec![line("411", 10, 0), line("701", 0, 10)]);
    assert!(AdapterKind::Neutral.validate(&ok).is_ok());
    assert_eq!(adapter_for(" SAGE100 ").validate(&ok).unwrap_err(), "Sage 100 packages require journal and piece numbers");
    assert!(adapter_for("sage1000").validate(&ok).is_ok());
    let no_piece = batch("VT", " ", 10, 10, vec![line("411", 10, 0)]);
    assert_eq!(adapter_for("sage1000").validate(&no_piece).unwrap_err(), "Sage 1000 packages require a piece number");
    assert_eq!(adapter_for("other").adapter_type(), "neutral");
}

#[test]
fn small_helpers() {
    assert_eq!(prefix("Commande"), "CMD");
    assert_eq!(prefix("anything"), "FAC");
    assert_eq!(tax_code_for_rate(0), "TVA0");
    assert_eq!(tax_code_for_rate(1805), "TVA18_05");
    assert_eq!(tax_code_for_rate(-250), "TVA-2_50");
    assert_eq!(non_empty_or(String::new(), "fallback".into()), "fallback");
    assert_eq!(non_empty_or("value".into(), "fallback".into()), "value");
    assert!(looks_like_revenue_account(" 701000 "));
    assert!(!looks_like_revenue_account("70100"));
    assert!(!looks_like_revenue_account("601000"));
    assert!(!looks_like_revenue_account("7010A0"));
    assert_eq!(amount_text(118000), "1180");
    assert_eq!(amount_text(11850), "118.5");
    assert_eq!(amount_text(-5), "-0.05");
    assert_eq!(sql_number(118000), "1180.00");
    assert_eq!(sql_number(-1805), "-18.05");
}

fn doc_line(account: &str, ht: i64, tax: i64) -> ResolvedDocumentLine {
    ResolvedDocumentLine {
        line_id: String::new(),
        line_no: 1,
        revenue_account: account.into(),
        tax_account: "443000".into(),
        amount_ht: ht,
        tax_amount: tax,
    }
}

fn schema_line(role: &str, side: &str, basis: &str, source: &str) -> SchemaLine {
    SchemaLine {
        posting_role: role.into(),
        debit_credit: side.into(),
        amount_basis: basis.into(),
        account_source: source.into(),
        fixed_account: "512000".into(),
        auxiliary_source: "PARTNER_CODE".into(),
    }
}

fn document(total_ttc: i64) -> BridgeDocumentSummary {
    BridgeDocumentSummary {
        id: "d1".into(),
        document_type: "Facture".into(),
        number: "FAC-1".into(),
        status: "Validated".into(),
        document_date: String::new(),
        due_date: String::new(),
        partner_code: "C0001".into(),
        partner_name: String::new(),
        currency: "XOF".into(),
        total_ht: 0,
        total_tax: 0,
        total_ttc,
        source_document_id: String::new(),
    }
}

fn context(lines: Vec<ResolvedDocumentLine>) -> ResolvedDocumentContext {
    ResolvedDocumentContext {
        schema_id: "s1".into(),
        schema_code: "VENTE".into(),
        journal_code: "VT".into(),
        partner_account: "411000".into(),
        lines,
    }
}

#[test]
fn grouping_orders_accounts_and_sums() {
    let lines = vec![doc_line("706000", 500, 90), doc_line("701000", 1000, 180), doc_line("706000", 250, 45), doc_line("707000", 0, 0)];
    let groups = group_by_account(&lines, true);
    assert_eq!(groups, vec![("701000".to_string(), 1000), ("706000".to_string(), 750)]);
    let taxes = group_by_account(&lines, false);
    assert_eq!(taxes, vec![("443000".to_string(), 315)]);
}

#[test]
fn invoice_posting_from_schema_is_balanced() {
    let lines = vec![doc_line("701000", 100000, 18000), doc_line("706000", 5000, 900)];
    let schema = vec![
        schema_line("customer", "debit", "document_total_ttc", "CUSTOMER_COLLECTIVE_ACCOUNT"),
        schema_line("sales", "credit", "line_amount_ht", "LINE"),
        schema_line("tax", "credit", "line_tax_amount", "LINE"),
    ];
    let posted = invoice_lines_from_schema(&schema, &document(123900), &context(lines)).unwrap();
    assert_eq!(posted.len(), 4);
    assert_eq!(posted[0].general_account, "411000");
    assert_eq!(posted[0].auxiliary_account, "C0001");
    assert_eq!(posted[0].label, "customer FAC-1");
    assert_eq!(posted[3].line_no, 4);
    assert_eq!(batch_totals(&posted), Ok((123900, 123900)));
}

#[test]
fn invoice_posting_errors() {
    let ctx = context(vec![doc_line("701000", 100, 18)]);
    assert_eq!(invoice_lines_from_schema(&vec![], &document(118), &ctx).unwrap_err(), "Accounting schema 'VENTE' has no active lines");
    let bad_source = vec![schema_line("customer", "debit", "document_total_ttc", "PARTNER")];
    assert_eq!(invoice_lines_from_schema(&bad_source, &document(118), &ctx).unwrap_err(), "Unsupported document account source 'PARTNER'");
    let bad_basis = vec![schema_line("x", "debit", "other", "FIXED_ACCOUNT")];
    assert_eq!(invoice_lines_from_schema(&bad_basis, &document(118), &ctx).unwrap_err(), "Unsupported invoice amount basis 'other'");
}

#[test]
fn payment_posting_from_schema() {
    let schema = vec![
        schema_line("bank", "debit", "payment_amount", "PAYMENT_METHOD_ACCOUNT"),
        schema_line("customer", "credit", "payment_amount", "CUSTOMER_COLLECTIVE_ACCOUNT"),
    ];
    let posted = payment_lines_from_schema(&schema, &document(0), "411000", "521000", 5000).unwrap();
    assert_eq!(posted.len(), 2);
    assert_eq!(posted[0].general_account, "521000");
    assert_eq!(posted[0].label, "Paiement FAC-1");
    assert_eq!(posted[1].general_account, "411000");
    assert_eq!(batch_totals(&posted), Ok((5000, 5000)));
    assert_eq!(payment_lines_from_schema(&vec![], &document(0), "411", "521", 1).unwrap_err(), "Payment accounting schema has no active lines");
    let bad = vec![schema_line("bank", "debit", "document_total_ttc", "PAYMENT_METHOD_ACCOUNT")];
    assert_eq!(payment_lines_from_schema(&bad, &document(0), "411", "521", 1).unwrap_err(), "Unsupported payment amount basis 'document_total_ttc'");
}

#[test]
fn unbalanced_batches_are_refused_with_amounts() {
    let lines = vec![line("411000", 11850, 0), line("701000", 0, 11800)];
    assert_eq!(batch_totals(&lines).unwrap_err(), "Posting batch is not balanced: debit=118.5 credit=118");
    assert_eq!(batch_totals(&vec![]).unwrap_err(), "Posting batch is not balanced: debit=0 credit=0");
}
