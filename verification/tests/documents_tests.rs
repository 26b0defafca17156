use sage_data_bridge::bridge::{BridgeDocumentSummary, ProductAccountingProfile, ResolvedDocumentLine};
use sage_data_bridge::documents::{
    accounting_configuration, accounting_preview, check_accounting_configuration,
    check_invoice_posting, check_management_record, check_outstanding, check_payment_amount,
    check_payment_snapshot, check_payment_target, check_product_profile, check_resolved_lines,
    deactivation_target, default_schema_lines, document_currency, document_type_of,
    invoice_schema, merge_journals, partner_account_of, payment_currency, payment_method_code,
    payment_piece_number, posting_marks_posted, preview_line, profile_active,
    saved_product_profile, sequence_key, supplied_or, tax_code_to_look_up, validation_actor,
    AccountingConfiguration, CatalogItem, ConfiguredProduct, PaymentInput, PreviewLineInput,
    StoredProductAccounts,
};

fn document(document_type: &str, status: &str) -> BridgeDocumentSummary {
    BridgeDocumentSummary {
        id: "doc-1".into(),
        document_type: document_type.into(),
        number: "FAC-2024-000007".into(),
        status: status.into(),
        document_date: "2024-03-01".into(),
        due_date: String::new(),
        partner_code: "C001".into(),
        partner_name: "Client".into(),
        currency: "XOF".into(),
        total_ht: 100_000,
        total_tax: 18_000,
        total_ttc: 118_000,
        source_document_id: String::new(),
    }
}

fn payment(amount: i64) -> PaymentInput {
    PaymentInput {
        invoice_id: "doc-1".into(),
        payment_date: "2024-03-10".into(),
        amount,
        currency: String::new(),
        payment_method_code: "  ".into(),
        reference: String::new(),
        journal_code: String::new(),
        debit_account: String::new(),
    }
}

#[test]
fn new_documents_default_to_quotes_in_cfa_francs() {
    assert_eq!(document_type_of("  "), "Devis");
    assert_eq!(document_type_of(" Facture "), "Facture");
    assert_eq!(document_currency(""), "XOF");
    assert_eq!(document_currency(" EUR"), " EUR");
}

#[test]
fn sequence_keys_use_the_year_of_the_date() {
    assert_eq!(sequence_key("Facture", "2024-05-17"), "Facture:2024");
    assert_eq!(sequence_key("Devis", "24"), "Devis:0000");
    assert_eq!(sequence_key("Devis", ""), "Devis:0000");
    // The fourth byte falls inside a two-byte character.
    assert_eq!(sequence_key("Devis", "202é"), "Devis:0000");
    assert_eq!(sequence_key("Devis", "20é4"), "Devis:20é");
    assert_eq!(sequence_key("Devis", "2é4x"), "Devis:2é4");
}

#[test]
fn only_validated_invoices_are_posted() {
    assert!(check_invoice_posting(&document("Facture", "Validated")).is_ok());
    assert!(check_invoice_posting(&document("Facture", "Posted")).is_ok());
    assert_eq!(
        check_invoice_posting(&document("Facture", "Draft")).unwrap_err(),
        "Only a validated Facture can generate an invoice posting"
    );
    assert!(check_invoice_posting(&document("Devis", "Validated")).is_err());
    assert!(posting_marks_posted(&document("Facture", "Validated")));
    assert!(!posting_marks_posted(&document("Facture", "Posted")));
    assert_eq!(validation_actor(None), "SDB");
    assert_eq!(validation_actor(Some("alice".into())), "alice");
}

#[test]
fn payments_are_checked_against_the_invoice() {
    assert_eq!(
        check_payment_amount(&payment(0)).unwrap_err(),
        "Payment amount must be greater than zero"
    );
    assert!(check_payment_amount(&payment(1)).is_ok());
    assert_eq!(
        check_payment_target(&document("Devis", "Validated")).unwrap_err(),
        "Payments can only be registered against validated invoices"
    );
    assert!(check_payment_target(&document("Facture", "Posted")).is_ok());
    assert!(check_outstanding(118_000, 100_000, 18_000).is_ok());
    assert_eq!(
        check_outstanding(118_000, 100_000, 18_001).unwrap_err(),
        "Payment exceeds outstanding balance of 180.00"
    );
    assert_eq!(
        check_outstanding(118_000, 120_050, 1).unwrap_err(),
        "Payment exceeds outstanding balance of -20.50"
    );
}

#[test]
fn payments_fall_back_on_their_method_and_invoice() {
    let p = payment(500);
    assert_eq!(payment_method_code(&p), "bank");
    let mut q = payment(500);
    q.payment_method_code = " cash ".into();
    q.currency = "EUR".into();
    assert_eq!(payment_method_code(&q), "cash");
    assert_eq!(supplied_or("  ", "BQ".to_string()), "BQ");
    assert_eq!(supplied_or(" CA ", "BQ".to_string()), "CA");
    assert_eq!(payment_currency(&p, &document("Facture", "Posted")), "XOF");
    assert_eq!(payment_currency(&q, &document("Facture", "Posted")), "EUR");
    assert_eq!(
        payment_piece_number(" ".into(), &document("Facture", "Posted")),
        "PAY-FAC-2024-000007"
    );
    assert_eq!(payment_piece_number("VIR-1".into(), &document("Facture", "Posted")), "VIR-1");
    assert!(check_payment_snapshot("411000", "schema-1").is_ok());
    assert_eq!(
        check_payment_snapshot("", "schema-1").unwrap_err(),
        "Payment was registered without a complete accounting snapshot"
    );
}

fn resolved(line_no: i32, revenue: &str, tax: &str, tax_amount: i64) -> ResolvedDocumentLine {
    ResolvedDocumentLine {
        line_id: format!("l{}", line_no),
        line_no,
        revenue_account: revenue.into(),
        tax_account: tax.into(),
        amount_ht: 1000,
        tax_amount,
    }
}

#[test]
fn invoice_accounts_must_be_resolved() {
    assert_eq!(
        partner_account_of(Some(String::new()), "411000".into(), "C001").unwrap(),
        "411000"
    );
    assert_eq!(
        partner_account_of(Some("411100".into()), "411000".into(), "C001").unwrap(),
        "411100"
    );
    assert_eq!(
        partner_account_of(None, " ".into(), "C001").unwrap_err(),
        "Missing collective account for customer 'C001'"
    );
    assert_eq!(invoice_schema(None).unwrap_err(), "No active accounting schema matches this invoice");
    assert_eq!(
        invoice_schema(Some(("s1".into(), "SALE".into(), " ".into()))).unwrap_err(),
        "Accounting schema 'SALE' has no journal"
    );
    assert_eq!(
        invoice_schema(Some(("s1".into(), "SALE".into(), "VE".into()))).unwrap(),
        ("s1".to_string(), "SALE".to_string(), "VE".to_string())
    );
    assert_eq!(check_resolved_lines(&vec![]).unwrap_err(), "The invoice has no lines to resolve");
    assert!(check_resolved_lines(&vec![resolved(1, "701000", "", 0)]).is_ok());
    assert_eq!(
        check_resolved_lines(&vec![resolved(1, "701000", "443100", 180), resolved(2, "701000", "", 90)])
            .unwrap_err(),
        "Missing tax account for invoice line 2"
    );
    assert_eq!(
        check_resolved_lines(&vec![resolved(3, "", "", 90), resolved(4, "", "", 0)]).unwrap_err(),
        "Missing revenue account for invoice line 3"
    );
}

fn preview_input(article_id: &str, code: &str, rate: i64) -> PreviewLineInput {
    PreviewLineInput {
        article_id: article_id.into(),
        article_code: code.into(),
        product_family_code: "FAM".into(),
        accounting_category_code: String::new(),
        tax_code: String::new(),
        revenue_account: String::new(),
        vat_account: "443100".into(),
        tax_rate: rate,
    }
}

fn stored() -> StoredProductAccounts {
    StoredProductAccounts {
        product_family_code: " ".into(),
        accounting_category_code: "CAT".into(),
        tax_code: "TVA18".into(),
        revenue_account: "701000".into(),
        tax_account: String::new(),
    }
}

#[test]
fn preview_lines_complete_the_stored_profile() {
    let p = preview_line(&preview_input("sage-1", "ART1", 1800), &Some(stored()));
    assert_eq!(p.product_code, "ART1");
    assert_eq!(p.product_family_code, "FAM");
    assert_eq!(p.accounting_category_code, "CAT");
    assert_eq!(p.tax_code, "TVA18");
    assert_eq!(p.revenue_account, "701000");
    assert_eq!(p.tax_account, "443100");
    assert!(p.ready);
    let q = preview_line(&preview_input("sage-1", "ART2", 0), &None);
    assert!(!q.ready);
}

#[test]
fn preview_lists_every_issue_in_order() {
    let lines = vec![
        (preview_input("sdb-9", "ART9", 1800), None),
        (preview_input("sage-1", "ART1", 1800), Some(stored())),
    ];
    let r = accounting_preview(None, None, "C001", &lines);
    assert_eq!(r.schema_code, "SALE_STANDARD");
    assert_eq!(
        r.issues,
        vec![
            "Aucun profil comptable pour le client C001".to_string(),
            "L’article ART9 est en attente de synchronisation Sage".to_string(),
            "Configuration comptable incomplète pour l’article ART9".to_string(),
            "Journal de vente introuvable".to_string(),
            "Compte collectif client introuvable".to_string(),
        ]
    );
    assert!(!r.ready);
    assert_eq!(r.lines.len(), 2);
    let ok = accounting_preview(
        Some("VE".into()),
        Some("411000".into()),
        "C001",
        &vec![(preview_input("local-item-1", "701100", 1800), Some(stored()))],
    );
    assert!(ok.issues.is_empty());
    assert!(ok.ready);
    assert_eq!(ok.journal_code, "VE");
    assert_eq!(ok.customer_account, "411000");
    let empty = accounting_preview(Some("VE".into()), Some("411000".into()), "C001", &vec![]);
    assert!(!empty.ready);
}

fn configuration() -> AccountingConfiguration {
    AccountingConfiguration {
        partner_code: "C001".into(),
        partner_account: "411000".into(),
        product_code: "ART1".into(),
        product_family_code: "FAM".into(),
        accounting_category_code: "CAT".into(),
        revenue_account: "701000".into(),
        expense_account: String::new(),
        tax_rate: 1800,
        tax_account: "443100".into(),
        payment_method_code: "bank".into(),
        payment_journal_code: "BQ".into(),
        payment_debit_account: "521000".into(),
    }
}

#[test]
fn configuration_requires_every_account() {
    assert!(check_accounting_configuration(&configuration()).is_ok());
    let mut c = configuration();
    c.revenue_account = " ".into();
    c.payment_journal_code = String::new();
    assert_eq!(
        check_accounting_configuration(&c).unwrap_err(),
        "Accounting configuration requires revenue account"
    );
    let mut d = configuration();
    d.partner_code = String::new();
    assert_eq!(
        check_accounting_configuration(&d).unwrap_err(),
        "Accounting configuration requires customer code"
    );
}

#[test]
fn configuration_starts_from_the_defaults() {
    let c = accounting_configuration(
        "411000".into(),
        "701000".into(),
        "443100".into(),
        None,
        None,
        None,
        None,
    );
    assert_eq!(c.partner_account, "411000");
    assert_eq!(c.revenue_account, "701000");
    assert_eq!(c.tax_rate, 1800);
    assert_eq!(c.tax_account, "443100");
    assert_eq!(c.payment_method_code, "bank");
    assert_eq!(c.payment_journal_code, "BQ");
    assert_eq!(c.payment_debit_account, "521000");
    assert_eq!(c.partner_code, "");
}

#[test]
fn configuration_takes_the_stored_profiles() {
    let product = ConfiguredProduct {
        product_code: "ART1".into(),
        product_family_code: "FAM".into(),
        accounting_category_code: "CAT".into(),
        revenue_account: String::new(),
        expense_account: "601000".into(),
        tax_code: "TVA10".into(),
    };
    assert_eq!(tax_code_to_look_up(&Some(product)).unwrap(), "TVA10");
    let product = ConfiguredProduct {
        product_code: "ART1".into(),
        product_family_code: "FAM".into(),
        accounting_category_code: "CAT".into(),
        revenue_account: String::new(),
        expense_account: "601000".into(),
        tax_code: "TVA10".into(),
    };
    let c = accounting_configuration(
        "411000".into(),
        "701000".into(),
        "443100".into(),
        Some(("C9".into(), "411900".into())),
        Some(product),
        Some((1000, "443110".into())),
        Some(("cash".into(), "CA".into(), "571000".into())),
    );
    assert_eq!(c.partner_code, "C9");
    assert_eq!(c.partner_account, "411900");
    assert_eq!(c.product_code, "ART1");
    assert_eq!(c.revenue_account, "701000");
    assert_eq!(c.expense_account, "601000");
    assert_eq!(c.tax_rate, 1000);
    assert_eq!(c.tax_account, "443110");
    assert_eq!(c.payment_method_code, "cash");
    assert_eq!(c.payment_journal_code, "CA");
    assert_eq!(c.payment_debit_account, "571000");
    assert!(tax_code_to_look_up(&None).is_none());
}

#[test]
fn product_profiles_need_their_codes() {
    let profile = ProductAccountingProfile {
        product_code: "ART1".into(),
        product_family_code: "FAM".into(),
        accounting_category_code: " ".into(),
        tax_code: "TVA18".into(),
        revenue_account: String::new(),
        active: false,
    };
    assert_eq!(
        check_product_profile(&profile).unwrap_err(),
        "Article, famille, catégorie comptable et code taxe sont obligatoires"
    );
    let mut good = profile;
    good.accounting_category_code = "CAT".into();
    assert!(check_product_profile(&good).is_ok());
    let saved = saved_product_profile(good);
    assert!(saved.active);
    assert_eq!(saved.accounting_category_code, "CAT");
    assert!(profile_active("1"));
    assert!(!profile_active("0"));
}

#[test]
fn management_entities_are_known() {
    assert_eq!(deactivation_target("partner_profile").unwrap(), ("partner_accounting_profile", "partner_code"));
    assert_eq!(deactivation_target("accounting_schema").unwrap(), ("accounting_schema", "id"));
    assert_eq!(
        deactivation_target("document_journal_mapping").unwrap_err(),
        "Unsupported bridge management entity 'document_journal_mapping'"
    );
    assert!(check_management_record("document_journal_mapping", "").is_ok());
    assert_eq!(check_management_record("accounting_category", "").unwrap_err(), "Category code is required");
    assert_eq!(check_management_record("product_family", "").unwrap_err(), "Family code is required");
    assert!(check_management_record("product_family", "F1").is_ok());
    assert_eq!(
        check_management_record("product_profile", "P1").unwrap_err(),
        "Unsupported bridge management entity 'product_profile'"
    );
}

#[test]
fn new_schemas_start_balanced() {
    let payment_lines = default_schema_lines("payment_receipt");
    assert_eq!(payment_lines.len(), 2);
    assert_eq!(payment_lines[0].posting_role, "bank");
    assert_eq!(payment_lines[1].account_source, "CUSTOMER_COLLECTIVE_ACCOUNT");
    let sale_lines = default_schema_lines("invoice_sale");
    assert_eq!(sale_lines.len(), 3);
    assert_eq!(sale_lines[0].debit_credit, "debit");
    assert_eq!(sale_lines[1].amount_basis, "line_amount_ht");
    assert_eq!(sale_lines[2].account_source, "RESOLVED_TAX_ACCOUNT");
    assert_eq!(sale_lines[2].grouping_rule, "account");
}

fn journal(code: &str, source: &str) -> CatalogItem {
    CatalogItem {
        id: code.into(),
        code: code.into(),
        name: code.into(),
        item_type: "journal".into(),
        source: source.into(),
        active: true,
        parent_code: String::new(),
        account_code: String::new(),
        rate: 0,
    }
}

#[test]
fn bridge_journals_complete_the_native_ones() {
    let mut journals = vec![journal("VE", "sage100"), journal("BQ", "sage100")];
    merge_journals(
        &mut journals,
        vec![journal("BQ", "bridge"), journal("CA", "bridge"), journal("CA", "bridge")],
    );
    let codes: Vec<&str> = journals.iter().map(|j| j.code.as_str()).collect();
    assert_eq!(codes, vec!["VE", "BQ", "CA"]);
    assert_eq!(journals[1].source, "sage100");
    assert_eq!(journals[2].source, "bridge");
}
