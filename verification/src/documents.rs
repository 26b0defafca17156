//! The decisions of the commercial document workflow: how a document is
//! typed and numbered, when it may be posted, when a payment is accepted
//! and how it is booked. Amounts are in cents.
use vstd::prelude::*;
use crate::bridge::{
    amount_two_decimals, looks_like_revenue_account, revenue_account_like, sql_number, AccountingPreviewLine,
    AccountingReadiness, BridgeDocumentSummary, ProductAccountingProfile, ResolvedDocumentLine,
};
use crate::streaming::{append_i64, int_text};
use crate::text::{is_blank_str, push_char, starts_with, starts_with_str, str_eq, trim, trim_str};

verus! {

// ---------------------------------------------------------------------------
// Creating a document
// ---------------------------------------------------------------------------

/// The type a new document gets: its trimmed nature, or a quote when the
/// nature is blank.
pub open spec fn document_type_text(nature: Seq<char>) -> Seq<char> {
    if trim(nature).len() == 0 {
        "Devis"@
    } else {
        trim(nature)
    }
}

pub fn document_type_of(nature: &str) -> (r: String)
    ensures
        r@ == document_type_text(nature@),
{
    let t = trim_str(nature);
    if t.as_str().is_empty() {
        proof {
            reveal_strlit("Devis");
        }
        String::from_str("Devis")
    } else {
        t
    }
}

/// The currency of a new document: as given, or the CFA franc when blank.
pub open spec fn document_currency_text(devise: Seq<char>) -> Seq<char> {
    if trim(devise).len() == 0 {
        "XOF"@
    } else {
        devise
    }
}

pub fn document_currency(devise: &str) -> (r: String)
    ensures
        r@ == document_currency_text(devise@),
{
    let t = trim_str(devise);
    if t.as_str().is_empty() {
        proof {
            reveal_strlit("XOF");
        }
        String::from_str("XOF")
    } else {
        String::from_str(devise)
    }
}

/// The number of bytes of a character in UTF-8.
pub open spec fn utf8_width(c: char) -> int {
    if (c as u32) < 0x80 {
        1
    } else if (c as u32) < 0x800 {
        2
    } else if (c as u32) < 0x10000 {
        3
    } else {
        4
    }
}

/// `str::get(0..n)`: the characters that make up exactly the first `n`
/// bytes, or nothing when byte `n` does not end a character or lies past
/// the end.
pub open spec fn byte_prefix(s: Seq<char>, n: int) -> Option<Seq<char>>
    decreases s.len(),
{
    if n == 0 {
        Some(Seq::<char>::empty())
    } else if n < 0 || s.len() == 0 {
        None
    } else {
        match byte_prefix(s.drop_first(), n - utf8_width(s[0])) {
            Some(p) => Some(seq![s[0]] + p),
            None => None,
        }
    }
}

/// The key of the numbering sequence a document draws from: its type and
/// the year its date starts with (`0000` when the date is too short).
pub open spec fn sequence_key_text(document_type: Seq<char>, date: Seq<char>) -> Seq<char> {
    document_type + seq![':'] + match byte_prefix(date, 4) {
        Some(y) => y,
        None => "0000"@,
    }
}

fn char_width(c: char) -> (w: usize)
    ensures
        w == utf8_width(c),
{
    let u = c as u32;
    if u < 0x80 {
        1
    } else if u < 0x800 {
        2
    } else if u < 0x10000 {
        3
    } else {
        4
    }
}

pub fn sequence_key(document_type: &str, date: &str) -> (r: String)
    ensures
        r@ == sequence_key_text(document_type@, date@),
{
    let v = crate::text::chars_of(date);
    let mut used: usize = 0;
    let mut fits = true;
    let mut i: usize = 0;
    assert(date@.skip(0) =~= date@);
    assert(date@.take(0) =~= Seq::<char>::empty());
    while fits && i < v.len() && used < 4
        invariant
            i <= v.len(),
            v@ == date@,
            used <= 4,
            fits ==> byte_prefix(date@, 4) == match byte_prefix(date@.skip(i as int), 4 - used) {
                Some(p) => Some(date@.take(i as int) + p),
                None => None::<Seq<char>>,
            },
            !fits ==> byte_prefix(date@, 4) is None,
        decreases v.len() - i,
    {
        let w = char_width(v[i]);
        let ghost rest = date@.skip(i as int);
        assert(rest[0] == v@[i as int]);
        assert(rest.drop_first() =~= date@.skip(i + 1));
        assert(date@.take(i as int) + seq![v@[i as int]] =~= date@.take(i + 1));
        proof {
            if 4 - used - w >= 0 {
                match byte_prefix(date@.skip(i + 1), 4 - used - w) {
                    Some(p) => {
                        assert(date@.take(i as int) + (seq![v@[i as int]] + p) =~= date@.take(i + 1) + p);
                    },
                    None => {},
                }
            }
        }
        if used + w > 4 {
            fits = false;
        } else {
            used = used + w;
        }
        i = i + 1;
    }
    let mut r = String::from_str(document_type);
    push_char(&mut r, ':');
    if fits && used == 4 {
        assert(byte_prefix(date@.skip(i as int), 0) == Some(Seq::<char>::empty()));
        assert(date@.take(i as int) + Seq::<char>::empty() =~= date@.take(i as int));
        let y = crate::text::string_from_chars(&v, 0, i);
        assert(v@.subrange(0, i as int) =~= date@.take(i as int));
        r.append(y.as_str());
    } else {
        proof {
            reveal_strlit("0000");
        }
        r.append("0000");
    }
    r
}

// ---------------------------------------------------------------------------
// Validating and posting
// ---------------------------------------------------------------------------

/// Who a validation is recorded against: the named user, or the bridge
/// itself.
pub open spec fn validation_actor_text(validated_by: Option<Seq<char>>) -> Seq<char> {
    match validated_by {
        Some(a) => a,
        None => "SDB"@,
    }
}

pub fn validation_actor(validated_by: Option<String>) -> (r: String)
    ensures
        r@ == validation_actor_text(match validated_by {
            Some(a) => Some(a@),
            None => None,
        }),
{
    match validated_by {
        Some(a) => a,
        None => {
            proof {
                reveal_strlit("SDB");
            }
            String::from_str("SDB")
        },
    }
}

/// An invoice that has been validated, and possibly posted already.
pub open spec fn is_settled_invoice(document_type: Seq<char>, status: Seq<char>) -> bool {
    document_type == "Facture"@ && (status == "Validated"@ || status == "Posted"@)
}

fn settled_invoice(document: &BridgeDocumentSummary) -> (b: bool)
    ensures
        b == is_settled_invoice(document.document_type@, document.status@),
{
    str_eq(document.document_type.as_str(), "Facture") && (str_eq(document.status.as_str(), "Validated")
        || str_eq(document.status.as_str(), "Posted"))
}

/// Only a validated invoice generates an invoice posting.
pub fn check_invoice_posting(document: &BridgeDocumentSummary) -> (r: Result<(), String>)
    ensures
        r is Ok <==> is_settled_invoice(document.document_type@, document.status@),
        r matches Err(e) ==> e@ == "Only a validated Facture can generate an invoice posting"@,
{
    if settled_invoice(document) {
        Ok(())
    } else {
        proof {
            reveal_strlit("Only a validated Facture can generate an invoice posting");
        }
        Err(String::from_str("Only a validated Facture can generate an invoice posting"))
    }
}

/// Whether generating the posting moves the invoice to `Posted` (it does
/// when the invoice was only validated).
pub fn posting_marks_posted(document: &BridgeDocumentSummary) -> (b: bool)
    ensures
        b == (document.status@ == "Validated"@),
{
    str_eq(document.status.as_str(), "Validated")
}

// ---------------------------------------------------------------------------
// Payments
// ---------------------------------------------------------------------------

/// A payment to register against an invoice, amount in cents.
pub struct PaymentInput {
    pub invoice_id: String,
    pub payment_date: String,
    pub amount: i64,
    pub currency: String,
    pub payment_method_code: String,
    pub reference: String,
    pub journal_code: String,
    pub debit_account: String,
}

/// The bound on amounts in cents that the payment checks compute with.
pub open spec fn amount_in_range(c: int) -> bool {
    -0x1000_0000_0000_0000 <= c <= 0x1000_0000_0000_0000
}

/// A payment must carry a positive amount.
pub fn check_payment_amount(payment: &PaymentInput) -> (r: Result<(), String>)
    ensures
        r is Ok <==> payment.amount > 0,
        r matches Err(e) ==> e@ == "Payment amount must be greater than zero"@,
{
    if payment.amount <= 0 {
        proof {
            reveal_strlit("Payment amount must be greater than zero");
        }
        Err(String::from_str("Payment amount must be greater than zero"))
    } else {
        Ok(())
    }
}

/// Payments go against validated invoices only.
pub fn check_payment_target(document: &BridgeDocumentSummary) -> (r: Result<(), String>)
    ensures
        r is Ok <==> is_settled_invoice(document.document_type@, document.status@),
        r matches Err(e) ==> e@ == "Payments can only be registered against validated invoices"@,
{
    if settled_invoice(document) {
        Ok(())
    } else {
        proof {
            reveal_strlit("Payments can only be registered against validated invoices");
        }
        Err(String::from_str("Payments can only be registered against validated invoices"))
    }
}

/// The refusal of a payment larger than what the invoice still owes.
pub open spec fn outstanding_error_text(total_ttc: int, already: int) -> Seq<char> {
    "Payment exceeds outstanding balance of "@ + amount_two_decimals(total_ttc - already)
}

/// What has been allocated to the invoice, with this payment, may not
/// exceed its total.
pub fn check_outstanding(total_ttc: i64, already_allocated: i64, amount: i64) -> (r: Result<(), String>)
    requires
        amount_in_range(total_ttc as int),
        amount_in_range(already_allocated as int),
        amount_in_range(amount as int),
    ensures
        r is Ok <==> already_allocated + amount <= total_ttc,
        r matches Err(e) ==> e@ == outstanding_error_text(total_ttc as int, already_allocated as int),
{
    if already_allocated + amount > total_ttc {
        let mut e = String::from_str("Payment exceeds outstanding balance of ");
        let n = sql_number(total_ttc - already_allocated);
        e.append(n.as_str());
        proof {
            reveal_strlit("Payment exceeds outstanding balance of ");
        }
        Err(e)
    } else {
        Ok(())
    }
}

/// The payment method a payment is booked with: the one given, or the bank.
pub open spec fn payment_method_text(code: Seq<char>) -> Seq<char> {
    if trim(code).len() == 0 {
        "bank"@
    } else {
        trim(code)
    }
}

pub fn payment_method_code(payment: &PaymentInput) -> (r: String)
    ensures
        r@ == payment_method_text(payment.payment_method_code@),
{
    let t = trim_str(payment.payment_method_code.as_str());
    if t.as_str().is_empty() {
        proof {
            reveal_strlit("bank");
        }
        String::from_str("bank")
    } else {
        t
    }
}

/// A value the payment supplies, trimmed, or the one its method is
/// configured with when the payment leaves it blank.
pub open spec fn supplied_or_text(supplied: Seq<char>, configured: Seq<char>) -> Seq<char> {
    if trim(supplied).len() == 0 {
        configured
    } else {
        trim(supplied)
    }
}

pub fn supplied_or(supplied: &str, configured: String) -> (r: String)
    ensures
        r@ == supplied_or_text(supplied@, configured@),
{
    let t = trim_str(supplied);
    if t.as_str().is_empty() {
        configured
    } else {
        t
    }
}

/// The currency of a payment: as given, or the invoice's when blank.
pub open spec fn payment_currency_text(currency: Seq<char>, document_currency: Seq<char>) -> Seq<char> {
    if trim(currency).len() == 0 {
        document_currency
    } else {
        currency
    }
}

pub fn payment_currency(payment: &PaymentInput, document: &BridgeDocumentSummary) -> (r: String)
    ensures
        r@ == payment_currency_text(payment.currency@, document.currency@),
{
    let t = trim_str(payment.currency.as_str());
    if t.as_str().is_empty() {
        String::from_str(document.currency.as_str())
    } else {
        String::from_str(payment.currency.as_str())
    }
}

/// A payment is posted only with the partner account and the accounting
/// schema it was registered with.
pub fn check_payment_snapshot(partner_account: &str, schema_id: &str) -> (r: Result<(), String>)
    ensures
        r is Ok <==> (partner_account@.len() > 0 && schema_id@.len() > 0),
        r matches Err(e) ==> e@ == "Payment was registered without a complete accounting snapshot"@,
{
    if partner_account.is_empty() || schema_id.is_empty() {
        proof {
            reveal_strlit("Payment was registered without a complete accounting snapshot");
        }
        Err(String::from_str("Payment was registered without a complete accounting snapshot"))
    } else {
        Ok(())
    }
}

/// The piece number of a payment's posting: its reference, or the
/// invoice number after `PAY-`.
pub open spec fn payment_piece_text(reference: Seq<char>, number: Seq<char>) -> Seq<char> {
    if trim(reference).len() == 0 {
        "PAY-"@ + number
    } else {
        reference
    }
}

pub fn payment_piece_number(reference: String, document: &BridgeDocumentSummary) -> (r: String)
    ensures
        r@ == payment_piece_text(reference@, document.number@),
{
    let t = trim_str(reference.as_str());
    if t.as_str().is_empty() {
        let mut r = String::from_str("PAY-");
        r.append(document.number.as_str());
        proof {
            reveal_strlit("PAY-");
        }
        r
    } else {
        reference
    }
}

// ---------------------------------------------------------------------------
// Resolving an invoice's accounts
// ---------------------------------------------------------------------------

/// The collective account of the invoice's customer: the one its profile
/// stores, else the configured default.
pub open spec fn partner_account_text(stored: Option<Seq<char>>, default_account: Seq<char>) -> Seq<char> {
    match stored {
        Some(a) => if a.len() > 0 {
            a
        } else {
            default_account
        },
        None => default_account,
    }
}

pub open spec fn missing_partner_text(partner_code: Seq<char>) -> Seq<char> {
    "Missing collective account for customer '"@ + partner_code + "'"@
}

/// The customer's collective account, refused when it is blank.
pub fn partner_account_of(stored: Option<String>, default_account: String, partner_code: &str) -> (r: Result<String, String>)
    ensures
        ({
            let a = partner_account_text(
                match stored {
                    Some(s) => Some(s@),
                    None => None,
                },
                default_account@,
            );
            &&& r is Ok <==> trim(a).len() > 0
            &&& r matches Ok(v) ==> v@ == a
            &&& r matches Err(e) ==> e@ == missing_partner_text(partner_code@)
        }),
{
    let account = match stored {
        Some(s) => if s.as_str().is_empty() {
            default_account
        } else {
            s
        },
        None => default_account,
    };
    let t = trim_str(account.as_str());
    if t.as_str().is_empty() {
        let mut e = String::from_str("Missing collective account for customer '");
        e.append(partner_code);
        push_char(&mut e, '\'');
        proof {
            reveal_strlit("Missing collective account for customer '");
            reveal_strlit("'");
            assert(e@ =~= missing_partner_text(partner_code@));
        }
        Err(e)
    } else {
        Ok(account)
    }
}

/// The accounting schema chosen for an invoice: its id, code and journal.
pub open spec fn invoice_schema_result(row: Option<(Seq<char>, Seq<char>, Seq<char>)>) -> Result<(Seq<char>, Seq<char>, Seq<char>), Seq<char>> {
    match row {
        None => Err("No active accounting schema matches this invoice"@),
        Some((id, code, journal)) => if trim(journal).len() == 0 {
            Err("Accounting schema '"@ + code + "' has no journal"@)
        } else {
            Ok((id, code, journal))
        },
    }
}

/// The matching schema, refused when none matches or it has no journal.
pub fn invoice_schema(row: Option<(String, String, String)>) -> (r: Result<(String, String, String), String>)
    ensures
        ({
            let expected = invoice_schema_result(match row {
                Some((a, b, c)) => Some((a@, b@, c@)),
                None => None,
            });
            &&& r is Ok <==> expected is Ok
            &&& r matches Ok((a, b, c)) ==> expected == Ok::<(Seq<char>, Seq<char>, Seq<char>), Seq<char>>((a@, b@, c@))
            &&& r matches Err(e) ==> expected == Err::<(Seq<char>, Seq<char>, Seq<char>), Seq<char>>(e@)
        }),
{
    match row {
        None => {
            proof {
                reveal_strlit("No active accounting schema matches this invoice");
            }
            Err(String::from_str("No active accounting schema matches this invoice"))
        },
        Some((id, code, journal)) => {
            if is_blank_str(journal.as_str()) {
                proof {
                    crate::text::lemma_blank_iff_trim_empty(journal@);
                }
                let mut e = String::from_str("Accounting schema '");
                e.append(code.as_str());
                e.append("' has no journal");
                proof {
                    reveal_strlit("Accounting schema '");
                    reveal_strlit("' has no journal");
                }
                Err(e)
            } else {
                proof {
                    crate::text::lemma_blank_iff_trim_empty(journal@);
                }
                Ok((id, code, journal))
            }
        },
    }
}

/// The first line whose accounts cannot book it: a line needs a revenue
/// account, and a tax account when it carries tax.
pub open spec fn first_line_error(lines: Seq<ResolvedDocumentLine>) -> Option<Seq<char>>
    decreases lines.len(),
{
    if lines.len() == 0 {
        None
    } else {
        let l = lines[0];
        if l.revenue_account@.len() == 0 {
            Some("Missing revenue account for invoice line "@ + int_text(l.line_no as int))
        } else if l.tax_amount != 0 && l.tax_account@.len() == 0 {
            Some("Missing tax account for invoice line "@ + int_text(l.line_no as int))
        } else {
            first_line_error(lines.drop_first())
        }
    }
}

/// The lines an invoice is posted from: there must be some, and each
/// must have its accounts.
pub fn check_resolved_lines(lines: &Vec<ResolvedDocumentLine>) -> (r: Result<(), String>)
    ensures
        lines@.len() == 0 ==> (r matches Err(e) && e@ == "The invoice has no lines to resolve"@),
        lines@.len() > 0 ==> match first_line_error(lines@) {
            None => r is Ok,
            Some(m) => (r matches Err(e) && e@ == m),
        },
{
    if lines.len() == 0 {
        proof {
            reveal_strlit("The invoice has no lines to resolve");
        }
        return Err(String::from_str("The invoice has no lines to resolve"));
    }
    let mut i: usize = 0;
    assert(lines@.skip(0) =~= lines@);
    while i < lines.len()
        invariant
            i <= lines.len(),
            first_line_error(lines@) == first_line_error(lines@.skip(i as int)),
        decreases lines.len() - i,
    {
        let l = &lines[i];
        assert(lines@.skip(i as int)[0] == lines@[i as int]);
        assert(lines@.skip(i as int).drop_first() =~= lines@.skip(i + 1));
        if l.revenue_account.as_str().is_empty() {
            let mut e = String::from_str("Missing revenue account for invoice line ");
            append_i64(&mut e, l.line_no as i64);
            proof {
                reveal_strlit("Missing revenue account for invoice line ");
            }
            return Err(e);
        }
        if l.tax_amount != 0 && l.tax_account.as_str().is_empty() {
            let mut e = String::from_str("Missing tax account for invoice line ");
            append_i64(&mut e, l.line_no as i64);
            proof {
                reveal_strlit("Missing tax account for invoice line ");
            }
            return Err(e);
        }
        i = i + 1;
    }
    assert(lines@.skip(i as int) =~= Seq::<ResolvedDocumentLine>::empty());
    Ok(())
}

// ---------------------------------------------------------------------------
// Whether an invoice can be booked: the accounting preview
// ---------------------------------------------------------------------------

/// One invoice line as the accounting preview reads it; its tax rate in
/// hundredths of a percent.
pub struct PreviewLineInput {
    pub article_id: String,
    pub article_code: String,
    pub product_family_code: String,
    pub accounting_category_code: String,
    pub tax_code: String,
    pub revenue_account: String,
    pub vat_account: String,
    pub tax_rate: i64,
}

/// The accounts the product's stored profile gives for a line.
pub struct StoredProductAccounts {
    pub product_family_code: String,
    pub accounting_category_code: String,
    pub tax_code: String,
    pub revenue_account: String,
    pub tax_account: String,
}

/// A value the stored profile gives, or the line's own when the profile
/// leaves it blank.
pub open spec fn field_or(resolved: Seq<char>, fallback: Seq<char>) -> Seq<char> {
    if trim(resolved).len() == 0 {
        fallback
    } else {
        resolved
    }
}

pub open spec fn preview_family(line: PreviewLineInput, stored: Option<StoredProductAccounts>) -> Seq<char> {
    field_or(
        match stored {
            Some(p) => p.product_family_code@,
            None => Seq::<char>::empty(),
        },
        line.product_family_code@,
    )
}

pub open spec fn preview_category(line: PreviewLineInput, stored: Option<StoredProductAccounts>) -> Seq<char> {
    field_or(
        match stored {
            Some(p) => p.accounting_category_code@,
            None => Seq::<char>::empty(),
        },
        line.accounting_category_code@,
    )
}

pub open spec fn preview_tax_code(line: PreviewLineInput, stored: Option<StoredProductAccounts>) -> Seq<char> {
    field_or(
        match stored {
            Some(p) => p.tax_code@,
            None => Seq::<char>::empty(),
        },
        line.tax_code@,
    )
}

pub open spec fn preview_revenue(line: PreviewLineInput, stored: Option<StoredProductAccounts>) -> Seq<char> {
    field_or(
        match stored {
            Some(p) => p.revenue_account@,
            None => Seq::<char>::empty(),
        },
        line.revenue_account@,
    )
}

pub open spec fn preview_tax_account(line: PreviewLineInput, stored: Option<StoredProductAccounts>) -> Seq<char> {
    field_or(
        match stored {
            Some(p) => p.tax_account@,
            None => Seq::<char>::empty(),
        },
        line.vat_account@,
    )
}

/// A line is ready when every account it needs is known: a tax account
/// only when it is taxed.
pub open spec fn preview_ready(line: PreviewLineInput, stored: Option<StoredProductAccounts>) -> bool {
    &&& preview_family(line, stored).len() > 0
    &&& preview_category(line, stored).len() > 0
    &&& preview_tax_code(line, stored).len() > 0
    &&& preview_revenue(line, stored).len() > 0
    &&& (line.tax_rate == 0 || preview_tax_account(line, stored).len() > 0)
}

/// The preview of a line agrees with what its inputs give.
pub open spec fn preview_line_matches(r: AccountingPreviewLine, line: PreviewLineInput, stored: Option<StoredProductAccounts>) -> bool {
    &&& r.product_code@ == line.article_code@
    &&& r.product_family_code@ == preview_family(line, stored)
    &&& r.accounting_category_code@ == preview_category(line, stored)
    &&& r.tax_code@ == preview_tax_code(line, stored)
    &&& r.revenue_account@ == preview_revenue(line, stored)
    &&& r.tax_account@ == preview_tax_account(line, stored)
    &&& r.ready == preview_ready(line, stored)
}

fn fallback_field(resolved: String, fallback: &String) -> (r: String)
    ensures
        r@ == field_or(resolved@, fallback@),
{
    if is_blank_str(resolved.as_str()) {
        proof {
            crate::text::lemma_blank_iff_trim_empty(resolved@);
        }
        fallback.clone()
    } else {
        proof {
            crate::text::lemma_blank_iff_trim_empty(resolved@);
        }
        resolved
    }
}

/// How one invoice line would be booked.
pub fn preview_line(line: &PreviewLineInput, stored: &Option<StoredProductAccounts>) -> (r: AccountingPreviewLine)
    ensures
        preview_line_matches(r, *line, *stored),
{
    let (family, category, tax_code, revenue, tax_account) = match stored {
        Some(p) => (
            p.product_family_code.clone(),
            p.accounting_category_code.clone(),
            p.tax_code.clone(),
            p.revenue_account.clone(),
            p.tax_account.clone(),
        ),
        None => (String::new(), String::new(), String::new(), String::new(), String::new()),
    };
    let family = fallback_field(family, &line.product_family_code);
    let category = fallback_field(category, &line.accounting_category_code);
    let tax_code = fallback_field(tax_code, &line.tax_code);
    let revenue = fallback_field(revenue, &line.revenue_account);
    let tax_account = fallback_field(tax_account, &line.vat_account);
    let ready = !family.as_str().is_empty() && !category.as_str().is_empty() && !tax_code.as_str().is_empty()
        && !revenue.as_str().is_empty() && (line.tax_rate == 0 || !tax_account.as_str().is_empty());
    AccountingPreviewLine {
        product_code: line.article_code.clone(),
        product_family_code: family,
        accounting_category_code: category,
        tax_code,
        revenue_account: revenue,
        tax_account,
        ready,
    }
}

/// A line whose article was created locally and not yet given its Sage
/// account.
pub open spec fn pending_sync(line: PreviewLineInput) -> bool {
    (starts_with(line.article_id@, "sdb-"@) || starts_with(line.article_id@, "local-item-"@))
        && !revenue_account_like(line.article_code@)
}

pub open spec fn pending_sync_issue(code: Seq<char>) -> Seq<char> {
    "L’article "@ + code + " est en attente de synchronisation Sage"@
}

pub open spec fn incomplete_issue(code: Seq<char>) -> Seq<char> {
    "Configuration comptable incomplète pour l’article "@ + code
}

/// What a line adds to the preview's issues.
pub open spec fn line_issues(line: PreviewLineInput, stored: Option<StoredProductAccounts>) -> Seq<Seq<char>> {
    (if pending_sync(line) {
        seq![pending_sync_issue(line.article_code@)]
    } else {
        Seq::<Seq<char>>::empty()
    }) + (if preview_ready(line, stored) {
        Seq::<Seq<char>>::empty()
    } else {
        seq![incomplete_issue(line.article_code@)]
    })
}

pub open spec fn all_line_issues(lines: Seq<(PreviewLineInput, Option<StoredProductAccounts>)>) -> Seq<Seq<char>>
    decreases lines.len(),
{
    if lines.len() == 0 {
        Seq::<Seq<char>>::empty()
    } else {
        all_line_issues(lines.drop_last()) + line_issues(lines.last().0, lines.last().1)
    }
}

pub open spec fn option_text(o: Option<String>) -> Seq<char> {
    match o {
        Some(s) => s@,
        None => Seq::<char>::empty(),
    }
}

pub open spec fn missing_profile_issue(tiers_code: Seq<char>) -> Seq<char> {
    "Aucun profil comptable pour le client "@ + tiers_code
}

/// Every issue of the preview, in the order they are found: the customer's
/// profile, each line, the sales journal, the customer's account.
pub open spec fn preview_issues(
    journal: Option<String>,
    customer: Option<String>,
    tiers_code: Seq<char>,
    lines: Seq<(PreviewLineInput, Option<StoredProductAccounts>)>,
) -> Seq<Seq<char>> {
    (if customer is None {
        seq![missing_profile_issue(tiers_code)]
    } else {
        Seq::<Seq<char>>::empty()
    }) + all_line_issues(lines) + (if option_text(journal).len() == 0 {
        seq!["Journal de vente introuvable"@]
    } else {
        Seq::<Seq<char>>::empty()
    }) + (if option_text(customer).len() == 0 {
        seq!["Compte collectif client introuvable"@]
    } else {
        Seq::<Seq<char>>::empty()
    })
}

pub open spec fn texts(v: Seq<String>) -> Seq<Seq<char>> {
    v.map_values(|s: String| s@)
}

fn push_issue(issues: &mut Vec<String>, issue: String)
    ensures
        texts(final(issues)@) == texts(old(issues)@).push(issue@),
{
    issues.push(issue);
    assert(texts(issues@) =~= texts(old(issues)@).push(issue@));
}

/// The accounting preview of an invoice: the sales journal found (if
/// any), the customer's stored collective account (if the customer has a
/// profile), and each line with its product's stored accounts.
pub fn accounting_preview(
    journal: Option<String>,
    customer: Option<String>,
    tiers_code: &str,
    lines: &Vec<(PreviewLineInput, Option<StoredProductAccounts>)>,
) -> (r: AccountingReadiness)
    ensures
        r.schema_code@ == "SALE_STANDARD"@,
        r.journal_code@ == option_text(journal),
        r.customer_account@ == option_text(customer),
        texts(r.issues@) == preview_issues(journal, customer, tiers_code@, lines@),
        r.lines@.len() == lines@.len(),
        forall|i: int| 0 <= i < lines@.len() ==> preview_line_matches(#[trigger] r.lines@[i], lines@[i].0, lines@[i].1),
        r.ready == (preview_issues(journal, customer, tiers_code@, lines@).len() == 0 && lines@.len() > 0),
{
    let mut issues: Vec<String> = Vec::new();
    let journal_code = match journal {
        Some(j) => j,
        None => String::new(),
    };
    let customer_found = customer.is_some();
    let customer_account = match customer {
        Some(c) => c,
        None => String::new(),
    };
    if !customer_found {
        let mut e = String::from_str("Aucun profil comptable pour le client ");
        e.append(tiers_code);
        proof {
            reveal_strlit("Aucun profil comptable pour le client ");
        }
        push_issue(&mut issues, e);
    }
    let ghost head = texts(issues@);
    let mut previews: Vec<AccountingPreviewLine> = Vec::new();
    let mut i: usize = 0;
    while i < lines.len()
        invariant
            i <= lines.len(),
            previews@.len() == i,
            forall|k: int| 0 <= k < i ==> preview_line_matches(#[trigger] previews@[k], lines@[k].0, lines@[k].1),
            texts(issues@) == head + all_line_issues(lines@.take(i as int)),
        decreases lines.len() - i,
    {
        let (line, stored) = &lines[i];
        assert(lines@.take(i + 1).drop_last() =~= lines@.take(i as int));
        assert(lines@.take(i + 1).last() == lines@[i as int]);
        proof {
            reveal_strlit("sdb-");
            reveal_strlit("local-item-");
        }
        let local = starts_with_str(line.article_id.as_str(), "sdb-") || starts_with_str(line.article_id.as_str(), "local-item-");
        if local && !looks_like_revenue_account(line.article_code.as_str()) {
            let mut e = String::from_str("L’article ");
            e.append(line.article_code.as_str());
            e.append(" est en attente de synchronisation Sage");
            proof {
                reveal_strlit("L’article ");
                reveal_strlit(" est en attente de synchronisation Sage");
            }
            push_issue(&mut issues, e);
        }
        let p = preview_line(line, stored);
        if !p.ready {
            let mut e = String::from_str("Configuration comptable incomplète pour l’article ");
            e.append(line.article_code.as_str());
            proof {
                reveal_strlit("Configuration comptable incomplète pour l’article ");
            }
            push_issue(&mut issues, e);
        }
        assert(texts(issues@) =~= head + all_line_issues(lines@.take(i + 1)));
        previews.push(p);
        i = i + 1;
    }
    assert(lines@.take(lines@.len() as int) =~= lines@);
    if journal_code.as_str().is_empty() {
        proof {
            reveal_strlit("Journal de vente introuvable");
        }
        push_issue(&mut issues, String::from_str("Journal de vente introuvable"));
    }
    if customer_account.as_str().is_empty() {
        proof {
            reveal_strlit("Compte collectif client introuvable");
        }
        push_issue(&mut issues, String::from_str("Compte collectif client introuvable"));
    }
    assert(texts(issues@) =~= preview_issues(journal, customer, tiers_code@, lines@));
    let ready = issues.len() == 0 && previews.len() > 0;
    proof {
        reveal_strlit("SALE_STANDARD");
    }
    AccountingReadiness {
        ready,
        journal_code,
        customer_account,
        schema_code: String::from_str("SALE_STANDARD"),
        issues,
        lines: previews,
    }
}

// ---------------------------------------------------------------------------
// The accounting configuration
// ---------------------------------------------------------------------------

/// The accounts and codes an installation books with; the tax rate in
/// hundredths of a percent.
pub struct AccountingConfiguration {
    pub partner_code: String,
    pub partner_account: String,
    pub product_code: String,
    pub product_family_code: String,
    pub accounting_category_code: String,
    pub revenue_account: String,
    pub expense_account: String,
    pub tax_rate: i64,
    pub tax_account: String,
    pub payment_method_code: String,
    pub payment_journal_code: String,
    pub payment_debit_account: String,
}

/// The name of the first field a configuration leaves blank, in the order
/// the fields are checked.
pub open spec fn first_missing_field(c: AccountingConfiguration) -> Option<Seq<char>> {
    if trim(c.partner_code@).len() == 0 {
        Some("customer code"@)
    } else if trim(c.partner_account@).len() == 0 {
        Some("customer account"@)
    } else if trim(c.product_code@).len() == 0 {
        Some("product code"@)
    } else if trim(c.product_family_code@).len() == 0 {
        Some("product family"@)
    } else if trim(c.accounting_category_code@).len() == 0 {
        Some("accounting category"@)
    } else if trim(c.revenue_account@).len() == 0 {
        Some("revenue account"@)
    } else if trim(c.tax_account@).len() == 0 {
        Some("tax account"@)
    } else if trim(c.payment_method_code@).len() == 0 {
        Some("payment method"@)
    } else if trim(c.payment_journal_code@).len() == 0 {
        Some("payment journal"@)
    } else if trim(c.payment_debit_account@).len() == 0 {
        Some("payment debit account"@)
    } else {
        None
    }
}

fn blank(s: &String) -> (b: bool)
    ensures
        b == (trim(s@).len() == 0),
{
    proof {
        crate::text::lemma_blank_iff_trim_empty(s@);
    }
    is_blank_str(s.as_str())
}

/// A configuration is saved only with every account and code it books
/// with (the expense account may stay blank).
pub fn check_accounting_configuration(c: &AccountingConfiguration) -> (r: Result<(), String>)
    ensures
        match first_missing_field(*c) {
            None => r is Ok,
            Some(name) => (r matches Err(e) && e@ == "Accounting configuration requires "@ + name),
        },
{
    let name: &str = if blank(&c.partner_code) {
        "customer code"
    } else if blank(&c.partner_account) {
        "customer account"
    } else if blank(&c.product_code) {
        "product code"
    } else if blank(&c.product_family_code) {
        "product family"
    } else if blank(&c.accounting_category_code) {
        "accounting category"
    } else if blank(&c.revenue_account) {
        "revenue account"
    } else if blank(&c.tax_account) {
        "tax account"
    } else if blank(&c.payment_method_code) {
        "payment method"
    } else if blank(&c.payment_journal_code) {
        "payment journal"
    } else if blank(&c.payment_debit_account) {
        "payment debit account"
    } else {
        return Ok(());
    };
    let mut e = String::from_str("Accounting configuration requires ");
    e.append(name);
    proof {
        reveal_strlit("Accounting configuration requires ");
        reveal_strlit("customer code");
        reveal_strlit("customer account");
        reveal_strlit("product code");
        reveal_strlit("product family");
        reveal_strlit("accounting category");
        reveal_strlit("revenue account");
        reveal_strlit("tax account");
        reveal_strlit("payment method");
        reveal_strlit("payment journal");
        reveal_strlit("payment debit account");
    }
    Err(e)
}

/// The first active product profile, with the accounts its family and
/// category complete it with.
pub struct ConfiguredProduct {
    pub product_code: String,
    pub product_family_code: String,
    pub accounting_category_code: String,
    pub revenue_account: String,
    pub expense_account: String,
    pub tax_code: String,
}

/// The tax code whose rate and account the configuration shows, when the
/// configured product names one.
pub open spec fn configured_tax_code(product: Option<ConfiguredProduct>) -> Option<Seq<char>> {
    match product {
        Some(p) => if p.tax_code@.len() > 0 {
            Some(p.tax_code@)
        } else {
            None
        },
        None => None,
    }
}

pub fn tax_code_to_look_up(product: &Option<ConfiguredProduct>) -> (r: Option<String>)
    ensures
        match configured_tax_code(*product) {
            Some(t) => (r matches Some(s) && s@ == t),
            None => r is None,
        },
{
    match product {
        Some(p) => if p.tax_code.as_str().is_empty() {
            None
        } else {
            Some(p.tax_code.clone())
        },
        None => None,
    }
}

/// The configuration shown to the user: the configured defaults, then
/// what the first partner profile, the first product profile, its tax
/// code and the preferred payment method give.
pub open spec fn configuration_matches(
    r: AccountingConfiguration,
    default_partner_account: Seq<char>,
    default_revenue_account: Seq<char>,
    default_tax_account: Seq<char>,
    partner: Option<(String, String)>,
    product: Option<ConfiguredProduct>,
    tax: Option<(i64, String)>,
    payment: Option<(String, String, String)>,
) -> bool {
    let taxed = configured_tax_code(product) is Some && tax is Some;
    &&& r.partner_code@ == (match partner {
        Some((code, _)) => code@,
        None => Seq::<char>::empty(),
    })
    &&& r.partner_account@ == (match partner {
        Some((_, account)) => account@,
        None => default_partner_account,
    })
    &&& r.product_code@ == (match product {
        Some(p) => p.product_code@,
        None => Seq::<char>::empty(),
    })
    &&& r.product_family_code@ == (match product {
        Some(p) => p.product_family_code@,
        None => Seq::<char>::empty(),
    })
    &&& r.accounting_category_code@ == (match product {
        Some(p) => p.accounting_category_code@,
        None => Seq::<char>::empty(),
    })
    &&& r.revenue_account@ == (match product {
        Some(p) => if p.revenue_account@.len() > 0 {
            p.revenue_account@
        } else {
            default_revenue_account
        },
        None => default_revenue_account,
    })
    &&& r.expense_account@ == (match product {
        Some(p) => p.expense_account@,
        None => Seq::<char>::empty(),
    })
    &&& r.tax_rate == (if taxed {
        tax.unwrap().0
    } else {
        1800
    })
    &&& r.tax_account@ == (if taxed {
        tax.unwrap().1@
    } else {
        default_tax_account
    })
    &&& r.payment_method_code@ == (match payment {
        Some((code, _, _)) => code@,
        None => "bank"@,
    })
    &&& r.payment_journal_code@ == (match payment {
        Some((_, journal, _)) => journal@,
        None => "BQ"@,
    })
    &&& r.payment_debit_account@ == (match payment {
        Some((_, _, account)) => account@,
        None => "521000"@,
    })
}

/// The configuration from the defaults and the rows the queries found;
/// `tax` is the rate and account of the product's tax code (asked for
/// only when `tax_code_to_look_up` names one).
pub fn accounting_configuration(
    default_partner_account: String,
    default_revenue_account: String,
    default_tax_account: String,
    partner: Option<(String, String)>,
    product: Option<ConfiguredProduct>,
    tax: Option<(i64, String)>,
    payment: Option<(String, String, String)>,
) -> (r: AccountingConfiguration)
    ensures
        configuration_matches(
            r,
            default_partner_account@,
            default_revenue_account@,
            default_tax_account@,
            partner,
            product,
            tax,
            payment,
        ),
{
    proof {
        reveal_strlit("bank");
        reveal_strlit("BQ");
        reveal_strlit("521000");
    }
    let ghost product0 = product;
    let ghost tax0 = tax;
    let mut out = AccountingConfiguration {
        partner_code: String::new(),
        partner_account: default_partner_account,
        product_code: String::new(),
        product_family_code: String::new(),
        accounting_category_code: String::new(),
        revenue_account: default_revenue_account,
        expense_account: String::new(),
        tax_rate: 1800,
        tax_account: default_tax_account,
        payment_method_code: String::from_str("bank"),
        payment_journal_code: String::from_str("BQ"),
        payment_debit_account: String::from_str("521000"),
    };
    match partner {
        Some((code, account)) => {
            out.partner_code = code;
            out.partner_account = account;
        },
        None => {},
    }
    let mut tax_code = String::new();
    match product {
        Some(p) => {
            out.product_code = p.product_code;
            out.product_family_code = p.product_family_code;
            out.accounting_category_code = p.accounting_category_code;
            if !p.revenue_account.as_str().is_empty() {
                out.revenue_account = p.revenue_account;
            }
            out.expense_account = p.expense_account;
            tax_code = p.tax_code;
        },
        None => {},
    }
    assert(tax_code@.len() > 0 <==> configured_tax_code(product0) is Some);
    if !tax_code.as_str().is_empty() {
        match tax {
            Some((rate, account)) => {
                out.tax_rate = rate;
                out.tax_account = account;
            },
            None => {},
        }
    }
    match payment {
        Some((code, journal, account)) => {
            out.payment_method_code = code;
            out.payment_journal_code = journal;
            out.payment_debit_account = account;
        },
        None => {},
    }
    out
}

// ---------------------------------------------------------------------------
// Product profiles
// ---------------------------------------------------------------------------

/// A product profile is saved only with its article, family, category and
/// tax code.
pub fn check_product_profile(profile: &ProductAccountingProfile) -> (r: Result<(), String>)
    ensures
        r is Ok <==> (trim(profile.product_code@).len() > 0 && trim(profile.product_family_code@).len() > 0
            && trim(profile.accounting_category_code@).len() > 0 && trim(profile.tax_code@).len() > 0),
        r matches Err(e) ==> e@ == "Article, famille, catégorie comptable et code taxe sont obligatoires"@,
{
    if blank(&profile.product_code) || blank(&profile.product_family_code) || blank(&profile.accounting_category_code)
        || blank(&profile.tax_code) {
        proof {
            reveal_strlit("Article, famille, catégorie comptable et code taxe sont obligatoires");
        }
        Err(String::from_str("Article, famille, catégorie comptable et code taxe sont obligatoires"))
    } else {
        Ok(())
    }
}

/// The profile as saved: the same, and active.
pub fn saved_product_profile(profile: ProductAccountingProfile) -> (r: ProductAccountingProfile)
    ensures
        r.product_code@ == profile.product_code@,
        r.product_family_code@ == profile.product_family_code@,
        r.accounting_category_code@ == profile.accounting_category_code@,
        r.tax_code@ == profile.tax_code@,
        r.revenue_account@ == profile.revenue_account@,
        r.active,
{
    ProductAccountingProfile { active: true, ..profile }
}

/// A stored profile is active unless its flag reads `0`.
pub fn profile_active(flag: &str) -> (b: bool)
    ensures
        b == (flag@ != "0"@),
{
    !str_eq(flag, "0")
}

// ---------------------------------------------------------------------------
// Management records
// ---------------------------------------------------------------------------

pub open spec fn unsupported_entity_text(entity: Seq<char>) -> Seq<char> {
    "Unsupported bridge management entity '"@ + entity + "'"@
}

fn unsupported_entity(entity: &str) -> (e: String)
    ensures
        e@ == unsupported_entity_text(entity@),
{
    let mut e = String::from_str("Unsupported bridge management entity '");
    e.append(entity);
    push_char(&mut e, '\'');
    proof {
        reveal_strlit("Unsupported bridge management entity '");
        reveal_strlit("'");
        assert(e@ =~= unsupported_entity_text(entity@));
    }
    e
}

/// The table and key column a management record is deactivated in.
pub open spec fn deactivation_target_of(entity: Seq<char>) -> Option<(Seq<char>, Seq<char>)> {
    if entity == "accounting_category"@ {
        Some(("accounting_category"@, "code"@))
    } else if entity == "product_family"@ {
        Some(("product_family"@, "code"@))
    } else if entity == "tax_code"@ {
        Some(("tax_code"@, "code"@))
    } else if entity == "payment_method"@ {
        Some(("payment_method"@, "code"@))
    } else if entity == "partner_profile"@ {
        Some(("partner_accounting_profile"@, "partner_code"@))
    } else if entity == "product_profile"@ {
        Some(("product_accounting_profile"@, "product_code"@))
    } else if entity == "integration_profile"@ {
        Some(("integration_profile"@, "id"@))
    } else if entity == "accounting_schema"@ {
        Some(("accounting_schema"@, "id"@))
    } else {
        None
    }
}

pub fn deactivation_target(entity: &str) -> (r: Result<(&'static str, &'static str), String>)
    ensures
        match deactivation_target_of(entity@) {
            Some((t, c)) => (r matches Ok((a, b)) && a@ == t && b@ == c),
            None => (r matches Err(e) && e@ == unsupported_entity_text(entity@)),
        },
{
    proof {
        reveal_strlit("accounting_category");
        reveal_strlit("product_family");
        reveal_strlit("tax_code");
        reveal_strlit("payment_method");
        reveal_strlit("partner_profile");
        reveal_strlit("product_profile");
        reveal_strlit("integration_profile");
        reveal_strlit("accounting_schema");
        reveal_strlit("partner_accounting_profile");
        reveal_strlit("product_accounting_profile");
        reveal_strlit("code");
        reveal_strlit("partner_code");
        reveal_strlit("product_code");
        reveal_strlit("id");
    }
    if str_eq(entity, "accounting_category") {
        Ok(("accounting_category", "code"))
    } else if str_eq(entity, "product_family") {
        Ok(("product_family", "code"))
    } else if str_eq(entity, "tax_code") {
        Ok(("tax_code", "code"))
    } else if str_eq(entity, "payment_method") {
        Ok(("payment_method", "code"))
    } else if str_eq(entity, "partner_profile") {
        Ok(("partner_accounting_profile", "partner_code"))
    } else if str_eq(entity, "product_profile") {
        Ok(("product_accounting_profile", "product_code"))
    } else if str_eq(entity, "integration_profile") {
        Ok(("integration_profile", "id"))
    } else if str_eq(entity, "accounting_schema") {
        Ok(("accounting_schema", "id"))
    } else {
        Err(unsupported_entity(entity))
    }
}

/// The entities a management record can be saved as.
pub open spec fn savable_entity(entity: Seq<char>) -> bool {
    entity == "accounting_category"@ || entity == "product_family"@ || entity == "tax_code"@
        || entity == "payment_method"@ || entity == "partner_profile"@ || entity == "accounting_schema"@
        || entity == "document_journal_mapping"@ || entity == "integration_profile"@
}

/// Why a management record cannot be saved, if it cannot: an entity not
/// managed here, or a category or family without its (trimmed) code.
pub open spec fn management_record_error(entity: Seq<char>, code: Seq<char>) -> Option<Seq<char>> {
    if !savable_entity(entity) {
        Some(unsupported_entity_text(entity))
    } else if entity == "accounting_category"@ && code.len() == 0 {
        Some("Category code is required"@)
    } else if entity == "product_family"@ && code.len() == 0 {
        Some("Family code is required"@)
    } else {
        None
    }
}

pub fn check_management_record(entity: &str, code: &str) -> (r: Result<(), String>)
    ensures
        match management_record_error(entity@, code@) {
            None => r is Ok,
            Some(m) => (r matches Err(e) && e@ == m),
        },
{
    proof {
        reveal_strlit("accounting_category");
        reveal_strlit("product_family");
        reveal_strlit("tax_code");
        reveal_strlit("payment_method");
        reveal_strlit("partner_profile");
        reveal_strlit("accounting_schema");
        reveal_strlit("document_journal_mapping");
        reveal_strlit("integration_profile");
        reveal_strlit("Category code is required");
        reveal_strlit("Family code is required");
    }
    let savable = str_eq(entity, "accounting_category") || str_eq(entity, "product_family") || str_eq(entity, "tax_code")
        || str_eq(entity, "payment_method") || str_eq(entity, "partner_profile") || str_eq(entity, "accounting_schema")
        || str_eq(entity, "document_journal_mapping") || str_eq(entity, "integration_profile");
    if !savable {
        Err(unsupported_entity(entity))
    } else if str_eq(entity, "accounting_category") && code.is_empty() {
        Err(String::from_str("Category code is required"))
    } else if str_eq(entity, "product_family") && code.is_empty() {
        Err(String::from_str("Family code is required"))
    } else {
        Ok(())
    }
}

/// A line an accounting schema is created with.
pub struct DefaultSchemaLine {
    pub line_no: u32,
    pub posting_role: &'static str,
    pub debit_credit: &'static str,
    pub amount_basis: &'static str,
    pub account_source: &'static str,
    pub grouping_rule: &'static str,
}

pub open spec fn schema_line_is(
    l: DefaultSchemaLine,
    line_no: int,
    role: Seq<char>,
    side: Seq<char>,
    basis: Seq<char>,
    source: Seq<char>,
    grouping: Seq<char>,
) -> bool {
    &&& l.line_no == line_no
    &&& l.posting_role@ == role
    &&& l.debit_credit@ == side
    &&& l.amount_basis@ == basis
    &&& l.account_source@ == source
    &&& l.grouping_rule@ == grouping
}

/// The lines a new schema starts with: a payment debits the bank and
/// credits the customer; any other operation debits the customer with the
/// total and credits sales and tax, grouped by account.
pub fn default_schema_lines(operation: &str) -> (r: Vec<DefaultSchemaLine>)
    ensures
        operation@ == "payment_receipt"@ ==> {
            &&& r@.len() == 2
            &&& schema_line_is(r@[0], 1, "bank"@, "debit"@, "payment_amount"@, "PAYMENT_METHOD_ACCOUNT"@, "document"@)
            &&& schema_line_is(r@[1], 2, "customer"@, "credit"@, "payment_amount"@, "CUSTOMER_COLLECTIVE_ACCOUNT"@, "document"@)
        },
        operation@ != "payment_receipt"@ ==> {
            &&& r@.len() == 3
            &&& schema_line_is(r@[0], 1, "customer"@, "debit"@, "document_total_ttc"@, "CUSTOMER_COLLECTIVE_ACCOUNT"@, "document"@)
            &&& schema_line_is(r@[1], 2, "sales"@, "credit"@, "line_amount_ht"@, "RESOLVED_REVENUE_ACCOUNT"@, "account"@)
            &&& schema_line_is(r@[2], 3, "tax"@, "credit"@, "line_tax_amount"@, "RESOLVED_TAX_ACCOUNT"@, "account"@)
        },
{
    proof {
        reveal_strlit("payment_receipt");
    }
    if str_eq(operation, "payment_receipt") {
        vec![
            DefaultSchemaLine {
                line_no: 1,
                posting_role: "bank",
                debit_credit: "debit",
                amount_basis: "payment_amount",
                account_source: "PAYMENT_METHOD_ACCOUNT",
                grouping_rule: "document",
            },
            DefaultSchemaLine {
                line_no: 2,
                posting_role: "customer",
                debit_credit: "credit",
                amount_basis: "payment_amount",
                account_source: "CUSTOMER_COLLECTIVE_ACCOUNT",
                grouping_rule: "document",
            },
        ]
    } else {
        vec![
            DefaultSchemaLine {
                line_no: 1,
                posting_role: "customer",
                debit_credit: "debit",
                amount_basis: "document_total_ttc",
                account_source: "CUSTOMER_COLLECTIVE_ACCOUNT",
                grouping_rule: "document",
            },
            DefaultSchemaLine {
                line_no: 2,
                posting_role: "sales",
                debit_credit: "credit",
                amount_basis: "line_amount_ht",
                account_source: "RESOLVED_REVENUE_ACCOUNT",
                grouping_rule: "account",
            },
            DefaultSchemaLine {
                line_no: 3,
                posting_role: "tax",
                debit_credit: "credit",
                amount_basis: "line_tax_amount",
                account_source: "RESOLVED_TAX_ACCOUNT",
                grouping_rule: "account",
            },
        ]
    }
}

// ---------------------------------------------------------------------------
// Master data
// ---------------------------------------------------------------------------

/// An account, journal, family, category, tax code or payment method as
/// the catalog lists it; a rate in hundredths of a percent.
pub struct CatalogItem {
    pub id: String,
    pub code: String,
    pub name: String,
    pub item_type: String,
    pub source: String,
    pub active: bool,
    pub parent_code: String,
    pub account_code: String,
    pub rate: i64,
}

pub open spec fn has_code(items: Seq<CatalogItem>, code: Seq<char>) -> bool {
    exists|k: int| 0 <= k < items.len() && (#[trigger] items[k]).code@ == code
}

/// The list with each further item appended unless an item of its code is
/// already there.
pub open spec fn merged(items: Seq<CatalogItem>, extra: Seq<CatalogItem>) -> Seq<CatalogItem>
    decreases extra.len(),
{
    if extra.len() == 0 {
        items
    } else {
        merged(
            if has_code(items, extra[0].code@) {
                items
            } else {
                items.push(extra[0])
            },
            extra.drop_first(),
        )
    }
}

fn find_code(items: &Vec<CatalogItem>, code: &str) -> (b: bool)
    ensures
        b == has_code(items@, code@),
{
    let mut i: usize = 0;
    while i < items.len()
        invariant
            i <= items.len(),
            forall|k: int| 0 <= k < i ==> (#[trigger] items@[k]).code@ != code@,
        decreases items.len() - i,
    {
        if str_eq(items[i].code.as_str(), code) {
            return true;
        }
        i = i + 1;
    }
    false
}

/// The journals of the accounting package, completed with the bridge's
/// own journals whose codes it does not have.
pub fn merge_journals(journals: &mut Vec<CatalogItem>, bridge: Vec<CatalogItem>)
    ensures
        final(journals)@ == merged(old(journals)@, bridge@),
{
    let mut rest = bridge;
    while rest.len() > 0
        invariant
            merged(journals@, rest@) == merged(old(journals)@, bridge@),
        decreases rest.len(),
    {
        let ghost before = rest@;
        let item = rest.remove(0);
        assert(rest@ =~= before.drop_first());
        assert(item == before[0]);
        if !find_code(journals, item.code.as_str()) {
            journals.push(item);
        }
    }
}

/// Merging keeps every code once: when the first list has no code twice,
/// neither has the merged one.
pub proof fn lemma_merged_codes_distinct(items: Seq<CatalogItem>, extra: Seq<CatalogItem>)
    requires
        forall|i: int, j: int| 0 <= i < j < items.len() ==> (#[trigger] items[i]).code@ != (#[trigger] items[j]).code@,
    ensures
        forall|i: int, j: int|
            0 <= i < j < merged(items, extra).len() ==> (#[trigger] merged(items, extra)[i]).code@
                != (#[trigger] merged(items, extra)[j]).code@,
    decreases extra.len(),
{
    if extra.len() > 0 {
        let next = if has_code(items, extra[0].code@) {
            items
        } else {
            items.push(extra[0])
        };
        assert forall|i: int, j: int| 0 <= i < j < next.len() implies (#[trigger] next[i]).code@ != (#[trigger] next[j]).code@ by {
            if !has_code(items, extra[0].code@) {
                if j == items.len() {
                    assert(items[i] == next[i]);
                    assert(next[j] == extra[0]);
                } else {
                    assert(items[i] == next[i] && items[j] == next[j]);
                }
            }
        }
        lemma_merged_codes_distinct(next, extra.drop_first());
        assert(merged(items, extra) == merged(next, extra.drop_first()));
    }
}

/// Merging keeps the first list as it was, in front.
pub proof fn lemma_merged_keeps_prefix(items: Seq<CatalogItem>, extra: Seq<CatalogItem>)
    ensures
        merged(items, extra).len() >= items.len(),
        merged(items, extra).take(items.len() as int) == items,
    decreases extra.len(),
{
    if extra.len() > 0 {
        let next = if has_code(items, extra[0].code@) {
            items
        } else {
            items.push(extra[0])
        };
        lemma_merged_keeps_prefix(next, extra.drop_first());
        assert(next.take(items.len() as int) =~= items);
        assert(merged(items, extra).take(items.len() as int) =~= merged(next, extra.drop_first()).take(next.len() as int).take(items.len() as int));
    } else {
        assert(items.take(items.len() as int) =~= items);
    }
}

/// Every code of the further items ends up in the merged list.
pub proof fn lemma_merged_has_every_code(items: Seq<CatalogItem>, extra: Seq<CatalogItem>, k: int)
    requires
        0 <= k < extra.len(),
    ensures
        has_code(merged(items, extra), extra[k].code@),
    decreases extra.len(),
{
    let next = if has_code(items, extra[0].code@) {
        items
    } else {
        items.push(extra[0])
    };
    if k == 0 {
        if !has_code(items, extra[0].code@) {
            assert(next[items.len() as int] == extra[0]);
        }
        assert(has_code(next, extra[0].code@));
        lemma_merged_keeps_prefix(next, extra.drop_first());
        let m = merged(next, extra.drop_first());
        let w = choose|w: int| 0 <= w < next.len() && (#[trigger] next[w]).code@ == extra[0].code@;
        assert(m.take(next.len() as int)[w] == m[w]);
        assert(m[w].code@ == extra[0].code@);
    } else {
        assert(extra.drop_first()[k - 1] == extra[k]);
        lemma_merged_has_every_code(next, extra.drop_first(), k - 1);
    }
}

} // verus!
