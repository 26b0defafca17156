//! The commercial bridge: posting lines generated from accounting schemas,
//! their balance, the checks of each accounting package adapter, and the
//! codes of documents and tax rates. Amounts are in cents.
use vstd::prelude::*;
use crate::text::{
    ascii_lower, chars_of, dec, eq_ignore_ascii_case, eq_ignore_case, is_blank, is_blank_str,
    pad_left, push_char, str_eq, to_ascii_lowercase, trim, trim_str, u64_to_string,
};

verus! {

/// One line of a journal entry.
#[derive(Debug)]
pub struct PostingLine {
    pub line_no: i32,
    pub role: String,
    pub general_account: String,
    pub auxiliary_account: String,
    pub label: String,
    pub debit: i64,
    pub credit: i64,
}

/// A journal entry generated from a document or a payment.
#[derive(Debug)]
pub struct PostingBatch {
    pub id: String,
    pub source_kind: String,
    pub source_id: String,
    pub journal_code: String,
    pub piece_number: String,
    pub posting_date: String,
    pub status: String,
    pub total_debit: i64,
    pub total_credit: i64,
    pub lines: Vec<PostingLine>,
}

/// What an adapter prepares for a batch, before it is written out as JSON.
pub struct PostingPackage<'a> {
    pub format: Option<&'static str>,
    /// Absent from the neutral package.
    pub delivery_enabled: Option<bool>,
    pub field_candidates: Vec<(&'static str, &'static str)>,
    pub canonical_batch: &'a PostingBatch,
}

pub open spec fn candidate_views(c: Seq<(&'static str, &'static str)>) -> Seq<(Seq<char>, Seq<char>)> {
    c.map_values(|p: (&'static str, &'static str)| (p.0@, p.1@))
}

/// How a product is booked.
pub struct ProductAccountingProfile {
    pub product_code: String,
    pub product_family_code: String,
    pub accounting_category_code: String,
    pub tax_code: String,
    pub revenue_account: String,
    pub active: bool,
}

/// How one document line would be booked.
pub struct AccountingPreviewLine {
    pub product_code: String,
    pub product_family_code: String,
    pub accounting_category_code: String,
    pub tax_code: String,
    pub revenue_account: String,
    pub tax_account: String,
    pub ready: bool,
}

/// Whether a document can be posted, and what is missing.
pub struct AccountingReadiness {
    pub ready: bool,
    pub journal_code: String,
    pub customer_account: String,
    pub schema_code: String,
    pub issues: Vec<String>,
    pub lines: Vec<AccountingPreviewLine>,
}

// ---------------------------------------------------------------------------
// Posting lines
// ---------------------------------------------------------------------------

/// What the specifications see of a posting line.
pub struct LineView {
    pub line_no: int,
    pub role: Seq<char>,
    pub account: Seq<char>,
    pub auxiliary: Seq<char>,
    pub label: Seq<char>,
    pub debit: int,
    pub credit: int,
}

pub open spec fn line_view(l: PostingLine) -> LineView {
    LineView {
        line_no: l.line_no as int,
        role: l.role@,
        account: l.general_account@,
        auxiliary: l.auxiliary_account@,
        label: l.label@,
        debit: l.debit as int,
        credit: l.credit as int,
    }
}

pub open spec fn line_views(s: Seq<PostingLine>) -> Seq<LineView> {
    s.map_values(|l: PostingLine| line_view(l))
}

pub open spec fn sum_debit_v(lines: Seq<LineView>) -> int
    decreases lines.len(),
{
    if lines.len() == 0 {
        0
    } else {
        sum_debit_v(lines.drop_last()) + lines.last().debit
    }
}

pub open spec fn sum_credit_v(lines: Seq<LineView>) -> int
    decreases lines.len(),
{
    if lines.len() == 0 {
        0
    } else {
        sum_credit_v(lines.drop_last()) + lines.last().credit
    }
}

pub open spec fn no_account_error(role: Seq<char>) -> Seq<char> {
    "Accounting schema role '"@ + role + "' resolved no account"@
}

/// The amount a line puts on the debit side for a schema side.
pub open spec fn debit_part(side: Seq<char>, amount: int) -> int {
    if eq_ignore_case(side, "debit"@) {
        amount
    } else {
        0
    }
}

/// The amount a line puts on the credit side for a schema side.
pub open spec fn credit_part(side: Seq<char>, amount: int) -> int {
    if eq_ignore_case(side, "credit"@) {
        amount
    } else {
        0
    }
}

/// The lines after a schema role books an amount: unchanged for a zero
/// amount; an error when the role resolved no account; otherwise one more
/// line, numbered after the others, with the amount on the side named.
pub open spec fn push_view(
    out: Seq<LineView>,
    role: Seq<char>,
    side: Seq<char>,
    account: Seq<char>,
    auxiliary: Seq<char>,
    label: Seq<char>,
    amount: int,
) -> Result<Seq<LineView>, Seq<char>> {
    if amount == 0 {
        Ok(out)
    } else if is_blank(account) {
        Err(no_account_error(role))
    } else {
        Ok(
            out.push(
                LineView {
                    line_no: out.len() as int + 1,
                    role,
                    account,
                    auxiliary,
                    label,
                    debit: debit_part(side, amount),
                    credit: credit_part(side, amount),
                },
            ),
        )
    }
}

/// `push_schema_posting_line`.
pub fn push_schema_posting_line(
    output: &mut Vec<PostingLine>,
    role: &str,
    debit_credit: &str,
    account: String,
    auxiliary_account: String,
    label: String,
    amount: i64,
) -> (r: Result<(), String>)
    requires
        old(output)@.len() < i32::MAX,
    ensures
        match r {
            Ok(()) => push_view(
                line_views(old(output)@),
                role@,
                debit_credit@,
                account@,
                auxiliary_account@,
                label@,
                amount as int,
            ) == Ok::<Seq<LineView>, Seq<char>>(line_views(final(output)@)),
            Err(e) => push_view(
                line_views(old(output)@),
                role@,
                debit_credit@,
                account@,
                auxiliary_account@,
                label@,
                amount as int,
            ) == Err::<Seq<LineView>, Seq<char>>(e@) && final(output)@ == old(output)@,
        },
        final(output)@.len() <= old(output)@.len() + 1,
{
    if amount == 0 {
        return Ok(());
    }
    if is_blank_str(account.as_str()) {
        let mut e = String::from_str("Accounting schema role '");
        e.append(role);
        e.append("' resolved no account");
        return Err(e);
    }
    let line_no = (output.len() + 1) as i32;
    let debit = if eq_ignore_ascii_case(debit_credit, "debit") {
        amount
    } else {
        0
    };
    let credit = if eq_ignore_ascii_case(debit_credit, "credit") {
        amount
    } else {
        0
    };
    let ghost before = output@;
    output.push(
        PostingLine {
            line_no,
            role: String::from_str(role),
            general_account: account,
            auxiliary_account,
            label,
            debit,
            credit,
        },
    );
    assert(line_views(output@) =~= line_views(before).push(line_view(output@.last())));
    Ok(())
}

/// Booking an amount keeps the running totals: each side grows by what the
/// new line puts on it.
pub proof fn lemma_push_keeps_totals(
    out: Seq<LineView>,
    role: Seq<char>,
    side: Seq<char>,
    account: Seq<char>,
    auxiliary: Seq<char>,
    label: Seq<char>,
    amount: int,
)
    requires
        push_view(out, role, side, account, auxiliary, label, amount) is Ok,
    ensures
        ({
            let after = push_view(out, role, side, account, auxiliary, label, amount)->Ok_0;
            &&& sum_debit_v(after) == sum_debit_v(out) + debit_part(side, amount)
            &&& sum_credit_v(after) == sum_credit_v(out) + credit_part(side, amount)
        }),
{
    if amount != 0 {
        let after = push_view(out, role, side, account, auxiliary, label, amount)->Ok_0;
        assert(after.drop_last() =~= out);
    }
}

// ---------------------------------------------------------------------------
// Batch checks
// ---------------------------------------------------------------------------

pub open spec fn has_blank_account(lines: Seq<PostingLine>) -> bool {
    exists|i: int| 0 <= i < lines.len() && is_blank(#[trigger] lines[i].general_account@)
}

/// The first failed check of a batch, if any: lines present, totals
/// balanced, every line on an account.
pub open spec fn canonical_error(b: PostingBatch) -> Option<Seq<char>> {
    if b.lines@.len() == 0 {
        Some("Posting batch has no lines"@)
    } else if b.total_debit != b.total_credit {
        Some("Posting batch is not balanced"@)
    } else if has_blank_account(b.lines@) {
        Some("Every posting line requires a general account"@)
    } else {
        None
    }
}

fn any_blank_account(lines: &Vec<PostingLine>) -> (b: bool)
    ensures
        b == has_blank_account(lines@),
{
    let mut i: usize = 0;
    while i < lines.len()
        invariant
            i <= lines.len(),
            forall|k: int| 0 <= k < i ==> !is_blank(#[trigger] lines@[k].general_account@),
        decreases lines.len() - i,
    {
        if is_blank_str(lines[i].general_account.as_str()) {
            return true;
        }
        i = i + 1;
    }
    false
}

/// `validate_canonical_batch`.
pub fn validate_canonical_batch(batch: &PostingBatch) -> (r: Result<(), String>)
    ensures
        match canonical_error(*batch) {
            Some(m) => r matches Err(e) && e@ == m,
            None => r is Ok,
        },
{
    if batch.lines.len() == 0 {
        return Err(String::from_str("Posting batch has no lines"));
    }
    if batch.total_debit != batch.total_credit {
        return Err(String::from_str("Posting batch is not balanced"));
    }
    if any_blank_account(&batch.lines) {
        return Err(String::from_str("Every posting line requires a general account"));
    }
    Ok(())
}

/// The accounting packages a batch can be prepared for.
#[derive(Clone, Copy, Debug, PartialEq, Eq, Structural)]
pub enum AdapterKind {
    Neutral,
    Sage100,
    Sage1000,
}

pub open spec fn adapter_named(t: Seq<char>) -> AdapterKind {
    let l = ascii_lower(trim(t));
    if l == "sage100"@ {
        AdapterKind::Sage100
    } else if l == "sage1000"@ {
        AdapterKind::Sage1000
    } else {
        AdapterKind::Neutral
    }
}

/// `adapter_for`: the adapter an integration profile names, neutral unless
/// it names a Sage package.
pub fn adapter_for(adapter_type: &str) -> (r: AdapterKind)
    ensures
        r == adapter_named(adapter_type@),
{
    let l = to_ascii_lowercase(trim_str(adapter_type).as_str());
    if str_eq(l.as_str(), "sage100") {
        AdapterKind::Sage100
    } else if str_eq(l.as_str(), "sage1000") {
        AdapterKind::Sage1000
    } else {
        AdapterKind::Neutral
    }
}

impl AdapterKind {
    pub open spec fn kind_name(self) -> Seq<char> {
        match self {
            AdapterKind::Neutral => "neutral"@,
            AdapterKind::Sage100 => "sage100"@,
            AdapterKind::Sage1000 => "sage1000"@,
        }
    }

    pub fn adapter_type(&self) -> (r: &'static str)
        ensures
            r@ == self.kind_name(),
    {
        match self {
            AdapterKind::Neutral => "neutral",
            AdapterKind::Sage100 => "sage100",
            AdapterKind::Sage1000 => "sage1000",
        }
    }

    /// The format a Sage package declares; the neutral package declares none.
    pub fn package_format(&self) -> (r: Option<&'static str>)
        ensures
            self == AdapterKind::Neutral ==> r is None,
            self == AdapterKind::Sage100 ==> (r matches Some(f) && f@ == "sage100-neutral-v1"@),
            self == AdapterKind::Sage1000 ==> (r matches Some(f) && f@ == "sage1000-neutral-v1"@),
    {
        match self {
            AdapterKind::Neutral => None,
            AdapterKind::Sage100 => Some("sage100-neutral-v1"),
            AdapterKind::Sage1000 => Some("sage1000-neutral-v1"),
        }
    }

    /// Whether a package is sent to the accounting package: never, packages
    /// are prepared for a person to check first.
    pub fn delivery_enabled(&self) -> (b: bool)
        ensures
            !b,
    {
        false
    }

    /// The field names a package suggests for the target tables, as pairs
    /// of a canonical field and a column.
    pub open spec fn field_candidates_spec(self) -> Seq<(Seq<char>, Seq<char>)> {
        match self {
            AdapterKind::Neutral => seq![],
            AdapterKind::Sage100 => seq![
                ("date"@, "EC_Date"@),
                ("journal"@, "JO_Num"@),
                ("account"@, "CG_Num"@),
                ("auxiliary_account"@, "CT_Num"@),
                ("label"@, "EC_Intitule"@),
                ("piece"@, "EC_Piece"@),
                ("reference"@, "EC_RefPiece"@),
                ("amount"@, "EC_Montant"@),
                ("direction"@, "EC_Sens"@),
            ],
            AdapterKind::Sage1000 => seq![
                ("date"@, "TECRITURE.eDate"@),
                ("general_account"@, "TECRITURE.oidcompteGeneral"@),
                ("auxiliary_account"@, "TECRITURE.oidroleTiers"@),
                ("piece"@, "TPIECE.numero"@),
                ("reference"@, "TPIECE.reference"@),
                ("debit"@, "TECRITURE.debit"@),
                ("credit"@, "TECRITURE.credit"@),
                ("journal"@, "UNKNOWN"@),
            ],
        }
    }

    /// The package prepared for a batch: the neutral package is the batch
    /// alone; the Sage packages add their format, delivery switched off, and
    /// the target columns.
    pub fn build_package<'a>(&self, batch: &'a PostingBatch) -> (r: PostingPackage<'a>)
        ensures
            r.canonical_batch == batch,
            self == AdapterKind::Neutral ==> r.format is None,
            self == AdapterKind::Sage100 ==> (r.format matches Some(f) && f@ == "sage100-neutral-v1"@),
            self == AdapterKind::Sage1000 ==> (r.format matches Some(f) && f@ == "sage1000-neutral-v1"@),
            r.delivery_enabled == (match self {
                AdapterKind::Neutral => None,
                _ => Some(false),
            }),
            candidate_views(r.field_candidates@) == self.field_candidates_spec(),
    {
        let mut c: Vec<(&'static str, &'static str)> = Vec::new();
        match self {
            AdapterKind::Neutral => {},
            AdapterKind::Sage100 => {
                c.push(("date", "EC_Date"));
                c.push(("journal", "JO_Num"));
                c.push(("account", "CG_Num"));
                c.push(("auxiliary_account", "CT_Num"));
                c.push(("label", "EC_Intitule"));
                c.push(("piece", "EC_Piece"));
                c.push(("reference", "EC_RefPiece"));
                c.push(("amount", "EC_Montant"));
                c.push(("direction", "EC_Sens"));
            },
            AdapterKind::Sage1000 => {
                c.push(("date", "TECRITURE.eDate"));
                c.push(("general_account", "TECRITURE.oidcompteGeneral"));
                c.push(("auxiliary_account", "TECRITURE.oidroleTiers"));
                c.push(("piece", "TPIECE.numero"));
                c.push(("reference", "TPIECE.reference"));
                c.push(("debit", "TECRITURE.debit"));
                c.push(("credit", "TECRITURE.credit"));
                c.push(("journal", "UNKNOWN"));
            },
        }
        assert(candidate_views(c@) =~= self.field_candidates_spec());
        let delivery_enabled = match self {
            AdapterKind::Neutral => None,
            _ => Some(self.delivery_enabled()),
        };
        PostingPackage { format: self.package_format(), delivery_enabled, field_candidates: c, canonical_batch: batch }
    }

    /// The first failed check of a batch for this package: the canonical
    /// checks, then Sage 100's journal and piece, or Sage 1000's piece.
    pub open spec fn package_error(self, b: PostingBatch) -> Option<Seq<char>> {
        match canonical_error(b) {
            Some(m) => Some(m),
            None => match self {
                AdapterKind::Neutral => None,
                AdapterKind::Sage100 => if is_blank(b.journal_code@) || is_blank(b.piece_number@) {
                    Some("Sage 100 packages require journal and piece numbers"@)
                } else {
                    None
                },
                AdapterKind::Sage1000 => if is_blank(b.piece_number@) {
                    Some("Sage 1000 packages require a piece number"@)
                } else {
                    None
                },
            },
        }
    }

    /// The adapter's `validate`.
    pub fn validate(&self, batch: &PostingBatch) -> (r: Result<(), String>)
        ensures
            match self.package_error(*batch) {
                Some(m) => r matches Err(e) && e@ == m,
                None => r is Ok,
            },
    {
        match validate_canonical_batch(batch) {
            Err(e) => {
                return Err(e);
            },
            Ok(()) => {},
        }
        match self {
            AdapterKind::Neutral => Ok(()),
            AdapterKind::Sage100 => {
                if is_blank_str(batch.journal_code.as_str()) || is_blank_str(
                    batch.piece_number.as_str(),
                ) {
                    Err(String::from_str("Sage 100 packages require journal and piece numbers"))
                } else {
                    Ok(())
                }
            },
            AdapterKind::Sage1000 => {
                if is_blank_str(batch.piece_number.as_str()) {
                    Err(String::from_str("Sage 1000 packages require a piece number"))
                } else {
                    Ok(())
                }
            },
        }
    }
}

// ---------------------------------------------------------------------------
// Codes
// ---------------------------------------------------------------------------

pub open spec fn prefix_of(document_type: Seq<char>) -> Seq<char> {
    if document_type == "Devis"@ {
        "DEV"@
    } else if document_type == "Avoir"@ {
        "AVO"@
    } else if document_type == "Commande"@ {
        "CMD"@
    } else {
        "FAC"@
    }
}

/// `prefix`: the numbering prefix of a document type; invoices and anything
/// unknown number as `FAC`.
pub fn prefix(document_type: &str) -> (r: &'static str)
    ensures
        r@ == prefix_of(document_type@),
{
    if str_eq(document_type, "Devis") {
        "DEV"
    } else if str_eq(document_type, "Avoir") {
        "AVO"
    } else if str_eq(document_type, "Commande") {
        "CMD"
    } else {
        "FAC"
    }
}

/// The tax code of a rate given in hundredths of a percent: `TVA18` for a
/// whole rate, `TVA18_50` otherwise.
pub open spec fn tax_code_text(rate: int) -> Seq<char> {
    let a = if rate < 0 {
        -rate
    } else {
        rate
    };
    let sign = if rate < 0 {
        seq!['-']
    } else {
        seq![]
    };
    if a % 100 == 0 {
        "TVA"@ + sign + dec((a / 100) as nat)
    } else {
        "TVA"@ + sign + dec((a / 100) as nat) + seq!['_'] + pad_left(dec((a % 100) as nat), 2, '0')
    }
}

/// `tax_code_for_rate`, the rate in hundredths of a percent.
pub fn tax_code_for_rate(rate_hundredths: i64) -> (r: String)
    requires
        rate_hundredths > i64::MIN,
    ensures
        r@ == tax_code_text(rate_hundredths as int),
{
    let a: u64 = if rate_hundredths < 0 {
        (-rate_hundredths) as u64
    } else {
        rate_hundredths as u64
    };
    let mut r = String::from_str("TVA");
    if rate_hundredths < 0 {
        push_char(&mut r, '-');
    }
    r.append(u64_to_string(a / 100).as_str());
    if a % 100 != 0 {
        push_char(&mut r, '_');
        let cents = a % 100;
        if cents < 10 {
            push_char(&mut r, '0');
        }
        r.append(u64_to_string(cents).as_str());
        proof {
            if cents < 10 {
                assert(dec(cents as nat).len() == 1);
            } else {
                assert(dec(cents as nat).len() == 2) by {
                    assert(dec((cents / 10) as nat).len() == 1);
                }
            }
        }
    }
    proof {
        let s = if rate_hundredths < 0 { seq!['-'] } else { seq![] };
        if a % 100 != 0 {
            let c = (a % 100) as nat;
            assert(pad_left(dec(c), 2, '0') =~= if c < 10 { seq!['0'] + dec(c) } else { dec(c) });
        }
    }
    r
}

/// `non_empty_or`.
pub fn non_empty_or(value: String, fallback: String) -> (r: String)
    ensures
        r@ == (if value@.len() == 0 {
            fallback@
        } else {
            value@
        }),
{
    if value.as_str().is_empty() {
        fallback
    } else {
        value
    }
}

pub open spec fn is_ascii_digit(c: char) -> bool {
    '0' <= c && c <= '9'
}

/// A revenue account: at least six digits, starting with 7, once trimmed.
pub open spec fn revenue_account_like(code: Seq<char>) -> bool {
    let t = trim(code);
    t.len() >= 6 && t[0] == '7' && forall|i: int| 0 <= i < t.len() ==> is_ascii_digit(#[trigger] t[i])
}

/// `looks_like_revenue_account`.
pub fn looks_like_revenue_account(code: &str) -> (b: bool)
    ensures
        b == revenue_account_like(code@),
{
    let trimmed = trim_str(code);
    let v = chars_of(trimmed.as_str());
    if v.len() < 6 || v[0] != '7' {
        return false;
    }
    let mut i: usize = 0;
    while i < v.len()
        invariant
            i <= v.len(),
            v@ == trim(code@),
            forall|k: int| 0 <= k < i ==> is_ascii_digit(#[trigger] v@[k]),
        decreases v.len() - i,
    {
        if !('0' <= v[i] && v[i] <= '9') {
            return false;
        }
        i = i + 1;
    }
    true
}

// ---------------------------------------------------------------------------
// Posting lines from an accounting schema
// ---------------------------------------------------------------------------

/// The header of a commercial document, amounts in cents.
pub struct BridgeDocumentSummary {
    pub id: String,
    pub document_type: String,
    pub number: String,
    pub status: String,
    pub document_date: String,
    pub due_date: String,
    pub partner_code: String,
    pub partner_name: String,
    pub currency: String,
    pub total_ht: i64,
    pub total_tax: i64,
    pub total_ttc: i64,
    pub source_document_id: String,
}

/// A document line with the accounts its validation resolved.
pub struct ResolvedDocumentLine {
    pub line_id: String,
    pub line_no: i32,
    pub revenue_account: String,
    pub tax_account: String,
    pub amount_ht: i64,
    pub tax_amount: i64,
}

/// What a validated invoice froze for its posting.
pub struct ResolvedDocumentContext {
    pub schema_id: String,
    pub schema_code: String,
    pub journal_code: String,
    pub partner_account: String,
    pub lines: Vec<ResolvedDocumentLine>,
}

/// One active line of an accounting schema.
pub struct SchemaLine {
    pub posting_role: String,
    pub debit_credit: String,
    pub amount_basis: String,
    pub account_source: String,
    pub fixed_account: String,
    pub auxiliary_source: String,
}

/// Code-point order of texts, which is the byte order of their UTF-8 forms
/// (the order of `String` keys in a `BTreeMap`).
pub open spec fn text_less(a: Seq<char>, b: Seq<char>) -> bool
    decreases a.len(),
{
    if a.len() == 0 {
        b.len() > 0
    } else if b.len() == 0 {
        false
    } else if a[0] != b[0] {
        (a[0] as u32) < (b[0] as u32)
    } else {
        text_less(a.drop_first(), b.drop_first())
    }
}

pub(crate) fn text_less_exec(a: &str, b: &str) -> (r: bool)
    ensures
        r == text_less(a@, b@),
{
    let av = chars_of(a);
    let bv = chars_of(b);
    let mut i: usize = 0;
    assert(a@.skip(0) =~= a@);
    assert(b@.skip(0) =~= b@);
    while i < av.len() && i < bv.len() && av[i] == bv[i]
        invariant
            i <= av.len(),
            i <= bv.len(),
            av@ == a@,
            bv@ == b@,
            text_less(a@, b@) == text_less(a@.skip(i as int), b@.skip(i as int)),
        decreases av.len() - i,
    {
        assert(a@.skip(i as int).drop_first() =~= a@.skip(i + 1));
        assert(b@.skip(i as int).drop_first() =~= b@.skip(i + 1));
        i = i + 1;
    }
    if i == av.len() {
        assert(a@.skip(i as int).len() == 0);
        i < bv.len()
    } else if i == bv.len() {
        false
    } else {
        assert(a@.skip(i as int)[0] == av@[i as int]);
        assert(b@.skip(i as int)[0] == bv@[i as int]);
        (av[i] as u32) < (bv[i] as u32)
    }
}

/// An amount added under an account of a running grouping ordered by
/// account: added to the account's total, or a new account in its place.
pub open spec fn group_add(g: Seq<(Seq<char>, int)>, account: Seq<char>, amount: int) -> Seq<(Seq<char>, int)>
    decreases g.len(),
{
    if g.len() == 0 {
        seq![(account, amount)]
    } else if g[0].0 == account {
        g.update(0, (account, g[0].1 + amount))
    } else if text_less(account, g[0].0) {
        seq![(account, amount)] + g
    } else {
        seq![g[0]] + group_add(g.drop_first(), account, amount)
    }
}

/// The account and amount a document line contributes to a basis: its
/// revenue account and amount before tax, or its tax account and tax.
pub open spec fn line_entry(l: ResolvedDocumentLine, before_tax: bool) -> (Seq<char>, int) {
    if before_tax {
        (l.revenue_account@, l.amount_ht as int)
    } else {
        (l.tax_account@, l.tax_amount as int)
    }
}

/// The non-zero amounts of the lines totalled by account, accounts in order.
pub open spec fn grouped(lines: Seq<ResolvedDocumentLine>, before_tax: bool) -> Seq<(Seq<char>, int)>
    decreases lines.len(),
{
    if lines.len() == 0 {
        seq![]
    } else {
        let g = grouped(lines.drop_last(), before_tax);
        let e = line_entry(lines.last(), before_tax);
        if e.1 != 0 {
            group_add(g, e.0, e.1)
        } else {
            g
        }
    }
}

pub open spec fn group_total(g: Seq<(Seq<char>, int)>) -> int
    decreases g.len(),
{
    if g.len() == 0 {
        0
    } else {
        group_total(g.drop_last()) + g.last().1
    }
}

/// The total of a basis over the document lines.
pub open spec fn lines_total(lines: Seq<ResolvedDocumentLine>, before_tax: bool) -> int
    decreases lines.len(),
{
    if lines.len() == 0 {
        0
    } else {
        lines_total(lines.drop_last(), before_tax) + line_entry(lines.last(), before_tax).1
    }
}

/// The absolute amounts of the lines, both bases.
pub open spec fn lines_magnitude(lines: Seq<ResolvedDocumentLine>) -> int
    decreases lines.len(),
{
    if lines.len() == 0 {
        0
    } else {
        let l = lines.last();
        lines_magnitude(lines.drop_last()) + (if l.amount_ht < 0 {
            -l.amount_ht
        } else {
            l.amount_ht as int
        }) + (if l.tax_amount < 0 {
            -l.tax_amount
        } else {
            l.tax_amount as int
        })
    }
}

proof fn lemma_group_total_first(g: Seq<(Seq<char>, int)>)
    requires
        g.len() > 0,
    ensures
        group_total(g) == g[0].1 + group_total(g.drop_first()),
    decreases g.len(),
{
    if g.len() > 1 {
        lemma_group_total_first(g.drop_last());
        assert(g.drop_last().drop_first() =~= g.drop_first().drop_last());
        assert(g.drop_first().last() == g.last());
        assert(g.drop_last()[0] == g[0]);
    } else {
        assert(g.drop_first() =~= Seq::<(Seq<char>, int)>::empty());
        assert(g.drop_last() =~= Seq::<(Seq<char>, int)>::empty());
        assert(group_total(Seq::<(Seq<char>, int)>::empty()) == 0);
    }
}

proof fn lemma_group_total_prepend(x: (Seq<char>, int), g: Seq<(Seq<char>, int)>)
    ensures
        group_total(seq![x] + g) == x.1 + group_total(g),
{
    let s = seq![x] + g;
    lemma_group_total_first(s);
    assert(s.drop_first() =~= g);
}

/// Adding to a grouping adds to its total.
proof fn lemma_group_add_total(g: Seq<(Seq<char>, int)>, account: Seq<char>, amount: int)
    ensures
        group_total(group_add(g, account, amount)) == group_total(g) + amount,
    decreases g.len(),
{
    if g.len() == 0 {
        assert(group_total(seq![(account, amount)]) == amount) by {
            assert(seq![(account, amount)].drop_last() =~= Seq::<(Seq<char>, int)>::empty());
            assert(group_total(Seq::<(Seq<char>, int)>::empty()) == 0);
        }
    } else if g[0].0 == account {
        let u = g.update(0, (account, g[0].1 + amount));
        lemma_group_total_first(g);
        lemma_group_total_first(u);
        assert(u.drop_first() =~= g.drop_first());
    } else if text_less(account, g[0].0) {
        lemma_group_total_prepend((account, amount), g);
    } else {
        lemma_group_add_total(g.drop_first(), account, amount);
        lemma_group_total_prepend(g[0], group_add(g.drop_first(), account, amount));
        lemma_group_total_first(g);
    }
}

/// Grouping by account keeps the total of the lines.
pub proof fn lemma_grouped_total(lines: Seq<ResolvedDocumentLine>, before_tax: bool)
    ensures
        group_total(grouped(lines, before_tax)) == lines_total(lines, before_tax),
    decreases lines.len(),
{
    if lines.len() > 0 {
        lemma_grouped_total(lines.drop_last(), before_tax);
        let e = line_entry(lines.last(), before_tax);
        if e.1 != 0 {
            lemma_group_add_total(grouped(lines.drop_last(), before_tax), e.0, e.1);
        }
    }
}

pub open spec fn group_view(v: Seq<(String, i64)>) -> Seq<(Seq<char>, int)> {
    v.map_values(|p: (String, i64)| (p.0@, p.1 as int))
}

proof fn lemma_group_add_skip(g: Seq<(Seq<char>, int)>, i: int, account: Seq<char>, amount: int)
    requires
        0 <= i < g.len(),
        g[i].0 != account,
        !text_less(account, g[i].0),
    ensures
        group_add(g.skip(i), account, amount) == seq![g[i]] + group_add(g.skip(i + 1), account, amount),
{
    assert(g.skip(i).drop_first() =~= g.skip(i + 1));
}

/// Adds an amount under an account of a grouping ordered by account.
fn group_add_exec(g: &mut Vec<(String, i64)>, account: &str, amount: i64)
    requires
        forall|k: int| 0 <= k < old(g)@.len() ==> (#[trigger] old(g)@[k]).0@ == account@ ==>
            i64::MIN <= old(g)@[k].1 + amount <= i64::MAX,
    ensures
        group_view(final(g)@) == group_add(group_view(old(g)@), account@, amount as int),
{
    let ghost start = group_view(g@);
    let mut i: usize = 0;
    assert(start.skip(0) =~= start);
    while i < g.len()
        invariant
            i <= g.len(),
            g@ == old(g)@,
            start == group_view(old(g)@),
            forall|k: int| 0 <= k < old(g)@.len() ==> (#[trigger] old(g)@[k]).0@ == account@ ==>
                i64::MIN <= old(g)@[k].1 + amount <= i64::MAX,
            group_add(start, account@, amount as int) == start.take(i as int) + group_add(
                start.skip(i as int),
                account@,
                amount as int,
            ),
        decreases g.len() - i,
    {
        assert(start[i as int] == (g@[i as int].0@, g@[i as int].1 as int));
        assert(start.skip(i as int)[0] == start[i as int]);
        if str_eq(g[i].0.as_str(), account) {
            let total = g[i].1 + amount;
            let ghost before = g@;
            let name = String::from_str(account);
            g.set(i, (name, total));
            proof {
                let sk = start.skip(i as int);
                assert(group_add(sk, account@, amount as int) =~= sk.update(0, (account@, sk[0].1 + amount)));
                assert(group_view(g@) =~= start.take(i as int) + sk.update(0, (account@, sk[0].1 + amount)));
            }
            return;
        }
        if text_less_exec(account, g[i].0.as_str()) {
            let name = String::from_str(account);
            g.insert(i, (name, amount));
            proof {
                let sk = start.skip(i as int);
                assert(group_add(sk, account@, amount as int) =~= seq![(account@, amount as int)] + sk);
                assert(group_view(g@) =~= start.take(i as int) + (seq![(account@, amount as int)] + sk));
            }
            return;
        }
        proof {
            lemma_group_add_skip(start, i as int, account@, amount as int);
            assert(start.take(i as int) + (seq![start[i as int]] + group_add(start.skip(i + 1), account@, amount as int))
                =~= start.take(i + 1) + group_add(start.skip(i + 1), account@, amount as int));
        }
        i = i + 1;
    }
    let name = String::from_str(account);
    g.push((name, amount));
    proof {
        assert(start.skip(i as int) =~= Seq::<(Seq<char>, int)>::empty());
        assert(start.take(i as int) =~= start);
        assert(group_view(g@) =~= start + seq![(account@, amount as int)]);
    }
}

/// Every running total of a grouping stays within the lines' magnitude.
pub open spec fn group_bounded(g: Seq<(Seq<char>, int)>, bound: int) -> bool {
    forall|k: int| 0 <= k < g.len() ==> -bound <= (#[trigger] g[k]).1 <= bound
}

proof fn lemma_group_add_bounded(g: Seq<(Seq<char>, int)>, account: Seq<char>, amount: int, bound: int)
    requires
        group_bounded(g, bound),
        bound >= 0,
    ensures
        group_bounded(group_add(g, account, amount), bound + (if amount < 0 { -amount } else { amount })),
    decreases g.len(),
{
    let a = if amount < 0 { -amount } else { amount };
    if g.len() == 0 {
    } else if g[0].0 == account {
    } else if text_less(account, g[0].0) {
        let r = seq![(account, amount)] + g;
        assert forall|k: int| 0 <= k < r.len() implies -(bound + a) <= (#[trigger] r[k]).1 <= bound + a by {
            if k > 0 {
                assert(r[k] == g[k - 1]);
            }
        }
    } else {
        lemma_group_add_bounded(g.drop_first(), account, amount, bound);
        let rest = group_add(g.drop_first(), account, amount);
        let r = seq![g[0]] + rest;
        assert forall|k: int| 0 <= k < r.len() implies -(bound + a) <= (#[trigger] r[k]).1 <= bound + a by {
            if k > 0 {
                assert(r[k] == rest[k - 1]);
            }
        }
    }
}

proof fn lemma_grouped_bounded(lines: Seq<ResolvedDocumentLine>, before_tax: bool)
    ensures
        group_bounded(grouped(lines, before_tax), lines_magnitude(lines)),
        lines_magnitude(lines) >= 0,
    decreases lines.len(),
{
    if lines.len() > 0 {
        lemma_grouped_bounded(lines.drop_last(), before_tax);
        let g = grouped(lines.drop_last(), before_tax);
        let m = lines_magnitude(lines.drop_last());
        let e = line_entry(lines.last(), before_tax);
        if e.1 != 0 {
            lemma_group_add_bounded(g, e.0, e.1, m);
        }
        let l = lines.last();
        let ah = if l.amount_ht < 0 { -l.amount_ht } else { l.amount_ht as int };
        let at = if l.tax_amount < 0 { -l.tax_amount } else { l.tax_amount as int };
        let ea = if e.1 < 0 { -e.1 } else { e.1 };
        assert(ea <= ah + at);
        let r = grouped(lines, before_tax);
        assert forall|k: int| 0 <= k < r.len() implies -lines_magnitude(lines) <= (#[trigger] r[k]).1
            <= lines_magnitude(lines) by {
        }
    }
}

proof fn lemma_magnitude_prefix(lines: Seq<ResolvedDocumentLine>, i: int)
    requires
        0 <= i <= lines.len(),
    ensures
        lines_magnitude(lines.take(i)) <= lines_magnitude(lines),
        lines_magnitude(lines.take(i)) >= 0,
    decreases lines.len() - i,
{
    if i < lines.len() {
        lemma_magnitude_prefix(lines, i + 1);
        assert(lines.take(i + 1).drop_last() =~= lines.take(i));
        lemma_grouped_bounded(lines.take(i), true);
    } else {
        assert(lines.take(i) =~= lines);
        lemma_grouped_bounded(lines, true);
    }
}

/// The document lines totalled by account for one basis, accounts in
/// order (`BTreeMap` grouping).
pub fn group_by_account(lines: &Vec<ResolvedDocumentLine>, before_tax: bool) -> (r: Vec<(String, i64)>)
    requires
        lines_magnitude(lines@) <= i64::MAX,
    ensures
        group_view(r@) == grouped(lines@, before_tax),
{
    let mut g: Vec<(String, i64)> = Vec::new();
    let mut i: usize = 0;
    while i < lines.len()
        invariant
            i <= lines.len(),
            lines_magnitude(lines@) <= i64::MAX,
            group_view(g@) == grouped(lines@.take(i as int), before_tax),
        decreases lines.len() - i,
    {
        let ghost prefix = lines@.take(i + 1);
        assert(prefix.drop_last() =~= lines@.take(i as int));
        let line = &lines[i];
        let (account, amount) = if before_tax {
            (line.revenue_account.as_str(), line.amount_ht)
        } else {
            (line.tax_account.as_str(), line.tax_amount)
        };
        if amount != 0 {
            proof {
                lemma_grouped_bounded(lines@.take(i as int), before_tax);
                lemma_magnitude_prefix(lines@, i + 1);
                let m = lines_magnitude(lines@.take(i as int));
                assert(lines_magnitude(prefix) == m + (if line.amount_ht < 0 { -line.amount_ht } else { line.amount_ht as int })
                    + (if line.tax_amount < 0 { -line.tax_amount } else { line.tax_amount as int }));
                assert forall|k: int| 0 <= k < g@.len() implies (#[trigger] g@[k]).0@ == account@ ==>
                    i64::MIN <= g@[k].1 + amount <= i64::MAX by {
                    assert(group_view(g@)[k] == (g@[k].0@, g@[k].1 as int));
                }
            }
            group_add_exec(&mut g, account, amount);
        }
        i = i + 1;
    }
    assert(lines@.take(lines.len() as int) =~= lines@);
    g
}

proof fn lemma_group_add_len(g: Seq<(Seq<char>, int)>, account: Seq<char>, amount: int)
    ensures
        group_add(g, account, amount).len() <= g.len() + 1,
    decreases g.len(),
{
    if g.len() > 0 && g[0].0 != account && !text_less(account, g[0].0) {
        lemma_group_add_len(g.drop_first(), account, amount);
    }
}

proof fn lemma_grouped_len(lines: Seq<ResolvedDocumentLine>, before_tax: bool)
    ensures
        grouped(lines, before_tax).len() <= lines.len(),
    decreases lines.len(),
{
    if lines.len() > 0 {
        lemma_grouped_len(lines.drop_last(), before_tax);
        let e = line_entry(lines.last(), before_tax);
        if e.1 != 0 {
            lemma_group_add_len(grouped(lines.drop_last(), before_tax), e.0, e.1);
        }
    }
}

/// The lines after a schema role books each account of a grouping in turn.
pub open spec fn push_groups(
    out: Seq<LineView>,
    role: Seq<char>,
    side: Seq<char>,
    label: Seq<char>,
    g: Seq<(Seq<char>, int)>,
) -> Result<Seq<LineView>, Seq<char>>
    decreases g.len(),
{
    if g.len() == 0 {
        Ok(out)
    } else {
        match push_groups(out, role, side, label, g.drop_last()) {
            Ok(o) => push_view(o, role, side, g.last().0, seq![], label, g.last().1),
            Err(e) => Err(e),
        }
    }
}

pub open spec fn quoted_error(prefix: Seq<char>, value: Seq<char>) -> Seq<char> {
    prefix + value + seq!['\'']
}

/// What one schema line of an invoice books.
pub open spec fn invoice_step(
    out: Seq<LineView>,
    sl: SchemaLine,
    doc: BridgeDocumentSummary,
    ctx: ResolvedDocumentContext,
) -> Result<Seq<LineView>, Seq<char>> {
    let role = sl.posting_role@;
    let side = sl.debit_credit@;
    let basis = sl.amount_basis@;
    let label = role + seq![' '] + doc.number@;
    if basis == "document_total_ttc"@ {
        let src = sl.account_source@;
        if src == "CUSTOMER_COLLECTIVE_ACCOUNT"@ || src == "FIXED_ACCOUNT"@ {
            let account = if src == "CUSTOMER_COLLECTIVE_ACCOUNT"@ {
                ctx.partner_account@
            } else {
                sl.fixed_account@
            };
            let aux = if sl.auxiliary_source@ == "PARTNER_CODE"@ {
                doc.partner_code@
            } else {
                seq![]
            };
            push_view(out, role, side, account, aux, label, doc.total_ttc as int)
        } else {
            Err(quoted_error("Unsupported document account source '"@, src))
        }
    } else if basis == "line_amount_ht"@ || basis == "line_tax_amount"@ {
        push_groups(out, role, side, label, grouped(ctx.lines@, basis == "line_amount_ht"@))
    } else {
        Err(quoted_error("Unsupported invoice amount basis '"@, basis))
    }
}

pub open spec fn invoice_fold(
    sls: Seq<SchemaLine>,
    doc: BridgeDocumentSummary,
    ctx: ResolvedDocumentContext,
) -> Result<Seq<LineView>, Seq<char>>
    decreases sls.len(),
{
    if sls.len() == 0 {
        Ok(seq![])
    } else {
        match invoice_fold(sls.drop_last(), doc, ctx) {
            Ok(o) => invoice_step(o, sls.last(), doc, ctx),
            Err(e) => Err(e),
        }
    }
}

/// The posting lines of an invoice: its schema's lines booked in order, the
/// first error stopping it; a schema without lines is an error.
pub open spec fn invoice_posting(
    sls: Seq<SchemaLine>,
    doc: BridgeDocumentSummary,
    ctx: ResolvedDocumentContext,
) -> Result<Seq<LineView>, Seq<char>> {
    if sls.len() == 0 {
        Err("Accounting schema '"@ + ctx.schema_code@ + "' has no active lines"@)
    } else {
        invoice_fold(sls, doc, ctx)
    }
}

fn quoted(prefix: &str, value: &str) -> (r: String)
    ensures
        r@ == quoted_error(prefix@, value@),
{
    let mut r = String::from_str(prefix);
    r.append(value);
    push_char(&mut r, '\'');
    r
}

fn push_grouped(
    output: &mut Vec<PostingLine>,
    role: &str,
    side: &str,
    label: &str,
    groups: &Vec<(String, i64)>,
) -> (r: Result<(), String>)
    requires
        old(output)@.len() + groups@.len() < i32::MAX,
    ensures
        match r {
            Ok(()) => push_groups(line_views(old(output)@), role@, side@, label@, group_view(groups@))
                == Ok::<Seq<LineView>, Seq<char>>(line_views(final(output)@)),
            Err(e) => push_groups(line_views(old(output)@), role@, side@, label@, group_view(groups@))
                == Err::<Seq<LineView>, Seq<char>>(e@),
        },
        final(output)@.len() <= old(output)@.len() + groups@.len(),
{
    let ghost start = line_views(output@);
    let mut j: usize = 0;
    assert(group_view(groups@).take(0) =~= Seq::<(Seq<char>, int)>::empty());
    while j < groups.len()
        invariant
            j <= groups.len(),
            output@.len() <= old(output)@.len() + j,
            old(output)@.len() + groups@.len() < i32::MAX,
            start == line_views(old(output)@),
            push_groups(start, role@, side@, label@, group_view(groups@).take(j as int))
                == Ok::<Seq<LineView>, Seq<char>>(line_views(output@)),
        decreases groups.len() - j,
    {
        let ghost gp = group_view(groups@).take(j + 1);
        assert(gp.drop_last() =~= group_view(groups@).take(j as int));
        assert(gp.last() == (groups@[j as int].0@, groups@[j as int].1 as int));
        let account = String::from_str(groups[j].0.as_str());
        match push_schema_posting_line(
            output,
            role,
            side,
            account,
            String::new(),
            String::from_str(label),
            groups[j].1,
        ) {
            Ok(()) => {},
            Err(e) => {
                proof {
                    lemma_push_groups_err_extends(start, role@, side@, label@, group_view(groups@), j + 1);
                }
                return Err(e);
            },
        }
        j = j + 1;
    }
    assert(group_view(groups@).take(groups.len() as int) =~= group_view(groups@));
    Ok(())
}

proof fn lemma_push_groups_err_extends(
    out: Seq<LineView>,
    role: Seq<char>,
    side: Seq<char>,
    label: Seq<char>,
    g: Seq<(Seq<char>, int)>,
    j: int,
)
    requires
        0 <= j <= g.len(),
        push_groups(out, role, side, label, g.take(j)) is Err,
    ensures
        push_groups(out, role, side, label, g) == push_groups(out, role, side, label, g.take(j)),
    decreases g.len() - j,
{
    if j < g.len() {
        let t = g.take(j + 1);
        assert(t.drop_last() =~= g.take(j));
        lemma_push_groups_err_extends(out, role, side, label, g, j + 1);
    } else {
        assert(g.take(j) =~= g);
    }
}

fn invoice_step_exec(
    output: &mut Vec<PostingLine>,
    sl: &SchemaLine,
    document: &BridgeDocumentSummary,
    context: &ResolvedDocumentContext,
) -> (r: Result<(), String>)
    requires
        lines_magnitude(context.lines@) <= i64::MAX,
        old(output)@.len() + context.lines@.len() + 1 < i32::MAX,
    ensures
        match r {
            Ok(()) => invoice_step(line_views(old(output)@), *sl, *document, *context)
                == Ok::<Seq<LineView>, Seq<char>>(line_views(final(output)@)),
            Err(e) => invoice_step(line_views(old(output)@), *sl, *document, *context)
                == Err::<Seq<LineView>, Seq<char>>(e@),
        },
        final(output)@.len() <= old(output)@.len() + context.lines@.len() + 1,
{
    let role = sl.posting_role.as_str();
    let side = sl.debit_credit.as_str();
    let basis = sl.amount_basis.as_str();
    let mut label = String::from_str(role);
    push_char(&mut label, ' ');
    label.append(document.number.as_str());
    assert(label@ =~= role@ + seq![' '] + document.number@);
    if str_eq(basis, "document_total_ttc") {
        let src = sl.account_source.as_str();
        let account = if str_eq(src, "CUSTOMER_COLLECTIVE_ACCOUNT") {
            String::from_str(context.partner_account.as_str())
        } else if str_eq(src, "FIXED_ACCOUNT") {
            String::from_str(sl.fixed_account.as_str())
        } else {
            return Err(quoted("Unsupported document account source '", src));
        };
        let aux = if str_eq(sl.auxiliary_source.as_str(), "PARTNER_CODE") {
            String::from_str(document.partner_code.as_str())
        } else {
            String::new()
        };
        let r = push_schema_posting_line(output, role, side, account, aux, label, document.total_ttc);
        assert(invoice_step(line_views(old(output)@), *sl, *document, *context) == push_view(
            line_views(old(output)@), role@, side@, account@, aux@, label@, document.total_ttc as int));
        r
    } else if str_eq(basis, "line_amount_ht") || str_eq(basis, "line_tax_amount") {
        let groups = group_by_account(&context.lines, str_eq(basis, "line_amount_ht"));
        proof {
            lemma_grouped_len(context.lines@, basis@ == "line_amount_ht"@);
        }
        let r = push_grouped(output, role, side, label.as_str(), &groups);
        assert(invoice_step(line_views(old(output)@), *sl, *document, *context) == push_groups(
            line_views(old(output)@), role@, side@, label@, group_view(groups@)));
        r
    } else {
        Err(quoted("Unsupported invoice amount basis '", basis))
    }
}

/// The lines an invoice posting books, from its accounting schema's lines,
/// the document and what its validation froze (see `invoice_posting`).
pub fn invoice_lines_from_schema(
    schema_lines: &Vec<SchemaLine>,
    document: &BridgeDocumentSummary,
    context: &ResolvedDocumentContext,
) -> (r: Result<Vec<PostingLine>, String>)
    requires
        lines_magnitude(context.lines@) <= i64::MAX,
        schema_lines@.len() * (context.lines@.len() + 1) + context.lines@.len() + 1 < i32::MAX,
    ensures
        match r {
            Ok(v) => invoice_posting(schema_lines@, *document, *context) == Ok::<Seq<LineView>, Seq<char>>(
                line_views(v@),
            ),
            Err(e) => invoice_posting(schema_lines@, *document, *context) == Err::<Seq<LineView>, Seq<char>>(
                e@,
            ),
        },
{
    if schema_lines.len() == 0 {
        let mut e = String::from_str("Accounting schema '");
        e.append(context.schema_code.as_str());
        e.append("' has no active lines");
        return Err(e);
    }
    let mut output: Vec<PostingLine> = Vec::new();
    let mut i: usize = 0;
    let ghost n = context.lines@.len();
    assert(schema_lines@.take(0) =~= Seq::<SchemaLine>::empty());
    assert(line_views(output@) =~= Seq::<LineView>::empty());
    while i < schema_lines.len()
        invariant
            i <= schema_lines.len(),
            n == context.lines@.len(),
            lines_magnitude(context.lines@) <= i64::MAX,
            schema_lines@.len() * (n + 1) + n + 1 < i32::MAX,
            output@.len() <= i * (n + 1),
            invoice_fold(schema_lines@.take(i as int), *document, *context)
                == Ok::<Seq<LineView>, Seq<char>>(line_views(output@)),
        decreases schema_lines.len() - i,
    {
        let ghost t = schema_lines@.take(i + 1);
        assert(t.drop_last() =~= schema_lines@.take(i as int));
        assert(i * (n + 1) + n + 1 <= schema_lines@.len() * (n + 1) + n + 1) by (nonlinear_arith)
            requires
                i < schema_lines@.len(),
        ;
        match invoice_step_exec(&mut output, &schema_lines[i], document, context) {
            Ok(()) => {},
            Err(e) => {
                proof {
                    lemma_invoice_fold_err_extends(schema_lines@, *document, *context, i + 1);
                }
                return Err(e);
            },
        }
        assert((i + 1) * (n + 1) == i * (n + 1) + n + 1) by (nonlinear_arith);
        i = i + 1;
    }
    assert(schema_lines@.take(schema_lines.len() as int) =~= schema_lines@);
    Ok(output)
}

proof fn lemma_invoice_fold_err_extends(
    sls: Seq<SchemaLine>,
    doc: BridgeDocumentSummary,
    ctx: ResolvedDocumentContext,
    j: int,
)
    requires
        0 <= j <= sls.len(),
        invoice_fold(sls.take(j), doc, ctx) is Err,
    ensures
        invoice_fold(sls, doc, ctx) == invoice_fold(sls.take(j), doc, ctx),
    decreases sls.len() - j,
{
    if j < sls.len() {
        let t = sls.take(j + 1);
        assert(t.drop_last() =~= sls.take(j));
        lemma_invoice_fold_err_extends(sls, doc, ctx, j + 1);
    } else {
        assert(sls.take(j) =~= sls);
    }
}

// ---------------------------------------------------------------------------
// The balance of an invoice posting
// ---------------------------------------------------------------------------

/// The amount a schema line books: the document total, or the total of the
/// lines before tax or of their tax.
pub open spec fn basis_amount(sl: SchemaLine, doc: BridgeDocumentSummary, ctx: ResolvedDocumentContext) -> int {
    let basis = sl.amount_basis@;
    if basis == "document_total_ttc"@ {
        doc.total_ttc as int
    } else if basis == "line_amount_ht"@ {
        lines_total(ctx.lines@, true)
    } else if basis == "line_tax_amount"@ {
        lines_total(ctx.lines@, false)
    } else {
        0
    }
}

/// What the schema puts on the debit side.
pub open spec fn schema_debit(sls: Seq<SchemaLine>, doc: BridgeDocumentSummary, ctx: ResolvedDocumentContext) -> int
    decreases sls.len(),
{
    if sls.len() == 0 {
        0
    } else {
        schema_debit(sls.drop_last(), doc, ctx) + debit_part(sls.last().debit_credit@, basis_amount(sls.last(), doc, ctx))
    }
}

/// What the schema puts on the credit side.
pub open spec fn schema_credit(sls: Seq<SchemaLine>, doc: BridgeDocumentSummary, ctx: ResolvedDocumentContext) -> int
    decreases sls.len(),
{
    if sls.len() == 0 {
        0
    } else {
        schema_credit(sls.drop_last(), doc, ctx) + credit_part(sls.last().debit_credit@, basis_amount(sls.last(), doc, ctx))
    }
}

proof fn lemma_push_groups_totals(
    out: Seq<LineView>,
    role: Seq<char>,
    side: Seq<char>,
    label: Seq<char>,
    g: Seq<(Seq<char>, int)>,
)
    requires
        push_groups(out, role, side, label, g) is Ok,
    ensures
        sum_debit_v(push_groups(out, role, side, label, g)->Ok_0) == sum_debit_v(out) + debit_part(side, group_total(g)),
        sum_credit_v(push_groups(out, role, side, label, g)->Ok_0) == sum_credit_v(out) + credit_part(side, group_total(g)),
    decreases g.len(),
{
    if g.len() > 0 {
        lemma_push_groups_totals(out, role, side, label, g.drop_last());
        let o = push_groups(out, role, side, label, g.drop_last())->Ok_0;
        lemma_push_keeps_totals(o, role, side, g.last().0, seq![], label, g.last().1);
    }
}

/// An invoice posting books on each side exactly what its schema puts on
/// that side: the document total, or the totals of the lines before tax and
/// of their tax, as each schema line names.
pub proof fn lemma_invoice_totals(sls: Seq<SchemaLine>, doc: BridgeDocumentSummary, ctx: ResolvedDocumentContext)
    requires
        invoice_fold(sls, doc, ctx) is Ok,
    ensures
        sum_debit_v(invoice_fold(sls, doc, ctx)->Ok_0) == schema_debit(sls, doc, ctx),
        sum_credit_v(invoice_fold(sls, doc, ctx)->Ok_0) == schema_credit(sls, doc, ctx),
    decreases sls.len(),
{
    if sls.len() > 0 {
        lemma_invoice_totals(sls.drop_last(), doc, ctx);
        let o = invoice_fold(sls.drop_last(), doc, ctx)->Ok_0;
        let sl = sls.last();
        let role = sl.posting_role@;
        let side = sl.debit_credit@;
        let basis = sl.amount_basis@;
        let label = role + seq![' '] + doc.number@;
        if basis == "document_total_ttc"@ {
            let src = sl.account_source@;
            let account = if src == "CUSTOMER_COLLECTIVE_ACCOUNT"@ {
                ctx.partner_account@
            } else {
                sl.fixed_account@
            };
            let aux = if sl.auxiliary_source@ == "PARTNER_CODE"@ {
                doc.partner_code@
            } else {
                seq![]
            };
            lemma_push_keeps_totals(o, role, side, account, aux, label, doc.total_ttc as int);
        } else {
            let ht = basis == "line_amount_ht"@;
            lemma_push_groups_totals(o, role, side, label, grouped(ctx.lines@, ht));
            lemma_grouped_total(ctx.lines@, ht);
        }
    }
}

/// An invoice whose schema debits the document total and credits the
/// totals before tax and of tax, and whose total is their sum, posts
/// balanced: its debits equal its credits.
pub proof fn lemma_invoice_balanced(sls: Seq<SchemaLine>, doc: BridgeDocumentSummary, ctx: ResolvedDocumentContext)
    requires
        invoice_fold(sls, doc, ctx) is Ok,
        schema_debit(sls, doc, ctx) == schema_credit(sls, doc, ctx),
    ensures
        sum_debit_v(invoice_fold(sls, doc, ctx)->Ok_0) == sum_credit_v(invoice_fold(sls, doc, ctx)->Ok_0),
{
    lemma_invoice_totals(sls, doc, ctx);
}

// ---------------------------------------------------------------------------
// Payment postings
// ---------------------------------------------------------------------------

/// What one schema line of a payment books.
pub open spec fn payment_step(
    out: Seq<LineView>,
    sl: SchemaLine,
    doc: BridgeDocumentSummary,
    partner_account: Seq<char>,
    payment_account: Seq<char>,
    amount: int,
) -> Result<Seq<LineView>, Seq<char>> {
    let basis = sl.amount_basis@;
    let src = sl.account_source@;
    if basis != "payment_amount"@ {
        Err(quoted_error("Unsupported payment amount basis '"@, basis))
    } else if src == "PAYMENT_METHOD_ACCOUNT"@ || src == "CUSTOMER_COLLECTIVE_ACCOUNT"@ || src
        == "FIXED_ACCOUNT"@ {
        let account = if src == "PAYMENT_METHOD_ACCOUNT"@ {
            payment_account
        } else if src == "CUSTOMER_COLLECTIVE_ACCOUNT"@ {
            partner_account
        } else {
            sl.fixed_account@
        };
        let aux = if sl.auxiliary_source@ == "PARTNER_CODE"@ {
            doc.partner_code@
        } else {
            seq![]
        };
        push_view(out, sl.posting_role@, sl.debit_credit@, account, aux, "Paiement "@ + doc.number@, amount)
    } else {
        Err(quoted_error("Unsupported payment account source '"@, src))
    }
}

pub open spec fn payment_fold(
    sls: Seq<SchemaLine>,
    doc: BridgeDocumentSummary,
    partner_account: Seq<char>,
    payment_account: Seq<char>,
    amount: int,
) -> Result<Seq<LineView>, Seq<char>>
    decreases sls.len(),
{
    if sls.len() == 0 {
        Ok(seq![])
    } else {
        match payment_fold(sls.drop_last(), doc, partner_account, payment_account, amount) {
            Ok(o) => payment_step(o, sls.last(), doc, partner_account, payment_account, amount),
            Err(e) => Err(e),
        }
    }
}

/// The posting lines of a payment: its schema's lines booked in order, the
/// first error stopping it; a schema without lines is an error.
pub open spec fn payment_posting(
    sls: Seq<SchemaLine>,
    doc: BridgeDocumentSummary,
    partner_account: Seq<char>,
    payment_account: Seq<char>,
    amount: int,
) -> Result<Seq<LineView>, Seq<char>> {
    if sls.len() == 0 {
        Err("Payment accounting schema has no active lines"@)
    } else {
        payment_fold(sls, doc, partner_account, payment_account, amount)
    }
}

proof fn lemma_payment_fold_err_extends(
    sls: Seq<SchemaLine>,
    doc: BridgeDocumentSummary,
    partner_account: Seq<char>,
    payment_account: Seq<char>,
    amount: int,
    j: int,
)
    requires
        0 <= j <= sls.len(),
        payment_fold(sls.take(j), doc, partner_account, payment_account, amount) is Err,
    ensures
        payment_fold(sls, doc, partner_account, payment_account, amount) == payment_fold(
            sls.take(j),
            doc,
            partner_account,
            payment_account,
            amount,
        ),
    decreases sls.len() - j,
{
    if j < sls.len() {
        let t = sls.take(j + 1);
        assert(t.drop_last() =~= sls.take(j));
        lemma_payment_fold_err_extends(sls, doc, partner_account, payment_account, amount, j + 1);
    } else {
        assert(sls.take(j) =~= sls);
    }
}

/// The lines a payment posting books (see `payment_posting`).
pub fn payment_lines_from_schema(
    schema_lines: &Vec<SchemaLine>,
    document: &BridgeDocumentSummary,
    partner_account: &str,
    payment_account: &str,
    amount: i64,
) -> (r: Result<Vec<PostingLine>, String>)
    requires
        schema_lines@.len() < i32::MAX,
    ensures
        match r {
            Ok(v) => payment_posting(schema_lines@, *document, partner_account@, payment_account@, amount as int)
                == Ok::<Seq<LineView>, Seq<char>>(line_views(v@)),
            Err(e) => payment_posting(schema_lines@, *document, partner_account@, payment_account@, amount as int)
                == Err::<Seq<LineView>, Seq<char>>(e@),
        },
{
    if schema_lines.len() == 0 {
        return Err(String::from_str("Payment accounting schema has no active lines"));
    }
    let mut output: Vec<PostingLine> = Vec::new();
    let mut i: usize = 0;
    assert(schema_lines@.take(0) =~= Seq::<SchemaLine>::empty());
    assert(line_views(output@) =~= Seq::<LineView>::empty());
    while i < schema_lines.len()
        invariant
            i <= schema_lines.len() < i32::MAX,
            output@.len() <= i,
            payment_fold(schema_lines@.take(i as int), *document, partner_account@, payment_account@, amount as int)
                == Ok::<Seq<LineView>, Seq<char>>(line_views(output@)),
        decreases schema_lines.len() - i,
    {
        let ghost t = schema_lines@.take(i + 1);
        assert(t.drop_last() =~= schema_lines@.take(i as int));
        let sl = &schema_lines[i];
        let basis = sl.amount_basis.as_str();
        if !str_eq(basis, "payment_amount") {
            proof {
                lemma_payment_fold_err_extends(schema_lines@, *document, partner_account@, payment_account@, amount as int, i + 1);
            }
            return Err(quoted("Unsupported payment amount basis '", basis));
        }
        let src = sl.account_source.as_str();
        let account = if str_eq(src, "PAYMENT_METHOD_ACCOUNT") {
            String::from_str(payment_account)
        } else if str_eq(src, "CUSTOMER_COLLECTIVE_ACCOUNT") {
            String::from_str(partner_account)
        } else if str_eq(src, "FIXED_ACCOUNT") {
            String::from_str(sl.fixed_account.as_str())
        } else {
            proof {
                lemma_payment_fold_err_extends(schema_lines@, *document, partner_account@, payment_account@, amount as int, i + 1);
            }
            return Err(quoted("Unsupported payment account source '", src));
        };
        let aux = if str_eq(sl.auxiliary_source.as_str(), "PARTNER_CODE") {
            String::from_str(document.partner_code.as_str())
        } else {
            String::new()
        };
        let mut label = String::from_str("Paiement ");
        label.append(document.number.as_str());
        match push_schema_posting_line(
            &mut output,
            sl.posting_role.as_str(),
            sl.debit_credit.as_str(),
            account,
            aux,
            label,
            amount,
        ) {
            Ok(()) => {},
            Err(e) => {
                proof {
                    lemma_payment_fold_err_extends(schema_lines@, *document, partner_account@, payment_account@, amount as int, i + 1);
                }
                return Err(e);
            },
        }
        i = i + 1;
    }
    assert(schema_lines@.take(schema_lines.len() as int) =~= schema_lines@);
    Ok(output)
}

/// What a payment schema puts on the debit side.
pub open spec fn payment_schema_debit(sls: Seq<SchemaLine>, amount: int) -> int
    decreases sls.len(),
{
    if sls.len() == 0 {
        0
    } else {
        payment_schema_debit(sls.drop_last(), amount) + debit_part(sls.last().debit_credit@, amount)
    }
}

/// What a payment schema puts on the credit side.
pub open spec fn payment_schema_credit(sls: Seq<SchemaLine>, amount: int) -> int
    decreases sls.len(),
{
    if sls.len() == 0 {
        0
    } else {
        payment_schema_credit(sls.drop_last(), amount) + credit_part(sls.last().debit_credit@, amount)
    }
}

/// A payment posting books the payment's amount once for each schema line,
/// on the side that line names.
pub proof fn lemma_payment_totals(
    sls: Seq<SchemaLine>,
    doc: BridgeDocumentSummary,
    partner_account: Seq<char>,
    payment_account: Seq<char>,
    amount: int,
)
    requires
        payment_fold(sls, doc, partner_account, payment_account, amount) is Ok,
    ensures
        sum_debit_v(payment_fold(sls, doc, partner_account, payment_account, amount)->Ok_0)
            == payment_schema_debit(sls, amount),
        sum_credit_v(payment_fold(sls, doc, partner_account, payment_account, amount)->Ok_0)
            == payment_schema_credit(sls, amount),
    decreases sls.len(),
{
    if sls.len() > 0 {
        lemma_payment_totals(sls.drop_last(), doc, partner_account, payment_account, amount);
        let o = payment_fold(sls.drop_last(), doc, partner_account, payment_account, amount)->Ok_0;
        let sl = sls.last();
        let src = sl.account_source@;
        let account = if src == "PAYMENT_METHOD_ACCOUNT"@ {
            payment_account
        } else if src == "CUSTOMER_COLLECTIVE_ACCOUNT"@ {
            partner_account
        } else {
            sl.fixed_account@
        };
        let aux = if sl.auxiliary_source@ == "PARTNER_CODE"@ {
            doc.partner_code@
        } else {
            seq![]
        };
        lemma_push_keeps_totals(o, sl.posting_role@, sl.debit_credit@, account, aux, "Paiement "@ + doc.number@, amount);
    }
}

// ---------------------------------------------------------------------------
// Amounts as text, and the balance check before a batch is stored
// ---------------------------------------------------------------------------

pub open spec fn digit_of(d: int) -> char {
    (d + 48) as char
}

/// An amount in cents as a decimal number of units with no trailing zero
/// in its fraction (how the amount's value prints).
pub open spec fn amount_display(c: int) -> Seq<char> {
    let a = if c < 0 {
        -c
    } else {
        c
    };
    let sign = if c < 0 {
        seq!['-']
    } else {
        seq![]
    };
    let f = a % 100;
    sign + dec((a / 100) as nat) + (if f == 0 {
        seq![]
    } else if f % 10 == 0 {
        seq!['.', digit_of(f / 10)]
    } else {
        seq!['.'] + pad_left(dec(f as nat), 2, '0')
    })
}

/// An amount in cents with exactly two decimals (`{:.2}`).
pub open spec fn amount_two_decimals(c: int) -> Seq<char> {
    let a = if c < 0 {
        -c
    } else {
        c
    };
    (if c < 0 {
        seq!['-']
    } else {
        seq![]
    }) + dec((a / 100) as nat) + seq!['.'] + pad_left(dec((a % 100) as nat), 2, '0')
}

proof fn lemma_two_digits(f: nat)
    requires
        f < 100,
    ensures
        pad_left(dec(f), 2, '0') == (if f < 10 {
            seq!['0', digit_of(f as int)]
        } else {
            seq![digit_of((f / 10) as int), digit_of((f % 10) as int)]
        }),
{
    if f < 10 {
        assert(dec(f) =~= seq![digit_of(f as int)]);
        assert(pad_left(dec(f), 2, '0') =~= seq!['0', digit_of(f as int)]);
    } else {
        assert(dec(f / 10) =~= seq![digit_of((f / 10) as int)]);
        assert(dec(f) =~= seq![digit_of((f / 10) as int), digit_of((f % 10) as int)]);
    }
}

fn digit_char_of(d: u64) -> (c: char)
    requires
        d < 10,
    ensures
        c == digit_of(d as int),
{
    crate::text::char_from_ascii_u32((d as u32) + 48)
}

/// The amount printed as its value prints (see `amount_display`).
pub fn amount_text(cents: i64) -> (r: String)
    requires
        cents > i64::MIN,
    ensures
        r@ == amount_display(cents as int),
{
    let a: u64 = if cents < 0 {
        (-cents) as u64
    } else {
        cents as u64
    };
    let mut r = String::new();
    if cents < 0 {
        push_char(&mut r, '-');
    }
    r.append(u64_to_string(a / 100).as_str());
    let f = a % 100;
    let ghost head = r@;
    if f != 0 {
        push_char(&mut r, '.');
        if f % 10 == 0 {
            push_char(&mut r, digit_char_of(f / 10));
            assert(r@ =~= head + seq!['.', digit_of((f / 10) as int)]);
        } else {
            push_char(&mut r, digit_char_of(f / 10));
            push_char(&mut r, digit_char_of(f % 10));
            proof {
                lemma_two_digits(f as nat);
            }
            assert(r@ =~= head + (seq!['.'] + pad_left(dec(f as nat), 2, '0')));
        }
    } else {
        assert(r@ =~= head + Seq::<char>::empty());
    }
    r
}

/// `sql_number`: the amount with two decimals.
pub fn sql_number(cents: i64) -> (r: String)
    requires
        cents > i64::MIN,
    ensures
        r@ == amount_two_decimals(cents as int),
{
    let a: u64 = if cents < 0 {
        (-cents) as u64
    } else {
        cents as u64
    };
    let mut r = String::new();
    if cents < 0 {
        push_char(&mut r, '-');
    }
    r.append(u64_to_string(a / 100).as_str());
    push_char(&mut r, '.');
    let f = a % 100;
    push_char(&mut r, digit_char_of(f / 10));
    push_char(&mut r, digit_char_of(f % 10));
    proof {
        lemma_two_digits(f as nat);
    }
    assert(r@ =~= (if cents < 0 { seq!['-'] } else { seq![] }) + dec((a / 100) as nat) + seq!['.']
        + pad_left(dec((a % 100) as nat), 2, '0'));
    r
}

/// The absolute amounts of the lines, both sides.
pub open spec fn lines_weight(lines: Seq<LineView>) -> int
    decreases lines.len(),
{
    if lines.len() == 0 {
        0
    } else {
        let l = lines.last();
        lines_weight(lines.drop_last()) + (if l.debit < 0 {
            -l.debit
        } else {
            l.debit
        }) + (if l.credit < 0 {
            -l.credit
        } else {
            l.credit
        })
    }
}

proof fn lemma_weight_bounds(lines: Seq<LineView>)
    ensures
        lines_weight(lines) >= 0,
        -lines_weight(lines) <= sum_debit_v(lines) <= lines_weight(lines),
        -lines_weight(lines) <= sum_credit_v(lines) <= lines_weight(lines),
    decreases lines.len(),
{
    if lines.len() > 0 {
        lemma_weight_bounds(lines.drop_last());
    }
}

proof fn lemma_weight_prefix(lines: Seq<LineView>, i: int)
    requires
        0 <= i <= lines.len(),
    ensures
        lines_weight(lines.take(i)) <= lines_weight(lines),
    decreases lines.len() - i,
{
    if i < lines.len() {
        lemma_weight_prefix(lines, i + 1);
        assert(lines.take(i + 1).drop_last() =~= lines.take(i));
        lemma_weight_bounds(lines.take(i));
    } else {
        assert(lines.take(i) =~= lines);
    }
}

/// The totals a batch is stored with, or the error when it does not
/// balance or debits nothing.
pub open spec fn batch_totals_of(lines: Seq<LineView>) -> Result<(int, int), Seq<char>> {
    let d = sum_debit_v(lines);
    let c = sum_credit_v(lines);
    if d <= 0 || d != c {
        Err("Posting batch is not balanced: debit="@ + amount_display(d) + " credit="@ + amount_display(c))
    } else {
        Ok((d, c))
    }
}

/// The balance check of `insert_batch`: the total debit must be positive
/// and equal the total credit.
pub fn batch_totals(lines: &Vec<PostingLine>) -> (r: Result<(i64, i64), String>)
    requires
        lines_weight(line_views(lines@)) < i64::MAX,
    ensures
        match r {
            Ok((d, c)) => batch_totals_of(line_views(lines@)) == Ok::<(int, int), Seq<char>>((d as int, c as int)),
            Err(e) => batch_totals_of(line_views(lines@)) == Err::<(int, int), Seq<char>>(e@),
        },
{
    let ghost views = line_views(lines@);
    let mut debit: i64 = 0;
    let mut credit: i64 = 0;
    let mut i: usize = 0;
    while i < lines.len()
        invariant
            i <= lines.len(),
            views == line_views(lines@),
            lines_weight(views) < i64::MAX,
            debit == sum_debit_v(views.take(i as int)),
            credit == sum_credit_v(views.take(i as int)),
        decreases lines.len() - i,
    {
        proof {
            let t = views.take(i + 1);
            assert(t.drop_last() =~= views.take(i as int));
            lemma_weight_prefix(views, i + 1);
            lemma_weight_bounds(t);
        }
        debit = debit + lines[i].debit;
        credit = credit + lines[i].credit;
        i = i + 1;
    }
    assert(views.take(lines.len() as int) =~= views);
    proof {
        lemma_weight_bounds(views);
    }
    if debit <= 0 || debit != credit {
        let mut e = String::from_str("Posting batch is not balanced: debit=");
        e.append(amount_text(debit).as_str());
        e.append(" credit=");
        e.append(amount_text(credit).as_str());
        return Err(e);
    }
    Ok((debit, credit))
}

} // verus!
