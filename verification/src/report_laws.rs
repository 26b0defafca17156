//! What the report queries select, stated over their inputs: the date range
//! a ledger reads, the columns a balance sums, the accounts an auxiliary
//! ledger or a dashboard ranking keeps. Each law says that a clause with the
//! given meaning stands in the query text.
use vstd::prelude::*;
use crate::ledger::{movement_text, BalancePeriod, EntryContext, LookupContext};
use crate::ledger_sql::{
    account_filter_text, account_join_text, account_label_text, account_no_text, balance_query_text,
    auxiliary_ledger_query_text, grand_livre_query_text, kind_filter_text, opening_text,
    optional_text_column, parsed_date_text, tiers_code_text, tiers_join_text, tiers_name_text, TiersKind,
    kpi_top_charges_query_text, kpi_top_products_query_text,
};
use crate::sql::sql_literal_seq;

verus! {

/// `f` stands in `t` from position `i`.
pub open spec fn occurs_at(t: Seq<char>, f: Seq<char>, i: int) -> bool {
    0 <= i && i + f.len() <= t.len() && t.subrange(i, i + f.len()) == f
}

/// `f` stands somewhere in `t`.
pub open spec fn occurs_in(t: Seq<char>, f: Seq<char>) -> bool {
    exists|i: int| #[trigger] occurs_at(t, f, i)
}

/// What stands in a prefix of a text stands in the text.
pub proof fn lemma_occurs_in_prefix(t: Seq<char>, u: Seq<char>, f: Seq<char>, i: int)
    requires
        u.len() <= t.len(),
        t.subrange(0, u.len() as int) == u,
        occurs_at(u, f, i),
    ensures
        occurs_at(t, f, i),
        occurs_in(t, f),
{
    assert(t.subrange(i, i + f.len()) =~= u.subrange(i, i + f.len()));
    assert(occurs_at(t, f, i));
}

/// A text made of a head and `f` holds `f` after the head.
pub proof fn lemma_occurs_after(u: Seq<char>, p: Seq<char>, f: Seq<char>)
    requires
        u == p + f,
    ensures
        occurs_at(u, f, p.len() as int),
{
    assert(u.subrange(p.len() as int, (p.len() + f.len()) as int) =~= f);
}

/// A text made of a head, `f` and a tail holds `f` after the head.
pub proof fn lemma_occurs_between(u: Seq<char>, p: Seq<char>, f: Seq<char>, s: Seq<char>)
    requires
        u == p + f + s,
    ensures
        occurs_at(u, f, p.len() as int),
{
    assert(u.subrange(p.len() as int, (p.len() + f.len()) as int) =~= f);
}

/// What stands in a part of a text stands in the text.
pub proof fn lemma_occurs_within(t: Seq<char>, x: Seq<char>, f: Seq<char>, j: int, i: int)
    requires
        occurs_at(t, x, j),
        occurs_at(x, f, i),
    ensures
        occurs_at(t, f, j + i),
        occurs_in(t, f),
{
    assert(t.subrange(j + i, j + i + f.len()) =~= x.subrange(i, i + f.len()));
    assert(occurs_at(t, f, j + i));
}

/// The General Ledger reads exactly the entries dated in the requested range:
/// its query bounds the parsed entry date by the quoted first day below and
/// the quoted last day above.
pub proof fn lemma_grand_livre_reads_the_date_range(
    e: EntryContext,
    lookup: Option<LookupContext>,
    date_from: Seq<char>,
    date_to: Seq<char>,
    prefix: Option<Seq<char>>,
)
    ensures
        occurs_in(
            grand_livre_query_text(e, lookup, date_from, date_to, prefix),
            "WHERE "@ + parsed_date_text(e) + " BETWEEN "@ + sql_literal_seq(date_from) + " AND "@
                + sql_literal_seq(date_to),
        ),
{
    let t = grand_livre_query_text(e, lookup, date_from, date_to, prefix);
    let head = "
        WITH base AS (
            SELECT
                parsed_date = "@
        + parsed_date_text(e)
        + ",
                journal = "@
        + optional_text_column(e.journal_col, 64)
        + ",
                account_no = "@
        + account_no_text(e)
        + ",
                account_label = "@
        + account_label_text(e, lookup)
        + ",
                ref_piece = "@
        + optional_text_column(e.ref_piece_col, 128)
        + ",
                lettrage = "@
        + optional_text_column(e.lettrage_col, 64)
        + ",
                debit = "@
        + e.debit_expr@
        + ",
                credit = "@
        + e.credit_expr@
        + "
            FROM "@
        + e.table.sql_name_text()
        + " e
            "@
        + account_join_text(e, lookup);
    let where_lit = "
            WHERE "@;
    let u = head + where_lit + parsed_date_text(e) + " BETWEEN "@ + sql_literal_seq(date_from) + " AND "@
        + sql_literal_seq(date_to);
    let f = "WHERE "@ + parsed_date_text(e) + " BETWEEN "@ + sql_literal_seq(date_from) + " AND "@
        + sql_literal_seq(date_to);
    assert(t.subrange(0, u.len() as int) =~= u);
    let w = where_lit.subrange(0, where_lit.len() - 6);
    assert(where_lit =~= w + "WHERE "@) by {
        reveal_strlit("
            WHERE ");
        reveal_strlit("WHERE ");
    }
    assert(u =~= (head + w) + f);
    lemma_occurs_after(u, head + w, f);
    lemma_occurs_in_prefix(t, u, f, (head + w).len() as int);
}

/// The head of the Balance query up to the opening sums.
pub open spec fn balance_head(e: EntryContext, lookup: Option<LookupContext>, prefix: Option<Seq<char>>) -> Seq<char> {
    "
        WITH base AS (
            SELECT
                parsed_date = "@
        + parsed_date_text(e)
        + ",
                journal = "@
        + optional_text_column(e.journal_col, 64)
        + ",
                account_no = "@
        + account_no_text(e)
        + ",
                account_label = "@
        + account_label_text(e, lookup)
        + ",
                debit = "@
        + e.debit_expr@
        + ",
                credit = "@
        + e.credit_expr@
        + "
            FROM "@
        + e.table.sql_name_text()
        + " e
            "@
        + account_join_text(e, lookup)
        + "
            WHERE "@
        + "1 = 1"@ + account_filter_text(account_no_text(e), prefix)
}

/// The literals that surround the sums of the Balance query.
pub open spec fn bal_l0() -> Seq<char> {
    "
        ),
        aggregated AS (
            SELECT
                account_no,
                MAX(account_label) AS account_label,
                SUM(CASE WHEN "@
}

pub open spec fn bal_l1() -> Seq<char> {
    " THEN debit ELSE CAST(0 AS DECIMAL(38, 6)) END) AS open_debit_raw,
                SUM(CASE WHEN "@
}

pub open spec fn bal_l2() -> Seq<char> {
    " THEN credit ELSE CAST(0 AS DECIMAL(38, 6)) END) AS open_credit_raw,
                SUM(CASE WHEN "@
}

pub open spec fn bal_l3() -> Seq<char> {
    " THEN debit ELSE CAST(0 AS DECIMAL(38, 6)) END) AS mvt_debit,
                SUM(CASE WHEN "@
}

pub open spec fn bal_l4() -> Seq<char> {
    " THEN credit ELSE CAST(0 AS DECIMAL(38, 6)) END) AS mvt_credit
            FROM base
            WHERE account_no <> ''
              AND parsed_date IS NOT NULL
              AND "@
}

/// `l` ends with `f`.
pub open spec fn ends_with(l: Seq<char>, f: Seq<char>) -> bool {
    f.len() <= l.len() && l.subrange(l.len() - f.len(), l.len() as int) == f
}

/// `l` starts with `f`.
pub open spec fn begins_with(l: Seq<char>, f: Seq<char>) -> bool {
    f.len() <= l.len() && l.subrange(0, f.len() as int) == f
}

proof fn lemma_balance_literals()
    ensures
        ends_with(bal_l0(), "SUM(CASE WHEN "@),
        ends_with(bal_l1(), "SUM(CASE WHEN "@),
        ends_with(bal_l2(), "SUM(CASE WHEN "@),
        ends_with(bal_l3(), "SUM(CASE WHEN "@),
        begins_with(bal_l1(), " THEN debit ELSE CAST(0 AS DECIMAL(38, 6)) END) AS open_debit_raw"@),
        begins_with(bal_l2(), " THEN credit ELSE CAST(0 AS DECIMAL(38, 6)) END) AS open_credit_raw"@),
        begins_with(bal_l3(), " THEN debit ELSE CAST(0 AS DECIMAL(38, 6)) END) AS mvt_debit"@),
        begins_with(bal_l4(), " THEN credit ELSE CAST(0 AS DECIMAL(38, 6)) END) AS mvt_credit"@),
{
    reveal_strlit("SUM(CASE WHEN ");
    reveal_strlit("
        ),
        aggregated AS (
            SELECT
                account_no,
                MAX(account_label) AS account_label,
                SUM(CASE WHEN ");
    reveal_strlit(" THEN debit ELSE CAST(0 AS DECIMAL(38, 6)) END) AS open_debit_raw,
                SUM(CASE WHEN ");
    reveal_strlit(" THEN credit ELSE CAST(0 AS DECIMAL(38, 6)) END) AS open_credit_raw,
                SUM(CASE WHEN ");
    reveal_strlit(" THEN debit ELSE CAST(0 AS DECIMAL(38, 6)) END) AS mvt_debit,
                SUM(CASE WHEN ");
    reveal_strlit(" THEN credit ELSE CAST(0 AS DECIMAL(38, 6)) END) AS mvt_credit
            FROM base
            WHERE account_no <> ''
              AND parsed_date IS NOT NULL
              AND ");
    reveal_strlit(" THEN debit ELSE CAST(0 AS DECIMAL(38, 6)) END) AS open_debit_raw");
    reveal_strlit(" THEN credit ELSE CAST(0 AS DECIMAL(38, 6)) END) AS open_credit_raw");
    reveal_strlit(" THEN debit ELSE CAST(0 AS DECIMAL(38, 6)) END) AS mvt_debit");
    reveal_strlit(" THEN credit ELSE CAST(0 AS DECIMAL(38, 6)) END) AS mvt_credit");
    let sw = "SUM(CASE WHEN "@;
    assert(bal_l0().subrange(bal_l0().len() - sw.len(), bal_l0().len() as int) =~= "SUM(CASE WHEN "@);
    assert(bal_l1().subrange(bal_l1().len() - sw.len(), bal_l1().len() as int) =~= "SUM(CASE WHEN "@);
    assert(bal_l2().subrange(bal_l2().len() - sw.len(), bal_l2().len() as int) =~= "SUM(CASE WHEN "@);
    assert(bal_l3().subrange(bal_l3().len() - sw.len(), bal_l3().len() as int) =~= "SUM(CASE WHEN "@);
    assert(bal_l1().subrange(0, " THEN debit ELSE CAST(0 AS DECIMAL(38, 6)) END) AS open_debit_raw"@.len() as int) =~= " THEN debit ELSE CAST(0 AS DECIMAL(38, 6)) END) AS open_debit_raw"@);
    assert(bal_l2().subrange(0, " THEN credit ELSE CAST(0 AS DECIMAL(38, 6)) END) AS open_credit_raw"@.len() as int) =~= " THEN credit ELSE CAST(0 AS DECIMAL(38, 6)) END) AS open_credit_raw"@);
    assert(bal_l3().subrange(0, " THEN debit ELSE CAST(0 AS DECIMAL(38, 6)) END) AS mvt_debit"@.len() as int) =~= " THEN debit ELSE CAST(0 AS DECIMAL(38, 6)) END) AS mvt_debit"@);
    assert(bal_l4().subrange(0, " THEN credit ELSE CAST(0 AS DECIMAL(38, 6)) END) AS mvt_credit"@.len() as int) =~= " THEN credit ELSE CAST(0 AS DECIMAL(38, 6)) END) AS mvt_credit"@);
}

/// A piece that ends with `a`, then `m`, then a piece that begins with `b`:
/// `a + m + b` stands across them.
pub proof fn lemma_occurs_across(x: Seq<char>, a: Seq<char>, m: Seq<char>, y: Seq<char>, b: Seq<char>)
    requires
        ends_with(x, a),
        begins_with(y, b),
    ensures
        occurs_at(x + m + y, a + m + b, x.len() - a.len()),
{
    let t = x + m + y;
    let i = x.len() - a.len();
    assert(t.subrange(i, i + (a + m + b).len()) =~= a + m + b);
}

/// The trial balance sums the debits of the period's movements as its
/// movement debit and their credits as its movement credit, and likewise
/// for the opening: each column is a sum over its entries of the matching
/// amount.
pub proof fn lemma_balance_sums_each_side(
    e: EntryContext,
    lookup: Option<LookupContext>,
    p: BalancePeriod,
    prefix: Option<Seq<char>>,
)
    ensures
        occurs_in(
            balance_query_text(e, lookup, p, prefix),
            "SUM(CASE WHEN "@ + movement_text("account_no"@, "parsed_date"@, "journal"@, e.journal_col is Some, p)
                + " THEN debit ELSE CAST(0 AS DECIMAL(38, 6)) END) AS mvt_debit"@,
        ),
        occurs_in(
            balance_query_text(e, lookup, p, prefix),
            "SUM(CASE WHEN "@ + movement_text("account_no"@, "parsed_date"@, "journal"@, e.journal_col is Some, p)
                + " THEN credit ELSE CAST(0 AS DECIMAL(38, 6)) END) AS mvt_credit"@,
        ),
        occurs_in(
            balance_query_text(e, lookup, p, prefix),
            "SUM(CASE WHEN "@ + opening_text(e, p) + " THEN debit ELSE CAST(0 AS DECIMAL(38, 6)) END) AS open_debit_raw"@,
        ),
        occurs_in(
            balance_query_text(e, lookup, p, prefix),
            "SUM(CASE WHEN "@ + opening_text(e, p) + " THEN credit ELSE CAST(0 AS DECIMAL(38, 6)) END) AS open_credit_raw"@,
        ),
{
    let t = balance_query_text(e, lookup, p, prefix);
    let m = movement_text("account_no"@, "parsed_date"@, "journal"@, e.journal_col is Some, p);
    let o = opening_text(e, p);
    let head = balance_head(e, lookup, prefix);
    let u = head + bal_l0() + o + bal_l1() + o + bal_l2() + m + bal_l3() + m + bal_l4();
    assert(t.subrange(0, u.len() as int) == u) by {
        assert(t.subrange(0, u.len() as int) =~= u);
    }
    lemma_balance_literals();
    lemma_balance_sums_in(t, u, head, o, m);
}

proof fn lemma_balance_sums_in(t: Seq<char>, u: Seq<char>, head: Seq<char>, o: Seq<char>, m: Seq<char>)
    requires
        u == head + bal_l0() + o + bal_l1() + o + bal_l2() + m + bal_l3() + m + bal_l4(),
        u.len() <= t.len(),
        t.subrange(0, u.len() as int) == u,
        ends_with(bal_l0(), "SUM(CASE WHEN "@),
        ends_with(bal_l1(), "SUM(CASE WHEN "@),
        ends_with(bal_l2(), "SUM(CASE WHEN "@),
        ends_with(bal_l3(), "SUM(CASE WHEN "@),
        begins_with(bal_l1(), " THEN debit ELSE CAST(0 AS DECIMAL(38, 6)) END) AS open_debit_raw"@),
        begins_with(bal_l2(), " THEN credit ELSE CAST(0 AS DECIMAL(38, 6)) END) AS open_credit_raw"@),
        begins_with(bal_l3(), " THEN debit ELSE CAST(0 AS DECIMAL(38, 6)) END) AS mvt_debit"@),
        begins_with(bal_l4(), " THEN credit ELSE CAST(0 AS DECIMAL(38, 6)) END) AS mvt_credit"@),
    ensures
        occurs_in(t, "SUM(CASE WHEN "@ + m + " THEN debit ELSE CAST(0 AS DECIMAL(38, 6)) END) AS mvt_debit"@),
        occurs_in(t, "SUM(CASE WHEN "@ + m + " THEN credit ELSE CAST(0 AS DECIMAL(38, 6)) END) AS mvt_credit"@),
        occurs_in(t, "SUM(CASE WHEN "@ + o + " THEN debit ELSE CAST(0 AS DECIMAL(38, 6)) END) AS open_debit_raw"@),
        occurs_in(t, "SUM(CASE WHEN "@ + o + " THEN credit ELSE CAST(0 AS DECIMAL(38, 6)) END) AS open_credit_raw"@),
{
    let sw = "SUM(CASE WHEN "@;
    let p0 = head;
    let p1 = head + bal_l0() + o;
    let p2 = p1 + bal_l1() + o;
    let p3 = p2 + bal_l2() + m;
    let s0 = o + bal_l2() + m + bal_l3() + m + bal_l4();
    let s1 = m + bal_l3() + m + bal_l4();
    let s2 = m + bal_l4();
    // open_debit_raw
    lemma_occurs_across(bal_l0(), sw, o, bal_l1(), " THEN debit ELSE CAST(0 AS DECIMAL(38, 6)) END) AS open_debit_raw"@);
    lemma_place(u, p0, bal_l0() + o + bal_l1(), s0);
    lemma_occurs_within(u, bal_l0() + o + bal_l1(), sw + o + " THEN debit ELSE CAST(0 AS DECIMAL(38, 6)) END) AS open_debit_raw"@, p0.len() as int, bal_l0().len() - sw.len());
    lemma_occurs_in_prefix(t, u, sw + o + " THEN debit ELSE CAST(0 AS DECIMAL(38, 6)) END) AS open_debit_raw"@, p0.len() + bal_l0().len() - sw.len());
    // open_credit_raw
    lemma_occurs_across(bal_l1(), sw, o, bal_l2(), " THEN credit ELSE CAST(0 AS DECIMAL(38, 6)) END) AS open_credit_raw"@);
    lemma_place(u, head + bal_l0() + o, bal_l1() + o + bal_l2(), s1);
    lemma_occurs_within(u, bal_l1() + o + bal_l2(), sw + o + " THEN credit ELSE CAST(0 AS DECIMAL(38, 6)) END) AS open_credit_raw"@, p1.len() as int, bal_l1().len() - sw.len());
    lemma_occurs_in_prefix(t, u, sw + o + " THEN credit ELSE CAST(0 AS DECIMAL(38, 6)) END) AS open_credit_raw"@, p1.len() + bal_l1().len() - sw.len());
    // mvt_debit
    lemma_occurs_across(bal_l2(), sw, m, bal_l3(), " THEN debit ELSE CAST(0 AS DECIMAL(38, 6)) END) AS mvt_debit"@);
    lemma_place(u, p2, bal_l2() + m + bal_l3(), s2);
    lemma_occurs_within(u, bal_l2() + m + bal_l3(), sw + m + " THEN debit ELSE CAST(0 AS DECIMAL(38, 6)) END) AS mvt_debit"@, p2.len() as int, bal_l2().len() - sw.len());
    lemma_occurs_in_prefix(t, u, sw + m + " THEN debit ELSE CAST(0 AS DECIMAL(38, 6)) END) AS mvt_debit"@, p2.len() + bal_l2().len() - sw.len());
    // mvt_credit
    lemma_occurs_across(bal_l3(), sw, m, bal_l4(), " THEN credit ELSE CAST(0 AS DECIMAL(38, 6)) END) AS mvt_credit"@);
    lemma_place(u, p3, bal_l3() + m + bal_l4(), seq![]);
    lemma_occurs_within(u, bal_l3() + m + bal_l4(), sw + m + " THEN credit ELSE CAST(0 AS DECIMAL(38, 6)) END) AS mvt_credit"@, p3.len() as int, bal_l3().len() - sw.len());
    lemma_occurs_in_prefix(t, u, sw + m + " THEN credit ELSE CAST(0 AS DECIMAL(38, 6)) END) AS mvt_credit"@, p3.len() + bal_l3().len() - sw.len());
}

/// A text made of a head, a part and a tail holds the part after the head.
pub proof fn lemma_place(u: Seq<char>, p: Seq<char>, x: Seq<char>, s: Seq<char>)
    requires
        u =~= p + x + s,
    ensures
        occurs_at(u, x, p.len() as int),
{
    lemma_occurs_between(u, p, x, s);
}

/// The customer accounts: numbers in class 41 (or 411).
pub open spec fn customer_accounts(a: Seq<char>) -> Seq<char> {
    "("@ + a + " LIKE '41%' OR "@ + a + " LIKE '411%')"@
}

/// The supplier accounts: numbers in class 40 (or 401).
pub open spec fn supplier_accounts(a: Seq<char>) -> Seq<char> {
    "("@ + a + " LIKE '40%' OR "@ + a + " LIKE '401%')"@
}

/// A third-party filter keeps the accounts of its kind: customers are the
/// 41x accounts (or third parties of type 0), suppliers the 40x accounts (or
/// third parties of type 1).
pub proof fn lemma_kind_filter_keeps_its_accounts(a: Seq<char>, lookup: Option<LookupContext>, kind: TiersKind)
    ensures
        kind == TiersKind::Customers ==> occurs_in(kind_filter_text(a, lookup, kind), customer_accounts(a)),
        kind == TiersKind::Suppliers ==> occurs_in(kind_filter_text(a, lookup, kind), supplier_accounts(a)),
        (lookup matches Some(l) && l.type_col is Some) ==> occurs_in(
            kind_filter_text(a, lookup, kind),
            match kind {
                TiersKind::Customers => "= 0 OR "@ + customer_accounts(a),
                TiersKind::Suppliers => "= 1 OR "@ + supplier_accounts(a),
            },
        ),
{
    let t = kind_filter_text(a, lookup, kind);
    let d = match kind {
        TiersKind::Suppliers => supplier_accounts(a),
        TiersKind::Customers => customer_accounts(a),
    };
    match lookup {
        Some(l) => match l.type_col {
            Some(c) => {
                let lit = " AS INT), -1) = "@;
                let k = match kind {
                    TiersKind::Suppliers => "1"@,
                    TiersKind::Customers => "0"@,
                };
                let head = "(COALESCE(TRY_CAST("@ + crate::ledger::qualified("t"@, c@);
                assert(t == head + lit + k + " OR "@ + d + ")"@);
                let w = lit.subrange(0, lit.len() - 2);
                assert(lit =~= w + "= "@) by {
                    reveal_strlit(" AS INT), -1) = ");
                    reveal_strlit("= ");
                }
                let f = "= "@ + k + " OR "@ + d;
                assert(f =~= match kind {
                    TiersKind::Customers => "= 0 OR "@ + customer_accounts(a),
                    TiersKind::Suppliers => "= 1 OR "@ + supplier_accounts(a),
                }) by {
                    reveal_strlit("= ");
                    reveal_strlit(" OR ");
                    reveal_strlit("= 0 OR ");
                    reveal_strlit("= 1 OR ");
                    reveal_strlit("0");
                    reveal_strlit("1");
                }
                assert(t == (head + w) + f + ")"@) by {
                    assert(t =~= (head + w) + f + ")"@);
                }
                lemma_occurs_between(t, head + w, f, ")"@);
                let pre = "= "@ + k + " OR "@;
                lemma_occurs_between(f, pre, d, seq![]);
                lemma_occurs_within(t, f, d, (head + w).len() as int, pre.len() as int);
            },
            None => {
                lemma_occurs_between(t, seq![], d, seq![]);
            },
        },
        None => {
            lemma_occurs_between(t, seq![], d, seq![]);
        },
    }
}

/// The auxiliary ledger of a kind keeps only that kind's accounts: its
/// query requires the third-party filter of the requested kind, so the
/// customers ledger holds 41x accounts and the suppliers ledger 40x
/// accounts.
pub proof fn lemma_auxiliary_ledger_keeps_the_requested_kind(
    e: EntryContext,
    tiers_code_col: Seq<char>,
    account_lookup: Option<LookupContext>,
    tiers_lookup: Option<LookupContext>,
    kind: TiersKind,
    date_from: Seq<char>,
    date_to: Seq<char>,
    prefix: Option<Seq<char>>,
)
    ensures
        occurs_in(
            auxiliary_ledger_query_text(e, tiers_code_col, account_lookup, tiers_lookup, kind, date_from, date_to, prefix),
            "AND "@ + kind_filter_text(account_no_text(e), tiers_lookup, kind),
        ),
        kind == TiersKind::Customers ==> occurs_in(
            auxiliary_ledger_query_text(e, tiers_code_col, account_lookup, tiers_lookup, kind, date_from, date_to, prefix),
            customer_accounts(account_no_text(e)),
        ),
        kind == TiersKind::Suppliers ==> occurs_in(
            auxiliary_ledger_query_text(e, tiers_code_col, account_lookup, tiers_lookup, kind, date_from, date_to, prefix),
            supplier_accounts(account_no_text(e)),
        ),
        occurs_in(
            auxiliary_ledger_query_text(e, tiers_code_col, account_lookup, tiers_lookup, kind, date_from, date_to, prefix),
            "WHERE "@ + parsed_date_text(e) + " BETWEEN "@ + sql_literal_seq(date_from) + " AND "@
                + sql_literal_seq(date_to),
        ),
{
    let t = auxiliary_ledger_query_text(e, tiers_code_col, account_lookup, tiers_lookup, kind, date_from, date_to, prefix);
    let a = account_no_text(e);
    let kf = kind_filter_text(a, tiers_lookup, kind);
    let head = "
        WITH base AS (
            SELECT
                parsed_date = "@
        + parsed_date_text(e)
        + ",
                account_no = "@
        + account_no_text(e)
        + ",
                account_label = "@
        + account_label_text(e, account_lookup)
        + ",
                tiers_code = "@
        + tiers_code_text(tiers_code_col)
        + ",
                tiers_name = "@
        + tiers_name_text(tiers_lookup)
        + ",
                journal = "@
        + optional_text_column(e.journal_col, 64)
        + ",
                description = "@
        + optional_text_column(e.description_col, 255)
        + ",
                ref_piece = "@
        + optional_text_column(e.ref_piece_col, 128)
        + ",
                lettrage = "@
        + optional_text_column(e.lettrage_col, 64)
        + ",
                debit = "@
        + e.debit_expr@
        + ",
                credit = "@
        + e.credit_expr@
        + "
            FROM "@
        + e.table.sql_name_text()
        + " e
            "@
        + account_join_text(e, account_lookup)
        + "
            "@
        + tiers_join_text(tiers_code_col, tiers_lookup);
    let pd = parsed_date_text(e);
    let lf = sql_literal_seq(date_from);
    let lt = sql_literal_seq(date_to);
    let u = head + aux_where() + pd + " BETWEEN "@ + lf + " AND "@ + lt + aux_and() + kf;
    assert(t.subrange(0, u.len() as int) == u) by {
        assert(t.subrange(0, u.len() as int) =~= u);
    }
    lemma_aux_literals();
    lemma_aux_clauses_in(t, u, head, pd, lf, lt, kf);
    let p = head + aux_where() + pd + " BETWEEN "@ + lf + " AND "@ + lt + aux_and().subrange(0, aux_and().len() - 4);
    let fk = "AND "@ + kf;
    lemma_kind_filter_keeps_its_accounts(a, tiers_lookup, kind);
    let d = match kind {
        TiersKind::Suppliers => supplier_accounts(a),
        TiersKind::Customers => customer_accounts(a),
    };
    let j = choose|j: int| occurs_at(kf, d, j);
    assert(fk =~= "AND "@ + kf + seq![]);
    lemma_occurs_between(fk, "AND "@, kf, seq![]);
    lemma_occurs_within(fk, kf, d, 4, j);
    lemma_occurs_within(t, fk, d, p.len() as int, 4 + j);
}

pub open spec fn aux_where() -> Seq<char> {
    "
            WHERE "@
}

pub open spec fn aux_and() -> Seq<char> {
    "
              AND "@
}

proof fn lemma_aux_literals()
    ensures
        ends_with(aux_where(), "WHERE "@),
        ends_with(aux_and(), "AND "@),
        "WHERE "@.len() == 6,
        "AND "@.len() == 4,
{
    reveal_strlit("
            WHERE ");
    reveal_strlit("WHERE ");
    reveal_strlit("
              AND ");
    reveal_strlit("AND ");
    assert(aux_where().subrange(aux_where().len() - 6, aux_where().len() as int) =~= "WHERE "@);
    assert(aux_and().subrange(aux_and().len() - 4, aux_and().len() as int) =~= "AND "@);
}

proof fn lemma_aux_clauses_in(t: Seq<char>, u: Seq<char>, head: Seq<char>, pd: Seq<char>, lf: Seq<char>, lt: Seq<char>, kf: Seq<char>)
    requires
        u == head + aux_where() + pd + " BETWEEN "@ + lf + " AND "@ + lt + aux_and() + kf,
        u.len() <= t.len(),
        t.subrange(0, u.len() as int) == u,
        ends_with(aux_where(), "WHERE "@),
        ends_with(aux_and(), "AND "@),
        "WHERE "@.len() == 6,
        "AND "@.len() == 4,
    ensures
        occurs_in(t, "WHERE "@ + pd + " BETWEEN "@ + lf + " AND "@ + lt),
        occurs_at(
            t,
            "AND "@ + kf,
            (head + aux_where() + pd + " BETWEEN "@ + lf + " AND "@ + lt).len() + aux_and().len() - 4,
        ),
{
    let w1 = aux_where().subrange(0, aux_where().len() - 6);
    let w2 = aux_and().subrange(0, aux_and().len() - 4);
    assert(aux_where() =~= w1 + "WHERE "@);
    assert(aux_and() =~= w2 + "AND "@);
    let fr = "WHERE "@ + pd + " BETWEEN "@ + lf + " AND "@ + lt;
    assert(u =~= (head + w1) + fr + (aux_and() + kf));
    lemma_occurs_between(u, head + w1, fr, aux_and() + kf);
    lemma_occurs_in_prefix(t, u, fr, (head + w1).len() as int);
    let p = head + aux_where() + pd + " BETWEEN "@ + lf + " AND "@ + lt + w2;
    let fk = "AND "@ + kf;
    assert(u =~= p + fk + seq![]);
    lemma_occurs_between(u, p, fk, seq![]);
    lemma_occurs_in_prefix(t, u, fk, p.len() as int);
}

pub open spec fn top_charges_l1() -> Seq<char> {
    "
        SELECT TOP 5
            account_no AS account,
            MAX(account_label) AS label,
            SUM(debit) AS amount
        FROM base
        WHERE parsed_date BETWEEN "@
}

pub open spec fn top_charges_l2() -> Seq<char> {
    "
          AND account_no LIKE '6%'
          "@
}

pub open spec fn top_products_l1() -> Seq<char> {
    "
        SELECT TOP 5
            account_no AS account,
            MAX(account_label) AS label,
            SUM(credit) AS amount
        FROM base
        WHERE parsed_date BETWEEN "@
}

pub open spec fn top_products_l2() -> Seq<char> {
    "
          AND account_no LIKE '7%'
          "@
}

/// The clause of a dashboard ranking: the amounts summed, the date range
/// and the account class kept.
pub open spec fn ranking_clause(amount: Seq<char>, date_from: Seq<char>, date_to: Seq<char>, class: Seq<char>) -> Seq<char> {
    "SUM("@ + amount + ") AS amount
        FROM base
        WHERE parsed_date BETWEEN "@ + sql_literal_seq(date_from) + " AND "@ + sql_literal_seq(date_to)
        + "
          AND account_no LIKE '"@ + class + "%'"@
}

proof fn lemma_ranking_literals()
    ensures
        ends_with(top_charges_l1(), "SUM("@ + "debit"@ + ") AS amount
        FROM base
        WHERE parsed_date BETWEEN "@),
        begins_with(top_charges_l2(), "
          AND account_no LIKE '"@ + "6"@ + "%'"@),
        ends_with(top_products_l1(), "SUM("@ + "credit"@ + ") AS amount
        FROM base
        WHERE parsed_date BETWEEN "@),
        begins_with(top_products_l2(), "
          AND account_no LIKE '"@ + "7"@ + "%'"@),
{
    reveal_strlit("
        SELECT TOP 5
            account_no AS account,
            MAX(account_label) AS label,
            SUM(debit) AS amount
        FROM base
        WHERE parsed_date BETWEEN ");
    reveal_strlit("
          AND account_no LIKE '6%'
          ");
    reveal_strlit("
        SELECT TOP 5
            account_no AS account,
            MAX(account_label) AS label,
            SUM(credit) AS amount
        FROM base
        WHERE parsed_date BETWEEN ");
    reveal_strlit("
          AND account_no LIKE '7%'
          ");
    reveal_strlit("SUM(");
    reveal_strlit("debit");
    reveal_strlit("credit");
    reveal_strlit(") AS amount
        FROM base
        WHERE parsed_date BETWEEN ");
    reveal_strlit("
          AND account_no LIKE '");
    reveal_strlit("6");
    reveal_strlit("7");
    reveal_strlit("%'");
    let a = "SUM("@ + "debit"@ + ") AS amount
        FROM base
        WHERE parsed_date BETWEEN "@;
    assert(top_charges_l1().subrange(top_charges_l1().len() - a.len(), top_charges_l1().len() as int) =~= a);
    let b = "
          AND account_no LIKE '"@ + "6"@ + "%'"@;
    assert(top_charges_l2().subrange(0, b.len() as int) =~= b);
    let c = "SUM("@ + "credit"@ + ") AS amount
        FROM base
        WHERE parsed_date BETWEEN "@;
    assert(top_products_l1().subrange(top_products_l1().len() - c.len(), top_products_l1().len() as int) =~= c);
    let d = "
          AND account_no LIKE '"@ + "7"@ + "%'"@;
    assert(top_products_l2().subrange(0, d.len() as int) =~= d);
}

/// A head, a piece ending with `a`, a middle, a piece beginning with `b`
/// and a tail: `a + middle + b` stands in the text.
pub proof fn lemma_occurs_around(t: Seq<char>, head: Seq<char>, x: Seq<char>, m: Seq<char>, y: Seq<char>, a: Seq<char>, b: Seq<char>)
    requires
        t.len() >= (head + x + m + y).len(),
        t.subrange(0, (head + x + m + y).len() as int) == head + x + m + y,
        ends_with(x, a),
        begins_with(y, b),
    ensures
        occurs_in(t, a + m + b),
{
    let u = head + x + m + y;
    lemma_occurs_across(x, a, m, y, b);
    assert(u =~= head + (x + m + y) + seq![]);
    lemma_occurs_between(u, head, x + m + y, seq![]);
    lemma_occurs_within(u, x + m + y, a + m + b, head.len() as int, x.len() - a.len());
    lemma_occurs_in_prefix(t, u, a + m + b, head.len() + x.len() - a.len());
}

/// The dashboard's top charges rank the expense accounts of the period by
/// their debits: the query sums the debits of class 6 accounts dated in the
/// requested range.
pub proof fn lemma_top_charges_are_expenses(base_cte: Seq<char>, date_from: Seq<char>, date_to: Seq<char>, prefix: Option<Seq<char>>)
    ensures
        occurs_in(kpi_top_charges_query_text(base_cte, date_from, date_to, prefix), ranking_clause("debit"@, date_from, date_to, "6"@)),
{
    let t = kpi_top_charges_query_text(base_cte, date_from, date_to, prefix);
    let head = "
        "@ + base_cte;
    let m = sql_literal_seq(date_from) + " AND "@ + sql_literal_seq(date_to);
    assert(t.subrange(0, (head + top_charges_l1() + m + top_charges_l2()).len() as int)
        == head + top_charges_l1() + m + top_charges_l2()) by {
        assert(t.subrange(0, (head + top_charges_l1() + m + top_charges_l2()).len() as int)
            =~= head + top_charges_l1() + m + top_charges_l2());
    }
    lemma_ranking_literals();
    let a = "SUM("@ + "debit"@ + ") AS amount
        FROM base
        WHERE parsed_date BETWEEN "@;
    let b = "
          AND account_no LIKE '"@ + "6"@ + "%'"@;
    lemma_occurs_around(t, head, top_charges_l1(), m, top_charges_l2(), a, b);
    assert(a + m + b =~= ranking_clause("debit"@, date_from, date_to, "6"@));
}

/// The dashboard's top products rank the revenue accounts of the period by
/// their credits: the query sums the credits of class 7 accounts dated in
/// the requested range.
pub proof fn lemma_top_products_are_revenues(base_cte: Seq<char>, date_from: Seq<char>, date_to: Seq<char>, prefix: Option<Seq<char>>)
    ensures
        occurs_in(kpi_top_products_query_text(base_cte, date_from, date_to, prefix), ranking_clause("credit"@, date_from, date_to, "7"@)),
{
    let t = kpi_top_products_query_text(base_cte, date_from, date_to, prefix);
    let head = "
        "@ + base_cte;
    let m = sql_literal_seq(date_from) + " AND "@ + sql_literal_seq(date_to);
    assert(t.subrange(0, (head + top_products_l1() + m + top_products_l2()).len() as int)
        == head + top_products_l1() + m + top_products_l2()) by {
        assert(t.subrange(0, (head + top_products_l1() + m + top_products_l2()).len() as int)
            =~= head + top_products_l1() + m + top_products_l2());
    }
    lemma_ranking_literals();
    let a = "SUM("@ + "credit"@ + ") AS amount
        FROM base
        WHERE parsed_date BETWEEN "@;
    let b = "
          AND account_no LIKE '"@ + "7"@ + "%'"@;
    lemma_occurs_around(t, head, top_products_l1(), m, top_products_l2(), a, b);
    assert(a + m + b =~= ranking_clause("credit"@, date_from, date_to, "7"@));
}

/// A text that requires the third-party filter of a kind holds that kind's
/// accounts.
pub proof fn lemma_kind_clause_keeps_its_accounts(t: Seq<char>, a: Seq<char>, lookup: Option<LookupContext>, kind: TiersKind)
    requires
        occurs_in(t, "AND "@ + kind_filter_text(a, lookup, kind)),
    ensures
        kind == TiersKind::Customers ==> occurs_in(t, customer_accounts(a)),
        kind == TiersKind::Suppliers ==> occurs_in(t, supplier_accounts(a)),
{
    let kf = kind_filter_text(a, lookup, kind);
    let fk = "AND "@ + kf;
    let i = choose|i: int| occurs_at(t, fk, i);
    lemma_kind_filter_keeps_its_accounts(a, lookup, kind);
    let d = match kind {
        TiersKind::Suppliers => supplier_accounts(a),
        TiersKind::Customers => customer_accounts(a),
    };
    let j = choose|j: int| occurs_at(kf, d, j);
    assert(fk =~= "AND "@ + kf + seq![]);
    lemma_occurs_between(fk, "AND "@, kf, seq![]);
    lemma_occurs_within(fk, kf, d, "AND "@.len() as int, j);
    lemma_occurs_within(t, fk, d, i, "AND "@.len() + j);
}

} // verus!
