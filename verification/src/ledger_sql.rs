//! The SQL of the general-ledger reports on a detected entries table: the
//! expressions that read an entry, and the General Ledger and Balance
//! queries built from them.
use vstd::prelude::*;
use crate::ledger::{
    annual_account_condition, annual_account_text, balance_movement_condition, movement_text,
    decimal_or_zero_text, qualified, text_or_empty_text, BalancePeriod, EntryContext,
    LookupContext, Sage1000Context,
};
use crate::sql::{decimal_or_zero, qualify, sql_literal, sql_literal_seq, text_or_empty};
use crate::text::{ascii_lower, dec, push_char, str_eq, to_ascii_lowercase, trim, trim_str};
use crate::report_laws::{
    customer_accounts, lemma_auxiliary_ledger_keeps_the_requested_kind, lemma_balance_sums_each_side,
    lemma_grand_livre_reads_the_date_range, lemma_top_charges_are_expenses, lemma_top_products_are_revenues,
    begins_with, ends_with, lemma_kind_clause_keeps_its_accounts, lemma_occurs_around, lemma_occurs_between,
    lemma_occurs_in_prefix, lemma_occurs_within, occurs_at, occurs_in,
    ranking_clause, supplier_accounts,
};

verus! {

// ---------------------------------------------------------------------------
// Reading an entry
// ---------------------------------------------------------------------------

/// `TRY_CAST(e.[date] AS DATE)`.
pub open spec fn parsed_date_text(e: EntryContext) -> Seq<char> {
    "TRY_CAST("@ + qualified("e"@, e.date_col@) + " AS DATE)"@
}

pub fn parsed_date_expr(e: &EntryContext) -> (r: String)
    ensures
        r@ == parsed_date_text(*e),
{
    let mut r = String::from_str("TRY_CAST(");
    r.append(qualify("e", e.date_col.as_str()).as_str());
    r.append(" AS DATE)");
    r
}

/// An optional column of the entries as text of at most `len` characters,
/// or an empty text when the table has no such column.
pub open spec fn optional_text_column(col: Option<String>, len: nat) -> Seq<char> {
    match col {
        Some(c) => text_or_empty_text(qualified("e"@, c@), len),
        None => "CAST('' AS NVARCHAR("@ + dec(len) + "))"@,
    }
}

pub fn optional_text_column_expr(col: &Option<String>, len: usize) -> (r: String)
    ensures
        r@ == optional_text_column(*col, len as nat),
{
    match col {
        Some(c) => text_or_empty(qualify("e", c.as_str()).as_str(), len),
        None => {
            let mut r = String::from_str("CAST('' AS NVARCHAR(");
            crate::text::append_dec(&mut r, len as u64);
            r.append("))");
            r
        },
    }
}

/// The account number of an entry.
pub open spec fn account_no_text(e: EntryContext) -> Seq<char> {
    text_or_empty_text(qualified("e"@, e.account_col@), 64)
}

pub fn account_no_expr(e: &EntryContext) -> (r: String)
    ensures
        r@ == account_no_text(*e),
{
    text_or_empty(qualify("e", e.account_col.as_str()).as_str(), 64)
}

/// The account label: the accounts table's label first, then the entry's.
pub open spec fn account_label_text(e: EntryContext, lookup: Option<LookupContext>) -> Seq<char> {
    match (lookup, e.account_label_col) {
        (Some(l), Some(c)) => "COALESCE(CAST("@ + qualified("a"@, l.label_col@) + " AS NVARCHAR(255)), CAST("@
            + qualified("e"@, c@) + " AS NVARCHAR(255)), CAST('' AS NVARCHAR(255)))"@,
        (Some(l), None) => text_or_empty_text(qualified("a"@, l.label_col@), 255),
        (None, Some(c)) => text_or_empty_text(qualified("e"@, c@), 255),
        (None, None) => "CAST('' AS NVARCHAR(255))"@,
    }
}

pub fn account_label_expr(e: &EntryContext, lookup: &Option<LookupContext>) -> (r: String)
    ensures
        r@ == account_label_text(*e, *lookup),
{
    match (lookup, &e.account_label_col) {
        (Some(l), Some(c)) => {
            let mut r = String::from_str("COALESCE(CAST(");
            r.append(qualify("a", l.label_col.as_str()).as_str());
            r.append(" AS NVARCHAR(255)), CAST(");
            r.append(qualify("e", c.as_str()).as_str());
            r.append(" AS NVARCHAR(255)), CAST('' AS NVARCHAR(255)))");
            r
        },
        (Some(l), None) => text_or_empty(qualify("a", l.label_col.as_str()).as_str(), 255),
        (None, Some(c)) => text_or_empty(qualify("e", c.as_str()).as_str(), 255),
        (None, None) => String::from_str("CAST('' AS NVARCHAR(255))"),
    }
}

/// The join of the accounts table on the entry's account, if there is one.
pub open spec fn account_join_text(e: EntryContext, lookup: Option<LookupContext>) -> Seq<char> {
    match lookup {
        Some(l) => "LEFT JOIN "@ + l.table.sql_name_text() + " a ON "@ + qualified("a"@, l.code_col@)
            + " = "@ + qualified("e"@, e.account_col@),
        None => seq![],
    }
}

pub fn account_join_expr(e: &EntryContext, lookup: &Option<LookupContext>) -> (r: String)
    ensures
        r@ == account_join_text(*e, *lookup),
{
    match lookup {
        Some(l) => {
            let mut r = String::from_str("LEFT JOIN ");
            r.append(l.table.sql_name().as_str());
            r.append(" a ON ");
            r.append(qualify("a", l.code_col.as_str()).as_str());
            r.append(" = ");
            r.append(qualify("e", e.account_col.as_str()).as_str());
            r
        },
        None => String::new(),
    }
}

/// The restriction to accounts starting with a prefix, when one is given.
pub open spec fn account_filter_text(account_no: Seq<char>, prefix: Option<Seq<char>>) -> Seq<char> {
    match prefix {
        Some(p) => if trim(p).len() > 0 {
            " AND "@ + account_no + " LIKE "@ + sql_literal_seq(trim(p) + seq!['%'])
        } else {
            seq![]
        },
        None => seq![],
    }
}

pub fn account_filter_expr(account_no: &str, prefix: Option<&str>) -> (r: String)
    ensures
        r@ == account_filter_text(account_no@, match prefix {
            Some(p) => Some(p@),
            None => None,
        }),
{
    match prefix {
        Some(p) => {
            let mut t = trim_str(p);
            if t.as_str().is_empty() {
                return String::new();
            }
            push_char(&mut t, '%');
            assert(t@ =~= trim(p@) + seq!['%']);
            let mut r = String::from_str(" AND ");
            r.append(account_no);
            r.append(" LIKE ");
            r.append(sql_literal(t.as_str()).as_str());
            r
        },
        None => String::new(),
    }
}

// ---------------------------------------------------------------------------
// General Ledger
// ---------------------------------------------------------------------------

/// The General Ledger query: each account's entries in date order with a
/// running balance, followed by the account's subtotal row.
pub open spec fn grand_livre_query_text(e: EntryContext, lookup: Option<LookupContext>, date_from: Seq<char>, date_to: Seq<char>, prefix: Option<Seq<char>>) -> Seq<char> {
    "
        WITH base AS (
            SELECT
                parsed_date = "@
        + parsed_date_text(e)
        + ",
                journal = "@
        + optional_text_column(e.journal_col, 64)
        + ",
                account_no = "@
        + account_no_text(e)
        + ",
                account_label = "@
        + account_label_text(e, lookup)
        + ",
                ref_piece = "@
        + optional_text_column(e.ref_piece_col, 128)
        + ",
                lettrage = "@
        + optional_text_column(e.lettrage_col, 64)
        + ",
                debit = "@
        + e.debit_expr@
        + ",
                credit = "@
        + e.credit_expr@
        + "
            FROM "@
        + e.table.sql_name_text()
        + " e
            "@
        + account_join_text(e, lookup)
        + "
            WHERE "@
        + parsed_date_text(e)
        + " BETWEEN "@
        + sql_literal_seq(date_from)
        + " AND "@
        + sql_literal_seq(date_to)
        + "
              "@
        + account_filter_text(account_no_text(e), prefix)
        + "
        ),
        ranked AS (
            SELECT
                CONVERT(char(10), parsed_date, 103) AS [date],
                journal,
                account_no,
                account_label,
                ref_piece,
                lettrage,
                debit,
                credit,
                SUM(debit - credit) OVER (
                    PARTITION BY account_no
                    ORDER BY parsed_date, journal, ref_piece, lettrage, account_label
                    ROWS UNBOUNDED PRECEDING
                ) AS solde_cumule,
                ROW_NUMBER() OVER (
                    PARTITION BY account_no
                    ORDER BY parsed_date, journal, ref_piece, lettrage, account_label
                ) AS sort_row
            FROM base
            WHERE parsed_date IS NOT NULL
              AND account_no <> ''
        ),
        subtotal AS (
            SELECT
                CAST(NULL AS NVARCHAR(10)) AS [date],
                CAST(NULL AS NVARCHAR(64)) AS journal,
                account_no,
                MAX(account_label) AS account_label,
                CAST(NULL AS NVARCHAR(128)) AS ref_piece,
                CAST(NULL AS NVARCHAR(64)) AS lettrage,
                CAST(0 AS DECIMAL(38, 6)) AS debit,
                CAST(0 AS DECIMAL(38, 6)) AS credit,
                SUM(debit - credit) AS solde_cumule,
                CAST(1 AS BIT) AS is_subtotal_row,
                SUM(debit) AS total_debit,
                SUM(credit) AS total_credit,
                SUM(debit - credit) AS solde,
                2147483647 AS sort_row
            FROM base
            WHERE parsed_date IS NOT NULL
              AND account_no <> ''
            GROUP BY account_no
        )
        SELECT
            [date],
            journal,
            account_no,
            account_label,
            ref_piece,
            lettrage,
            debit,
            credit,
            solde_cumule,
            is_subtotal_row,
            total_debit,
            total_credit,
            solde
        FROM (
            SELECT
                [date],
                journal,
                account_no,
                account_label,
                ref_piece,
                lettrage,
                debit,
                credit,
                solde_cumule,
                CAST(0 AS BIT) AS is_subtotal_row,
                CAST(NULL AS DECIMAL(38, 6)) AS total_debit,
                CAST(NULL AS DECIMAL(38, 6)) AS total_credit,
                CAST(NULL AS DECIMAL(38, 6)) AS solde,
                sort_row
            FROM ranked
            UNION ALL
            SELECT
                [date],
                journal,
                account_no,
                account_label,
                ref_piece,
                lettrage,
                debit,
                credit,
                solde_cumule,
                is_subtotal_row,
                total_debit,
                total_credit,
                solde,
                sort_row
            FROM subtotal
        ) ledger
        ORDER BY account_no, sort_row
        "@
}

/// The General Ledger query of the General Ledger report on a detected entries
/// table, its accounts table if found, a date range and an optional account
/// prefix.
pub fn grand_livre_query(
    e: &EntryContext,
    lookup: &Option<LookupContext>,
    date_from: &str,
    date_to: &str,
    account_prefix: Option<&str>,
) -> (r: String)
    ensures
        r@ == grand_livre_query_text(*e, *lookup, date_from@, date_to@, match account_prefix {
            Some(p) => Some(p@),
            None => None,
        }),
        occurs_in(
            r@,
            "WHERE "@ + parsed_date_text(*e) + " BETWEEN "@ + sql_literal_seq(date_from@) + " AND "@
                + sql_literal_seq(date_to@),
        ),
{
    proof {
        lemma_grand_livre_reads_the_date_range(*e, *lookup, date_from@, date_to@, match account_prefix { Some(p) => Some(p@), None => None });
    }
    let parsed_date_expr = parsed_date_expr(e);
    let journal_expr = optional_text_column_expr(&e.journal_col, 64);
    let account_no_expr = account_no_expr(e);
    let account_label_expr = account_label_expr(e, lookup);
    let ref_piece_expr = optional_text_column_expr(&e.ref_piece_col, 128);
    let lettrage_expr = optional_text_column_expr(&e.lettrage_col, 64);
    let entries_table = e.table.sql_name();
    let account_join = account_join_expr(e, lookup);
    let date_from = sql_literal(date_from);
    let date_to = sql_literal(date_to);
    let account_filter_sql = account_filter_expr(account_no_expr.as_str(), account_prefix);
    let mut r = String::new();
    r.append("
        WITH base AS (
            SELECT
                parsed_date = ");
    r.append(parsed_date_expr.as_str());
    r.append(",
                journal = ");
    r.append(journal_expr.as_str());
    r.append(",
                account_no = ");
    r.append(account_no_expr.as_str());
    r.append(",
                account_label = ");
    r.append(account_label_expr.as_str());
    r.append(",
                ref_piece = ");
    r.append(ref_piece_expr.as_str());
    r.append(",
                lettrage = ");
    r.append(lettrage_expr.as_str());
    r.append(",
                debit = ");
    r.append(e.debit_expr.as_str());
    r.append(",
                credit = ");
    r.append(e.credit_expr.as_str());
    r.append("
            FROM ");
    r.append(entries_table.as_str());
    r.append(" e
            ");
    r.append(account_join.as_str());
    r.append("
            WHERE ");
    r.append(parsed_date_expr.as_str());
    r.append(" BETWEEN ");
    r.append(date_from.as_str());
    r.append(" AND ");
    r.append(date_to.as_str());
    r.append("
              ");
    r.append(account_filter_sql.as_str());
    r.append("
        ),
        ranked AS (
            SELECT
                CONVERT(char(10), parsed_date, 103) AS [date],
                journal,
                account_no,
                account_label,
                ref_piece,
                lettrage,
                debit,
                credit,
                SUM(debit - credit) OVER (
                    PARTITION BY account_no
                    ORDER BY parsed_date, journal, ref_piece, lettrage, account_label
                    ROWS UNBOUNDED PRECEDING
                ) AS solde_cumule,
                ROW_NUMBER() OVER (
                    PARTITION BY account_no
                    ORDER BY parsed_date, journal, ref_piece, lettrage, account_label
                ) AS sort_row
            FROM base
            WHERE parsed_date IS NOT NULL
              AND account_no <> ''
        ),
        subtotal AS (
            SELECT
                CAST(NULL AS NVARCHAR(10)) AS [date],
                CAST(NULL AS NVARCHAR(64)) AS journal,
                account_no,
                MAX(account_label) AS account_label,
                CAST(NULL AS NVARCHAR(128)) AS ref_piece,
                CAST(NULL AS NVARCHAR(64)) AS lettrage,
                CAST(0 AS DECIMAL(38, 6)) AS debit,
                CAST(0 AS DECIMAL(38, 6)) AS credit,
                SUM(debit - credit) AS solde_cumule,
                CAST(1 AS BIT) AS is_subtotal_row,
                SUM(debit) AS total_debit,
                SUM(credit) AS total_credit,
                SUM(debit - credit) AS solde,
                2147483647 AS sort_row
            FROM base
            WHERE parsed_date IS NOT NULL
              AND account_no <> ''
            GROUP BY account_no
        )
        SELECT
            [date],
            journal,
            account_no,
            account_label,
            ref_piece,
            lettrage,
            debit,
            credit,
            solde_cumule,
            is_subtotal_row,
            total_debit,
            total_credit,
            solde
        FROM (
            SELECT
                [date],
                journal,
                account_no,
                account_label,
                ref_piece,
                lettrage,
                debit,
                credit,
                solde_cumule,
                CAST(0 AS BIT) AS is_subtotal_row,
                CAST(NULL AS DECIMAL(38, 6)) AS total_debit,
                CAST(NULL AS DECIMAL(38, 6)) AS total_credit,
                CAST(NULL AS DECIMAL(38, 6)) AS solde,
                sort_row
            FROM ranked
            UNION ALL
            SELECT
                [date],
                journal,
                account_no,
                account_label,
                ref_piece,
                lettrage,
                debit,
                credit,
                solde_cumule,
                is_subtotal_row,
                total_debit,
                total_credit,
                solde,
                sort_row
            FROM subtotal
        ) ledger
        ORDER BY account_no, sort_row
        ");
    r
}

/// The warning of a ledger without account labels.
pub open spec fn label_warning_text(e: EntryContext, lookup: Option<LookupContext>) -> Option<Seq<char>> {
    if lookup is None && e.account_label_col is None {
        Some("Account labels table not detected; labels will be blank when not present on entries"@)
    } else {
        None
    }
}

/// The General Ledger report's warning when neither an accounts table nor the
/// entries give account labels.
pub fn label_warning(e: &EntryContext, lookup: &Option<LookupContext>) -> (r: Option<String>)
    ensures
        match r {
            Some(s) => label_warning_text(*e, *lookup) == Some(s@),
            None => label_warning_text(*e, *lookup) is None,
        },
{
    if lookup.is_none() && e.account_label_col.is_none() {
        Some(String::from_str("Account labels table not detected; labels will be blank when not present on entries"))
    } else {
        None
    }
}

// ---------------------------------------------------------------------------
// Balance
// ---------------------------------------------------------------------------

/// The movements before the period that make the opening balance of a
/// balance-sheet account: entries before the start, and the opening
/// journals when there is a journal column.
pub open spec fn opening_text(e: EntryContext, p: BalancePeriod) -> Seq<char> {
    "NOT "@ + annual_account_text("account_no"@) + " AND "@ + (if e.journal_col is Some {
        "(journal IN ('RAN', 'AN', 'OUV') OR parsed_date < "@ + sql_literal_seq(p.date_from@) + ")"@
    } else {
        "parsed_date < "@ + sql_literal_seq(p.date_from@)
    })
}

/// The entries a Balance reads: up to the end date, and the opening
/// journals whatever their date when there is a journal column.
pub open spec fn cutoff_text(e: EntryContext, p: BalancePeriod) -> Seq<char> {
    if e.journal_col is Some {
        "(parsed_date <= "@ + sql_literal_seq(p.date_to@) + " OR journal IN ('RAN', 'AN', 'OUV'))"@
    } else {
        "parsed_date <= "@ + sql_literal_seq(p.date_to@)
    }
}

fn opening_condition_expr(e: &EntryContext, period: &BalancePeriod) -> (r: String)
    ensures
        r@ == opening_text(*e, *period),
{
    let mut r = String::from_str("NOT ");
    r.append(annual_account_condition("account_no").as_str());
    r.append(" AND ");
    if e.journal_col.is_some() {
        r.append("(journal IN ('RAN', 'AN', 'OUV') OR parsed_date < ");
        r.append(sql_literal(period.date_from.as_str()).as_str());
        r.append(")");
    } else {
        r.append("parsed_date < ");
        r.append(sql_literal(period.date_from.as_str()).as_str());
    }
    r
}

fn cutoff_condition_expr(e: &EntryContext, period: &BalancePeriod) -> (r: String)
    ensures
        r@ == cutoff_text(*e, *period),
{
    if e.journal_col.is_some() {
        let mut c = String::from_str("(parsed_date <= ");
        c.append(sql_literal(period.date_to.as_str()).as_str());
        c.append(" OR journal IN ('RAN', 'AN', 'OUV'))");
        c
    } else {
        let mut c = String::from_str("parsed_date <= ");
        c.append(sql_literal(period.date_to.as_str()).as_str());
        c
    }
}

/// The Balance query: per account, the opening balance, the period's
/// movements and the closing balance, each on its debit or credit side.
pub open spec fn balance_query_text(e: EntryContext, lookup: Option<LookupContext>, p: BalancePeriod, prefix: Option<Seq<char>>) -> Seq<char> {
    "
        WITH base AS (
            SELECT
                parsed_date = "@
        + parsed_date_text(e)
        + ",
                journal = "@
        + optional_text_column(e.journal_col, 64)
        + ",
                account_no = "@
        + account_no_text(e)
        + ",
                account_label = "@
        + account_label_text(e, lookup)
        + ",
                debit = "@
        + e.debit_expr@
        + ",
                credit = "@
        + e.credit_expr@
        + "
            FROM "@
        + e.table.sql_name_text()
        + " e
            "@
        + account_join_text(e, lookup)
        + "
            WHERE "@
        + "1 = 1"@ + account_filter_text(account_no_text(e), prefix)
        + "
        ),
        aggregated AS (
            SELECT
                account_no,
                MAX(account_label) AS account_label,
                SUM(CASE WHEN "@
        + opening_text(e, p)
        + " THEN debit ELSE CAST(0 AS DECIMAL(38, 6)) END) AS open_debit_raw,
                SUM(CASE WHEN "@
        + opening_text(e, p)
        + " THEN credit ELSE CAST(0 AS DECIMAL(38, 6)) END) AS open_credit_raw,
                SUM(CASE WHEN "@
        + movement_text("account_no"@, "parsed_date"@, "journal"@, e.journal_col is Some, p)
        + " THEN debit ELSE CAST(0 AS DECIMAL(38, 6)) END) AS mvt_debit,
                SUM(CASE WHEN "@
        + movement_text("account_no"@, "parsed_date"@, "journal"@, e.journal_col is Some, p)
        + " THEN credit ELSE CAST(0 AS DECIMAL(38, 6)) END) AS mvt_credit
            FROM base
            WHERE account_no <> ''
              AND parsed_date IS NOT NULL
              AND "@
        + cutoff_text(e, p)
        + "
            GROUP BY account_no
        )
        SELECT
            account_no,
            account_label,
            CASE WHEN (open_debit_raw - open_credit_raw) >= 0 THEN (open_debit_raw - open_credit_raw) ELSE CAST(0 AS DECIMAL(38, 6)) END AS ouverture_debit,
            CASE WHEN (open_debit_raw - open_credit_raw) < 0 THEN ABS(open_debit_raw - open_credit_raw) ELSE CAST(0 AS DECIMAL(38, 6)) END AS ouverture_credit,
            mvt_debit,
            mvt_credit,
            CASE
                WHEN ((open_debit_raw - open_credit_raw) + (mvt_debit - mvt_credit)) >= 0
                    THEN ((open_debit_raw - open_credit_raw) + (mvt_debit - mvt_credit))
                ELSE CAST(0 AS DECIMAL(38, 6))
            END AS cloture_debit,
            CASE
                WHEN ((open_debit_raw - open_credit_raw) + (mvt_debit - mvt_credit)) < 0
                    THEN ABS((open_debit_raw - open_credit_raw) + (mvt_debit - mvt_credit))
                ELSE CAST(0 AS DECIMAL(38, 6))
            END AS cloture_credit
        FROM aggregated
        ORDER BY account_no
        "@
}

/// The Balance query of the trial balance on a detected entries table, its
/// accounts table if found, a resolved period and an optional account prefix.
pub fn balance_query(
    e: &EntryContext,
    lookup: &Option<LookupContext>,
    period: &BalancePeriod,
    account_prefix: Option<&str>,
) -> (r: String)
    ensures
        r@ == balance_query_text(*e, *lookup, *period, match account_prefix {
            Some(p) => Some(p@),
            None => None,
        }),
        occurs_in(
            r@,
            "SUM(CASE WHEN "@ + movement_text("account_no"@, "parsed_date"@, "journal"@, e.journal_col is Some, *period)
                + " THEN debit ELSE CAST(0 AS DECIMAL(38, 6)) END) AS mvt_debit"@,
        ),
        occurs_in(
            r@,
            "SUM(CASE WHEN "@ + movement_text("account_no"@, "parsed_date"@, "journal"@, e.journal_col is Some, *period)
                + " THEN credit ELSE CAST(0 AS DECIMAL(38, 6)) END) AS mvt_credit"@,
        ),
{
    proof {
        lemma_balance_sums_each_side(*e, *lookup, *period, match account_prefix { Some(p) => Some(p@), None => None });
    }
    let parsed_date_expr = parsed_date_expr(e);
    let journal_expr = optional_text_column_expr(&e.journal_col, 64);
    let account_no_expr = account_no_expr(e);
    let account_label_expr = account_label_expr(e, lookup);
    let entries_table = e.table.sql_name();
    let account_join = account_join_expr(e, lookup);
    let mut account_filter_sql_base = String::from_str("1 = 1");
    account_filter_sql_base.append(account_filter_expr(account_no_expr.as_str(), account_prefix).as_str());
    let has_journal = e.journal_col.is_some();
    let opening_condition = opening_condition_expr(e, period);
    let movement_condition = balance_movement_condition("account_no", "parsed_date", "journal", has_journal, period);
    let cutoff_condition = cutoff_condition_expr(e, period);
    let mut r = String::new();
    r.append("
        WITH base AS (
            SELECT
                parsed_date = ");
    r.append(parsed_date_expr.as_str());
    r.append(",
                journal = ");
    r.append(journal_expr.as_str());
    r.append(",
                account_no = ");
    r.append(account_no_expr.as_str());
    r.append(",
                account_label = ");
    r.append(account_label_expr.as_str());
    r.append(",
                debit = ");
    r.append(e.debit_expr.as_str());
    r.append(",
                credit = ");
    r.append(e.credit_expr.as_str());
    r.append("
            FROM ");
    r.append(entries_table.as_str());
    r.append(" e
            ");
    r.append(account_join.as_str());
    r.append("
            WHERE ");
    r.append(account_filter_sql_base.as_str());
    r.append("
        ),
        aggregated AS (
            SELECT
                account_no,
                MAX(account_label) AS account_label,
                SUM(CASE WHEN ");
    r.append(opening_condition.as_str());
    r.append(" THEN debit ELSE CAST(0 AS DECIMAL(38, 6)) END) AS open_debit_raw,
                SUM(CASE WHEN ");
    r.append(opening_condition.as_str());
    r.append(" THEN credit ELSE CAST(0 AS DECIMAL(38, 6)) END) AS open_credit_raw,
                SUM(CASE WHEN ");
    r.append(movement_condition.as_str());
    r.append(" THEN debit ELSE CAST(0 AS DECIMAL(38, 6)) END) AS mvt_debit,
                SUM(CASE WHEN ");
    r.append(movement_condition.as_str());
    r.append(" THEN credit ELSE CAST(0 AS DECIMAL(38, 6)) END) AS mvt_credit
            FROM base
            WHERE account_no <> ''
              AND parsed_date IS NOT NULL
              AND ");
    r.append(cutoff_condition.as_str());
    r.append("
            GROUP BY account_no
        )
        SELECT
            account_no,
            account_label,
            CASE WHEN (open_debit_raw - open_credit_raw) >= 0 THEN (open_debit_raw - open_credit_raw) ELSE CAST(0 AS DECIMAL(38, 6)) END AS ouverture_debit,
            CASE WHEN (open_debit_raw - open_credit_raw) < 0 THEN ABS(open_debit_raw - open_credit_raw) ELSE CAST(0 AS DECIMAL(38, 6)) END AS ouverture_credit,
            mvt_debit,
            mvt_credit,
            CASE
                WHEN ((open_debit_raw - open_credit_raw) + (mvt_debit - mvt_credit)) >= 0
                    THEN ((open_debit_raw - open_credit_raw) + (mvt_debit - mvt_credit))
                ELSE CAST(0 AS DECIMAL(38, 6))
            END AS cloture_debit,
            CASE
                WHEN ((open_debit_raw - open_credit_raw) + (mvt_debit - mvt_credit)) < 0
                    THEN ABS((open_debit_raw - open_credit_raw) + (mvt_debit - mvt_credit))
                ELSE CAST(0 AS DECIMAL(38, 6))
            END AS cloture_credit
        FROM aggregated
        ORDER BY account_no
        ");
    r
}

/// The warning of a Balance without a journal column.
pub open spec fn journal_warning_text(e: EntryContext) -> Option<Seq<char>> {
    if e.journal_col is None {
        Some("Journal column not detected; opening balance falls back to entries before the start date only"@)
    } else {
        None
    }
}

/// The trial balance's warning when the entries have no journal column.
pub fn journal_warning(e: &EntryContext) -> (r: Option<String>)
    ensures
        match r {
            Some(s) => journal_warning_text(*e) == Some(s@),
            None => journal_warning_text(*e) is None,
        },
{
    if e.journal_col.is_none() {
        Some(String::from_str("Journal column not detected; opening balance falls back to entries before the start date only"))
    } else {
        None
    }
}

// ---------------------------------------------------------------------------
// Auxiliary ledger
// ---------------------------------------------------------------------------

/// Which third parties an auxiliary ledger covers.
#[derive(Clone, Copy, Debug, PartialEq, Eq, Structural)]
pub enum TiersKind {
    Suppliers,
    Customers,
}

pub open spec fn tiers_kind_named(t: Seq<char>) -> Option<TiersKind> {
    let l = ascii_lower(trim(t));
    if l == "fournisseurs"@ {
        Some(TiersKind::Suppliers)
    } else if l == "clients"@ {
        Some(TiersKind::Customers)
    } else {
        None
    }
}

/// The kind of third party a request names (`fournisseurs` or `clients`,
/// in any ASCII case, spaces around ignored), or the error for any other.
pub fn parse_tiers_kind(tiers_type: &str) -> (r: Result<TiersKind, String>)
    ensures
        match r {
            Ok(k) => tiers_kind_named(tiers_type@) == Some(k),
            Err(m) => tiers_kind_named(tiers_type@) is None
                && m@ == "tiers_type must be 'fournisseurs' or 'clients'"@,
        },
{
    let l = to_ascii_lowercase(trim_str(tiers_type).as_str());
    if str_eq(l.as_str(), "fournisseurs") {
        Ok(TiersKind::Suppliers)
    } else if str_eq(l.as_str(), "clients") {
        Ok(TiersKind::Customers)
    } else {
        Err(String::from_str("tiers_type must be 'fournisseurs' or 'clients'"))
    }
}

/// The third party's code on an entry.
pub open spec fn tiers_code_text(col: Seq<char>) -> Seq<char> {
    text_or_empty_text(qualified("e"@, col), 64)
}

/// The third party's name from its table, or an empty text.
pub open spec fn tiers_name_text(lookup: Option<LookupContext>) -> Seq<char> {
    match lookup {
        Some(l) => text_or_empty_text(qualified("t"@, l.label_col@), 255),
        None => "CAST('' AS NVARCHAR(255))"@,
    }
}

/// The join of the third parties table on the entry's third party.
pub open spec fn tiers_join_text(col: Seq<char>, lookup: Option<LookupContext>) -> Seq<char> {
    match lookup {
        Some(l) => "LEFT JOIN "@ + l.table.sql_name_text() + " t ON "@ + qualified("t"@, l.code_col@)
            + " = "@ + qualified("e"@, col),
        None => seq![],
    }
}

/// Supplier accounts are in 40, customer accounts in 41; with a type
/// column on the third parties table (1 supplier, 0 customer) either
/// criterion selects an entry.
pub open spec fn kind_filter_text(account_no: Seq<char>, lookup: Option<LookupContext>, kind: TiersKind) -> Seq<char> {
    let default = match kind {
        TiersKind::Suppliers => "("@ + account_no + " LIKE '40%' OR "@ + account_no + " LIKE '401%')"@,
        TiersKind::Customers => "("@ + account_no + " LIKE '41%' OR "@ + account_no + " LIKE '411%')"@,
    };
    match lookup {
        Some(l) => match l.type_col {
            Some(c) => "(COALESCE(TRY_CAST("@ + qualified("t"@, c@) + " AS INT), -1) = "@ + (match kind {
                TiersKind::Suppliers => "1"@,
                TiersKind::Customers => "0"@,
            }) + " OR "@ + default + ")"@,
            None => default,
        },
        None => default,
    }
}

pub(crate) fn kind_filter_expr(account_no: &str, lookup: &Option<LookupContext>, kind: TiersKind) -> (r: String)
    ensures
        r@ == kind_filter_text(account_no@, *lookup, kind),
{
    let mut default = String::from_str("(");
    default.append(account_no);
    match kind {
        TiersKind::Suppliers => {
            default.append(" LIKE '40%' OR ");
            default.append(account_no);
            default.append(" LIKE '401%')");
        },
        TiersKind::Customers => {
            default.append(" LIKE '41%' OR ");
            default.append(account_no);
            default.append(" LIKE '411%')");
        },
    }
    match lookup {
        Some(l) => match &l.type_col {
            Some(c) => {
                let mut r = String::from_str("(COALESCE(TRY_CAST(");
                r.append(qualify("t", c.as_str()).as_str());
                r.append(" AS INT), -1) = ");
                match kind {
                    TiersKind::Suppliers => r.append("1"),
                    TiersKind::Customers => r.append("0"),
                }
                r.append(" OR ");
                r.append(default.as_str());
                r.append(")");
                r
            },
            None => default,
        },
        None => default,
    }
}

fn tiers_name_expr(lookup: &Option<LookupContext>) -> (r: String)
    ensures
        r@ == tiers_name_text(*lookup),
{
    match lookup {
        Some(l) => text_or_empty(qualify("t", l.label_col.as_str()).as_str(), 255),
        None => String::from_str("CAST('' AS NVARCHAR(255))"),
    }
}

fn tiers_join_expr(col: &str, lookup: &Option<LookupContext>) -> (r: String)
    ensures
        r@ == tiers_join_text(col@, *lookup),
{
    match lookup {
        Some(l) => {
            let mut r = String::from_str("LEFT JOIN ");
            r.append(l.table.sql_name().as_str());
            r.append(" t ON ");
            r.append(qualify("t", l.code_col.as_str()).as_str());
            r.append(" = ");
            r.append(qualify("e", col).as_str());
            r
        },
        None => String::new(),
    }
}

/// The auxiliary ledger query: each third party's entries on its
/// collective accounts with a running balance, then its total row.
pub open spec fn auxiliary_ledger_query_text(e: EntryContext, tiers_code_col: Seq<char>, account_lookup: Option<LookupContext>, tiers_lookup: Option<LookupContext>, kind: TiersKind, date_from: Seq<char>, date_to: Seq<char>, prefix: Option<Seq<char>>) -> Seq<char> {
    "
        WITH base AS (
            SELECT
                parsed_date = "@
        + parsed_date_text(e)
        + ",
                account_no = "@
        + account_no_text(e)
        + ",
                account_label = "@
        + account_label_text(e, account_lookup)
        + ",
                tiers_code = "@
        + tiers_code_text(tiers_code_col)
        + ",
                tiers_name = "@
        + tiers_name_text(tiers_lookup)
        + ",
                journal = "@
        + optional_text_column(e.journal_col, 64)
        + ",
                description = "@
        + optional_text_column(e.description_col, 255)
        + ",
                ref_piece = "@
        + optional_text_column(e.ref_piece_col, 128)
        + ",
                lettrage = "@
        + optional_text_column(e.lettrage_col, 64)
        + ",
                debit = "@
        + e.debit_expr@
        + ",
                credit = "@
        + e.credit_expr@
        + "
            FROM "@
        + e.table.sql_name_text()
        + " e
            "@
        + account_join_text(e, account_lookup)
        + "
            "@
        + tiers_join_text(tiers_code_col, tiers_lookup)
        + "
            WHERE "@
        + parsed_date_text(e)
        + " BETWEEN "@
        + sql_literal_seq(date_from)
        + " AND "@
        + sql_literal_seq(date_to)
        + "
              AND "@
        + kind_filter_text(account_no_text(e), tiers_lookup, kind)
        + "
              AND "@
        + tiers_code_text(tiers_code_col)
        + " <> ''
              "@
        + account_filter_text(account_no_text(e), prefix)
        + "
        ),
        ranked AS (
            SELECT
                account_no,
                account_label,
                tiers_code,
                tiers_name,
                CONVERT(char(10), parsed_date, 103) AS [date],
                journal,
                description,
                ref_piece,
                lettrage,
                debit,
                credit,
                SUM(debit - credit) OVER (
                    PARTITION BY tiers_code
                    ORDER BY account_no, parsed_date, journal, ref_piece, description
                    ROWS UNBOUNDED PRECEDING
                ) AS running_balance,
                ROW_NUMBER() OVER (
                    PARTITION BY tiers_code
                    ORDER BY account_no, parsed_date, journal, ref_piece, description
                ) AS sort_row
            FROM base
            WHERE parsed_date IS NOT NULL
        ),
        totals AS (
            SELECT
                MAX(account_no) AS account_no,
                MAX(account_label) AS account_label,
                tiers_code,
                MAX(tiers_name) AS tiers_name,
                CAST(NULL AS NVARCHAR(10)) AS [date],
                CAST(NULL AS NVARCHAR(64)) AS journal,
                CAST(NULL AS NVARCHAR(255)) AS description,
                CAST(NULL AS NVARCHAR(128)) AS ref_piece,
                CAST(NULL AS NVARCHAR(64)) AS lettrage,
                SUM(debit) AS debit,
                SUM(credit) AS credit,
                SUM(debit - credit) AS running_balance,
                CAST(1 AS BIT) AS is_total_row,
                2147483647 AS sort_row
            FROM base
            WHERE parsed_date IS NOT NULL
            GROUP BY tiers_code
        )
        SELECT
            account_no,
            account_label,
            tiers_code,
            tiers_name,
            [date],
            journal,
            description,
            ref_piece,
            lettrage,
            debit,
            credit,
            running_balance,
            is_total_row
        FROM (
            SELECT
                account_no,
                account_label,
                tiers_code,
                tiers_name,
                [date],
                journal,
                description,
                ref_piece,
                lettrage,
                debit,
                credit,
                running_balance,
                CAST(0 AS BIT) AS is_total_row,
                sort_row
            FROM ranked
            UNION ALL
            SELECT
                account_no,
                account_label,
                tiers_code,
                tiers_name,
                [date],
                journal,
                description,
                ref_piece,
                lettrage,
                debit,
                credit,
                running_balance,
                is_total_row,
                sort_row
            FROM totals
        ) gl_aux
        ORDER BY account_no, tiers_code, sort_row
        "@
}

/// The auxiliary ledger query of the auxiliary ledger report on a
/// detected entries table with a third-party column, the accounts and third
/// parties tables if found, the kind of third party, a date range and an
/// optional account prefix.
#[verifier::rlimit(30)]
pub fn auxiliary_ledger_query(
    e: &EntryContext,
    tiers_code_col: &str,
    account_lookup: &Option<LookupContext>,
    tiers_lookup: &Option<LookupContext>,
    kind: TiersKind,
    date_from: &str,
    date_to: &str,
    account_prefix: Option<&str>,
) -> (r: String)
    ensures
        r@ == auxiliary_ledger_query_text(
            *e,
            tiers_code_col@,
            *account_lookup,
            *tiers_lookup,
            kind,
            date_from@,
            date_to@,
            match account_prefix {
                Some(p) => Some(p@),
                None => None,
            },
        ),
        occurs_in(r@, "AND "@ + kind_filter_text(account_no_text(*e), *tiers_lookup, kind)),
        kind == TiersKind::Customers ==> occurs_in(r@, customer_accounts(account_no_text(*e))),
        kind == TiersKind::Suppliers ==> occurs_in(r@, supplier_accounts(account_no_text(*e))),
{
    proof {
        lemma_auxiliary_ledger_keeps_the_requested_kind(*e, tiers_code_col@, *account_lookup, *tiers_lookup, kind, date_from@, date_to@, match account_prefix { Some(p) => Some(p@), None => None });
    }
    let parsed_date_expr = parsed_date_expr(e);
    let account_no_expr = account_no_expr(e);
    let account_label_expr = account_label_expr(e, account_lookup);
    let tiers_code_expr = text_or_empty(qualify("e", tiers_code_col).as_str(), 64);
    let tiers_name_expr = tiers_name_expr(tiers_lookup);
    let journal_expr = optional_text_column_expr(&e.journal_col, 64);
    let description_expr = optional_text_column_expr(&e.description_col, 255);
    let ref_piece_expr = optional_text_column_expr(&e.ref_piece_col, 128);
    let lettrage_expr = optional_text_column_expr(&e.lettrage_col, 64);
    let entries_table = e.table.sql_name();
    let account_join = account_join_expr(e, account_lookup);
    let tiers_join = tiers_join_expr(tiers_code_col, tiers_lookup);
    let date_from = sql_literal(date_from);
    let date_to = sql_literal(date_to);
    let base_kind_filter = kind_filter_expr(account_no_expr.as_str(), tiers_lookup, kind);
    let scoped_prefix_filter = account_filter_expr(account_no_expr.as_str(), account_prefix);
    let mut r = String::new();
    r.append("
        WITH base AS (
            SELECT
                parsed_date = ");
    r.append(parsed_date_expr.as_str());
    r.append(",
                account_no = ");
    r.append(account_no_expr.as_str());
    r.append(",
                account_label = ");
    r.append(account_label_expr.as_str());
    r.append(",
                tiers_code = ");
    r.append(tiers_code_expr.as_str());
    r.append(",
                tiers_name = ");
    r.append(tiers_name_expr.as_str());
    r.append(",
                journal = ");
    r.append(journal_expr.as_str());
    r.append(",
                description = ");
    r.append(description_expr.as_str());
    r.append(",
                ref_piece = ");
    r.append(ref_piece_expr.as_str());
    r.append(",
                lettrage = ");
    r.append(lettrage_expr.as_str());
    r.append(",
                debit = ");
    r.append(e.debit_expr.as_str());
    r.append(",
                credit = ");
    r.append(e.credit_expr.as_str());
    r.append("
            FROM ");
    r.append(entries_table.as_str());
    r.append(" e
            ");
    r.append(account_join.as_str());
    r.append("
            ");
    r.append(tiers_join.as_str());
    r.append("
            WHERE ");
    r.append(parsed_date_expr.as_str());
    r.append(" BETWEEN ");
    r.append(date_from.as_str());
    r.append(" AND ");
    r.append(date_to.as_str());
    r.append("
              AND ");
    r.append(base_kind_filter.as_str());
    r.append("
              AND ");
    r.append(tiers_code_expr.as_str());
    r.append(" <> ''
              ");
    r.append(scoped_prefix_filter.as_str());
    r.append("
        ),
        ranked AS (
            SELECT
                account_no,
                account_label,
                tiers_code,
                tiers_name,
                CONVERT(char(10), parsed_date, 103) AS [date],
                journal,
                description,
                ref_piece,
                lettrage,
                debit,
                credit,
                SUM(debit - credit) OVER (
                    PARTITION BY tiers_code
                    ORDER BY account_no, parsed_date, journal, ref_piece, description
                    ROWS UNBOUNDED PRECEDING
                ) AS running_balance,
                ROW_NUMBER() OVER (
                    PARTITION BY tiers_code
                    ORDER BY account_no, parsed_date, journal, ref_piece, description
                ) AS sort_row
            FROM base
            WHERE parsed_date IS NOT NULL
        ),
        totals AS (
            SELECT
                MAX(account_no) AS account_no,
                MAX(account_label) AS account_label,
                tiers_code,
                MAX(tiers_name) AS tiers_name,
                CAST(NULL AS NVARCHAR(10)) AS [date],
                CAST(NULL AS NVARCHAR(64)) AS journal,
                CAST(NULL AS NVARCHAR(255)) AS description,
                CAST(NULL AS NVARCHAR(128)) AS ref_piece,
                CAST(NULL AS NVARCHAR(64)) AS lettrage,
                SUM(debit) AS debit,
                SUM(credit) AS credit,
                SUM(debit - credit) AS running_balance,
                CAST(1 AS BIT) AS is_total_row,
                2147483647 AS sort_row
            FROM base
            WHERE parsed_date IS NOT NULL
            GROUP BY tiers_code
        )
        SELECT
            account_no,
            account_label,
            tiers_code,
            tiers_name,
            [date],
            journal,
            description,
            ref_piece,
            lettrage,
            debit,
            credit,
            running_balance,
            is_total_row
        FROM (
            SELECT
                account_no,
                account_label,
                tiers_code,
                tiers_name,
                [date],
                journal,
                description,
                ref_piece,
                lettrage,
                debit,
                credit,
                running_balance,
                CAST(0 AS BIT) AS is_total_row,
                sort_row
            FROM ranked
            UNION ALL
            SELECT
                account_no,
                account_label,
                tiers_code,
                tiers_name,
                [date],
                journal,
                description,
                ref_piece,
                lettrage,
                debit,
                credit,
                running_balance,
                is_total_row,
                sort_row
            FROM totals
        ) gl_aux
        ORDER BY account_no, tiers_code, sort_row
        ");
    r
}

/// The column of the entries that names the third party, or the warning of
/// an auxiliary ledger without one.
pub fn tiers_code_column(e: &EntryContext) -> (r: Result<String, String>)
    ensures
        match e.tiers_code_col {
            Some(col) => r matches Ok(c) && c@ == col@,
            None => r matches Err(m) && m@ == "No tiers code column detected on accounting entries"@,
        },
{
    match &e.tiers_code_col {
        Some(col) => Ok(col.clone()),
        None => Err(String::from_str("No tiers code column detected on accounting entries")),
    }
}

/// The warning of an auxiliary ledger without a third parties table.
pub fn tiers_lookup_warning(tiers_lookup: &Option<LookupContext>) -> (r: Option<String>)
    ensures
        tiers_lookup is None <==> r is Some,
        r matches Some(s) ==> s@ == "No tiers lookup table detected; tiers names will be blank"@,
{
    if tiers_lookup.is_none() {
        Some(String::from_str("No tiers lookup table detected; tiers names will be blank"))
    } else {
        None
    }
}

// ---------------------------------------------------------------------------
// Operating statement accounts by month
// ---------------------------------------------------------------------------

/// The movements of each account by calendar month, on the Sage 1000 tables.
pub open spec fn sage1000_monthly_accounts_query_text(c: Sage1000Context, date_from: Seq<char>, date_to: Seq<char>) -> Seq<char> {
    "
            WITH base AS (
                SELECT
                    parsed_date = TRY_CAST("@
        + qualified("e"@, "eDate"@)
        + " AS DATE),
                    account_no = "@
        + text_or_empty_text(qualified("cg"@, "codeCompte"@), 64)
        + ",
                    account_label = "@
        + text_or_empty_text(qualified("cg"@, "Caption"@), 255)
        + ",
                    debit = "@
        + decimal_or_zero_text(qualified("e"@, "debit"@))
        + ",
                    credit = "@
        + decimal_or_zero_text(qualified("e"@, "credit"@))
        + "
                FROM "@
        + c.entries.sql_name_text()
        + " e
                LEFT JOIN "@
        + c.accounts.sql_name_text()
        + " cg ON "@
        + qualified("e"@, "oidcompteGeneral"@)
        + " = "@
        + qualified("cg"@, "oid"@)
        + "
                WHERE TRY_CAST("@
        + qualified("e"@, "eDate"@)
        + " AS DATE) BETWEEN "@
        + sql_literal_seq(date_from)
        + " AND "@
        + sql_literal_seq(date_to)
        + "
            )
            SELECT
                account_no,
                MAX(account_label) AS account_label,
                MONTH(parsed_date) AS [month],
                SUM(debit) AS debit,
                SUM(credit) AS credit
            FROM base
            WHERE parsed_date IS NOT NULL AND account_no <> ''
            GROUP BY account_no, MONTH(parsed_date)
            ORDER BY account_no, [month]
            "@
}

/// The monthly account query of the operating account report on the
/// Sage 1000 tables.
pub fn sage1000_monthly_accounts_query(c: &Sage1000Context, date_from: &str, date_to: &str) -> (r: String)
    ensures
        r@ == sage1000_monthly_accounts_query_text(*c, date_from@, date_to@),
{
    let date_col = qualify("e", "eDate");
    let account_no = text_or_empty(qualify("cg", "codeCompte").as_str(), 64);
    let account_label = text_or_empty(qualify("cg", "Caption").as_str(), 255);
    let debit = decimal_or_zero(qualify("e", "debit").as_str());
    let credit = decimal_or_zero(qualify("e", "credit").as_str());
    let entries = c.entries.sql_name();
    let accounts = c.accounts.sql_name();
    let entry_account_fk = qualify("e", "oidcompteGeneral");
    let account_pk = qualify("cg", "oid");
    let date_from = sql_literal(date_from);
    let date_to = sql_literal(date_to);
    let mut r = String::new();
    r.append("
            WITH base AS (
                SELECT
                    parsed_date = TRY_CAST(");
    r.append(date_col.as_str());
    r.append(" AS DATE),
                    account_no = ");
    r.append(account_no.as_str());
    r.append(",
                    account_label = ");
    r.append(account_label.as_str());
    r.append(",
                    debit = ");
    r.append(debit.as_str());
    r.append(",
                    credit = ");
    r.append(credit.as_str());
    r.append("
                FROM ");
    r.append(entries.as_str());
    r.append(" e
                LEFT JOIN ");
    r.append(accounts.as_str());
    r.append(" cg ON ");
    r.append(entry_account_fk.as_str());
    r.append(" = ");
    r.append(account_pk.as_str());
    r.append("
                WHERE TRY_CAST(");
    r.append(date_col.as_str());
    r.append(" AS DATE) BETWEEN ");
    r.append(date_from.as_str());
    r.append(" AND ");
    r.append(date_to.as_str());
    r.append("
            )
            SELECT
                account_no,
                MAX(account_label) AS account_label,
                MONTH(parsed_date) AS [month],
                SUM(debit) AS debit,
                SUM(credit) AS credit
            FROM base
            WHERE parsed_date IS NOT NULL AND account_no <> ''
            GROUP BY account_no, MONTH(parsed_date)
            ORDER BY account_no, [month]
            ");
    r
}

/// The movements of each account by calendar month, on a detected entries
/// table.
pub open spec fn monthly_accounts_query_text(e: EntryContext, lookup: Option<LookupContext>, date_from: Seq<char>, date_to: Seq<char>) -> Seq<char> {
    "
            WITH base AS (
                SELECT
                    parsed_date = "@
        + parsed_date_text(e)
        + ",
                    account_no = "@
        + account_no_text(e)
        + ",
                    account_label = "@
        + account_label_text(e, lookup)
        + ",
                    debit = "@
        + e.debit_expr@
        + ",
                    credit = "@
        + e.credit_expr@
        + "
                FROM "@
        + e.table.sql_name_text()
        + " e
                "@
        + account_join_text(e, lookup)
        + "
                WHERE "@
        + parsed_date_text(e)
        + " BETWEEN "@
        + sql_literal_seq(date_from)
        + " AND "@
        + sql_literal_seq(date_to)
        + "
            )
            SELECT
                account_no,
                MAX(account_label) AS account_label,
                MONTH(parsed_date) AS [month],
                SUM(debit) AS debit,
                SUM(credit) AS credit
            FROM base
            WHERE parsed_date IS NOT NULL AND account_no <> ''
            GROUP BY account_no, MONTH(parsed_date)
            ORDER BY account_no, [month]
            "@
}

/// The monthly account query of the operating account report on a
/// detected entries table and its accounts table if found.
pub fn monthly_accounts_query(e: &EntryContext, lookup: &Option<LookupContext>, date_from: &str, date_to: &str) -> (r: String)
    ensures
        r@ == monthly_accounts_query_text(*e, *lookup, date_from@, date_to@),
{
    let parsed_date = parsed_date_expr(e);
    let account_no = account_no_expr(e);
    let account_label = account_label_expr(e, lookup);
    let entries = e.table.sql_name();
    let account_join = account_join_expr(e, lookup);
    let date_from = sql_literal(date_from);
    let date_to = sql_literal(date_to);
    let mut r = String::new();
    r.append("
            WITH base AS (
                SELECT
                    parsed_date = ");
    r.append(parsed_date.as_str());
    r.append(",
                    account_no = ");
    r.append(account_no.as_str());
    r.append(",
                    account_label = ");
    r.append(account_label.as_str());
    r.append(",
                    debit = ");
    r.append(e.debit_expr.as_str());
    r.append(",
                    credit = ");
    r.append(e.credit_expr.as_str());
    r.append("
                FROM ");
    r.append(entries.as_str());
    r.append(" e
                ");
    r.append(account_join.as_str());
    r.append("
                WHERE ");
    r.append(parsed_date.as_str());
    r.append(" BETWEEN ");
    r.append(date_from.as_str());
    r.append(" AND ");
    r.append(date_to.as_str());
    r.append("
            )
            SELECT
                account_no,
                MAX(account_label) AS account_label,
                MONTH(parsed_date) AS [month],
                SUM(debit) AS debit,
                SUM(credit) AS credit
            FROM base
            WHERE parsed_date IS NOT NULL AND account_no <> ''
            GROUP BY account_no, MONTH(parsed_date)
            ORDER BY account_no, [month]
            ");
    r
}

/// A month number read from a row, brought into 1 to 12.
pub fn month_of(value: i64) -> (m: u32)
    ensures
        m as int == (if value < 1 {
            1
        } else if value > 12 {
            12
        } else {
            value as int
        }),
{
    if value < 1 {
        1
    } else if value > 12 {
        12
    } else {
        value as u32
    }
}

// ---------------------------------------------------------------------------
// Dashboard indicators
// ---------------------------------------------------------------------------

/// The entries as the dashboard queries read them.
pub open spec fn kpi_base_cte_text(e: EntryContext, lookup: Option<LookupContext>) -> Seq<char> {
    "
        WITH base AS (
            SELECT
                parsed_date = "@
        + parsed_date_text(e)
        + ",
                account_no = "@
        + account_no_text(e)
        + ",
                account_label = "@
        + account_label_text(e, lookup)
        + ",
                tiers_code = "@
        + optional_text_column(e.tiers_code_col, 64)
        + ",
                debit = "@
        + e.debit_expr@
        + ",
                credit = "@
        + e.credit_expr@
        + "
            FROM "@
        + e.table.sql_name_text()
        + " e
            "@
        + account_join_text(e, lookup)
        + "
        )
        "@
}

/// The common table expression the dashboard queries start from.
pub fn kpi_base_cte(e: &EntryContext, lookup: &Option<LookupContext>) -> (r: String)
    ensures
        r@ == kpi_base_cte_text(*e, *lookup),
{
    let parsed_date_expr = parsed_date_expr(e);
    let account_no_expr = account_no_expr(e);
    let account_label_expr = account_label_expr(e, lookup);
    let tiers_code_expr = optional_text_column_expr(&e.tiers_code_col, 64);
    let entries_table = e.table.sql_name();
    let account_join = account_join_expr(e, lookup);
    let mut r = String::new();
    r.append("
        WITH base AS (
            SELECT
                parsed_date = ");
    r.append(parsed_date_expr.as_str());
    r.append(",
                account_no = ");
    r.append(account_no_expr.as_str());
    r.append(",
                account_label = ");
    r.append(account_label_expr.as_str());
    r.append(",
                tiers_code = ");
    r.append(tiers_code_expr.as_str());
    r.append(",
                debit = ");
    r.append(e.debit_expr.as_str());
    r.append(",
                credit = ");
    r.append(e.credit_expr.as_str());
    r.append("
            FROM ");
    r.append(entries_table.as_str());
    r.append(" e
            ");
    r.append(account_join.as_str());
    r.append("
        )
        ");
    r
}

/// The restriction of the dashboard to accounts starting with a prefix.
pub open spec fn kpi_prefix_filter_text(prefix: Option<Seq<char>>) -> Seq<char> {
    match prefix {
        Some(p) => if trim(p).len() > 0 {
            " AND account_no LIKE "@ + sql_literal_seq(trim(p) + seq!['%'])
        } else {
            seq![]
        },
        None => seq![],
    }
}

pub fn kpi_prefix_filter(prefix: Option<&str>) -> (r: String)
    ensures
        r@ == kpi_prefix_filter_text(match prefix {
            Some(p) => Some(p@),
            None => None,
        }),
{
    match prefix {
        Some(p) => {
            let mut t = trim_str(p);
            if t.as_str().is_empty() {
                return String::new();
            }
            push_char(&mut t, '%');
            assert(t@ =~= trim(p@) + seq!['%']);
            let mut r = String::from_str(" AND account_no LIKE ");
            r.append(sql_literal(t.as_str()).as_str());
            r
        },
        None => String::new(),
    }
}

/// The totals of the dashboard: sales, purchases, customer and supplier balances, entry and active third-party counts.
pub open spec fn kpi_summary_query_text(base_cte: Seq<char>, date_from: Seq<char>, date_to: Seq<char>, prefix: Option<Seq<char>>) -> Seq<char> {
    "
        "@
        + base_cte
        + "
        SELECT
            SUM(CASE WHEN parsed_date BETWEEN "@
        + sql_literal_seq(date_from)
        + " AND "@
        + sql_literal_seq(date_to)
        + " AND account_no LIKE '7%' THEN credit ELSE CAST(0 AS DECIMAL(38, 6)) END) AS total_ventes,
            SUM(CASE WHEN parsed_date BETWEEN "@
        + sql_literal_seq(date_from)
        + " AND "@
        + sql_literal_seq(date_to)
        + " AND account_no LIKE '6%' THEN debit ELSE CAST(0 AS DECIMAL(38, 6)) END) AS total_achats,
            SUM(CASE WHEN parsed_date <= "@
        + sql_literal_seq(date_to)
        + " AND account_no LIKE '41%' THEN (debit - credit) ELSE CAST(0 AS DECIMAL(38, 6)) END) AS solde_clients,
            SUM(CASE WHEN parsed_date <= "@
        + sql_literal_seq(date_to)
        + " AND account_no LIKE '40%' THEN (credit - debit) ELSE CAST(0 AS DECIMAL(38, 6)) END) AS solde_fournisseurs,
            SUM(CASE WHEN parsed_date BETWEEN "@
        + sql_literal_seq(date_from)
        + " AND "@
        + sql_literal_seq(date_to)
        + " THEN 1 ELSE 0 END) AS nb_ecritures,
            COUNT(DISTINCT CASE WHEN parsed_date BETWEEN "@
        + sql_literal_seq(date_from)
        + " AND "@
        + sql_literal_seq(date_to)
        + " THEN NULLIF(tiers_code, '') END) AS nb_tiers_actifs
        FROM base
        WHERE parsed_date IS NOT NULL
          AND account_no <> ''
          "@
        + kpi_prefix_filter_text(prefix)
        + "
        "@
}

/// The totals of the dashboard: sales, purchases, customer and supplier balances, entry and active third-party counts.
pub fn kpi_summary_query(base_cte: &str, date_from: &str, date_to: &str, account_prefix: Option<&str>) -> (r: String)
    ensures
        r@ == kpi_summary_query_text(base_cte@, date_from@, date_to@, match account_prefix {
            Some(p) => Some(p@),
            None => None,
        }),
{
    let date_from = sql_literal(date_from);
    let date_to = sql_literal(date_to);
    let account_filter_sql = kpi_prefix_filter(account_prefix);
    let mut r = String::new();
    r.append("
        ");
    r.append(base_cte);
    r.append("
        SELECT
            SUM(CASE WHEN parsed_date BETWEEN ");
    r.append(date_from.as_str());
    r.append(" AND ");
    r.append(date_to.as_str());
    r.append(" AND account_no LIKE '7%' THEN credit ELSE CAST(0 AS DECIMAL(38, 6)) END) AS total_ventes,
            SUM(CASE WHEN parsed_date BETWEEN ");
    r.append(date_from.as_str());
    r.append(" AND ");
    r.append(date_to.as_str());
    r.append(" AND account_no LIKE '6%' THEN debit ELSE CAST(0 AS DECIMAL(38, 6)) END) AS total_achats,
            SUM(CASE WHEN parsed_date <= ");
    r.append(date_to.as_str());
    r.append(" AND account_no LIKE '41%' THEN (debit - credit) ELSE CAST(0 AS DECIMAL(38, 6)) END) AS solde_clients,
            SUM(CASE WHEN parsed_date <= ");
    r.append(date_to.as_str());
    r.append(" AND account_no LIKE '40%' THEN (credit - debit) ELSE CAST(0 AS DECIMAL(38, 6)) END) AS solde_fournisseurs,
            SUM(CASE WHEN parsed_date BETWEEN ");
    r.append(date_from.as_str());
    r.append(" AND ");
    r.append(date_to.as_str());
    r.append(" THEN 1 ELSE 0 END) AS nb_ecritures,
            COUNT(DISTINCT CASE WHEN parsed_date BETWEEN ");
    r.append(date_from.as_str());
    r.append(" AND ");
    r.append(date_to.as_str());
    r.append(" THEN NULLIF(tiers_code, '') END) AS nb_tiers_actifs
        FROM base
        WHERE parsed_date IS NOT NULL
          AND account_no <> ''
          ");
    r.append(account_filter_sql.as_str());
    r.append("
        ");
    r
}

/// The five expense accounts with the largest debits.
pub open spec fn kpi_top_charges_query_text(base_cte: Seq<char>, date_from: Seq<char>, date_to: Seq<char>, prefix: Option<Seq<char>>) -> Seq<char> {
    "
        "@
        + base_cte
        + "
        SELECT TOP 5
            account_no AS account,
            MAX(account_label) AS label,
            SUM(debit) AS amount
        FROM base
        WHERE parsed_date BETWEEN "@
        + sql_literal_seq(date_from)
        + " AND "@
        + sql_literal_seq(date_to)
        + "
          AND account_no LIKE '6%'
          "@
        + kpi_prefix_filter_text(prefix)
        + "
        GROUP BY account_no
        ORDER BY amount DESC, account_no
        "@
}

/// The five expense accounts with the largest debits.
pub fn kpi_top_charges_query(base_cte: &str, date_from: &str, date_to: &str, account_prefix: Option<&str>) -> (r: String)
    ensures
        r@ == kpi_top_charges_query_text(base_cte@, date_from@, date_to@, match account_prefix {
            Some(p) => Some(p@),
            None => None,
        }),
        occurs_in(r@, ranking_clause("debit"@, date_from@, date_to@, "6"@)),
{
    proof {
        lemma_top_charges_are_expenses(base_cte@, date_from@, date_to@, match account_prefix { Some(p) => Some(p@), None => None });
    }
    let date_from = sql_literal(date_from);
    let date_to = sql_literal(date_to);
    let account_filter_sql = kpi_prefix_filter(account_prefix);
    let mut r = String::new();
    r.append("
        ");
    r.append(base_cte);
    r.append("
        SELECT TOP 5
            account_no AS account,
            MAX(account_label) AS label,
            SUM(debit) AS amount
        FROM base
        WHERE parsed_date BETWEEN ");
    r.append(date_from.as_str());
    r.append(" AND ");
    r.append(date_to.as_str());
    r.append("
          AND account_no LIKE '6%'
          ");
    r.append(account_filter_sql.as_str());
    r.append("
        GROUP BY account_no
        ORDER BY amount DESC, account_no
        ");
    r
}

/// The five revenue accounts with the largest credits.
pub open spec fn kpi_top_products_query_text(base_cte: Seq<char>, date_from: Seq<char>, date_to: Seq<char>, prefix: Option<Seq<char>>) -> Seq<char> {
    "
        "@
        + base_cte
        + "
        SELECT TOP 5
            account_no AS account,
            MAX(account_label) AS label,
            SUM(credit) AS amount
        FROM base
        WHERE parsed_date BETWEEN "@
        + sql_literal_seq(date_from)
        + " AND "@
        + sql_literal_seq(date_to)
        + "
          AND account_no LIKE '7%'
          "@
        + kpi_prefix_filter_text(prefix)
        + "
        GROUP BY account_no
        ORDER BY amount DESC, account_no
        "@
}

/// The five revenue accounts with the largest credits.
pub fn kpi_top_products_query(base_cte: &str, date_from: &str, date_to: &str, account_prefix: Option<&str>) -> (r: String)
    ensures
        r@ == kpi_top_products_query_text(base_cte@, date_from@, date_to@, match account_prefix {
            Some(p) => Some(p@),
            None => None,
        }),
        occurs_in(r@, ranking_clause("credit"@, date_from@, date_to@, "7"@)),
{
    proof {
        lemma_top_products_are_revenues(base_cte@, date_from@, date_to@, match account_prefix { Some(p) => Some(p@), None => None });
    }
    let date_from = sql_literal(date_from);
    let date_to = sql_literal(date_to);
    let account_filter_sql = kpi_prefix_filter(account_prefix);
    let mut r = String::new();
    r.append("
        ");
    r.append(base_cte);
    r.append("
        SELECT TOP 5
            account_no AS account,
            MAX(account_label) AS label,
            SUM(credit) AS amount
        FROM base
        WHERE parsed_date BETWEEN ");
    r.append(date_from.as_str());
    r.append(" AND ");
    r.append(date_to.as_str());
    r.append("
          AND account_no LIKE '7%'
          ");
    r.append(account_filter_sql.as_str());
    r.append("
        GROUP BY account_no
        ORDER BY amount DESC, account_no
        ");
    r
}

/// Sales and purchases by month.
pub open spec fn kpi_evolution_query_text(base_cte: Seq<char>, date_from: Seq<char>, date_to: Seq<char>, prefix: Option<Seq<char>>) -> Seq<char> {
    "
        "@
        + base_cte
        + "
        SELECT
            CONVERT(char(7), parsed_date, 120) AS [month],
            SUM(CASE WHEN account_no LIKE '7%' THEN credit ELSE CAST(0 AS DECIMAL(38, 6)) END) AS ventes,
            SUM(CASE WHEN account_no LIKE '6%' THEN debit ELSE CAST(0 AS DECIMAL(38, 6)) END) AS achats
        FROM base
        WHERE parsed_date BETWEEN "@
        + sql_literal_seq(date_from)
        + " AND "@
        + sql_literal_seq(date_to)
        + "
          AND account_no <> ''
          "@
        + kpi_prefix_filter_text(prefix)
        + "
        GROUP BY CONVERT(char(7), parsed_date, 120)
        ORDER BY [month]
        "@
}

/// Sales and purchases by month.
pub fn kpi_evolution_query(base_cte: &str, date_from: &str, date_to: &str, account_prefix: Option<&str>) -> (r: String)
    ensures
        r@ == kpi_evolution_query_text(base_cte@, date_from@, date_to@, match account_prefix {
            Some(p) => Some(p@),
            None => None,
        }),
{
    let date_from = sql_literal(date_from);
    let date_to = sql_literal(date_to);
    let account_filter_sql = kpi_prefix_filter(account_prefix);
    let mut r = String::new();
    r.append("
        ");
    r.append(base_cte);
    r.append("
        SELECT
            CONVERT(char(7), parsed_date, 120) AS [month],
            SUM(CASE WHEN account_no LIKE '7%' THEN credit ELSE CAST(0 AS DECIMAL(38, 6)) END) AS ventes,
            SUM(CASE WHEN account_no LIKE '6%' THEN debit ELSE CAST(0 AS DECIMAL(38, 6)) END) AS achats
        FROM base
        WHERE parsed_date BETWEEN ");
    r.append(date_from.as_str());
    r.append(" AND ");
    r.append(date_to.as_str());
    r.append("
          AND account_no <> ''
          ");
    r.append(account_filter_sql.as_str());
    r.append("
        GROUP BY CONVERT(char(7), parsed_date, 120)
        ORDER BY [month]
        ");
    r
}


// ---------------------------------------------------------------------------
// Streamed ledgers
// ---------------------------------------------------------------------------

/// The table expression a streamed General Ledger reads: the entries of the
/// date range with a non-empty account, restricted to an account prefix.
pub open spec fn ledger_stream_base_text(e: EntryContext, lookup: Option<LookupContext>, date_from: Seq<char>, date_to: Seq<char>, prefix: Option<Seq<char>>) -> Seq<char> {
    "WITH base AS (SELECT parsed_date = "@
        + parsed_date_text(e)
        + ", journal = "@
        + optional_text_column(e.journal_col, 64)
        + ", account_no = "@
        + account_no_text(e)
        + ", account_label = "@
        + account_label_text(e, lookup)
        + ", ref_piece = "@
        + optional_text_column(e.ref_piece_col, 128)
        + ", lettrage = "@
        + optional_text_column(e.lettrage_col, 64)
        + ", debit = "@
        + e.debit_expr@
        + ", credit = "@
        + e.credit_expr@
        + " FROM "@
        + e.table.sql_name_text()
        + " e "@
        + account_join_text(e, lookup)
        + " WHERE "@
        + parsed_date_text(e)
        + " BETWEEN "@
        + sql_literal_seq(date_from)
        + " AND "@
        + sql_literal_seq(date_to)
        + " AND "@
        + account_no_text(e)
        + " <> '' "@
        + account_filter_text(account_no_text(e), prefix)
        + ")"@
}

/// The table expression a streamed or exported General Ledger pages
/// through, on a detected entries table and its accounts table if found.
pub fn ledger_stream_base(
    e: &EntryContext,
    lookup: &Option<LookupContext>,
    date_from: &str,
    date_to: &str,
    account_prefix: Option<&str>,
) -> (r: String)
    ensures
        r@ == ledger_stream_base_text(*e, *lookup, date_from@, date_to@, match account_prefix {
            Some(p) => Some(p@),
            None => None,
        }),
{
    let parsed_date_expr = parsed_date_expr(e);
    let journal_expr = optional_text_column_expr(&e.journal_col, 64);
    let account_no_expr = account_no_expr(e);
    let account_label_expr = account_label_expr(e, lookup);
    let ref_piece_expr = optional_text_column_expr(&e.ref_piece_col, 128);
    let lettrage_expr = optional_text_column_expr(&e.lettrage_col, 64);
    let entries_table = e.table.sql_name();
    let account_join = account_join_expr(e, lookup);
    let date_from = sql_literal(date_from);
    let date_to = sql_literal(date_to);
    let account_filter_sql = account_filter_expr(account_no_expr.as_str(), account_prefix);
    let mut r = String::new();
    r.append("WITH base AS (SELECT parsed_date = ");
    r.append(parsed_date_expr.as_str());
    r.append(", journal = ");
    r.append(journal_expr.as_str());
    r.append(", account_no = ");
    r.append(account_no_expr.as_str());
    r.append(", account_label = ");
    r.append(account_label_expr.as_str());
    r.append(", ref_piece = ");
    r.append(ref_piece_expr.as_str());
    r.append(", lettrage = ");
    r.append(lettrage_expr.as_str());
    r.append(", debit = ");
    r.append(e.debit_expr.as_str());
    r.append(", credit = ");
    r.append(e.credit_expr.as_str());
    r.append(" FROM ");
    r.append(entries_table.as_str());
    r.append(" e ");
    r.append(account_join.as_str());
    r.append(" WHERE ");
    r.append(parsed_date_expr.as_str());
    r.append(" BETWEEN ");
    r.append(date_from.as_str());
    r.append(" AND ");
    r.append(date_to.as_str());
    r.append(" AND ");
    r.append(account_no_expr.as_str());
    r.append(" <> '' ");
    r.append(account_filter_sql.as_str());
    r.append(")");
    r
}

/// The empty table expression of a streamed General Ledger when no entries
/// table is found.
pub const LEDGER_EMPTY_BASE: &'static str = "WITH base AS (SELECT parsed_date = CAST(NULL AS DATE), journal = CAST('' AS NVARCHAR(64)), account_no = CAST('' AS NVARCHAR(64)), account_label = CAST('' AS NVARCHAR(255)), ref_piece = CAST('' AS NVARCHAR(128)), lettrage = CAST('' AS NVARCHAR(64)), debit = CAST(0 AS DECIMAL(38,6)), credit = CAST(0 AS DECIMAL(38,6)) WHERE 1=0)";

/// The order a streamed General Ledger is read in.
pub const LEDGER_STREAM_ORDER: &'static str = "account_no, parsed_date, journal, ref_piece, lettrage";

/// The warning of a streamed ledger without account labels.
pub open spec fn stream_label_warning_text(e: EntryContext, lookup: Option<LookupContext>) -> Option<Seq<char>> {
    if lookup is None && e.account_label_col is None {
        Some("Libell\u{e9}s de compte non d\u{e9}tect\u{e9}s"@)
    } else {
        None
    }
}

/// The warning of a streamed ledger when neither an accounts table nor the
/// entries give account labels.
pub fn stream_label_warning(e: &EntryContext, lookup: &Option<LookupContext>) -> (r: Option<String>)
    ensures
        match r {
            Some(s) => stream_label_warning_text(*e, *lookup) == Some(s@),
            None => stream_label_warning_text(*e, *lookup) is None,
        },
{
    if lookup.is_none() && e.account_label_col.is_none() {
        Some(String::from_str("Libell\u{e9}s de compte non d\u{e9}tect\u{e9}s"))
    } else {
        None
    }
}

/// The table expression a streamed auxiliary ledger reads: the entries of
/// the date range on the collective accounts of the kind of third party,
/// with a non-empty third party, restricted to an account prefix.
pub open spec fn auxiliary_stream_base_text(e: EntryContext, tiers_code_col: Seq<char>, account_lookup: Option<LookupContext>, tiers_lookup: Option<LookupContext>, kind: TiersKind, date_from: Seq<char>, date_to: Seq<char>, prefix: Option<Seq<char>>) -> Seq<char> {
    "WITH base AS (SELECT parsed_date = "@
        + parsed_date_text(e)
        + ", account_no = "@
        + account_no_text(e)
        + ", account_label = "@
        + account_label_text(e, account_lookup)
        + ", tiers_code = "@
        + tiers_code_text(tiers_code_col)
        + ", tiers_name = "@
        + tiers_name_text(tiers_lookup)
        + ", journal = "@
        + optional_text_column(e.journal_col, 64)
        + ", description = "@
        + optional_text_column(e.description_col, 255)
        + ", ref_piece = "@
        + optional_text_column(e.ref_piece_col, 128)
        + ", lettrage = "@
        + optional_text_column(e.lettrage_col, 64)
        + ", debit = "@
        + e.debit_expr@
        + ", credit = "@
        + e.credit_expr@
        + " FROM "@
        + e.table.sql_name_text()
        + " e "@
        + account_join_text(e, account_lookup)
        + " "@
        + tiers_join_text(tiers_code_col, tiers_lookup)
        + " WHERE "@
        + parsed_date_text(e)
        + " BETWEEN "@
        + sql_literal_seq(date_from)
        + " AND "@
        + sql_literal_seq(date_to)
        + " AND "@
        + kind_filter_text(account_no_text(e), tiers_lookup, kind)
        + " AND "@
        + tiers_code_text(tiers_code_col)
        + " <> '' "@
        + account_filter_text(account_no_text(e), prefix)
        + ")"@
}

/// The table expression a streamed auxiliary ledger pages through, on a
/// detected entries table with a third-party column, the accounts and third
/// parties tables if found.
#[verifier::rlimit(30)]
pub fn auxiliary_stream_base(
    e: &EntryContext,
    tiers_code_col: &str,
    account_lookup: &Option<LookupContext>,
    tiers_lookup: &Option<LookupContext>,
    kind: TiersKind,
    date_from: &str,
    date_to: &str,
    account_prefix: Option<&str>,
) -> (r: String)
    ensures
        r@ == auxiliary_stream_base_text(
            *e,
            tiers_code_col@,
            *account_lookup,
            *tiers_lookup,
            kind,
            date_from@,
            date_to@,
            match account_prefix {
                Some(p) => Some(p@),
                None => None,
            },
        ),
{
    let parsed_date_expr = parsed_date_expr(e);
    let journal_expr = optional_text_column_expr(&e.journal_col, 64);
    let account_no_expr = account_no_expr(e);
    let account_label_expr = account_label_expr(e, account_lookup);
    let ref_piece_expr = optional_text_column_expr(&e.ref_piece_col, 128);
    let lettrage_expr = optional_text_column_expr(&e.lettrage_col, 64);
    let description_expr = optional_text_column_expr(&e.description_col, 255);
    let tiers_code_expr = text_or_empty(qualify("e", tiers_code_col).as_str(), 64);
    let tiers_name_expr = tiers_name_expr(tiers_lookup);
    let entries_table = e.table.sql_name();
    let account_join = account_join_expr(e, account_lookup);
    let tiers_join = tiers_join_expr(tiers_code_col, tiers_lookup);
    let date_from = sql_literal(date_from);
    let date_to = sql_literal(date_to);
    let kind_filter = kind_filter_expr(account_no_expr.as_str(), tiers_lookup, kind);
    let prefix_filter = account_filter_expr(account_no_expr.as_str(), account_prefix);
    let mut r = String::new();
    r.append("WITH base AS (SELECT parsed_date = ");
    r.append(parsed_date_expr.as_str());
    r.append(", account_no = ");
    r.append(account_no_expr.as_str());
    r.append(", account_label = ");
    r.append(account_label_expr.as_str());
    r.append(", tiers_code = ");
    r.append(tiers_code_expr.as_str());
    r.append(", tiers_name = ");
    r.append(tiers_name_expr.as_str());
    r.append(", journal = ");
    r.append(journal_expr.as_str());
    r.append(", description = ");
    r.append(description_expr.as_str());
    r.append(", ref_piece = ");
    r.append(ref_piece_expr.as_str());
    r.append(", lettrage = ");
    r.append(lettrage_expr.as_str());
    r.append(", debit = ");
    r.append(e.debit_expr.as_str());
    r.append(", credit = ");
    r.append(e.credit_expr.as_str());
    r.append(" FROM ");
    r.append(entries_table.as_str());
    r.append(" e ");
    r.append(account_join.as_str());
    r.append(" ");
    r.append(tiers_join.as_str());
    r.append(" WHERE ");
    r.append(parsed_date_expr.as_str());
    r.append(" BETWEEN ");
    r.append(date_from.as_str());
    r.append(" AND ");
    r.append(date_to.as_str());
    r.append(" AND ");
    r.append(kind_filter.as_str());
    r.append(" AND ");
    r.append(tiers_code_expr.as_str());
    r.append(" <> '' ");
    r.append(prefix_filter.as_str());
    r.append(")");
    r
}

/// The order a streamed auxiliary ledger is read in.
pub const AUXILIARY_STREAM_ORDER: &'static str = "account_no, tiers_code, parsed_date, journal, ref_piece, description";


/// The Balance as the streamed Balance reads it: per account, the opening
/// balance, the period's movements and the closing balance, each on its
/// debit or credit side.
pub open spec fn stream_balance_query_text(e: EntryContext, lookup: Option<LookupContext>, p: BalancePeriod, prefix: Option<Seq<char>>) -> Seq<char> {
    "WITH base AS (SELECT parsed_date = "@
        + parsed_date_text(e)
        + ", journal = "@
        + optional_text_column(e.journal_col, 64)
        + ", account_no = "@
        + account_no_text(e)
        + ", account_label = "@
        + account_label_text(e, lookup)
        + ", debit = "@
        + e.debit_expr@
        + ", credit = "@
        + e.credit_expr@
        + " FROM "@
        + e.table.sql_name_text()
        + " e "@
        + account_join_text(e, lookup)
        + " WHERE 1=1 "@
        + account_filter_text(account_no_text(e), prefix)
        + "),
aggregated AS (SELECT account_no, MAX(account_label) AS account_label, SUM(CASE WHEN "@
        + opening_text(e, p)
        + " THEN debit ELSE CAST(0 AS DECIMAL(38,6)) END) AS open_debit_raw, SUM(CASE WHEN "@
        + opening_text(e, p)
        + " THEN credit ELSE CAST(0 AS DECIMAL(38,6)) END) AS open_credit_raw, SUM(CASE WHEN "@
        + movement_text("account_no"@, "parsed_date"@, "journal"@, e.journal_col is Some, p)
        + " THEN debit ELSE CAST(0 AS DECIMAL(38,6)) END) AS mvt_debit, SUM(CASE WHEN "@
        + movement_text("account_no"@, "parsed_date"@, "journal"@, e.journal_col is Some, p)
        + " THEN credit ELSE CAST(0 AS DECIMAL(38,6)) END) AS mvt_credit FROM base WHERE account_no <> '' AND parsed_date IS NOT NULL AND "@
        + cutoff_text(e, p)
        + " GROUP BY account_no)
SELECT account_no, account_label, CASE WHEN (open_debit_raw-open_credit_raw)>=0 THEN (open_debit_raw-open_credit_raw) ELSE CAST(0 AS DECIMAL(38,6)) END AS ouverture_debit, CASE WHEN (open_debit_raw-open_credit_raw)<0 THEN ABS(open_debit_raw-open_credit_raw) ELSE CAST(0 AS DECIMAL(38,6)) END AS ouverture_credit, mvt_debit, mvt_credit, CASE WHEN ((open_debit_raw-open_credit_raw)+(mvt_debit-mvt_credit))>=0 THEN ((open_debit_raw-open_credit_raw)+(mvt_debit-mvt_credit)) ELSE CAST(0 AS DECIMAL(38,6)) END AS cloture_debit, CASE WHEN ((open_debit_raw-open_credit_raw)+(mvt_debit-mvt_credit))<0 THEN ABS((open_debit_raw-open_credit_raw)+(mvt_debit-mvt_credit)) ELSE CAST(0 AS DECIMAL(38,6)) END AS cloture_credit FROM aggregated ORDER BY account_no"@
}

/// The Balance query of `stream_balance` on a detected entries table, its
/// accounts table if found, a resolved period and an optional account prefix.
pub fn stream_balance_query(
    e: &EntryContext,
    lookup: &Option<LookupContext>,
    period: &BalancePeriod,
    account_prefix: Option<&str>,
) -> (r: String)
    ensures
        r@ == stream_balance_query_text(*e, *lookup, *period, match account_prefix {
            Some(p) => Some(p@),
            None => None,
        }),
{
    let parsed_date_expr = parsed_date_expr(e);
    let journal_expr = optional_text_column_expr(&e.journal_col, 64);
    let account_no_expr = account_no_expr(e);
    let account_label_expr = account_label_expr(e, lookup);
    let entries_table = e.table.sql_name();
    let account_join = account_join_expr(e, lookup);
    let account_filter_sql_base = account_filter_expr(account_no_expr.as_str(), account_prefix);
    let has_journal = e.journal_col.is_some();
    let opening_condition = opening_condition_expr(e, period);
    let movement_condition = balance_movement_condition("account_no", "parsed_date", "journal", has_journal, period);
    let cutoff_condition = cutoff_condition_expr(e, period);
    let mut r = String::new();
    r.append("WITH base AS (SELECT parsed_date = ");
    r.append(parsed_date_expr.as_str());
    r.append(", journal = ");
    r.append(journal_expr.as_str());
    r.append(", account_no = ");
    r.append(account_no_expr.as_str());
    r.append(", account_label = ");
    r.append(account_label_expr.as_str());
    r.append(", debit = ");
    r.append(e.debit_expr.as_str());
    r.append(", credit = ");
    r.append(e.credit_expr.as_str());
    r.append(" FROM ");
    r.append(entries_table.as_str());
    r.append(" e ");
    r.append(account_join.as_str());
    r.append(" WHERE 1=1 ");
    r.append(account_filter_sql_base.as_str());
    r.append("),
aggregated AS (SELECT account_no, MAX(account_label) AS account_label, SUM(CASE WHEN ");
    r.append(opening_condition.as_str());
    r.append(" THEN debit ELSE CAST(0 AS DECIMAL(38,6)) END) AS open_debit_raw, SUM(CASE WHEN ");
    r.append(opening_condition.as_str());
    r.append(" THEN credit ELSE CAST(0 AS DECIMAL(38,6)) END) AS open_credit_raw, SUM(CASE WHEN ");
    r.append(movement_condition.as_str());
    r.append(" THEN debit ELSE CAST(0 AS DECIMAL(38,6)) END) AS mvt_debit, SUM(CASE WHEN ");
    r.append(movement_condition.as_str());
    r.append(" THEN credit ELSE CAST(0 AS DECIMAL(38,6)) END) AS mvt_credit FROM base WHERE account_no <> '' AND parsed_date IS NOT NULL AND ");
    r.append(cutoff_condition.as_str());
    r.append(" GROUP BY account_no)
SELECT account_no, account_label, CASE WHEN (open_debit_raw-open_credit_raw)>=0 THEN (open_debit_raw-open_credit_raw) ELSE CAST(0 AS DECIMAL(38,6)) END AS ouverture_debit, CASE WHEN (open_debit_raw-open_credit_raw)<0 THEN ABS(open_debit_raw-open_credit_raw) ELSE CAST(0 AS DECIMAL(38,6)) END AS ouverture_credit, mvt_debit, mvt_credit, CASE WHEN ((open_debit_raw-open_credit_raw)+(mvt_debit-mvt_credit))>=0 THEN ((open_debit_raw-open_credit_raw)+(mvt_debit-mvt_credit)) ELSE CAST(0 AS DECIMAL(38,6)) END AS cloture_debit, CASE WHEN ((open_debit_raw-open_credit_raw)+(mvt_debit-mvt_credit))<0 THEN ABS((open_debit_raw-open_credit_raw)+(mvt_debit-mvt_credit)) ELSE CAST(0 AS DECIMAL(38,6)) END AS cloture_credit FROM aggregated ORDER BY account_no");
    r
}


// ---------------------------------------------------------------------------
// Third parties of the dashboard
// ---------------------------------------------------------------------------

/// The restriction of the dashboard's third parties to a kind: `clients`
/// and `fournisseurs` (any ASCII case, spaces around ignored) keep that kind
/// and those that are both; anything else, or no kind, keeps all.
pub open spec fn tiers_type_filter_text(tiers_type: Option<Seq<char>>) -> Seq<char> {
    let l = match tiers_type {
        Some(t) => ascii_lower(trim(t)),
        None => "all"@,
    };
    if l == "clients"@ {
        " AND tiers_type IN (N'client', N'les_deux')"@
    } else if l == "fournisseurs"@ {
        " AND tiers_type IN (N'fournisseur', N'les_deux')"@
    } else {
        ""@
    }
}

pub fn tiers_type_filter(tiers_type: Option<&str>) -> (r: &'static str)
    ensures
        r@ == tiers_type_filter_text(match tiers_type {
            Some(t) => Some(t@),
            None => None,
        }),
{
    let normalized = match tiers_type {
        Some(t) => to_ascii_lowercase(trim_str(t).as_str()),
        None => {
            proof {
                reveal_strlit("all");
                reveal_strlit("clients");
                reveal_strlit("fournisseurs");
            }
            String::from_str("all")
        },
    };
    if str_eq(normalized.as_str(), "clients") {
        " AND tiers_type IN (N'client', N'les_deux')"
    } else if str_eq(normalized.as_str(), "fournisseurs") {
        " AND tiers_type IN (N'fournisseur', N'les_deux')"
    } else {
        ""
    }
}

/// The restriction of the dashboard's third parties to those whose code or
/// name contains the searched text, when it is not blank once trimmed.
pub open spec fn tiers_search_filter_text(search: Option<Seq<char>>) -> Seq<char> {
    match search {
        Some(v) => if trim(v).len() > 0 {
            let pattern = sql_literal_seq(seq!['%'] + trim(v) + seq!['%']);
            " AND (code LIKE "@ + pattern + " OR name LIKE "@ + pattern + ")"@
        } else {
            seq![]
        },
        None => seq![],
    }
}

pub fn tiers_search_filter(search: Option<&str>) -> (r: String)
    ensures
        r@ == tiers_search_filter_text(match search {
            Some(v) => Some(v@),
            None => None,
        }),
{
    match search {
        Some(v) => {
            let t = trim_str(v);
            if t.as_str().is_empty() {
                return String::new();
            }
            let mut text = String::new();
            push_char(&mut text, '%');
            text.append(t.as_str());
            push_char(&mut text, '%');
            assert(text@ =~= seq!['%'] + trim(v@) + seq!['%']);
            let pattern = sql_literal(text.as_str());
            let mut r = String::from_str(" AND (code LIKE ");
            r.append(pattern.as_str());
            r.append(" OR name LIKE ");
            r.append(pattern.as_str());
            r.append(")");
            r
        },
        None => String::new(),
    }
}


// ---------------------------------------------------------------------------
// Dashboard indicators on Sage 1000
// ---------------------------------------------------------------------------

/// The label of a Sage 1000 entry: its account's caption, else its reference.
pub open spec fn sage1000_account_label_text() -> Seq<char> {
    "COALESCE(CAST("@ + qualified("cg"@, "Caption"@) + " AS NVARCHAR(255)), CAST("@ + qualified("e"@, "reference"@)
        + " AS NVARCHAR(255)), CAST('' AS NVARCHAR(255)))"@
}

/// The third party's code of a Sage 1000 entry, when the third parties
/// table is found.
pub open spec fn sage1000_tiers_code_text(c: Sage1000Context) -> Seq<char> {
    if c.tiers is Some {
        text_or_empty_text(qualified("t"@, "code"@), 64)
    } else {
        "CAST('' AS NVARCHAR(64))"@
    }
}

/// The joins that give a Sage 1000 entry its third party: through its
/// third-party role (and its piece when there is one), or through its piece
/// alone; else only the piece join.
pub open spec fn sage1000_kpi_tiers_join_text(c: Sage1000Context) -> Seq<char> {
    let pj = crate::ledger::piece_join_text(c);
    match c.role_tiers {
        Some(rt) => match c.tiers {
            Some(t) => {
                let oid = if c.pieces is Some {
                    "COALESCE("@ + qualified("rt"@, "oidTiers"@) + ", "@ + qualified("p"@, "oidTiers"@) + ")"@
                } else {
                    qualified("rt"@, "oidTiers"@)
                };
                pj + "\n            LEFT JOIN "@ + rt.sql_name_text() + " rt ON "@ + qualified("e"@, "oidroleTiers"@)
                    + " = "@ + qualified("rt"@, "oid"@) + "\n            LEFT JOIN "@ + t.sql_name_text() + " t ON "@
                    + oid + " = "@ + qualified("t"@, "oid"@)
            },
            None => pj,
        },
        None => match c.tiers {
            Some(t) => if c.pieces is Some {
                pj + "\n            LEFT JOIN "@ + t.sql_name_text() + " t ON "@ + qualified("p"@, "oidTiers"@) + " = "@
                    + qualified("t"@, "oid"@)
            } else {
                pj
            },
            None => pj,
        },
    }
}

fn sage1000_kpi_tiers_join(c: &Sage1000Context) -> (r: String)
    ensures
        r@ == sage1000_kpi_tiers_join_text(*c),
{
    let piece_join = crate::ledger::sage1000_piece_join(c);
    match (&c.role_tiers, &c.tiers) {
        (Some(role_tiers), Some(tiers)) => {
            let tier_oid_expr = if c.pieces.is_some() {
                let mut o = String::from_str("COALESCE(");
                o.append(qualify("rt", "oidTiers").as_str());
                o.append(", ");
                o.append(qualify("p", "oidTiers").as_str());
                o.append(")");
                o
            } else {
                qualify("rt", "oidTiers")
            };
            let mut r = piece_join;
            r.append("\n            LEFT JOIN ");
            r.append(role_tiers.sql_name().as_str());
            r.append(" rt ON ");
            r.append(qualify("e", "oidroleTiers").as_str());
            r.append(" = ");
            r.append(qualify("rt", "oid").as_str());
            r.append("\n            LEFT JOIN ");
            r.append(tiers.sql_name().as_str());
            r.append(" t ON ");
            r.append(tier_oid_expr.as_str());
            r.append(" = ");
            r.append(qualify("t", "oid").as_str());
            r
        },
        (None, Some(tiers)) => {
            if c.pieces.is_some() {
                let mut r = piece_join;
                r.append("\n            LEFT JOIN ");
                r.append(tiers.sql_name().as_str());
                r.append(" t ON ");
                r.append(qualify("p", "oidTiers").as_str());
                r.append(" = ");
                r.append(qualify("t", "oid").as_str());
                r
            } else {
                piece_join
            }
        },
        _ => piece_join,
    }
}

/// The entries of Sage 1000 as the dashboard queries read them.
pub open spec fn sage1000_kpi_base_cte_text(c: Sage1000Context) -> Seq<char> {
    "
        WITH base AS (
            SELECT
                parsed_date = TRY_CAST("@
        + qualified("e"@, "eDate"@)
        + " AS DATE),
                account_no = "@
        + text_or_empty_text(qualified("cg"@, "codeCompte"@), 64)
        + ",
                account_label = "@
        + sage1000_account_label_text()
        + ",
                tiers_code = "@
        + sage1000_tiers_code_text(c)
        + ",
                debit = "@
        + decimal_or_zero_text(qualified("e"@, "debit"@))
        + ",
                credit = "@
        + decimal_or_zero_text(qualified("e"@, "credit"@))
        + "
            FROM "@
        + c.entries.sql_name_text()
        + " e
            LEFT JOIN "@
        + c.accounts.sql_name_text()
        + " cg ON "@
        + qualified("e"@, "oidcompteGeneral"@)
        + " = "@
        + qualified("cg"@, "oid"@)
        + "
            "@
        + sage1000_kpi_tiers_join_text(c)
        + "
        )
        "@
}

/// The common table expression the dashboard queries start from on Sage
/// 1000; the queries themselves are those of the other editions.
pub fn sage1000_kpi_base_cte(c: &Sage1000Context) -> (r: String)
    ensures
        r@ == sage1000_kpi_base_cte_text(*c),
{
    let date_col = qualify("e", "eDate");
    let account_no_expr = text_or_empty(qualify("cg", "codeCompte").as_str(), 64);
    let mut account_label_expr = String::from_str("COALESCE(CAST(");
    account_label_expr.append(qualify("cg", "Caption").as_str());
    account_label_expr.append(" AS NVARCHAR(255)), CAST(");
    account_label_expr.append(qualify("e", "reference").as_str());
    account_label_expr.append(" AS NVARCHAR(255)), CAST('' AS NVARCHAR(255)))");
    let tiers_code_expr = if c.tiers.is_some() {
        text_or_empty(qualify("t", "code").as_str(), 64)
    } else {
        String::from_str("CAST('' AS NVARCHAR(64))")
    };
    let debit_expr = decimal_or_zero(qualify("e", "debit").as_str());
    let credit_expr = decimal_or_zero(qualify("e", "credit").as_str());
    let entries_table = c.entries.sql_name();
    let accounts_table = c.accounts.sql_name();
    let entry_account_fk = qualify("e", "oidcompteGeneral");
    let account_pk = qualify("cg", "oid");
    let tiers_join = sage1000_kpi_tiers_join(c);
    let mut r = String::new();
    r.append("
        WITH base AS (
            SELECT
                parsed_date = TRY_CAST(");
    r.append(date_col.as_str());
    r.append(" AS DATE),
                account_no = ");
    r.append(account_no_expr.as_str());
    r.append(",
                account_label = ");
    r.append(account_label_expr.as_str());
    r.append(",
                tiers_code = ");
    r.append(tiers_code_expr.as_str());
    r.append(",
                debit = ");
    r.append(debit_expr.as_str());
    r.append(",
                credit = ");
    r.append(credit_expr.as_str());
    r.append("
            FROM ");
    r.append(entries_table.as_str());
    r.append(" e
            LEFT JOIN ");
    r.append(accounts_table.as_str());
    r.append(" cg ON ");
    r.append(entry_account_fk.as_str());
    r.append(" = ");
    r.append(account_pk.as_str());
    r.append("
            ");
    r.append(tiers_join.as_str());
    r.append("
        )
        ");
    r
}


/// The General Ledger query on Sage 1000: each account's entries in date
/// and entry-number order with a running balance, then its subtotal row.
pub open spec fn sage1000_grand_livre_query_text(c: Sage1000Context, date_from: Seq<char>, date_to: Seq<char>, prefix: Option<Seq<char>>) -> Seq<char> {
    "
        WITH base AS (
            SELECT
                parsed_date = TRY_CAST("@
        + qualified("e"@, "eDate"@)
        + " AS DATE),
                journal = "@
        + crate::ledger::journal_expr_text(c)
        + ",
                account_no = "@
        + text_or_empty_text(qualified("cg"@, "codeCompte"@), 64)
        + ",
                account_label = "@
        + sage1000_account_label_text()
        + ",
                ref_piece = "@
        + crate::ledger::ref_piece_expr_text(c)
        + ",
                lettrage = "@
        + text_or_empty_text(qualified("e"@, "CodeLettrageExterne"@), 64)
        + ",
                debit = "@
        + decimal_or_zero_text(qualified("e"@, "debit"@))
        + ",
                credit = "@
        + decimal_or_zero_text(qualified("e"@, "credit"@))
        + ",
                entry_number = COALESCE(TRY_CAST("@
        + qualified("e"@, "numero"@)
        + " AS BIGINT), 0)
            FROM "@
        + c.entries.sql_name_text()
        + " e
            LEFT JOIN "@
        + c.accounts.sql_name_text()
        + " cg ON "@
        + qualified("e"@, "oidcompteGeneral"@)
        + " = "@
        + qualified("cg"@, "oid"@)
        + "
            "@
        + crate::ledger::document_joins_text(c)
        + "
            WHERE TRY_CAST("@
        + qualified("e"@, "eDate"@)
        + " AS DATE) BETWEEN "@
        + sql_literal_seq(date_from)
        + " AND "@
        + sql_literal_seq(date_to)
        + "
              AND "@
        + text_or_empty_text(qualified("cg"@, "codeCompte"@), 64)
        + " <> ''
              "@
        + account_filter_text(text_or_empty_text(qualified("cg"@, "codeCompte"@), 64), prefix)
        + "
        ),
        ranked AS (
            SELECT
                CONVERT(char(10), parsed_date, 103) AS [date],
                journal,
                account_no,
                account_label,
                ref_piece,
                lettrage,
                debit,
                credit,
                SUM(debit - credit) OVER (
                    PARTITION BY account_no
                    ORDER BY parsed_date, entry_number
                    ROWS UNBOUNDED PRECEDING
                ) AS solde_cumule,
                ROW_NUMBER() OVER (
                    PARTITION BY account_no
                    ORDER BY parsed_date, entry_number
                ) AS sort_row
            FROM base
            WHERE parsed_date IS NOT NULL
        ),
        subtotal AS (
            SELECT
                CAST(NULL AS NVARCHAR(10)) AS [date],
                CAST(NULL AS NVARCHAR(64)) AS journal,
                account_no,
                MAX(account_label) AS account_label,
                CAST(NULL AS NVARCHAR(128)) AS ref_piece,
                CAST(NULL AS NVARCHAR(64)) AS lettrage,
                CAST(0 AS DECIMAL(38, 6)) AS debit,
                CAST(0 AS DECIMAL(38, 6)) AS credit,
                SUM(debit - credit) AS solde_cumule,
                CAST(1 AS BIT) AS is_subtotal_row,
                SUM(debit) AS total_debit,
                SUM(credit) AS total_credit,
                SUM(debit - credit) AS solde,
                2147483647 AS sort_row
            FROM base
            WHERE parsed_date IS NOT NULL
            GROUP BY account_no
        )
        SELECT
            [date],
            journal,
            account_no,
            account_label,
            ref_piece,
            lettrage,
            debit,
            credit,
            solde_cumule,
            is_subtotal_row,
            total_debit,
            total_credit,
            solde
        FROM (
            SELECT
                [date],
                journal,
                account_no,
                account_label,
                ref_piece,
                lettrage,
                debit,
                credit,
                solde_cumule,
                CAST(0 AS BIT) AS is_subtotal_row,
                CAST(NULL AS DECIMAL(38, 6)) AS total_debit,
                CAST(NULL AS DECIMAL(38, 6)) AS total_credit,
                CAST(NULL AS DECIMAL(38, 6)) AS solde,
                sort_row
            FROM ranked
            UNION ALL
            SELECT
                [date],
                journal,
                account_no,
                account_label,
                ref_piece,
                lettrage,
                debit,
                credit,
                solde_cumule,
                is_subtotal_row,
                total_debit,
                total_credit,
                solde,
                sort_row
            FROM subtotal
        ) ledger
        ORDER BY account_no, sort_row
        "@
}

/// The General Ledger query of the General Ledger report on the Sage 1000 tables,
/// a date range and an optional account prefix.
pub fn sage1000_grand_livre_query(c: &Sage1000Context, date_from: &str, date_to: &str, account_prefix: Option<&str>) -> (r: String)
    ensures
        r@ == sage1000_grand_livre_query_text(*c, date_from@, date_to@, match account_prefix {
            Some(p) => Some(p@),
            None => None,
        }),
{
    let document_sql = crate::ledger::sage1000_document_sql(c);
    let date_col = qualify("e", "eDate");
    let account_no_expr = text_or_empty(qualify("cg", "codeCompte").as_str(), 64);
    let mut account_label_expr = String::from_str("COALESCE(CAST(");
    account_label_expr.append(qualify("cg", "Caption").as_str());
    account_label_expr.append(" AS NVARCHAR(255)), CAST(");
    account_label_expr.append(qualify("e", "reference").as_str());
    account_label_expr.append(" AS NVARCHAR(255)), CAST('' AS NVARCHAR(255)))");
    let lettrage_expr = text_or_empty(qualify("e", "CodeLettrageExterne").as_str(), 64);
    let debit_expr = decimal_or_zero(qualify("e", "debit").as_str());
    let credit_expr = decimal_or_zero(qualify("e", "credit").as_str());
    let entry_number_col = qualify("e", "numero");
    let entries_table = c.entries.sql_name();
    let accounts_table = c.accounts.sql_name();
    let entry_account_fk = qualify("e", "oidcompteGeneral");
    let account_pk = qualify("cg", "oid");
    let date_from = sql_literal(date_from);
    let date_to = sql_literal(date_to);
    let account_filter_sql = account_filter_expr(account_no_expr.as_str(), account_prefix);
    let mut r = String::new();
    r.append("
        WITH base AS (
            SELECT
                parsed_date = TRY_CAST(");
    r.append(date_col.as_str());
    r.append(" AS DATE),
                journal = ");
    r.append(document_sql.journal_expr.as_str());
    r.append(",
                account_no = ");
    r.append(account_no_expr.as_str());
    r.append(",
                account_label = ");
    r.append(account_label_expr.as_str());
    r.append(",
                ref_piece = ");
    r.append(document_sql.ref_piece_expr.as_str());
    r.append(",
                lettrage = ");
    r.append(lettrage_expr.as_str());
    r.append(",
                debit = ");
    r.append(debit_expr.as_str());
    r.append(",
                credit = ");
    r.append(credit_expr.as_str());
    r.append(",
                entry_number = COALESCE(TRY_CAST(");
    r.append(entry_number_col.as_str());
    r.append(" AS BIGINT), 0)
            FROM ");
    r.append(entries_table.as_str());
    r.append(" e
            LEFT JOIN ");
    r.append(accounts_table.as_str());
    r.append(" cg ON ");
    r.append(entry_account_fk.as_str());
    r.append(" = ");
    r.append(account_pk.as_str());
    r.append("
            ");
    r.append(document_sql.join_sql.as_str());
    r.append("
            WHERE TRY_CAST(");
    r.append(date_col.as_str());
    r.append(" AS DATE) BETWEEN ");
    r.append(date_from.as_str());
    r.append(" AND ");
    r.append(date_to.as_str());
    r.append("
              AND ");
    r.append(account_no_expr.as_str());
    r.append(" <> ''
              ");
    r.append(account_filter_sql.as_str());
    r.append("
        ),
        ranked AS (
            SELECT
                CONVERT(char(10), parsed_date, 103) AS [date],
                journal,
                account_no,
                account_label,
                ref_piece,
                lettrage,
                debit,
                credit,
                SUM(debit - credit) OVER (
                    PARTITION BY account_no
                    ORDER BY parsed_date, entry_number
                    ROWS UNBOUNDED PRECEDING
                ) AS solde_cumule,
                ROW_NUMBER() OVER (
                    PARTITION BY account_no
                    ORDER BY parsed_date, entry_number
                ) AS sort_row
            FROM base
            WHERE parsed_date IS NOT NULL
        ),
        subtotal AS (
            SELECT
                CAST(NULL AS NVARCHAR(10)) AS [date],
                CAST(NULL AS NVARCHAR(64)) AS journal,
                account_no,
                MAX(account_label) AS account_label,
                CAST(NULL AS NVARCHAR(128)) AS ref_piece,
                CAST(NULL AS NVARCHAR(64)) AS lettrage,
                CAST(0 AS DECIMAL(38, 6)) AS debit,
                CAST(0 AS DECIMAL(38, 6)) AS credit,
                SUM(debit - credit) AS solde_cumule,
                CAST(1 AS BIT) AS is_subtotal_row,
                SUM(debit) AS total_debit,
                SUM(credit) AS total_credit,
                SUM(debit - credit) AS solde,
                2147483647 AS sort_row
            FROM base
            WHERE parsed_date IS NOT NULL
            GROUP BY account_no
        )
        SELECT
            [date],
            journal,
            account_no,
            account_label,
            ref_piece,
            lettrage,
            debit,
            credit,
            solde_cumule,
            is_subtotal_row,
            total_debit,
            total_credit,
            solde
        FROM (
            SELECT
                [date],
                journal,
                account_no,
                account_label,
                ref_piece,
                lettrage,
                debit,
                credit,
                solde_cumule,
                CAST(0 AS BIT) AS is_subtotal_row,
                CAST(NULL AS DECIMAL(38, 6)) AS total_debit,
                CAST(NULL AS DECIMAL(38, 6)) AS total_credit,
                CAST(NULL AS DECIMAL(38, 6)) AS solde,
                sort_row
            FROM ranked
            UNION ALL
            SELECT
                [date],
                journal,
                account_no,
                account_label,
                ref_piece,
                lettrage,
                debit,
                credit,
                solde_cumule,
                is_subtotal_row,
                total_debit,
                total_credit,
                solde,
                sort_row
            FROM subtotal
        ) ledger
        ORDER BY account_no, sort_row
        ");
    r
}


/// The account number of a Sage 1000 account.
pub open spec fn sage1000_account_no_text() -> Seq<char> {
    text_or_empty_text(qualified("cg"@, "codeCompte"@), 64)
}

/// The entry date of Sage 1000 as a date.
pub open spec fn sage1000_date_text() -> Seq<char> {
    "TRY_CAST("@ + qualified("e"@, "eDate"@) + " AS DATE)"@
}

/// The sum over an account's entries of the period's movements of one
/// side (`debit` or `credit`), zero without any.
pub open spec fn sage1000_movement_sum_text(c: Sage1000Context, p: BalancePeriod, side: Seq<char>) -> Seq<char> {
    "COALESCE(SUM(CASE WHEN "@ + movement_text(
        sage1000_account_no_text(),
        sage1000_date_text(),
        crate::ledger::journal_expr_text(c),
        c.pieces is Some && c.journals is Some,
        p,
    ) + " THEN "@ + decimal_or_zero_text(qualified("e"@, side)) + " ELSE CAST(0 AS DECIMAL(38, 6)) END), CAST(0 AS DECIMAL(38, 6)))"@
}

/// The opening balance of a balance-sheet account: its entries before the
/// period, debit minus credit.
pub open spec fn sage1000_opening_net_text(p: BalancePeriod) -> Seq<char> {
    "COALESCE(SUM(CASE WHEN NOT "@ + annual_account_text(sage1000_account_no_text()) + " AND "@
        + sage1000_date_text() + " < "@ + sql_literal_seq(p.date_from@) + " THEN "@ + decimal_or_zero_text(
        qualified("e"@, "debit"@),
    ) + " - "@ + decimal_or_zero_text(qualified("e"@, "credit"@))
        + " ELSE CAST(0 AS DECIMAL(38, 6)) END), CAST(0 AS DECIMAL(38, 6)))"@
}

fn sage1000_movement_sum(c: &Sage1000Context, period: &BalancePeriod, journal_expr: &str, side: &str) -> (r: String)
    requires
        journal_expr@ == crate::ledger::journal_expr_text(*c),
    ensures
        r@ == sage1000_movement_sum_text(*c, *period, side@),
{
    let account_no_expr = text_or_empty(qualify("cg", "codeCompte").as_str(), 64);
    let mut parsed_date_expr = String::from_str("TRY_CAST(");
    parsed_date_expr.append(qualify("e", "eDate").as_str());
    parsed_date_expr.append(" AS DATE)");
    let movement_condition = balance_movement_condition(
        account_no_expr.as_str(),
        parsed_date_expr.as_str(),
        journal_expr,
        c.pieces.is_some() && c.journals.is_some(),
        period,
    );
    let mut r = String::from_str("COALESCE(SUM(CASE WHEN ");
    r.append(movement_condition.as_str());
    r.append(" THEN ");
    r.append(decimal_or_zero(qualify("e", side).as_str()).as_str());
    r.append(" ELSE CAST(0 AS DECIMAL(38, 6)) END), CAST(0 AS DECIMAL(38, 6)))");
    r
}

fn sage1000_opening_net(period: &BalancePeriod) -> (r: String)
    ensures
        r@ == sage1000_opening_net_text(*period),
{
    let account_no_expr = text_or_empty(qualify("cg", "codeCompte").as_str(), 64);
    let mut r = String::from_str("COALESCE(SUM(CASE WHEN NOT ");
    r.append(annual_account_condition(account_no_expr.as_str()).as_str());
    let mut parsed_date_expr = String::from_str("TRY_CAST(");
    parsed_date_expr.append(qualify("e", "eDate").as_str());
    parsed_date_expr.append(" AS DATE)");
    r.append(" AND ");
    r.append(parsed_date_expr.as_str());
    r.append(" < ");
    r.append(sql_literal(period.date_from.as_str()).as_str());
    r.append(" THEN ");
    r.append(decimal_or_zero(qualify("e", "debit").as_str()).as_str());
    r.append(" - ");
    r.append(decimal_or_zero(qualify("e", "credit").as_str()).as_str());
    r.append(" ELSE CAST(0 AS DECIMAL(38, 6)) END), CAST(0 AS DECIMAL(38, 6)))");
    r
}

/// The Balance query on Sage 1000, per active account: the opening balance
/// of balance-sheet accounts, the period's movements and the closing
/// balance, each on its debit or credit side; accounts with neither are left
/// out.
pub open spec fn sage1000_balance_query_text(c: Sage1000Context, p: BalancePeriod, prefix: Option<Seq<char>>) -> Seq<char> {
    "
        WITH account_base AS (
            SELECT
                account_pk = "@
        + qualified("cg"@, "oid"@)
        + ",
                account_no = "@
        + sage1000_account_no_text()
        + ",
                account_label = "@
        + text_or_empty_text(qualified("cg"@, "Caption"@), 255)
        + ",
                opening_net = "@
        + sage1000_opening_net_text(p)
        + ",
                mvt_debit = "@
        + sage1000_movement_sum_text(c, p, "debit"@)
        + ",
                mvt_credit = "@
        + sage1000_movement_sum_text(c, p, "credit"@)
        + ",
                movement_net = "@
        + "("@ + sage1000_movement_sum_text(c, p, "debit"@) + " - "@ + sage1000_movement_sum_text(c, p, "credit"@) + ")"@
        + "
             FROM "@
        + c.accounts.sql_name_text()
        + " cg
             LEFT JOIN "@
        + c.entries.sql_name_text()
        + " e ON "@
        + qualified("e"@, "oidcompteGeneral"@)
        + " = "@
        + qualified("cg"@, "oid"@)
        + "
             "@
        + crate::ledger::document_joins_text(c)
        + "
            WHERE COALESCE(TRY_CAST("@
        + qualified("cg"@, "enActivite"@)
        + " AS INT), 1) = 1
              AND "@
        + sage1000_account_no_text()
        + " <> ''
              "@
        + account_filter_text(sage1000_account_no_text(), prefix)
        + "
            GROUP BY
                "@
        + qualified("cg"@, "oid"@)
        + ",
                "@
        + qualified("cg"@, "codeCompte"@)
        + ",
                "@
        + qualified("cg"@, "Caption"@)
        + "
        )
        SELECT
            account_no,
            account_label,
            ouverture_debit = CASE WHEN opening_net > 0 THEN opening_net ELSE CAST(0 AS DECIMAL(38, 6)) END,
            ouverture_credit = CASE WHEN opening_net < 0 THEN ABS(opening_net) ELSE CAST(0 AS DECIMAL(38, 6)) END,
            mvt_debit,
            mvt_credit,
            cloture_debit = CASE WHEN opening_net + movement_net > 0 THEN opening_net + movement_net ELSE CAST(0 AS DECIMAL(38, 6)) END,
            cloture_credit = CASE WHEN opening_net + movement_net < 0 THEN ABS(opening_net + movement_net) ELSE CAST(0 AS DECIMAL(38, 6)) END
        FROM account_base
        WHERE opening_net <> 0
           OR mvt_debit <> 0
           OR mvt_credit <> 0
        ORDER BY account_no
        "@
}

/// The Balance query of the trial balance on the Sage 1000 tables, a resolved
/// period and an optional account prefix.
#[verifier::rlimit(100)]
#[verifier::spinoff_prover]
pub fn sage1000_balance_query(c: &Sage1000Context, period: &BalancePeriod, account_prefix: Option<&str>) -> (r: String)
    ensures
        r@ == sage1000_balance_query_text(*c, *period, match account_prefix {
            Some(p) => Some(p@),
            None => None,
        }),
{
    let document_sql = crate::ledger::sage1000_document_sql(c);
    let account_pk = qualify("cg", "oid");
    let account_no_expr = text_or_empty(qualify("cg", "codeCompte").as_str(), 64);
    let account_label_expr = text_or_empty(qualify("cg", "Caption").as_str(), 255);
    let opening_net_expr = sage1000_opening_net(period);
    let movement_debit_expr = sage1000_movement_sum(c, period, document_sql.journal_expr.as_str(), "debit");
    let movement_credit_expr = sage1000_movement_sum(c, period, document_sql.journal_expr.as_str(), "credit");
    let mut movement_net_expr = String::from_str("(");
    movement_net_expr.append(movement_debit_expr.as_str());
    movement_net_expr.append(" - ");
    movement_net_expr.append(movement_credit_expr.as_str());
    movement_net_expr.append(")");
    let accounts_table = c.accounts.sql_name();
    let entries_table = c.entries.sql_name();
    let entry_account_fk = qualify("e", "oidcompteGeneral");
    let is_active_col = qualify("cg", "enActivite");
    let account_filter_sql = account_filter_expr(account_no_expr.as_str(), account_prefix);
    let account_no_col = qualify("cg", "codeCompte");
    let account_label_col = qualify("cg", "Caption");
    let mut r = String::new();
    r.append("
        WITH account_base AS (
            SELECT
                account_pk = ");
    r.append(account_pk.as_str());
    r.append(",
                account_no = ");
    r.append(account_no_expr.as_str());
    r.append(",
                account_label = ");
    r.append(account_label_expr.as_str());
    r.append(",
                opening_net = ");
    r.append(opening_net_expr.as_str());
    r.append(",
                mvt_debit = ");
    r.append(movement_debit_expr.as_str());
    r.append(",
                mvt_credit = ");
    r.append(movement_credit_expr.as_str());
    r.append(",
                movement_net = ");
    r.append(movement_net_expr.as_str());
    r.append("
             FROM ");
    r.append(accounts_table.as_str());
    r.append(" cg
             LEFT JOIN ");
    r.append(entries_table.as_str());
    r.append(" e ON ");
    r.append(entry_account_fk.as_str());
    r.append(" = ");
    r.append(account_pk.as_str());
    r.append("
             ");
    r.append(document_sql.join_sql.as_str());
    r.append("
            WHERE COALESCE(TRY_CAST(");
    r.append(is_active_col.as_str());
    r.append(" AS INT), 1) = 1
              AND ");
    r.append(account_no_expr.as_str());
    r.append(" <> ''
              ");
    r.append(account_filter_sql.as_str());
    r.append("
            GROUP BY
                ");
    r.append(account_pk.as_str());
    r.append(",
                ");
    r.append(account_no_col.as_str());
    r.append(",
                ");
    r.append(account_label_col.as_str());
    r.append("
        )
        SELECT
            account_no,
            account_label,
            ouverture_debit = CASE WHEN opening_net > 0 THEN opening_net ELSE CAST(0 AS DECIMAL(38, 6)) END,
            ouverture_credit = CASE WHEN opening_net < 0 THEN ABS(opening_net) ELSE CAST(0 AS DECIMAL(38, 6)) END,
            mvt_debit,
            mvt_credit,
            cloture_debit = CASE WHEN opening_net + movement_net > 0 THEN opening_net + movement_net ELSE CAST(0 AS DECIMAL(38, 6)) END,
            cloture_credit = CASE WHEN opening_net + movement_net < 0 THEN ABS(opening_net + movement_net) ELSE CAST(0 AS DECIMAL(38, 6)) END
        FROM account_base
        WHERE opening_net <> 0
           OR mvt_debit <> 0
           OR mvt_credit <> 0
        ORDER BY account_no
        ");
    r
}

// ---------------------------------------------------------------------------
// What the queries measure
// ---------------------------------------------------------------------------

pub open spec fn kpi_summary_measures_piece2() -> Seq<char> {
    "
        SELECT
            SUM(CASE WHEN parsed_date BETWEEN "@
}

pub open spec fn kpi_summary_measures_piece6() -> Seq<char> {
    " AND account_no LIKE '7%' THEN credit ELSE CAST(0 AS DECIMAL(38, 6)) END) AS total_ventes,
            SUM(CASE WHEN parsed_date BETWEEN "@
}

pub open spec fn kpi_summary_measures_piece10() -> Seq<char> {
    " AND account_no LIKE '6%' THEN debit ELSE CAST(0 AS DECIMAL(38, 6)) END) AS total_achats,
            SUM(CASE WHEN parsed_date <= "@
}

pub open spec fn kpi_summary_measures_piece12() -> Seq<char> {
    " AND account_no LIKE '41%' THEN (debit - credit) ELSE CAST(0 AS DECIMAL(38, 6)) END) AS solde_clients,
            SUM(CASE WHEN parsed_date <= "@
}

pub open spec fn kpi_summary_measures_piece14() -> Seq<char> {
    " AND account_no LIKE '40%' THEN (credit - debit) ELSE CAST(0 AS DECIMAL(38, 6)) END) AS solde_fournisseurs,
            SUM(CASE WHEN parsed_date BETWEEN "@
}

proof fn lemma_kpi_summary_measures_literals()
    ensures
        ends_with(kpi_summary_measures_piece2(), "SUM(CASE WHEN parsed_date BETWEEN "@),
        begins_with(kpi_summary_measures_piece6(), " AND account_no LIKE '7%' THEN credit ELSE CAST(0 AS DECIMAL(38, 6)) END) AS total_ventes"@),
        ends_with(kpi_summary_measures_piece6(), "SUM(CASE WHEN parsed_date BETWEEN "@),
        begins_with(kpi_summary_measures_piece10(), " AND account_no LIKE '6%' THEN debit ELSE CAST(0 AS DECIMAL(38, 6)) END) AS total_achats"@),
        ends_with(kpi_summary_measures_piece10(), "SUM(CASE WHEN parsed_date <= "@),
        begins_with(kpi_summary_measures_piece12(), " AND account_no LIKE '41%' THEN (debit - credit) ELSE CAST(0 AS DECIMAL(38, 6)) END) AS solde_clients"@),
        ends_with(kpi_summary_measures_piece12(), "SUM(CASE WHEN parsed_date <= "@),
        begins_with(kpi_summary_measures_piece14(), " AND account_no LIKE '40%' THEN (credit - debit) ELSE CAST(0 AS DECIMAL(38, 6)) END) AS solde_fournisseurs"@),
{
    reveal_strlit("
        SELECT
            SUM(CASE WHEN parsed_date BETWEEN ");
    reveal_strlit(" AND account_no LIKE '40%' THEN (credit - debit) ELSE CAST(0 AS DECIMAL(38, 6)) END) AS solde_fournisseurs");
    reveal_strlit(" AND account_no LIKE '40%' THEN (credit - debit) ELSE CAST(0 AS DECIMAL(38, 6)) END) AS solde_fournisseurs,
            SUM(CASE WHEN parsed_date BETWEEN ");
    reveal_strlit(" AND account_no LIKE '41%' THEN (debit - credit) ELSE CAST(0 AS DECIMAL(38, 6)) END) AS solde_clients");
    reveal_strlit(" AND account_no LIKE '41%' THEN (debit - credit) ELSE CAST(0 AS DECIMAL(38, 6)) END) AS solde_clients,
            SUM(CASE WHEN parsed_date <= ");
    reveal_strlit(" AND account_no LIKE '6%' THEN debit ELSE CAST(0 AS DECIMAL(38, 6)) END) AS total_achats");
    reveal_strlit(" AND account_no LIKE '6%' THEN debit ELSE CAST(0 AS DECIMAL(38, 6)) END) AS total_achats,
            SUM(CASE WHEN parsed_date <= ");
    reveal_strlit(" AND account_no LIKE '7%' THEN credit ELSE CAST(0 AS DECIMAL(38, 6)) END) AS total_ventes");
    reveal_strlit(" AND account_no LIKE '7%' THEN credit ELSE CAST(0 AS DECIMAL(38, 6)) END) AS total_ventes,
            SUM(CASE WHEN parsed_date BETWEEN ");
    reveal_strlit("SUM(CASE WHEN parsed_date <= ");
    reveal_strlit("SUM(CASE WHEN parsed_date BETWEEN ");
    assert(kpi_summary_measures_piece2().subrange(kpi_summary_measures_piece2().len() - "SUM(CASE WHEN parsed_date BETWEEN "@.len(), kpi_summary_measures_piece2().len() as int) =~= "SUM(CASE WHEN parsed_date BETWEEN "@);
    assert(kpi_summary_measures_piece6().subrange(0, " AND account_no LIKE '7%' THEN credit ELSE CAST(0 AS DECIMAL(38, 6)) END) AS total_ventes"@.len() as int) =~= " AND account_no LIKE '7%' THEN credit ELSE CAST(0 AS DECIMAL(38, 6)) END) AS total_ventes"@);
    assert(kpi_summary_measures_piece6().subrange(kpi_summary_measures_piece6().len() - "SUM(CASE WHEN parsed_date BETWEEN "@.len(), kpi_summary_measures_piece6().len() as int) =~= "SUM(CASE WHEN parsed_date BETWEEN "@);
    assert(kpi_summary_measures_piece10().subrange(0, " AND account_no LIKE '6%' THEN debit ELSE CAST(0 AS DECIMAL(38, 6)) END) AS total_achats"@.len() as int) =~= " AND account_no LIKE '6%' THEN debit ELSE CAST(0 AS DECIMAL(38, 6)) END) AS total_achats"@);
    assert(kpi_summary_measures_piece10().subrange(kpi_summary_measures_piece10().len() - "SUM(CASE WHEN parsed_date <= "@.len(), kpi_summary_measures_piece10().len() as int) =~= "SUM(CASE WHEN parsed_date <= "@);
    assert(kpi_summary_measures_piece12().subrange(0, " AND account_no LIKE '41%' THEN (debit - credit) ELSE CAST(0 AS DECIMAL(38, 6)) END) AS solde_clients"@.len() as int) =~= " AND account_no LIKE '41%' THEN (debit - credit) ELSE CAST(0 AS DECIMAL(38, 6)) END) AS solde_clients"@);
    assert(kpi_summary_measures_piece12().subrange(kpi_summary_measures_piece12().len() - "SUM(CASE WHEN parsed_date <= "@.len(), kpi_summary_measures_piece12().len() as int) =~= "SUM(CASE WHEN parsed_date <= "@);
    assert(kpi_summary_measures_piece14().subrange(0, " AND account_no LIKE '40%' THEN (credit - debit) ELSE CAST(0 AS DECIMAL(38, 6)) END) AS solde_fournisseurs"@.len() as int) =~= " AND account_no LIKE '40%' THEN (credit - debit) ELSE CAST(0 AS DECIMAL(38, 6)) END) AS solde_fournisseurs"@);
}

/// The dashboard's totals measure what they are named for: sales are the
/// credits of class 7 accounts and purchases the debits of class 6 accounts
/// over the requested range; the customer balance is debit less credit of the
/// 41x accounts and the supplier balance credit less debit of the 40x
/// accounts, up to the last day.
#[verifier::rlimit(100)]
#[verifier::spinoff_prover]
pub proof fn lemma_kpi_summary_measures(base_cte: Seq<char>, date_from: Seq<char>, date_to: Seq<char>, prefix: Option<Seq<char>>)
    ensures
        occurs_in(
            kpi_summary_query_text(base_cte, date_from, date_to, prefix),
            "SUM(CASE WHEN parsed_date BETWEEN "@ + sql_literal_seq(date_from) + " AND "@ + sql_literal_seq(date_to) + " AND account_no LIKE '7%' THEN credit ELSE CAST(0 AS DECIMAL(38, 6)) END) AS total_ventes"@,
        ),
        occurs_in(
            kpi_summary_query_text(base_cte, date_from, date_to, prefix),
            "SUM(CASE WHEN parsed_date BETWEEN "@ + sql_literal_seq(date_from) + " AND "@ + sql_literal_seq(date_to) + " AND account_no LIKE '6%' THEN debit ELSE CAST(0 AS DECIMAL(38, 6)) END) AS total_achats"@,
        ),
        occurs_in(
            kpi_summary_query_text(base_cte, date_from, date_to, prefix),
            "SUM(CASE WHEN parsed_date <= "@ + sql_literal_seq(date_to) + " AND account_no LIKE '41%' THEN (debit - credit) ELSE CAST(0 AS DECIMAL(38, 6)) END) AS solde_clients"@,
        ),
        occurs_in(
            kpi_summary_query_text(base_cte, date_from, date_to, prefix),
            "SUM(CASE WHEN parsed_date <= "@ + sql_literal_seq(date_to) + " AND account_no LIKE '40%' THEN (credit - debit) ELSE CAST(0 AS DECIMAL(38, 6)) END) AS solde_fournisseurs"@,
        ),
{
    reveal_strlit("");
    let t = kpi_summary_query_text(base_cte, date_from, date_to, prefix);
    lemma_kpi_summary_measures_literals();
    assert(t.subrange(0, (("
        "@ + base_cte) + kpi_summary_measures_piece2() + (sql_literal_seq(date_from) + " AND "@ + sql_literal_seq(date_to)) + kpi_summary_measures_piece6()).len() as int) == ("
        "@ + base_cte) + kpi_summary_measures_piece2() + (sql_literal_seq(date_from) + " AND "@ + sql_literal_seq(date_to)) + kpi_summary_measures_piece6()) by {
        assert(t.subrange(0, (("
        "@ + base_cte) + kpi_summary_measures_piece2() + (sql_literal_seq(date_from) + " AND "@ + sql_literal_seq(date_to)) + kpi_summary_measures_piece6()).len() as int) =~= ("
        "@ + base_cte) + kpi_summary_measures_piece2() + (sql_literal_seq(date_from) + " AND "@ + sql_literal_seq(date_to)) + kpi_summary_measures_piece6());
    }
    lemma_occurs_around(t, "
        "@ + base_cte, kpi_summary_measures_piece2(), sql_literal_seq(date_from) + " AND "@ + sql_literal_seq(date_to), kpi_summary_measures_piece6(), "SUM(CASE WHEN parsed_date BETWEEN "@, " AND account_no LIKE '7%' THEN credit ELSE CAST(0 AS DECIMAL(38, 6)) END) AS total_ventes"@);
    assert("SUM(CASE WHEN parsed_date BETWEEN "@ + (sql_literal_seq(date_from) + " AND "@ + sql_literal_seq(date_to)) + " AND account_no LIKE '7%' THEN credit ELSE CAST(0 AS DECIMAL(38, 6)) END) AS total_ventes"@ =~= "SUM(CASE WHEN parsed_date BETWEEN "@ + sql_literal_seq(date_from) + " AND "@ + sql_literal_seq(date_to) + " AND account_no LIKE '7%' THEN credit ELSE CAST(0 AS DECIMAL(38, 6)) END) AS total_ventes"@);
    assert(t.subrange(0, (("
        "@ + base_cte + "
        SELECT
            SUM(CASE WHEN parsed_date BETWEEN "@ + sql_literal_seq(date_from) + " AND "@ + sql_literal_seq(date_to)) + kpi_summary_measures_piece6() + (sql_literal_seq(date_from) + " AND "@ + sql_literal_seq(date_to)) + kpi_summary_measures_piece10()).len() as int) == ("
        "@ + base_cte + "
        SELECT
            SUM(CASE WHEN parsed_date BETWEEN "@ + sql_literal_seq(date_from) + " AND "@ + sql_literal_seq(date_to)) + kpi_summary_measures_piece6() + (sql_literal_seq(date_from) + " AND "@ + sql_literal_seq(date_to)) + kpi_summary_measures_piece10()) by {
        assert(t.subrange(0, (("
        "@ + base_cte + "
        SELECT
            SUM(CASE WHEN parsed_date BETWEEN "@ + sql_literal_seq(date_from) + " AND "@ + sql_literal_seq(date_to)) + kpi_summary_measures_piece6() + (sql_literal_seq(date_from) + " AND "@ + sql_literal_seq(date_to)) + kpi_summary_measures_piece10()).len() as int) =~= ("
        "@ + base_cte + "
        SELECT
            SUM(CASE WHEN parsed_date BETWEEN "@ + sql_literal_seq(date_from) + " AND "@ + sql_literal_seq(date_to)) + kpi_summary_measures_piece6() + (sql_literal_seq(date_from) + " AND "@ + sql_literal_seq(date_to)) + kpi_summary_measures_piece10());
    }
    lemma_occurs_around(t, "
        "@ + base_cte + "
        SELECT
            SUM(CASE WHEN parsed_date BETWEEN "@ + sql_literal_seq(date_from) + " AND "@ + sql_literal_seq(date_to), kpi_summary_measures_piece6(), sql_literal_seq(date_from) + " AND "@ + sql_literal_seq(date_to), kpi_summary_measures_piece10(), "SUM(CASE WHEN parsed_date BETWEEN "@, " AND account_no LIKE '6%' THEN debit ELSE CAST(0 AS DECIMAL(38, 6)) END) AS total_achats"@);
    assert("SUM(CASE WHEN parsed_date BETWEEN "@ + (sql_literal_seq(date_from) + " AND "@ + sql_literal_seq(date_to)) + " AND account_no LIKE '6%' THEN debit ELSE CAST(0 AS DECIMAL(38, 6)) END) AS total_achats"@ =~= "SUM(CASE WHEN parsed_date BETWEEN "@ + sql_literal_seq(date_from) + " AND "@ + sql_literal_seq(date_to) + " AND account_no LIKE '6%' THEN debit ELSE CAST(0 AS DECIMAL(38, 6)) END) AS total_achats"@);
    assert(t.subrange(0, (("
        "@ + base_cte + "
        SELECT
            SUM(CASE WHEN parsed_date BETWEEN "@ + sql_literal_seq(date_from) + " AND "@ + sql_literal_seq(date_to) + " AND account_no LIKE '7%' THEN credit ELSE CAST(0 AS DECIMAL(38, 6)) END) AS total_ventes,
            SUM(CASE WHEN parsed_date BETWEEN "@ + sql_literal_seq(date_from) + " AND "@ + sql_literal_seq(date_to)) + kpi_summary_measures_piece10() + (sql_literal_seq(date_to)) + kpi_summary_measures_piece12()).len() as int) == ("
        "@ + base_cte + "
        SELECT
            SUM(CASE WHEN parsed_date BETWEEN "@ + sql_literal_seq(date_from) + " AND "@ + sql_literal_seq(date_to) + " AND account_no LIKE '7%' THEN credit ELSE CAST(0 AS DECIMAL(38, 6)) END) AS total_ventes,
            SUM(CASE WHEN parsed_date BETWEEN "@ + sql_literal_seq(date_from) + " AND "@ + sql_literal_seq(date_to)) + kpi_summary_measures_piece10() + (sql_literal_seq(date_to)) + kpi_summary_measures_piece12()) by {
        assert(t.subrange(0, (("
        "@ + base_cte + "
        SELECT
            SUM(CASE WHEN parsed_date BETWEEN "@ + sql_literal_seq(date_from) + " AND "@ + sql_literal_seq(date_to) + " AND account_no LIKE '7%' THEN credit ELSE CAST(0 AS DECIMAL(38, 6)) END) AS total_ventes,
            SUM(CASE WHEN parsed_date BETWEEN "@ + sql_literal_seq(date_from) + " AND "@ + sql_literal_seq(date_to)) + kpi_summary_measures_piece10() + (sql_literal_seq(date_to)) + kpi_summary_measures_piece12()).len() as int) =~= ("
        "@ + base_cte + "
        SELECT
            SUM(CASE WHEN parsed_date BETWEEN "@ + sql_literal_seq(date_from) + " AND "@ + sql_literal_seq(date_to) + " AND account_no LIKE '7%' THEN credit ELSE CAST(0 AS DECIMAL(38, 6)) END) AS total_ventes,
            SUM(CASE WHEN parsed_date BETWEEN "@ + sql_literal_seq(date_from) + " AND "@ + sql_literal_seq(date_to)) + kpi_summary_measures_piece10() + (sql_literal_seq(date_to)) + kpi_summary_measures_piece12());
    }
    lemma_occurs_around(t, "
        "@ + base_cte + "
        SELECT
            SUM(CASE WHEN parsed_date BETWEEN "@ + sql_literal_seq(date_from) + " AND "@ + sql_literal_seq(date_to) + " AND account_no LIKE '7%' THEN credit ELSE CAST(0 AS DECIMAL(38, 6)) END) AS total_ventes,
            SUM(CASE WHEN parsed_date BETWEEN "@ + sql_literal_seq(date_from) + " AND "@ + sql_literal_seq(date_to), kpi_summary_measures_piece10(), sql_literal_seq(date_to), kpi_summary_measures_piece12(), "SUM(CASE WHEN parsed_date <= "@, " AND account_no LIKE '41%' THEN (debit - credit) ELSE CAST(0 AS DECIMAL(38, 6)) END) AS solde_clients"@);
    assert("SUM(CASE WHEN parsed_date <= "@ + (sql_literal_seq(date_to)) + " AND account_no LIKE '41%' THEN (debit - credit) ELSE CAST(0 AS DECIMAL(38, 6)) END) AS solde_clients"@ =~= "SUM(CASE WHEN parsed_date <= "@ + sql_literal_seq(date_to) + " AND account_no LIKE '41%' THEN (debit - credit) ELSE CAST(0 AS DECIMAL(38, 6)) END) AS solde_clients"@);
    assert(t.subrange(0, (("
        "@ + base_cte + "
        SELECT
            SUM(CASE WHEN parsed_date BETWEEN "@ + sql_literal_seq(date_from) + " AND "@ + sql_literal_seq(date_to) + " AND account_no LIKE '7%' THEN credit ELSE CAST(0 AS DECIMAL(38, 6)) END) AS total_ventes,
            SUM(CASE WHEN parsed_date BETWEEN "@ + sql_literal_seq(date_from) + " AND "@ + sql_literal_seq(date_to) + " AND account_no LIKE '6%' THEN debit ELSE CAST(0 AS DECIMAL(38, 6)) END) AS total_achats,
            SUM(CASE WHEN parsed_date <= "@ + sql_literal_seq(date_to)) + kpi_summary_measures_piece12() + (sql_literal_seq(date_to)) + kpi_summary_measures_piece14()).len() as int) == ("
        "@ + base_cte + "
        SELECT
            SUM(CASE WHEN parsed_date BETWEEN "@ + sql_literal_seq(date_from) + " AND "@ + sql_literal_seq(date_to) + " AND account_no LIKE '7%' THEN credit ELSE CAST(0 AS DECIMAL(38, 6)) END) AS total_ventes,
            SUM(CASE WHEN parsed_date BETWEEN "@ + sql_literal_seq(date_from) + " AND "@ + sql_literal_seq(date_to) + " AND account_no LIKE '6%' THEN debit ELSE CAST(0 AS DECIMAL(38, 6)) END) AS total_achats,
            SUM(CASE WHEN parsed_date <= "@ + sql_literal_seq(date_to)) + kpi_summary_measures_piece12() + (sql_literal_seq(date_to)) + kpi_summary_measures_piece14()) by {
        assert(t.subrange(0, (("
        "@ + base_cte + "
        SELECT
            SUM(CASE WHEN parsed_date BETWEEN "@ + sql_literal_seq(date_from) + " AND "@ + sql_literal_seq(date_to) + " AND account_no LIKE '7%' THEN credit ELSE CAST(0 AS DECIMAL(38, 6)) END) AS total_ventes,
            SUM(CASE WHEN parsed_date BETWEEN "@ + sql_literal_seq(date_from) + " AND "@ + sql_literal_seq(date_to) + " AND account_no LIKE '6%' THEN debit ELSE CAST(0 AS DECIMAL(38, 6)) END) AS total_achats,
            SUM(CASE WHEN parsed_date <= "@ + sql_literal_seq(date_to)) + kpi_summary_measures_piece12() + (sql_literal_seq(date_to)) + kpi_summary_measures_piece14()).len() as int) =~= ("
        "@ + base_cte + "
        SELECT
            SUM(CASE WHEN parsed_date BETWEEN "@ + sql_literal_seq(date_from) + " AND "@ + sql_literal_seq(date_to) + " AND account_no LIKE '7%' THEN credit ELSE CAST(0 AS DECIMAL(38, 6)) END) AS total_ventes,
            SUM(CASE WHEN parsed_date BETWEEN "@ + sql_literal_seq(date_from) + " AND "@ + sql_literal_seq(date_to) + " AND account_no LIKE '6%' THEN debit ELSE CAST(0 AS DECIMAL(38, 6)) END) AS total_achats,
            SUM(CASE WHEN parsed_date <= "@ + sql_literal_seq(date_to)) + kpi_summary_measures_piece12() + (sql_literal_seq(date_to)) + kpi_summary_measures_piece14());
    }
    lemma_occurs_around(t, "
        "@ + base_cte + "
        SELECT
            SUM(CASE WHEN parsed_date BETWEEN "@ + sql_literal_seq(date_from) + " AND "@ + sql_literal_seq(date_to) + " AND account_no LIKE '7%' THEN credit ELSE CAST(0 AS DECIMAL(38, 6)) END) AS total_ventes,
            SUM(CASE WHEN parsed_date BETWEEN "@ + sql_literal_seq(date_from) + " AND "@ + sql_literal_seq(date_to) + " AND account_no LIKE '6%' THEN debit ELSE CAST(0 AS DECIMAL(38, 6)) END) AS total_achats,
            SUM(CASE WHEN parsed_date <= "@ + sql_literal_seq(date_to), kpi_summary_measures_piece12(), sql_literal_seq(date_to), kpi_summary_measures_piece14(), "SUM(CASE WHEN parsed_date <= "@, " AND account_no LIKE '40%' THEN (credit - debit) ELSE CAST(0 AS DECIMAL(38, 6)) END) AS solde_fournisseurs"@);
    assert("SUM(CASE WHEN parsed_date <= "@ + (sql_literal_seq(date_to)) + " AND account_no LIKE '40%' THEN (credit - debit) ELSE CAST(0 AS DECIMAL(38, 6)) END) AS solde_fournisseurs"@ =~= "SUM(CASE WHEN parsed_date <= "@ + sql_literal_seq(date_to) + " AND account_no LIKE '40%' THEN (credit - debit) ELSE CAST(0 AS DECIMAL(38, 6)) END) AS solde_fournisseurs"@);
}

pub open spec fn kpi_evolution_measures_piece2() -> Seq<char> {
    "
        SELECT
            CONVERT(char(7), parsed_date, 120) AS [month],
            SUM(CASE WHEN account_no LIKE '7%' THEN credit ELSE CAST(0 AS DECIMAL(38, 6)) END) AS ventes,
            SUM(CASE WHEN account_no LIKE '6%' THEN debit ELSE CAST(0 AS DECIMAL(38, 6)) END) AS achats
        FROM base
        WHERE parsed_date BETWEEN "@
}

pub open spec fn kpi_evolution_measures_piece6() -> Seq<char> {
    "
          AND account_no <> ''
          "@
}

proof fn lemma_kpi_evolution_measures_literals()
    ensures
        ends_with(kpi_evolution_measures_piece2(), "SUM(CASE WHEN account_no LIKE '7%' THEN credit ELSE CAST(0 AS DECIMAL(38, 6)) END) AS ventes,
            SUM(CASE WHEN account_no LIKE '6%' THEN debit ELSE CAST(0 AS DECIMAL(38, 6)) END) AS achats
        FROM base
        WHERE parsed_date BETWEEN "@),
        begins_with(kpi_evolution_measures_piece6(), ""@),
{
    reveal_strlit("
          AND account_no <> ''
          ");
    reveal_strlit("
        SELECT
            CONVERT(char(7), parsed_date, 120) AS [month],
            SUM(CASE WHEN account_no LIKE '7%' THEN credit ELSE CAST(0 AS DECIMAL(38, 6)) END) AS ventes,
            SUM(CASE WHEN account_no LIKE '6%' THEN debit ELSE CAST(0 AS DECIMAL(38, 6)) END) AS achats
        FROM base
        WHERE parsed_date BETWEEN ");
    reveal_strlit("");
    reveal_strlit("SUM(CASE WHEN account_no LIKE '7%' THEN credit ELSE CAST(0 AS DECIMAL(38, 6)) END) AS ventes,
            SUM(CASE WHEN account_no LIKE '6%' THEN debit ELSE CAST(0 AS DECIMAL(38, 6)) END) AS achats
        FROM base
        WHERE parsed_date BETWEEN ");
    assert(kpi_evolution_measures_piece2().subrange(kpi_evolution_measures_piece2().len() - "SUM(CASE WHEN account_no LIKE '7%' THEN credit ELSE CAST(0 AS DECIMAL(38, 6)) END) AS ventes,
            SUM(CASE WHEN account_no LIKE '6%' THEN debit ELSE CAST(0 AS DECIMAL(38, 6)) END) AS achats
        FROM base
        WHERE parsed_date BETWEEN "@.len(), kpi_evolution_measures_piece2().len() as int) =~= "SUM(CASE WHEN account_no LIKE '7%' THEN credit ELSE CAST(0 AS DECIMAL(38, 6)) END) AS ventes,
            SUM(CASE WHEN account_no LIKE '6%' THEN debit ELSE CAST(0 AS DECIMAL(38, 6)) END) AS achats
        FROM base
        WHERE parsed_date BETWEEN "@);
    assert(kpi_evolution_measures_piece6().subrange(0, ""@.len() as int) =~= ""@);
}

/// The monthly evolution sums class 7 credits as sales and class 6 debits as
/// purchases, over the entries dated in the requested range.
#[verifier::rlimit(100)]
#[verifier::spinoff_prover]
pub proof fn lemma_kpi_evolution_measures(base_cte: Seq<char>, date_from: Seq<char>, date_to: Seq<char>, prefix: Option<Seq<char>>)
    ensures
        occurs_in(
            kpi_evolution_query_text(base_cte, date_from, date_to, prefix),
            "SUM(CASE WHEN account_no LIKE '7%' THEN credit ELSE CAST(0 AS DECIMAL(38, 6)) END) AS ventes,
            SUM(CASE WHEN account_no LIKE '6%' THEN debit ELSE CAST(0 AS DECIMAL(38, 6)) END) AS achats
        FROM base
        WHERE parsed_date BETWEEN "@ + sql_literal_seq(date_from) + " AND "@ + sql_literal_seq(date_to),
        ),
{
    reveal_strlit("");
    let t = kpi_evolution_query_text(base_cte, date_from, date_to, prefix);
    lemma_kpi_evolution_measures_literals();
    assert(t.subrange(0, (("
        "@ + base_cte) + kpi_evolution_measures_piece2() + (sql_literal_seq(date_from) + " AND "@ + sql_literal_seq(date_to)) + kpi_evolution_measures_piece6()).len() as int) == ("
        "@ + base_cte) + kpi_evolution_measures_piece2() + (sql_literal_seq(date_from) + " AND "@ + sql_literal_seq(date_to)) + kpi_evolution_measures_piece6()) by {
        assert(t.subrange(0, (("
        "@ + base_cte) + kpi_evolution_measures_piece2() + (sql_literal_seq(date_from) + " AND "@ + sql_literal_seq(date_to)) + kpi_evolution_measures_piece6()).len() as int) =~= ("
        "@ + base_cte) + kpi_evolution_measures_piece2() + (sql_literal_seq(date_from) + " AND "@ + sql_literal_seq(date_to)) + kpi_evolution_measures_piece6());
    }
    lemma_occurs_around(t, "
        "@ + base_cte, kpi_evolution_measures_piece2(), sql_literal_seq(date_from) + " AND "@ + sql_literal_seq(date_to), kpi_evolution_measures_piece6(), "SUM(CASE WHEN account_no LIKE '7%' THEN credit ELSE CAST(0 AS DECIMAL(38, 6)) END) AS ventes,
            SUM(CASE WHEN account_no LIKE '6%' THEN debit ELSE CAST(0 AS DECIMAL(38, 6)) END) AS achats
        FROM base
        WHERE parsed_date BETWEEN "@, ""@);
    assert("SUM(CASE WHEN account_no LIKE '7%' THEN credit ELSE CAST(0 AS DECIMAL(38, 6)) END) AS ventes,
            SUM(CASE WHEN account_no LIKE '6%' THEN debit ELSE CAST(0 AS DECIMAL(38, 6)) END) AS achats
        FROM base
        WHERE parsed_date BETWEEN "@ + (sql_literal_seq(date_from) + " AND "@ + sql_literal_seq(date_to)) + ""@ =~= "SUM(CASE WHEN account_no LIKE '7%' THEN credit ELSE CAST(0 AS DECIMAL(38, 6)) END) AS ventes,
            SUM(CASE WHEN account_no LIKE '6%' THEN debit ELSE CAST(0 AS DECIMAL(38, 6)) END) AS achats
        FROM base
        WHERE parsed_date BETWEEN "@ + sql_literal_seq(date_from) + " AND "@ + sql_literal_seq(date_to));
}

pub open spec fn ledger_stream_reads_the_date_range_piece20() -> Seq<char> {
    " WHERE "@
}

pub open spec fn ledger_stream_reads_the_date_range_piece26() -> Seq<char> {
    " AND "@
}

proof fn lemma_ledger_stream_reads_the_date_range_literals()
    ensures
        ends_with(ledger_stream_reads_the_date_range_piece20(), "WHERE "@),
        begins_with(ledger_stream_reads_the_date_range_piece26(), ""@),
{
    reveal_strlit(" AND ");
    reveal_strlit(" WHERE ");
    reveal_strlit("");
    reveal_strlit("WHERE ");
    assert(ledger_stream_reads_the_date_range_piece20().subrange(ledger_stream_reads_the_date_range_piece20().len() - "WHERE "@.len(), ledger_stream_reads_the_date_range_piece20().len() as int) =~= "WHERE "@);
    assert(ledger_stream_reads_the_date_range_piece26().subrange(0, ""@.len() as int) =~= ""@);
}

/// The streamed General Ledger reads exactly the entries dated in the
/// requested range.
#[verifier::rlimit(100)]
#[verifier::spinoff_prover]
pub proof fn lemma_ledger_stream_reads_the_date_range(e: EntryContext, lookup: Option<LookupContext>, date_from: Seq<char>, date_to: Seq<char>, prefix: Option<Seq<char>>)
    ensures
        occurs_in(
            ledger_stream_base_text(e, lookup, date_from, date_to, prefix),
            "WHERE "@ + parsed_date_text(e) + " BETWEEN "@ + sql_literal_seq(date_from) + " AND "@ + sql_literal_seq(date_to),
        ),
{
    reveal_strlit("");
    let t = ledger_stream_base_text(e, lookup, date_from, date_to, prefix);
    lemma_ledger_stream_reads_the_date_range_literals();
    assert(t.subrange(0, (("WITH base AS (SELECT parsed_date = "@ + parsed_date_text(e) + ", journal = "@ + optional_text_column(e.journal_col, 64) + ", account_no = "@ + account_no_text(e) + ", account_label = "@ + account_label_text(e, lookup) + ", ref_piece = "@ + optional_text_column(e.ref_piece_col, 128) + ", lettrage = "@ + optional_text_column(e.lettrage_col, 64) + ", debit = "@ + e.debit_expr@ + ", credit = "@ + e.credit_expr@ + " FROM "@ + e.table.sql_name_text() + " e "@ + account_join_text(e, lookup)) + ledger_stream_reads_the_date_range_piece20() + (parsed_date_text(e) + " BETWEEN "@ + sql_literal_seq(date_from) + " AND "@ + sql_literal_seq(date_to)) + ledger_stream_reads_the_date_range_piece26()).len() as int) == ("WITH base AS (SELECT parsed_date = "@ + parsed_date_text(e) + ", journal = "@ + optional_text_column(e.journal_col, 64) + ", account_no = "@ + account_no_text(e) + ", account_label = "@ + account_label_text(e, lookup) + ", ref_piece = "@ + optional_text_column(e.ref_piece_col, 128) + ", lettrage = "@ + optional_text_column(e.lettrage_col, 64) + ", debit = "@ + e.debit_expr@ + ", credit = "@ + e.credit_expr@ + " FROM "@ + e.table.sql_name_text() + " e "@ + account_join_text(e, lookup)) + ledger_stream_reads_the_date_range_piece20() + (parsed_date_text(e) + " BETWEEN "@ + sql_literal_seq(date_from) + " AND "@ + sql_literal_seq(date_to)) + ledger_stream_reads_the_date_range_piece26()) by {
        assert(t.subrange(0, (("WITH base AS (SELECT parsed_date = "@ + parsed_date_text(e) + ", journal = "@ + optional_text_column(e.journal_col, 64) + ", account_no = "@ + account_no_text(e) + ", account_label = "@ + account_label_text(e, lookup) + ", ref_piece = "@ + optional_text_column(e.ref_piece_col, 128) + ", lettrage = "@ + optional_text_column(e.lettrage_col, 64) + ", debit = "@ + e.debit_expr@ + ", credit = "@ + e.credit_expr@ + " FROM "@ + e.table.sql_name_text() + " e "@ + account_join_text(e, lookup)) + ledger_stream_reads_the_date_range_piece20() + (parsed_date_text(e) + " BETWEEN "@ + sql_literal_seq(date_from) + " AND "@ + sql_literal_seq(date_to)) + ledger_stream_reads_the_date_range_piece26()).len() as int) =~= ("WITH base AS (SELECT parsed_date = "@ + parsed_date_text(e) + ", journal = "@ + optional_text_column(e.journal_col, 64) + ", account_no = "@ + account_no_text(e) + ", account_label = "@ + account_label_text(e, lookup) + ", ref_piece = "@ + optional_text_column(e.ref_piece_col, 128) + ", lettrage = "@ + optional_text_column(e.lettrage_col, 64) + ", debit = "@ + e.debit_expr@ + ", credit = "@ + e.credit_expr@ + " FROM "@ + e.table.sql_name_text() + " e "@ + account_join_text(e, lookup)) + ledger_stream_reads_the_date_range_piece20() + (parsed_date_text(e) + " BETWEEN "@ + sql_literal_seq(date_from) + " AND "@ + sql_literal_seq(date_to)) + ledger_stream_reads_the_date_range_piece26());
    }
    lemma_occurs_around(t, "WITH base AS (SELECT parsed_date = "@ + parsed_date_text(e) + ", journal = "@ + optional_text_column(e.journal_col, 64) + ", account_no = "@ + account_no_text(e) + ", account_label = "@ + account_label_text(e, lookup) + ", ref_piece = "@ + optional_text_column(e.ref_piece_col, 128) + ", lettrage = "@ + optional_text_column(e.lettrage_col, 64) + ", debit = "@ + e.debit_expr@ + ", credit = "@ + e.credit_expr@ + " FROM "@ + e.table.sql_name_text() + " e "@ + account_join_text(e, lookup), ledger_stream_reads_the_date_range_piece20(), parsed_date_text(e) + " BETWEEN "@ + sql_literal_seq(date_from) + " AND "@ + sql_literal_seq(date_to), ledger_stream_reads_the_date_range_piece26(), "WHERE "@, ""@);
    assert("WHERE "@ + (parsed_date_text(e) + " BETWEEN "@ + sql_literal_seq(date_from) + " AND "@ + sql_literal_seq(date_to)) + ""@ =~= "WHERE "@ + parsed_date_text(e) + " BETWEEN "@ + sql_literal_seq(date_from) + " AND "@ + sql_literal_seq(date_to));
}

pub open spec fn monthly_accounts_read_the_date_range_piece14() -> Seq<char> {
    "
                WHERE "@
}

pub open spec fn monthly_accounts_read_the_date_range_piece20() -> Seq<char> {
    "
            )
            SELECT
                account_no,
                MAX(account_label) AS account_label,
                MONTH(parsed_date) AS [month],
                SUM(debit) AS debit,
                SUM(credit) AS credit
            FROM base
            WHERE parsed_date IS NOT NULL AND account_no <> ''
            GROUP BY account_no, MONTH(parsed_date)
            ORDER BY account_no, [month]
            "@
}

proof fn lemma_monthly_accounts_read_the_date_range_literals()
    ensures
        ends_with(monthly_accounts_read_the_date_range_piece14(), "WHERE "@),
        begins_with(monthly_accounts_read_the_date_range_piece20(), ""@),
{
    reveal_strlit("
                WHERE ");
    reveal_strlit("
            )
            SELECT
                account_no,
                MAX(account_label) AS account_label,
                MONTH(parsed_date) AS [month],
                SUM(debit) AS debit,
                SUM(credit) AS credit
            FROM base
            WHERE parsed_date IS NOT NULL AND account_no <> ''
            GROUP BY account_no, MONTH(parsed_date)
            ORDER BY account_no, [month]
            ");
    reveal_strlit("");
    reveal_strlit("WHERE ");
    assert(monthly_accounts_read_the_date_range_piece14().subrange(monthly_accounts_read_the_date_range_piece14().len() - "WHERE "@.len(), monthly_accounts_read_the_date_range_piece14().len() as int) =~= "WHERE "@);
    assert(monthly_accounts_read_the_date_range_piece20().subrange(0, ""@.len() as int) =~= ""@);
}

/// The operating account report reads exactly the entries dated in the
/// requested range.
#[verifier::rlimit(100)]
#[verifier::spinoff_prover]
pub proof fn lemma_monthly_accounts_read_the_date_range(e: EntryContext, lookup: Option<LookupContext>, date_from: Seq<char>, date_to: Seq<char>)
    ensures
        occurs_in(
            monthly_accounts_query_text(e, lookup, date_from, date_to),
            "WHERE "@ + parsed_date_text(e) + " BETWEEN "@ + sql_literal_seq(date_from) + " AND "@ + sql_literal_seq(date_to),
        ),
{
    reveal_strlit("");
    let t = monthly_accounts_query_text(e, lookup, date_from, date_to);
    lemma_monthly_accounts_read_the_date_range_literals();
    assert(t.subrange(0, (("
            WITH base AS (
                SELECT
                    parsed_date = "@ + parsed_date_text(e) + ",
                    account_no = "@ + account_no_text(e) + ",
                    account_label = "@ + account_label_text(e, lookup) + ",
                    debit = "@ + e.debit_expr@ + ",
                    credit = "@ + e.credit_expr@ + "
                FROM "@ + e.table.sql_name_text() + " e
                "@ + account_join_text(e, lookup)) + monthly_accounts_read_the_date_range_piece14() + (parsed_date_text(e) + " BETWEEN "@ + sql_literal_seq(date_from) + " AND "@ + sql_literal_seq(date_to)) + monthly_accounts_read_the_date_range_piece20()).len() as int) == ("
            WITH base AS (
                SELECT
                    parsed_date = "@ + parsed_date_text(e) + ",
                    account_no = "@ + account_no_text(e) + ",
                    account_label = "@ + account_label_text(e, lookup) + ",
                    debit = "@ + e.debit_expr@ + ",
                    credit = "@ + e.credit_expr@ + "
                FROM "@ + e.table.sql_name_text() + " e
                "@ + account_join_text(e, lookup)) + monthly_accounts_read_the_date_range_piece14() + (parsed_date_text(e) + " BETWEEN "@ + sql_literal_seq(date_from) + " AND "@ + sql_literal_seq(date_to)) + monthly_accounts_read_the_date_range_piece20()) by {
        assert(t.subrange(0, (("
            WITH base AS (
                SELECT
                    parsed_date = "@ + parsed_date_text(e) + ",
                    account_no = "@ + account_no_text(e) + ",
                    account_label = "@ + account_label_text(e, lookup) + ",
                    debit = "@ + e.debit_expr@ + ",
                    credit = "@ + e.credit_expr@ + "
                FROM "@ + e.table.sql_name_text() + " e
                "@ + account_join_text(e, lookup)) + monthly_accounts_read_the_date_range_piece14() + (parsed_date_text(e) + " BETWEEN "@ + sql_literal_seq(date_from) + " AND "@ + sql_literal_seq(date_to)) + monthly_accounts_read_the_date_range_piece20()).len() as int) =~= ("
            WITH base AS (
                SELECT
                    parsed_date = "@ + parsed_date_text(e) + ",
                    account_no = "@ + account_no_text(e) + ",
                    account_label = "@ + account_label_text(e, lookup) + ",
                    debit = "@ + e.debit_expr@ + ",
                    credit = "@ + e.credit_expr@ + "
                FROM "@ + e.table.sql_name_text() + " e
                "@ + account_join_text(e, lookup)) + monthly_accounts_read_the_date_range_piece14() + (parsed_date_text(e) + " BETWEEN "@ + sql_literal_seq(date_from) + " AND "@ + sql_literal_seq(date_to)) + monthly_accounts_read_the_date_range_piece20());
    }
    lemma_occurs_around(t, "
            WITH base AS (
                SELECT
                    parsed_date = "@ + parsed_date_text(e) + ",
                    account_no = "@ + account_no_text(e) + ",
                    account_label = "@ + account_label_text(e, lookup) + ",
                    debit = "@ + e.debit_expr@ + ",
                    credit = "@ + e.credit_expr@ + "
                FROM "@ + e.table.sql_name_text() + " e
                "@ + account_join_text(e, lookup), monthly_accounts_read_the_date_range_piece14(), parsed_date_text(e) + " BETWEEN "@ + sql_literal_seq(date_from) + " AND "@ + sql_literal_seq(date_to), monthly_accounts_read_the_date_range_piece20(), "WHERE "@, ""@);
    assert("WHERE "@ + (parsed_date_text(e) + " BETWEEN "@ + sql_literal_seq(date_from) + " AND "@ + sql_literal_seq(date_to)) + ""@ =~= "WHERE "@ + parsed_date_text(e) + " BETWEEN "@ + sql_literal_seq(date_from) + " AND "@ + sql_literal_seq(date_to));
}

pub open spec fn sage1000_grand_livre_reads_the_date_range_piece28() -> Seq<char> {
    "
            WHERE TRY_CAST("@
}

pub open spec fn sage1000_grand_livre_reads_the_date_range_piece34() -> Seq<char> {
    "
              AND "@
}

proof fn lemma_sage1000_grand_livre_reads_the_date_range_literals()
    ensures
        ends_with(sage1000_grand_livre_reads_the_date_range_piece28(), "WHERE TRY_CAST("@),
        begins_with(sage1000_grand_livre_reads_the_date_range_piece34(), ""@),
{
    reveal_strlit("
              AND ");
    reveal_strlit("
            WHERE TRY_CAST(");
    reveal_strlit("");
    reveal_strlit("WHERE TRY_CAST(");
    assert(sage1000_grand_livre_reads_the_date_range_piece28().subrange(sage1000_grand_livre_reads_the_date_range_piece28().len() - "WHERE TRY_CAST("@.len(), sage1000_grand_livre_reads_the_date_range_piece28().len() as int) =~= "WHERE TRY_CAST("@);
    assert(sage1000_grand_livre_reads_the_date_range_piece34().subrange(0, ""@.len() as int) =~= ""@);
}

/// The Sage 1000 General Ledger reads exactly the entries dated in the
/// requested range.
#[verifier::rlimit(100)]
#[verifier::spinoff_prover]
pub proof fn lemma_sage1000_grand_livre_reads_the_date_range(c: Sage1000Context, date_from: Seq<char>, date_to: Seq<char>, prefix: Option<Seq<char>>)
    ensures
        occurs_in(
            sage1000_grand_livre_query_text(c, date_from, date_to, prefix),
            "WHERE TRY_CAST("@ + qualified("e"@, "eDate"@) + " AS DATE) BETWEEN "@ + sql_literal_seq(date_from) + " AND "@ + sql_literal_seq(date_to),
        ),
{
    reveal_strlit("");
    let t = sage1000_grand_livre_query_text(c, date_from, date_to, prefix);
    lemma_sage1000_grand_livre_reads_the_date_range_literals();
    assert(t.subrange(0, (("
        WITH base AS (
            SELECT
                parsed_date = TRY_CAST("@ + qualified("e"@, "eDate"@) + " AS DATE),
                journal = "@ + crate::ledger::journal_expr_text(c) + ",
                account_no = "@ + text_or_empty_text(qualified("cg"@, "codeCompte"@), 64) + ",
                account_label = "@ + sage1000_account_label_text() + ",
                ref_piece = "@ + crate::ledger::ref_piece_expr_text(c) + ",
                lettrage = "@ + text_or_empty_text(qualified("e"@, "CodeLettrageExterne"@), 64) + ",
                debit = "@ + decimal_or_zero_text(qualified("e"@, "debit"@)) + ",
                credit = "@ + decimal_or_zero_text(qualified("e"@, "credit"@)) + ",
                entry_number = COALESCE(TRY_CAST("@ + qualified("e"@, "numero"@) + " AS BIGINT), 0)
            FROM "@ + c.entries.sql_name_text() + " e
            LEFT JOIN "@ + c.accounts.sql_name_text() + " cg ON "@ + qualified("e"@, "oidcompteGeneral"@) + " = "@ + qualified("cg"@, "oid"@) + "
            "@ + crate::ledger::document_joins_text(c)) + sage1000_grand_livre_reads_the_date_range_piece28() + (qualified("e"@, "eDate"@) + " AS DATE) BETWEEN "@ + sql_literal_seq(date_from) + " AND "@ + sql_literal_seq(date_to)) + sage1000_grand_livre_reads_the_date_range_piece34()).len() as int) == ("
        WITH base AS (
            SELECT
                parsed_date = TRY_CAST("@ + qualified("e"@, "eDate"@) + " AS DATE),
                journal = "@ + crate::ledger::journal_expr_text(c) + ",
                account_no = "@ + text_or_empty_text(qualified("cg"@, "codeCompte"@), 64) + ",
                account_label = "@ + sage1000_account_label_text() + ",
                ref_piece = "@ + crate::ledger::ref_piece_expr_text(c) + ",
                lettrage = "@ + text_or_empty_text(qualified("e"@, "CodeLettrageExterne"@), 64) + ",
                debit = "@ + decimal_or_zero_text(qualified("e"@, "debit"@)) + ",
                credit = "@ + decimal_or_zero_text(qualified("e"@, "credit"@)) + ",
                entry_number = COALESCE(TRY_CAST("@ + qualified("e"@, "numero"@) + " AS BIGINT), 0)
            FROM "@ + c.entries.sql_name_text() + " e
            LEFT JOIN "@ + c.accounts.sql_name_text() + " cg ON "@ + qualified("e"@, "oidcompteGeneral"@) + " = "@ + qualified("cg"@, "oid"@) + "
            "@ + crate::ledger::document_joins_text(c)) + sage1000_grand_livre_reads_the_date_range_piece28() + (qualified("e"@, "eDate"@) + " AS DATE) BETWEEN "@ + sql_literal_seq(date_from) + " AND "@ + sql_literal_seq(date_to)) + sage1000_grand_livre_reads_the_date_range_piece34()) by {
        assert(t.subrange(0, (("
        WITH base AS (
            SELECT
                parsed_date = TRY_CAST("@ + qualified("e"@, "eDate"@) + " AS DATE),
                journal = "@ + crate::ledger::journal_expr_text(c) + ",
                account_no = "@ + text_or_empty_text(qualified("cg"@, "codeCompte"@), 64) + ",
                account_label = "@ + sage1000_account_label_text() + ",
                ref_piece = "@ + crate::ledger::ref_piece_expr_text(c) + ",
                lettrage = "@ + text_or_empty_text(qualified("e"@, "CodeLettrageExterne"@), 64) + ",
                debit = "@ + decimal_or_zero_text(qualified("e"@, "debit"@)) + ",
                credit = "@ + decimal_or_zero_text(qualified("e"@, "credit"@)) + ",
                entry_number = COALESCE(TRY_CAST("@ + qualified("e"@, "numero"@) + " AS BIGINT), 0)
            FROM "@ + c.entries.sql_name_text() + " e
            LEFT JOIN "@ + c.accounts.sql_name_text() + " cg ON "@ + qualified("e"@, "oidcompteGeneral"@) + " = "@ + qualified("cg"@, "oid"@) + "
            "@ + crate::ledger::document_joins_text(c)) + sage1000_grand_livre_reads_the_date_range_piece28() + (qualified("e"@, "eDate"@) + " AS DATE) BETWEEN "@ + sql_literal_seq(date_from) + " AND "@ + sql_literal_seq(date_to)) + sage1000_grand_livre_reads_the_date_range_piece34()).len() as int) =~= ("
        WITH base AS (
            SELECT
                parsed_date = TRY_CAST("@ + qualified("e"@, "eDate"@) + " AS DATE),
                journal = "@ + crate::ledger::journal_expr_text(c) + ",
                account_no = "@ + text_or_empty_text(qualified("cg"@, "codeCompte"@), 64) + ",
                account_label = "@ + sage1000_account_label_text() + ",
                ref_piece = "@ + crate::ledger::ref_piece_expr_text(c) + ",
                lettrage = "@ + text_or_empty_text(qualified("e"@, "CodeLettrageExterne"@), 64) + ",
                debit = "@ + decimal_or_zero_text(qualified("e"@, "debit"@)) + ",
                credit = "@ + decimal_or_zero_text(qualified("e"@, "credit"@)) + ",
                entry_number = COALESCE(TRY_CAST("@ + qualified("e"@, "numero"@) + " AS BIGINT), 0)
            FROM "@ + c.entries.sql_name_text() + " e
            LEFT JOIN "@ + c.accounts.sql_name_text() + " cg ON "@ + qualified("e"@, "oidcompteGeneral"@) + " = "@ + qualified("cg"@, "oid"@) + "
            "@ + crate::ledger::document_joins_text(c)) + sage1000_grand_livre_reads_the_date_range_piece28() + (qualified("e"@, "eDate"@) + " AS DATE) BETWEEN "@ + sql_literal_seq(date_from) + " AND "@ + sql_literal_seq(date_to)) + sage1000_grand_livre_reads_the_date_range_piece34());
    }
    lemma_occurs_around(t, "
        WITH base AS (
            SELECT
                parsed_date = TRY_CAST("@ + qualified("e"@, "eDate"@) + " AS DATE),
                journal = "@ + crate::ledger::journal_expr_text(c) + ",
                account_no = "@ + text_or_empty_text(qualified("cg"@, "codeCompte"@), 64) + ",
                account_label = "@ + sage1000_account_label_text() + ",
                ref_piece = "@ + crate::ledger::ref_piece_expr_text(c) + ",
                lettrage = "@ + text_or_empty_text(qualified("e"@, "CodeLettrageExterne"@), 64) + ",
                debit = "@ + decimal_or_zero_text(qualified("e"@, "debit"@)) + ",
                credit = "@ + decimal_or_zero_text(qualified("e"@, "credit"@)) + ",
                entry_number = COALESCE(TRY_CAST("@ + qualified("e"@, "numero"@) + " AS BIGINT), 0)
            FROM "@ + c.entries.sql_name_text() + " e
            LEFT JOIN "@ + c.accounts.sql_name_text() + " cg ON "@ + qualified("e"@, "oidcompteGeneral"@) + " = "@ + qualified("cg"@, "oid"@) + "
            "@ + crate::ledger::document_joins_text(c), sage1000_grand_livre_reads_the_date_range_piece28(), qualified("e"@, "eDate"@) + " AS DATE) BETWEEN "@ + sql_literal_seq(date_from) + " AND "@ + sql_literal_seq(date_to), sage1000_grand_livre_reads_the_date_range_piece34(), "WHERE TRY_CAST("@, ""@);
    assert("WHERE TRY_CAST("@ + (qualified("e"@, "eDate"@) + " AS DATE) BETWEEN "@ + sql_literal_seq(date_from) + " AND "@ + sql_literal_seq(date_to)) + ""@ =~= "WHERE TRY_CAST("@ + qualified("e"@, "eDate"@) + " AS DATE) BETWEEN "@ + sql_literal_seq(date_from) + " AND "@ + sql_literal_seq(date_to));
}

pub open spec fn stream_balance_sums_each_side_piece22() -> Seq<char> {
    " THEN credit ELSE CAST(0 AS DECIMAL(38,6)) END) AS open_credit_raw, SUM(CASE WHEN "@
}

pub open spec fn stream_balance_sums_each_side_piece24() -> Seq<char> {
    " THEN debit ELSE CAST(0 AS DECIMAL(38,6)) END) AS mvt_debit, SUM(CASE WHEN "@
}

pub open spec fn stream_balance_sums_each_side_piece26() -> Seq<char> {
    " THEN credit ELSE CAST(0 AS DECIMAL(38,6)) END) AS mvt_credit FROM base WHERE account_no <> '' AND parsed_date IS NOT NULL AND "@
}

proof fn lemma_stream_balance_sums_each_side_literals()
    ensures
        ends_with(stream_balance_sums_each_side_piece22(), "SUM(CASE WHEN "@),
        begins_with(stream_balance_sums_each_side_piece24(), " THEN debit ELSE CAST(0 AS DECIMAL(38,6)) END) AS mvt_debit"@),
        ends_with(stream_balance_sums_each_side_piece24(), "SUM(CASE WHEN "@),
        begins_with(stream_balance_sums_each_side_piece26(), " THEN credit ELSE CAST(0 AS DECIMAL(38,6)) END) AS mvt_credit"@),
{
    reveal_strlit(" THEN credit ELSE CAST(0 AS DECIMAL(38,6)) END) AS mvt_credit FROM base WHERE account_no <> '' AND parsed_date IS NOT NULL AND ");
    reveal_strlit(" THEN credit ELSE CAST(0 AS DECIMAL(38,6)) END) AS mvt_credit");
    reveal_strlit(" THEN credit ELSE CAST(0 AS DECIMAL(38,6)) END) AS open_credit_raw, SUM(CASE WHEN ");
    reveal_strlit(" THEN debit ELSE CAST(0 AS DECIMAL(38,6)) END) AS mvt_debit");
    reveal_strlit(" THEN debit ELSE CAST(0 AS DECIMAL(38,6)) END) AS mvt_debit, SUM(CASE WHEN ");
    reveal_strlit("SUM(CASE WHEN ");
    assert(stream_balance_sums_each_side_piece22().subrange(stream_balance_sums_each_side_piece22().len() - "SUM(CASE WHEN "@.len(), stream_balance_sums_each_side_piece22().len() as int) =~= "SUM(CASE WHEN "@);
    assert(stream_balance_sums_each_side_piece24().subrange(0, " THEN debit ELSE CAST(0 AS DECIMAL(38,6)) END) AS mvt_debit"@.len() as int) =~= " THEN debit ELSE CAST(0 AS DECIMAL(38,6)) END) AS mvt_debit"@);
    assert(stream_balance_sums_each_side_piece24().subrange(stream_balance_sums_each_side_piece24().len() - "SUM(CASE WHEN "@.len(), stream_balance_sums_each_side_piece24().len() as int) =~= "SUM(CASE WHEN "@);
    assert(stream_balance_sums_each_side_piece26().subrange(0, " THEN credit ELSE CAST(0 AS DECIMAL(38,6)) END) AS mvt_credit"@.len() as int) =~= " THEN credit ELSE CAST(0 AS DECIMAL(38,6)) END) AS mvt_credit"@);
}

/// The streamed trial balance sums the debits of the period's movements as
/// its movement debit and their credits as its movement credit.
#[verifier::rlimit(100)]
#[verifier::spinoff_prover]
pub proof fn lemma_stream_balance_sums_each_side(e: EntryContext, lookup: Option<LookupContext>, p: BalancePeriod, prefix: Option<Seq<char>>)
    ensures
        occurs_in(
            stream_balance_query_text(e, lookup, p, prefix),
            "SUM(CASE WHEN "@ + movement_text("account_no"@, "parsed_date"@, "journal"@, e.journal_col is Some, p) + " THEN debit ELSE CAST(0 AS DECIMAL(38,6)) END) AS mvt_debit"@,
        ),
        occurs_in(
            stream_balance_query_text(e, lookup, p, prefix),
            "SUM(CASE WHEN "@ + movement_text("account_no"@, "parsed_date"@, "journal"@, e.journal_col is Some, p) + " THEN credit ELSE CAST(0 AS DECIMAL(38,6)) END) AS mvt_credit"@,
        ),
{
    reveal_strlit("");
    let t = stream_balance_query_text(e, lookup, p, prefix);
    lemma_stream_balance_sums_each_side_literals();
    assert(t.subrange(0, (("WITH base AS (SELECT parsed_date = "@ + parsed_date_text(e) + ", journal = "@ + optional_text_column(e.journal_col, 64) + ", account_no = "@ + account_no_text(e) + ", account_label = "@ + account_label_text(e, lookup) + ", debit = "@ + e.debit_expr@ + ", credit = "@ + e.credit_expr@ + " FROM "@ + e.table.sql_name_text() + " e "@ + account_join_text(e, lookup) + " WHERE 1=1 "@ + account_filter_text(account_no_text(e), prefix) + "),
aggregated AS (SELECT account_no, MAX(account_label) AS account_label, SUM(CASE WHEN "@ + opening_text(e, p) + " THEN debit ELSE CAST(0 AS DECIMAL(38,6)) END) AS open_debit_raw, SUM(CASE WHEN "@ + opening_text(e, p)) + stream_balance_sums_each_side_piece22() + (movement_text("account_no"@, "parsed_date"@, "journal"@, e.journal_col is Some, p)) + stream_balance_sums_each_side_piece24()).len() as int) == ("WITH base AS (SELECT parsed_date = "@ + parsed_date_text(e) + ", journal = "@ + optional_text_column(e.journal_col, 64) + ", account_no = "@ + account_no_text(e) + ", account_label = "@ + account_label_text(e, lookup) + ", debit = "@ + e.debit_expr@ + ", credit = "@ + e.credit_expr@ + " FROM "@ + e.table.sql_name_text() + " e "@ + account_join_text(e, lookup) + " WHERE 1=1 "@ + account_filter_text(account_no_text(e), prefix) + "),
aggregated AS (SELECT account_no, MAX(account_label) AS account_label, SUM(CASE WHEN "@ + opening_text(e, p) + " THEN debit ELSE CAST(0 AS DECIMAL(38,6)) END) AS open_debit_raw, SUM(CASE WHEN "@ + opening_text(e, p)) + stream_balance_sums_each_side_piece22() + (movement_text("account_no"@, "parsed_date"@, "journal"@, e.journal_col is Some, p)) + stream_balance_sums_each_side_piece24()) by {
        assert(t.subrange(0, (("WITH base AS (SELECT parsed_date = "@ + parsed_date_text(e) + ", journal = "@ + optional_text_column(e.journal_col, 64) + ", account_no = "@ + account_no_text(e) + ", account_label = "@ + account_label_text(e, lookup) + ", debit = "@ + e.debit_expr@ + ", credit = "@ + e.credit_expr@ + " FROM "@ + e.table.sql_name_text() + " e "@ + account_join_text(e, lookup) + " WHERE 1=1 "@ + account_filter_text(account_no_text(e), prefix) + "),
aggregated AS (SELECT account_no, MAX(account_label) AS account_label, SUM(CASE WHEN "@ + opening_text(e, p) + " THEN debit ELSE CAST(0 AS DECIMAL(38,6)) END) AS open_debit_raw, SUM(CASE WHEN "@ + opening_text(e, p)) + stream_balance_sums_each_side_piece22() + (movement_text("account_no"@, "parsed_date"@, "journal"@, e.journal_col is Some, p)) + stream_balance_sums_each_side_piece24()).len() as int) =~= ("WITH base AS (SELECT parsed_date = "@ + parsed_date_text(e) + ", journal = "@ + optional_text_column(e.journal_col, 64) + ", account_no = "@ + account_no_text(e) + ", account_label = "@ + account_label_text(e, lookup) + ", debit = "@ + e.debit_expr@ + ", credit = "@ + e.credit_expr@ + " FROM "@ + e.table.sql_name_text() + " e "@ + account_join_text(e, lookup) + " WHERE 1=1 "@ + account_filter_text(account_no_text(e), prefix) + "),
aggregated AS (SELECT account_no, MAX(account_label) AS account_label, SUM(CASE WHEN "@ + opening_text(e, p) + " THEN debit ELSE CAST(0 AS DECIMAL(38,6)) END) AS open_debit_raw, SUM(CASE WHEN "@ + opening_text(e, p)) + stream_balance_sums_each_side_piece22() + (movement_text("account_no"@, "parsed_date"@, "journal"@, e.journal_col is Some, p)) + stream_balance_sums_each_side_piece24());
    }
    lemma_occurs_around(t, "WITH base AS (SELECT parsed_date = "@ + parsed_date_text(e) + ", journal = "@ + optional_text_column(e.journal_col, 64) + ", account_no = "@ + account_no_text(e) + ", account_label = "@ + account_label_text(e, lookup) + ", debit = "@ + e.debit_expr@ + ", credit = "@ + e.credit_expr@ + " FROM "@ + e.table.sql_name_text() + " e "@ + account_join_text(e, lookup) + " WHERE 1=1 "@ + account_filter_text(account_no_text(e), prefix) + "),
aggregated AS (SELECT account_no, MAX(account_label) AS account_label, SUM(CASE WHEN "@ + opening_text(e, p) + " THEN debit ELSE CAST(0 AS DECIMAL(38,6)) END) AS open_debit_raw, SUM(CASE WHEN "@ + opening_text(e, p), stream_balance_sums_each_side_piece22(), movement_text("account_no"@, "parsed_date"@, "journal"@, e.journal_col is Some, p), stream_balance_sums_each_side_piece24(), "SUM(CASE WHEN "@, " THEN debit ELSE CAST(0 AS DECIMAL(38,6)) END) AS mvt_debit"@);
    assert("SUM(CASE WHEN "@ + (movement_text("account_no"@, "parsed_date"@, "journal"@, e.journal_col is Some, p)) + " THEN debit ELSE CAST(0 AS DECIMAL(38,6)) END) AS mvt_debit"@ =~= "SUM(CASE WHEN "@ + movement_text("account_no"@, "parsed_date"@, "journal"@, e.journal_col is Some, p) + " THEN debit ELSE CAST(0 AS DECIMAL(38,6)) END) AS mvt_debit"@);
    assert(t.subrange(0, (("WITH base AS (SELECT parsed_date = "@ + parsed_date_text(e) + ", journal = "@ + optional_text_column(e.journal_col, 64) + ", account_no = "@ + account_no_text(e) + ", account_label = "@ + account_label_text(e, lookup) + ", debit = "@ + e.debit_expr@ + ", credit = "@ + e.credit_expr@ + " FROM "@ + e.table.sql_name_text() + " e "@ + account_join_text(e, lookup) + " WHERE 1=1 "@ + account_filter_text(account_no_text(e), prefix) + "),
aggregated AS (SELECT account_no, MAX(account_label) AS account_label, SUM(CASE WHEN "@ + opening_text(e, p) + " THEN debit ELSE CAST(0 AS DECIMAL(38,6)) END) AS open_debit_raw, SUM(CASE WHEN "@ + opening_text(e, p) + " THEN credit ELSE CAST(0 AS DECIMAL(38,6)) END) AS open_credit_raw, SUM(CASE WHEN "@ + movement_text("account_no"@, "parsed_date"@, "journal"@, e.journal_col is Some, p)) + stream_balance_sums_each_side_piece24() + (movement_text("account_no"@, "parsed_date"@, "journal"@, e.journal_col is Some, p)) + stream_balance_sums_each_side_piece26()).len() as int) == ("WITH base AS (SELECT parsed_date = "@ + parsed_date_text(e) + ", journal = "@ + optional_text_column(e.journal_col, 64) + ", account_no = "@ + account_no_text(e) + ", account_label = "@ + account_label_text(e, lookup) + ", debit = "@ + e.debit_expr@ + ", credit = "@ + e.credit_expr@ + " FROM "@ + e.table.sql_name_text() + " e "@ + account_join_text(e, lookup) + " WHERE 1=1 "@ + account_filter_text(account_no_text(e), prefix) + "),
aggregated AS (SELECT account_no, MAX(account_label) AS account_label, SUM(CASE WHEN "@ + opening_text(e, p) + " THEN debit ELSE CAST(0 AS DECIMAL(38,6)) END) AS open_debit_raw, SUM(CASE WHEN "@ + opening_text(e, p) + " THEN credit ELSE CAST(0 AS DECIMAL(38,6)) END) AS open_credit_raw, SUM(CASE WHEN "@ + movement_text("account_no"@, "parsed_date"@, "journal"@, e.journal_col is Some, p)) + stream_balance_sums_each_side_piece24() + (movement_text("account_no"@, "parsed_date"@, "journal"@, e.journal_col is Some, p)) + stream_balance_sums_each_side_piece26()) by {
        assert(t.subrange(0, (("WITH base AS (SELECT parsed_date = "@ + parsed_date_text(e) + ", journal = "@ + optional_text_column(e.journal_col, 64) + ", account_no = "@ + account_no_text(e) + ", account_label = "@ + account_label_text(e, lookup) + ", debit = "@ + e.debit_expr@ + ", credit = "@ + e.credit_expr@ + " FROM "@ + e.table.sql_name_text() + " e "@ + account_join_text(e, lookup) + " WHERE 1=1 "@ + account_filter_text(account_no_text(e), prefix) + "),
aggregated AS (SELECT account_no, MAX(account_label) AS account_label, SUM(CASE WHEN "@ + opening_text(e, p) + " THEN debit ELSE CAST(0 AS DECIMAL(38,6)) END) AS open_debit_raw, SUM(CASE WHEN "@ + opening_text(e, p) + " THEN credit ELSE CAST(0 AS DECIMAL(38,6)) END) AS open_credit_raw, SUM(CASE WHEN "@ + movement_text("account_no"@, "parsed_date"@, "journal"@, e.journal_col is Some, p)) + stream_balance_sums_each_side_piece24() + (movement_text("account_no"@, "parsed_date"@, "journal"@, e.journal_col is Some, p)) + stream_balance_sums_each_side_piece26()).len() as int) =~= ("WITH base AS (SELECT parsed_date = "@ + parsed_date_text(e) + ", journal = "@ + optional_text_column(e.journal_col, 64) + ", account_no = "@ + account_no_text(e) + ", account_label = "@ + account_label_text(e, lookup) + ", debit = "@ + e.debit_expr@ + ", credit = "@ + e.credit_expr@ + " FROM "@ + e.table.sql_name_text() + " e "@ + account_join_text(e, lookup) + " WHERE 1=1 "@ + account_filter_text(account_no_text(e), prefix) + "),
aggregated AS (SELECT account_no, MAX(account_label) AS account_label, SUM(CASE WHEN "@ + opening_text(e, p) + " THEN debit ELSE CAST(0 AS DECIMAL(38,6)) END) AS open_debit_raw, SUM(CASE WHEN "@ + opening_text(e, p) + " THEN credit ELSE CAST(0 AS DECIMAL(38,6)) END) AS open_credit_raw, SUM(CASE WHEN "@ + movement_text("account_no"@, "parsed_date"@, "journal"@, e.journal_col is Some, p)) + stream_balance_sums_each_side_piece24() + (movement_text("account_no"@, "parsed_date"@, "journal"@, e.journal_col is Some, p)) + stream_balance_sums_each_side_piece26());
    }
    lemma_occurs_around(t, "WITH base AS (SELECT parsed_date = "@ + parsed_date_text(e) + ", journal = "@ + optional_text_column(e.journal_col, 64) + ", account_no = "@ + account_no_text(e) + ", account_label = "@ + account_label_text(e, lookup) + ", debit = "@ + e.debit_expr@ + ", credit = "@ + e.credit_expr@ + " FROM "@ + e.table.sql_name_text() + " e "@ + account_join_text(e, lookup) + " WHERE 1=1 "@ + account_filter_text(account_no_text(e), prefix) + "),
aggregated AS (SELECT account_no, MAX(account_label) AS account_label, SUM(CASE WHEN "@ + opening_text(e, p) + " THEN debit ELSE CAST(0 AS DECIMAL(38,6)) END) AS open_debit_raw, SUM(CASE WHEN "@ + opening_text(e, p) + " THEN credit ELSE CAST(0 AS DECIMAL(38,6)) END) AS open_credit_raw, SUM(CASE WHEN "@ + movement_text("account_no"@, "parsed_date"@, "journal"@, e.journal_col is Some, p), stream_balance_sums_each_side_piece24(), movement_text("account_no"@, "parsed_date"@, "journal"@, e.journal_col is Some, p), stream_balance_sums_each_side_piece26(), "SUM(CASE WHEN "@, " THEN credit ELSE CAST(0 AS DECIMAL(38,6)) END) AS mvt_credit"@);
    assert("SUM(CASE WHEN "@ + (movement_text("account_no"@, "parsed_date"@, "journal"@, e.journal_col is Some, p)) + " THEN credit ELSE CAST(0 AS DECIMAL(38,6)) END) AS mvt_credit"@ =~= "SUM(CASE WHEN "@ + movement_text("account_no"@, "parsed_date"@, "journal"@, e.journal_col is Some, p) + " THEN credit ELSE CAST(0 AS DECIMAL(38,6)) END) AS mvt_credit"@);
}

pub open spec fn auxiliary_stream_keeps_the_requested_kind_piece28() -> Seq<char> {
    " WHERE "@
}

pub open spec fn auxiliary_stream_keeps_the_requested_kind_piece34() -> Seq<char> {
    " AND "@
}

pub open spec fn auxiliary_stream_keeps_the_requested_kind_piece36() -> Seq<char> {
    " AND "@
}

proof fn lemma_auxiliary_stream_keeps_the_requested_kind_literals()
    ensures
        ends_with(auxiliary_stream_keeps_the_requested_kind_piece28(), "WHERE "@),
        begins_with(auxiliary_stream_keeps_the_requested_kind_piece34(), ""@),
        ends_with(auxiliary_stream_keeps_the_requested_kind_piece34(), "AND "@),
        begins_with(auxiliary_stream_keeps_the_requested_kind_piece36(), ""@),
{
    reveal_strlit(" AND ");
    reveal_strlit(" WHERE ");
    reveal_strlit("");
    reveal_strlit("AND ");
    reveal_strlit("WHERE ");
    assert(auxiliary_stream_keeps_the_requested_kind_piece28().subrange(auxiliary_stream_keeps_the_requested_kind_piece28().len() - "WHERE "@.len(), auxiliary_stream_keeps_the_requested_kind_piece28().len() as int) =~= "WHERE "@);
    assert(auxiliary_stream_keeps_the_requested_kind_piece34().subrange(0, ""@.len() as int) =~= ""@);
    assert(auxiliary_stream_keeps_the_requested_kind_piece34().subrange(auxiliary_stream_keeps_the_requested_kind_piece34().len() - "AND "@.len(), auxiliary_stream_keeps_the_requested_kind_piece34().len() as int) =~= "AND "@);
    assert(auxiliary_stream_keeps_the_requested_kind_piece36().subrange(0, ""@.len() as int) =~= ""@);
}

/// The streamed auxiliary ledger reads the entries dated in the requested
/// range and requires the third-party filter of the requested kind.
#[verifier::rlimit(100)]
#[verifier::spinoff_prover]
pub proof fn lemma_auxiliary_stream_keeps_the_requested_kind(e: EntryContext, tiers_code_col: Seq<char>, account_lookup: Option<LookupContext>, tiers_lookup: Option<LookupContext>, kind: TiersKind, date_from: Seq<char>, date_to: Seq<char>, prefix: Option<Seq<char>>)
    ensures
        occurs_in(
            auxiliary_stream_base_text(e, tiers_code_col, account_lookup, tiers_lookup, kind, date_from, date_to, prefix),
            "WHERE "@ + parsed_date_text(e) + " BETWEEN "@ + sql_literal_seq(date_from) + " AND "@ + sql_literal_seq(date_to),
        ),
        occurs_in(
            auxiliary_stream_base_text(e, tiers_code_col, account_lookup, tiers_lookup, kind, date_from, date_to, prefix),
            "AND "@ + kind_filter_text(account_no_text(e), tiers_lookup, kind),
        ),
{
    reveal_strlit("");
    let t = auxiliary_stream_base_text(e, tiers_code_col, account_lookup, tiers_lookup, kind, date_from, date_to, prefix);
    lemma_auxiliary_stream_keeps_the_requested_kind_literals();
    assert(t.subrange(0, (("WITH base AS (SELECT parsed_date = "@ + parsed_date_text(e) + ", account_no = "@ + account_no_text(e) + ", account_label = "@ + account_label_text(e, account_lookup) + ", tiers_code = "@ + tiers_code_text(tiers_code_col) + ", tiers_name = "@ + tiers_name_text(tiers_lookup) + ", journal = "@ + optional_text_column(e.journal_col, 64) + ", description = "@ + optional_text_column(e.description_col, 255) + ", ref_piece = "@ + optional_text_column(e.ref_piece_col, 128) + ", lettrage = "@ + optional_text_column(e.lettrage_col, 64) + ", debit = "@ + e.debit_expr@ + ", credit = "@ + e.credit_expr@ + " FROM "@ + e.table.sql_name_text() + " e "@ + account_join_text(e, account_lookup) + " "@ + tiers_join_text(tiers_code_col, tiers_lookup)) + auxiliary_stream_keeps_the_requested_kind_piece28() + (parsed_date_text(e) + " BETWEEN "@ + sql_literal_seq(date_from) + " AND "@ + sql_literal_seq(date_to)) + auxiliary_stream_keeps_the_requested_kind_piece34()).len() as int) == ("WITH base AS (SELECT parsed_date = "@ + parsed_date_text(e) + ", account_no = "@ + account_no_text(e) + ", account_label = "@ + account_label_text(e, account_lookup) + ", tiers_code = "@ + tiers_code_text(tiers_code_col) + ", tiers_name = "@ + tiers_name_text(tiers_lookup) + ", journal = "@ + optional_text_column(e.journal_col, 64) + ", description = "@ + optional_text_column(e.description_col, 255) + ", ref_piece = "@ + optional_text_column(e.ref_piece_col, 128) + ", lettrage = "@ + optional_text_column(e.lettrage_col, 64) + ", debit = "@ + e.debit_expr@ + ", credit = "@ + e.credit_expr@ + " FROM "@ + e.table.sql_name_text() + " e "@ + account_join_text(e, account_lookup) + " "@ + tiers_join_text(tiers_code_col, tiers_lookup)) + auxiliary_stream_keeps_the_requested_kind_piece28() + (parsed_date_text(e) + " BETWEEN "@ + sql_literal_seq(date_from) + " AND "@ + sql_literal_seq(date_to)) + auxiliary_stream_keeps_the_requested_kind_piece34()) by {
        assert(t.subrange(0, (("WITH base AS (SELECT parsed_date = "@ + parsed_date_text(e) + ", account_no = "@ + account_no_text(e) + ", account_label = "@ + account_label_text(e, account_lookup) + ", tiers_code = "@ + tiers_code_text(tiers_code_col) + ", tiers_name = "@ + tiers_name_text(tiers_lookup) + ", journal = "@ + optional_text_column(e.journal_col, 64) + ", description = "@ + optional_text_column(e.description_col, 255) + ", ref_piece = "@ + optional_text_column(e.ref_piece_col, 128) + ", lettrage = "@ + optional_text_column(e.lettrage_col, 64) + ", debit = "@ + e.debit_expr@ + ", credit = "@ + e.credit_expr@ + " FROM "@ + e.table.sql_name_text() + " e "@ + account_join_text(e, account_lookup) + " "@ + tiers_join_text(tiers_code_col, tiers_lookup)) + auxiliary_stream_keeps_the_requested_kind_piece28() + (parsed_date_text(e) + " BETWEEN "@ + sql_literal_seq(date_from) + " AND "@ + sql_literal_seq(date_to)) + auxiliary_stream_keeps_the_requested_kind_piece34()).len() as int) =~= ("WITH base AS (SELECT parsed_date = "@ + parsed_date_text(e) + ", account_no = "@ + account_no_text(e) + ", account_label = "@ + account_label_text(e, account_lookup) + ", tiers_code = "@ + tiers_code_text(tiers_code_col) + ", tiers_name = "@ + tiers_name_text(tiers_lookup) + ", journal = "@ + optional_text_column(e.journal_col, 64) + ", description = "@ + optional_text_column(e.description_col, 255) + ", ref_piece = "@ + optional_text_column(e.ref_piece_col, 128) + ", lettrage = "@ + optional_text_column(e.lettrage_col, 64) + ", debit = "@ + e.debit_expr@ + ", credit = "@ + e.credit_expr@ + " FROM "@ + e.table.sql_name_text() + " e "@ + account_join_text(e, account_lookup) + " "@ + tiers_join_text(tiers_code_col, tiers_lookup)) + auxiliary_stream_keeps_the_requested_kind_piece28() + (parsed_date_text(e) + " BETWEEN "@ + sql_literal_seq(date_from) + " AND "@ + sql_literal_seq(date_to)) + auxiliary_stream_keeps_the_requested_kind_piece34());
    }
    lemma_occurs_around(t, "WITH base AS (SELECT parsed_date = "@ + parsed_date_text(e) + ", account_no = "@ + account_no_text(e) + ", account_label = "@ + account_label_text(e, account_lookup) + ", tiers_code = "@ + tiers_code_text(tiers_code_col) + ", tiers_name = "@ + tiers_name_text(tiers_lookup) + ", journal = "@ + optional_text_column(e.journal_col, 64) + ", description = "@ + optional_text_column(e.description_col, 255) + ", ref_piece = "@ + optional_text_column(e.ref_piece_col, 128) + ", lettrage = "@ + optional_text_column(e.lettrage_col, 64) + ", debit = "@ + e.debit_expr@ + ", credit = "@ + e.credit_expr@ + " FROM "@ + e.table.sql_name_text() + " e "@ + account_join_text(e, account_lookup) + " "@ + tiers_join_text(tiers_code_col, tiers_lookup), auxiliary_stream_keeps_the_requested_kind_piece28(), parsed_date_text(e) + " BETWEEN "@ + sql_literal_seq(date_from) + " AND "@ + sql_literal_seq(date_to), auxiliary_stream_keeps_the_requested_kind_piece34(), "WHERE "@, ""@);
    assert("WHERE "@ + (parsed_date_text(e) + " BETWEEN "@ + sql_literal_seq(date_from) + " AND "@ + sql_literal_seq(date_to)) + ""@ =~= "WHERE "@ + parsed_date_text(e) + " BETWEEN "@ + sql_literal_seq(date_from) + " AND "@ + sql_literal_seq(date_to));
    assert(t.subrange(0, (("WITH base AS (SELECT parsed_date = "@ + parsed_date_text(e) + ", account_no = "@ + account_no_text(e) + ", account_label = "@ + account_label_text(e, account_lookup) + ", tiers_code = "@ + tiers_code_text(tiers_code_col) + ", tiers_name = "@ + tiers_name_text(tiers_lookup) + ", journal = "@ + optional_text_column(e.journal_col, 64) + ", description = "@ + optional_text_column(e.description_col, 255) + ", ref_piece = "@ + optional_text_column(e.ref_piece_col, 128) + ", lettrage = "@ + optional_text_column(e.lettrage_col, 64) + ", debit = "@ + e.debit_expr@ + ", credit = "@ + e.credit_expr@ + " FROM "@ + e.table.sql_name_text() + " e "@ + account_join_text(e, account_lookup) + " "@ + tiers_join_text(tiers_code_col, tiers_lookup) + " WHERE "@ + parsed_date_text(e) + " BETWEEN "@ + sql_literal_seq(date_from) + " AND "@ + sql_literal_seq(date_to)) + auxiliary_stream_keeps_the_requested_kind_piece34() + (kind_filter_text(account_no_text(e), tiers_lookup, kind)) + auxiliary_stream_keeps_the_requested_kind_piece36()).len() as int) == ("WITH base AS (SELECT parsed_date = "@ + parsed_date_text(e) + ", account_no = "@ + account_no_text(e) + ", account_label = "@ + account_label_text(e, account_lookup) + ", tiers_code = "@ + tiers_code_text(tiers_code_col) + ", tiers_name = "@ + tiers_name_text(tiers_lookup) + ", journal = "@ + optional_text_column(e.journal_col, 64) + ", description = "@ + optional_text_column(e.description_col, 255) + ", ref_piece = "@ + optional_text_column(e.ref_piece_col, 128) + ", lettrage = "@ + optional_text_column(e.lettrage_col, 64) + ", debit = "@ + e.debit_expr@ + ", credit = "@ + e.credit_expr@ + " FROM "@ + e.table.sql_name_text() + " e "@ + account_join_text(e, account_lookup) + " "@ + tiers_join_text(tiers_code_col, tiers_lookup) + " WHERE "@ + parsed_date_text(e) + " BETWEEN "@ + sql_literal_seq(date_from) + " AND "@ + sql_literal_seq(date_to)) + auxiliary_stream_keeps_the_requested_kind_piece34() + (kind_filter_text(account_no_text(e), tiers_lookup, kind)) + auxiliary_stream_keeps_the_requested_kind_piece36()) by {
        assert(t.subrange(0, (("WITH base AS (SELECT parsed_date = "@ + parsed_date_text(e) + ", account_no = "@ + account_no_text(e) + ", account_label = "@ + account_label_text(e, account_lookup) + ", tiers_code = "@ + tiers_code_text(tiers_code_col) + ", tiers_name = "@ + tiers_name_text(tiers_lookup) + ", journal = "@ + optional_text_column(e.journal_col, 64) + ", description = "@ + optional_text_column(e.description_col, 255) + ", ref_piece = "@ + optional_text_column(e.ref_piece_col, 128) + ", lettrage = "@ + optional_text_column(e.lettrage_col, 64) + ", debit = "@ + e.debit_expr@ + ", credit = "@ + e.credit_expr@ + " FROM "@ + e.table.sql_name_text() + " e "@ + account_join_text(e, account_lookup) + " "@ + tiers_join_text(tiers_code_col, tiers_lookup) + " WHERE "@ + parsed_date_text(e) + " BETWEEN "@ + sql_literal_seq(date_from) + " AND "@ + sql_literal_seq(date_to)) + auxiliary_stream_keeps_the_requested_kind_piece34() + (kind_filter_text(account_no_text(e), tiers_lookup, kind)) + auxiliary_stream_keeps_the_requested_kind_piece36()).len() as int) =~= ("WITH base AS (SELECT parsed_date = "@ + parsed_date_text(e) + ", account_no = "@ + account_no_text(e) + ", account_label = "@ + account_label_text(e, account_lookup) + ", tiers_code = "@ + tiers_code_text(tiers_code_col) + ", tiers_name = "@ + tiers_name_text(tiers_lookup) + ", journal = "@ + optional_text_column(e.journal_col, 64) + ", description = "@ + optional_text_column(e.description_col, 255) + ", ref_piece = "@ + optional_text_column(e.ref_piece_col, 128) + ", lettrage = "@ + optional_text_column(e.lettrage_col, 64) + ", debit = "@ + e.debit_expr@ + ", credit = "@ + e.credit_expr@ + " FROM "@ + e.table.sql_name_text() + " e "@ + account_join_text(e, account_lookup) + " "@ + tiers_join_text(tiers_code_col, tiers_lookup) + " WHERE "@ + parsed_date_text(e) + " BETWEEN "@ + sql_literal_seq(date_from) + " AND "@ + sql_literal_seq(date_to)) + auxiliary_stream_keeps_the_requested_kind_piece34() + (kind_filter_text(account_no_text(e), tiers_lookup, kind)) + auxiliary_stream_keeps_the_requested_kind_piece36());
    }
    lemma_occurs_around(t, "WITH base AS (SELECT parsed_date = "@ + parsed_date_text(e) + ", account_no = "@ + account_no_text(e) + ", account_label = "@ + account_label_text(e, account_lookup) + ", tiers_code = "@ + tiers_code_text(tiers_code_col) + ", tiers_name = "@ + tiers_name_text(tiers_lookup) + ", journal = "@ + optional_text_column(e.journal_col, 64) + ", description = "@ + optional_text_column(e.description_col, 255) + ", ref_piece = "@ + optional_text_column(e.ref_piece_col, 128) + ", lettrage = "@ + optional_text_column(e.lettrage_col, 64) + ", debit = "@ + e.debit_expr@ + ", credit = "@ + e.credit_expr@ + " FROM "@ + e.table.sql_name_text() + " e "@ + account_join_text(e, account_lookup) + " "@ + tiers_join_text(tiers_code_col, tiers_lookup) + " WHERE "@ + parsed_date_text(e) + " BETWEEN "@ + sql_literal_seq(date_from) + " AND "@ + sql_literal_seq(date_to), auxiliary_stream_keeps_the_requested_kind_piece34(), kind_filter_text(account_no_text(e), tiers_lookup, kind), auxiliary_stream_keeps_the_requested_kind_piece36(), "AND "@, ""@);
    assert("AND "@ + (kind_filter_text(account_no_text(e), tiers_lookup, kind)) + ""@ =~= "AND "@ + kind_filter_text(account_no_text(e), tiers_lookup, kind));
}

/// The streamed auxiliary ledger of a kind keeps only that kind's accounts:
/// 41x for customers, 40x for suppliers.
pub proof fn lemma_auxiliary_stream_keeps_the_kind_accounts(
    e: EntryContext,
    tiers_code_col: Seq<char>,
    account_lookup: Option<LookupContext>,
    tiers_lookup: Option<LookupContext>,
    kind: TiersKind,
    date_from: Seq<char>,
    date_to: Seq<char>,
    prefix: Option<Seq<char>>,
)
    ensures
        kind == TiersKind::Customers ==> occurs_in(
            auxiliary_stream_base_text(e, tiers_code_col, account_lookup, tiers_lookup, kind, date_from, date_to, prefix),
            customer_accounts(account_no_text(e)),
        ),
        kind == TiersKind::Suppliers ==> occurs_in(
            auxiliary_stream_base_text(e, tiers_code_col, account_lookup, tiers_lookup, kind, date_from, date_to, prefix),
            supplier_accounts(account_no_text(e)),
        ),
{
    lemma_auxiliary_stream_keeps_the_requested_kind(e, tiers_code_col, account_lookup, tiers_lookup, kind, date_from, date_to, prefix);
    lemma_kind_clause_keeps_its_accounts(
        auxiliary_stream_base_text(e, tiers_code_col, account_lookup, tiers_lookup, kind, date_from, date_to, prefix),
        account_no_text(e),
        tiers_lookup,
        kind,
    );
}

pub open spec fn sage1000_balance_movement_debit_piece8() -> Seq<char> {
    ",
                mvt_debit = "@
}

pub open spec fn sage1000_balance_movement_debit_piece10() -> Seq<char> {
    ",
                mvt_credit = "@
}

proof fn lemma_sage1000_balance_movement_debit_literals()
    ensures
        ends_with(sage1000_balance_movement_debit_piece8(), "mvt_debit = "@),
        begins_with(sage1000_balance_movement_debit_piece10(), ""@),
{
    reveal_strlit("");
    reveal_strlit(",
                mvt_credit = ");
    reveal_strlit(",
                mvt_debit = ");
    reveal_strlit("mvt_debit = ");
    assert(sage1000_balance_movement_debit_piece8().subrange(sage1000_balance_movement_debit_piece8().len() - "mvt_debit = "@.len(), sage1000_balance_movement_debit_piece8().len() as int) =~= "mvt_debit = "@);
    assert(sage1000_balance_movement_debit_piece10().subrange(0, ""@.len() as int) =~= ""@);
}

/// The Sage 1000 trial balance takes its movement debit from the sum of the
/// entries' debits.
#[verifier::rlimit(100)]
#[verifier::spinoff_prover]
pub proof fn lemma_sage1000_balance_movement_debit(c: Sage1000Context, p: BalancePeriod, prefix: Option<Seq<char>>)
    ensures
        occurs_in(
            sage1000_balance_query_text(c, p, prefix),
            "mvt_debit = "@ + sage1000_movement_sum_text(c, p, "debit"@),
        ),
{
    reveal_strlit("");
    let t = sage1000_balance_query_text(c, p, prefix);
    lemma_sage1000_balance_movement_debit_literals();
    assert(t.subrange(0, (("
        WITH account_base AS (
            SELECT
                account_pk = "@ + qualified("cg"@, "oid"@) + ",
                account_no = "@ + sage1000_account_no_text() + ",
                account_label = "@ + text_or_empty_text(qualified("cg"@, "Caption"@), 255) + ",
                opening_net = "@ + sage1000_opening_net_text(p)) + sage1000_balance_movement_debit_piece8() + (sage1000_movement_sum_text(c, p, "debit"@)) + sage1000_balance_movement_debit_piece10()).len() as int) == ("
        WITH account_base AS (
            SELECT
                account_pk = "@ + qualified("cg"@, "oid"@) + ",
                account_no = "@ + sage1000_account_no_text() + ",
                account_label = "@ + text_or_empty_text(qualified("cg"@, "Caption"@), 255) + ",
                opening_net = "@ + sage1000_opening_net_text(p)) + sage1000_balance_movement_debit_piece8() + (sage1000_movement_sum_text(c, p, "debit"@)) + sage1000_balance_movement_debit_piece10()) by {
        assert(t.subrange(0, (("
        WITH account_base AS (
            SELECT
                account_pk = "@ + qualified("cg"@, "oid"@) + ",
                account_no = "@ + sage1000_account_no_text() + ",
                account_label = "@ + text_or_empty_text(qualified("cg"@, "Caption"@), 255) + ",
                opening_net = "@ + sage1000_opening_net_text(p)) + sage1000_balance_movement_debit_piece8() + (sage1000_movement_sum_text(c, p, "debit"@)) + sage1000_balance_movement_debit_piece10()).len() as int) =~= ("
        WITH account_base AS (
            SELECT
                account_pk = "@ + qualified("cg"@, "oid"@) + ",
                account_no = "@ + sage1000_account_no_text() + ",
                account_label = "@ + text_or_empty_text(qualified("cg"@, "Caption"@), 255) + ",
                opening_net = "@ + sage1000_opening_net_text(p)) + sage1000_balance_movement_debit_piece8() + (sage1000_movement_sum_text(c, p, "debit"@)) + sage1000_balance_movement_debit_piece10());
    }
    lemma_occurs_around(t, "
        WITH account_base AS (
            SELECT
                account_pk = "@ + qualified("cg"@, "oid"@) + ",
                account_no = "@ + sage1000_account_no_text() + ",
                account_label = "@ + text_or_empty_text(qualified("cg"@, "Caption"@), 255) + ",
                opening_net = "@ + sage1000_opening_net_text(p), sage1000_balance_movement_debit_piece8(), sage1000_movement_sum_text(c, p, "debit"@), sage1000_balance_movement_debit_piece10(), "mvt_debit = "@, ""@);
    assert("mvt_debit = "@ + (sage1000_movement_sum_text(c, p, "debit"@)) + ""@ =~= "mvt_debit = "@ + sage1000_movement_sum_text(c, p, "debit"@));
}

pub open spec fn sage1000_balance_movement_credit_piece10() -> Seq<char> {
    ",
                mvt_credit = "@
}

pub open spec fn sage1000_balance_movement_credit_piece12() -> Seq<char> {
    ",
                movement_net = "@
}

proof fn lemma_sage1000_balance_movement_credit_literals()
    ensures
        ends_with(sage1000_balance_movement_credit_piece10(), "mvt_credit = "@),
        begins_with(sage1000_balance_movement_credit_piece12(), ""@),
{
    reveal_strlit("");
    reveal_strlit(",
                movement_net = ");
    reveal_strlit(",
                mvt_credit = ");
    reveal_strlit("mvt_credit = ");
    assert(sage1000_balance_movement_credit_piece10().subrange(sage1000_balance_movement_credit_piece10().len() - "mvt_credit = "@.len(), sage1000_balance_movement_credit_piece10().len() as int) =~= "mvt_credit = "@);
    assert(sage1000_balance_movement_credit_piece12().subrange(0, ""@.len() as int) =~= ""@);
}

/// The Sage 1000 trial balance takes its movement credit from the sum of the
/// entries' credits.
#[verifier::rlimit(100)]
#[verifier::spinoff_prover]
pub proof fn lemma_sage1000_balance_movement_credit(c: Sage1000Context, p: BalancePeriod, prefix: Option<Seq<char>>)
    ensures
        occurs_in(
            sage1000_balance_query_text(c, p, prefix),
            "mvt_credit = "@ + sage1000_movement_sum_text(c, p, "credit"@),
        ),
{
    reveal_strlit("");
    let t = sage1000_balance_query_text(c, p, prefix);
    lemma_sage1000_balance_movement_credit_literals();
    assert(t.subrange(0, (("
        WITH account_base AS (
            SELECT
                account_pk = "@ + qualified("cg"@, "oid"@) + ",
                account_no = "@ + sage1000_account_no_text() + ",
                account_label = "@ + text_or_empty_text(qualified("cg"@, "Caption"@), 255) + ",
                opening_net = "@ + sage1000_opening_net_text(p) + ",
                mvt_debit = "@ + sage1000_movement_sum_text(c, p, "debit"@)) + sage1000_balance_movement_credit_piece10() + (sage1000_movement_sum_text(c, p, "credit"@)) + sage1000_balance_movement_credit_piece12()).len() as int) == ("
        WITH account_base AS (
            SELECT
                account_pk = "@ + qualified("cg"@, "oid"@) + ",
                account_no = "@ + sage1000_account_no_text() + ",
                account_label = "@ + text_or_empty_text(qualified("cg"@, "Caption"@), 255) + ",
                opening_net = "@ + sage1000_opening_net_text(p) + ",
                mvt_debit = "@ + sage1000_movement_sum_text(c, p, "debit"@)) + sage1000_balance_movement_credit_piece10() + (sage1000_movement_sum_text(c, p, "credit"@)) + sage1000_balance_movement_credit_piece12()) by {
        assert(t.subrange(0, (("
        WITH account_base AS (
            SELECT
                account_pk = "@ + qualified("cg"@, "oid"@) + ",
                account_no = "@ + sage1000_account_no_text() + ",
                account_label = "@ + text_or_empty_text(qualified("cg"@, "Caption"@), 255) + ",
                opening_net = "@ + sage1000_opening_net_text(p) + ",
                mvt_debit = "@ + sage1000_movement_sum_text(c, p, "debit"@)) + sage1000_balance_movement_credit_piece10() + (sage1000_movement_sum_text(c, p, "credit"@)) + sage1000_balance_movement_credit_piece12()).len() as int) =~= ("
        WITH account_base AS (
            SELECT
                account_pk = "@ + qualified("cg"@, "oid"@) + ",
                account_no = "@ + sage1000_account_no_text() + ",
                account_label = "@ + text_or_empty_text(qualified("cg"@, "Caption"@), 255) + ",
                opening_net = "@ + sage1000_opening_net_text(p) + ",
                mvt_debit = "@ + sage1000_movement_sum_text(c, p, "debit"@)) + sage1000_balance_movement_credit_piece10() + (sage1000_movement_sum_text(c, p, "credit"@)) + sage1000_balance_movement_credit_piece12());
    }
    lemma_occurs_around(t, "
        WITH account_base AS (
            SELECT
                account_pk = "@ + qualified("cg"@, "oid"@) + ",
                account_no = "@ + sage1000_account_no_text() + ",
                account_label = "@ + text_or_empty_text(qualified("cg"@, "Caption"@), 255) + ",
                opening_net = "@ + sage1000_opening_net_text(p) + ",
                mvt_debit = "@ + sage1000_movement_sum_text(c, p, "debit"@), sage1000_balance_movement_credit_piece10(), sage1000_movement_sum_text(c, p, "credit"@), sage1000_balance_movement_credit_piece12(), "mvt_credit = "@, ""@);
    assert("mvt_credit = "@ + (sage1000_movement_sum_text(c, p, "credit"@)) + ""@ =~= "mvt_credit = "@ + sage1000_movement_sum_text(c, p, "credit"@));
}

pub open spec fn grand_livre_running_balance_piece28() -> Seq<char> {
    "
        ),
        ranked AS (
            SELECT
                CONVERT(char(10), parsed_date, 103) AS [date],
                journal,
                account_no,
                account_label,
                ref_piece,
                lettrage,
                debit,
                credit,
                SUM(debit - credit) OVER (
                    PARTITION BY account_no
                    ORDER BY parsed_date, journal, ref_piece, lettrage, account_label
                    ROWS UNBOUNDED PRECEDING
                ) AS solde_cumule,
                ROW_NUMBER() OVER (
                    PARTITION BY account_no
                    ORDER BY parsed_date, journal, ref_piece, lettrage, account_label
                ) AS sort_row
            FROM base
            WHERE parsed_date IS NOT NULL
              AND account_no <> ''
        ),
        subtotal AS (
            SELECT
                CAST(NULL AS NVARCHAR(10)) AS [date],
                CAST(NULL AS NVARCHAR(64)) AS journal,
                account_no,
                MAX(account_label) AS account_label,
                CAST(NULL AS NVARCHAR(128)) AS ref_piece,
                CAST(NULL AS NVARCHAR(64)) AS lettrage,
                CAST(0 AS DECIMAL(38, 6)) AS debit,
                CAST(0 AS DECIMAL(38, 6)) AS credit,
                SUM(debit - credit) AS solde_cumule,
                CAST(1 AS BIT) AS is_subtotal_row,
                SUM(debit) AS total_debit,
                SUM(credit) AS total_credit,
                SUM(debit - credit) AS solde,
                2147483647 AS sort_row
            FROM base
            WHERE parsed_date IS NOT NULL
              AND account_no <> ''
            GROUP BY account_no
        )
        SELECT
            [date],
            journal,
            account_no,
            account_label,
            ref_piece,
            lettrage,
            debit,
            credit,
            solde_cumule,
            is_subtotal_row,
            total_debit,
            total_credit,
            solde
        FROM (
            SELECT
                [date],
                journal,
                account_no,
                account_label,
                ref_piece,
                lettrage,
                debit,
                credit,
                solde_cumule,
                CAST(0 AS BIT) AS is_subtotal_row,
                CAST(NULL AS DECIMAL(38, 6)) AS total_debit,
                CAST(NULL AS DECIMAL(38, 6)) AS total_credit,
                CAST(NULL AS DECIMAL(38, 6)) AS solde,
                sort_row
            FROM ranked
            UNION ALL
            SELECT
                [date],
                journal,
                account_no,
                account_label,
                ref_piece,
                lettrage,
                debit,
                credit,
                solde_cumule,
                is_subtotal_row,
                total_debit,
                total_credit,
                solde,
                sort_row
            FROM subtotal
        ) ledger
        ORDER BY account_no, sort_row
        "@
}

proof fn lemma_grand_livre_running_balance_literals()
    ensures
        occurs_at(grand_livre_running_balance_piece28(), "SUM(debit - credit) OVER (
                    PARTITION BY account_no
                    ORDER BY parsed_date"@, 314),
        occurs_at(grand_livre_running_balance_piece28(), "SUM(debit) AS total_debit,
                SUM(credit) AS total_credit,
                SUM(debit - credit) AS solde"@, 1427),
        occurs_at(grand_livre_running_balance_piece28(), "ORDER BY account_no, sort_row"@, 3060),
{
    reveal_strlit("
        ),
        ranked AS (
            SELECT
                CONVERT(char(10), parsed_date, 103) AS [date],
                journal,
                account_no,
                account_label,
                ref_piece,
                lettrage,
                debit,
                credit,
                SUM(debit - credit) OVER (
                    PARTITION BY account_no
                    ORDER BY parsed_date, journal, ref_piece, lettrage, account_label
                    ROWS UNBOUNDED PRECEDING
                ) AS solde_cumule,
                ROW_NUMBER() OVER (
                    PARTITION BY account_no
                    ORDER BY parsed_date, journal, ref_piece, lettrage, account_label
                ) AS sort_row
            FROM base
            WHERE parsed_date IS NOT NULL
              AND account_no <> ''
        ),
        subtotal AS (
            SELECT
                CAST(NULL AS NVARCHAR(10)) AS [date],
                CAST(NULL AS NVARCHAR(64)) AS journal,
                account_no,
                MAX(account_label) AS account_label,
                CAST(NULL AS NVARCHAR(128)) AS ref_piece,
                CAST(NULL AS NVARCHAR(64)) AS lettrage,
                CAST(0 AS DECIMAL(38, 6)) AS debit,
                CAST(0 AS DECIMAL(38, 6)) AS credit,
                SUM(debit - credit) AS solde_cumule,
                CAST(1 AS BIT) AS is_subtotal_row,
                SUM(debit) AS total_debit,
                SUM(credit) AS total_credit,
                SUM(debit - credit) AS solde,
                2147483647 AS sort_row
            FROM base
            WHERE parsed_date IS NOT NULL
              AND account_no <> ''
            GROUP BY account_no
        )
        SELECT
            [date],
            journal,
            account_no,
            account_label,
            ref_piece,
            lettrage,
            debit,
            credit,
            solde_cumule,
            is_subtotal_row,
            total_debit,
            total_credit,
            solde
        FROM (
            SELECT
                [date],
                journal,
                account_no,
                account_label,
                ref_piece,
                lettrage,
                debit,
                credit,
                solde_cumule,
                CAST(0 AS BIT) AS is_subtotal_row,
                CAST(NULL AS DECIMAL(38, 6)) AS total_debit,
                CAST(NULL AS DECIMAL(38, 6)) AS total_credit,
                CAST(NULL AS DECIMAL(38, 6)) AS solde,
                sort_row
            FROM ranked
            UNION ALL
            SELECT
                [date],
                journal,
                account_no,
                account_label,
                ref_piece,
                lettrage,
                debit,
                credit,
                solde_cumule,
                is_subtotal_row,
                total_debit,
                total_credit,
                solde,
                sort_row
            FROM subtotal
        ) ledger
        ORDER BY account_no, sort_row
        ");
    reveal_strlit("ORDER BY account_no, sort_row");
    reveal_strlit("SUM(debit - credit) OVER (
                    PARTITION BY account_no
                    ORDER BY parsed_date");
    reveal_strlit("SUM(debit) AS total_debit,
                SUM(credit) AS total_credit,
                SUM(debit - credit) AS solde");
    assert(grand_livre_running_balance_piece28().subrange(314, (314 + "SUM(debit - credit) OVER (
                    PARTITION BY account_no
                    ORDER BY parsed_date"@.len()) as int) =~= "SUM(debit - credit) OVER (
                    PARTITION BY account_no
                    ORDER BY parsed_date"@);
    assert(grand_livre_running_balance_piece28().subrange(1427, (1427 + "SUM(debit) AS total_debit,
                SUM(credit) AS total_credit,
                SUM(debit - credit) AS solde"@.len()) as int) =~= "SUM(debit) AS total_debit,
                SUM(credit) AS total_credit,
                SUM(debit - credit) AS solde"@);
    assert(grand_livre_running_balance_piece28().subrange(3060, (3060 + "ORDER BY account_no, sort_row"@.len()) as int) =~= "ORDER BY account_no, sort_row"@);
}

/// The General Ledger runs each account's balance as debit less credit over
/// its entries in date order, closes each account with its debit, credit and
/// balance totals, and lists the accounts in order with each subtotal after
/// its entries.
#[verifier::rlimit(100)]
#[verifier::spinoff_prover]
pub proof fn lemma_grand_livre_running_balance(e: EntryContext, lookup: Option<LookupContext>, date_from: Seq<char>, date_to: Seq<char>, prefix: Option<Seq<char>>)
    ensures
        occurs_in(grand_livre_query_text(e, lookup, date_from, date_to, prefix), "SUM(debit - credit) OVER (
                    PARTITION BY account_no
                    ORDER BY parsed_date"@),
        occurs_in(grand_livre_query_text(e, lookup, date_from, date_to, prefix), "SUM(debit) AS total_debit,
                SUM(credit) AS total_credit,
                SUM(debit - credit) AS solde"@),
        occurs_in(grand_livre_query_text(e, lookup, date_from, date_to, prefix), "ORDER BY account_no, sort_row"@),
{
    let t = grand_livre_query_text(e, lookup, date_from, date_to, prefix);
    lemma_grand_livre_running_balance_literals();
    assert(t.subrange(0, (("
        WITH base AS (
            SELECT
                parsed_date = "@ + parsed_date_text(e) + ",
                journal = "@ + optional_text_column(e.journal_col, 64) + ",
                account_no = "@ + account_no_text(e) + ",
                account_label = "@ + account_label_text(e, lookup) + ",
                ref_piece = "@ + optional_text_column(e.ref_piece_col, 128) + ",
                lettrage = "@ + optional_text_column(e.lettrage_col, 64) + ",
                debit = "@ + e.debit_expr@ + ",
                credit = "@ + e.credit_expr@ + "
            FROM "@ + e.table.sql_name_text() + " e
            "@ + account_join_text(e, lookup) + "
            WHERE "@ + parsed_date_text(e) + " BETWEEN "@ + sql_literal_seq(date_from) + " AND "@ + sql_literal_seq(date_to) + "
              "@ + account_filter_text(account_no_text(e), prefix)) + grand_livre_running_balance_piece28()).len() as int) == ("
        WITH base AS (
            SELECT
                parsed_date = "@ + parsed_date_text(e) + ",
                journal = "@ + optional_text_column(e.journal_col, 64) + ",
                account_no = "@ + account_no_text(e) + ",
                account_label = "@ + account_label_text(e, lookup) + ",
                ref_piece = "@ + optional_text_column(e.ref_piece_col, 128) + ",
                lettrage = "@ + optional_text_column(e.lettrage_col, 64) + ",
                debit = "@ + e.debit_expr@ + ",
                credit = "@ + e.credit_expr@ + "
            FROM "@ + e.table.sql_name_text() + " e
            "@ + account_join_text(e, lookup) + "
            WHERE "@ + parsed_date_text(e) + " BETWEEN "@ + sql_literal_seq(date_from) + " AND "@ + sql_literal_seq(date_to) + "
              "@ + account_filter_text(account_no_text(e), prefix)) + grand_livre_running_balance_piece28()) by {
        assert(t.subrange(0, (("
        WITH base AS (
            SELECT
                parsed_date = "@ + parsed_date_text(e) + ",
                journal = "@ + optional_text_column(e.journal_col, 64) + ",
                account_no = "@ + account_no_text(e) + ",
                account_label = "@ + account_label_text(e, lookup) + ",
                ref_piece = "@ + optional_text_column(e.ref_piece_col, 128) + ",
                lettrage = "@ + optional_text_column(e.lettrage_col, 64) + ",
                debit = "@ + e.debit_expr@ + ",
                credit = "@ + e.credit_expr@ + "
            FROM "@ + e.table.sql_name_text() + " e
            "@ + account_join_text(e, lookup) + "
            WHERE "@ + parsed_date_text(e) + " BETWEEN "@ + sql_literal_seq(date_from) + " AND "@ + sql_literal_seq(date_to) + "
              "@ + account_filter_text(account_no_text(e), prefix)) + grand_livre_running_balance_piece28()).len() as int) =~= ("
        WITH base AS (
            SELECT
                parsed_date = "@ + parsed_date_text(e) + ",
                journal = "@ + optional_text_column(e.journal_col, 64) + ",
                account_no = "@ + account_no_text(e) + ",
                account_label = "@ + account_label_text(e, lookup) + ",
                ref_piece = "@ + optional_text_column(e.ref_piece_col, 128) + ",
                lettrage = "@ + optional_text_column(e.lettrage_col, 64) + ",
                debit = "@ + e.debit_expr@ + ",
                credit = "@ + e.credit_expr@ + "
            FROM "@ + e.table.sql_name_text() + " e
            "@ + account_join_text(e, lookup) + "
            WHERE "@ + parsed_date_text(e) + " BETWEEN "@ + sql_literal_seq(date_from) + " AND "@ + sql_literal_seq(date_to) + "
              "@ + account_filter_text(account_no_text(e), prefix)) + grand_livre_running_balance_piece28());
    }
    assert(("
        WITH base AS (
            SELECT
                parsed_date = "@ + parsed_date_text(e) + ",
                journal = "@ + optional_text_column(e.journal_col, 64) + ",
                account_no = "@ + account_no_text(e) + ",
                account_label = "@ + account_label_text(e, lookup) + ",
                ref_piece = "@ + optional_text_column(e.ref_piece_col, 128) + ",
                lettrage = "@ + optional_text_column(e.lettrage_col, 64) + ",
                debit = "@ + e.debit_expr@ + ",
                credit = "@ + e.credit_expr@ + "
            FROM "@ + e.table.sql_name_text() + " e
            "@ + account_join_text(e, lookup) + "
            WHERE "@ + parsed_date_text(e) + " BETWEEN "@ + sql_literal_seq(date_from) + " AND "@ + sql_literal_seq(date_to) + "
              "@ + account_filter_text(account_no_text(e), prefix)) + grand_livre_running_balance_piece28() =~= ("
        WITH base AS (
            SELECT
                parsed_date = "@ + parsed_date_text(e) + ",
                journal = "@ + optional_text_column(e.journal_col, 64) + ",
                account_no = "@ + account_no_text(e) + ",
                account_label = "@ + account_label_text(e, lookup) + ",
                ref_piece = "@ + optional_text_column(e.ref_piece_col, 128) + ",
                lettrage = "@ + optional_text_column(e.lettrage_col, 64) + ",
                debit = "@ + e.debit_expr@ + ",
                credit = "@ + e.credit_expr@ + "
            FROM "@ + e.table.sql_name_text() + " e
            "@ + account_join_text(e, lookup) + "
            WHERE "@ + parsed_date_text(e) + " BETWEEN "@ + sql_literal_seq(date_from) + " AND "@ + sql_literal_seq(date_to) + "
              "@ + account_filter_text(account_no_text(e), prefix)) + grand_livre_running_balance_piece28() + seq![]);
    lemma_occurs_between(("
        WITH base AS (
            SELECT
                parsed_date = "@ + parsed_date_text(e) + ",
                journal = "@ + optional_text_column(e.journal_col, 64) + ",
                account_no = "@ + account_no_text(e) + ",
                account_label = "@ + account_label_text(e, lookup) + ",
                ref_piece = "@ + optional_text_column(e.ref_piece_col, 128) + ",
                lettrage = "@ + optional_text_column(e.lettrage_col, 64) + ",
                debit = "@ + e.debit_expr@ + ",
                credit = "@ + e.credit_expr@ + "
            FROM "@ + e.table.sql_name_text() + " e
            "@ + account_join_text(e, lookup) + "
            WHERE "@ + parsed_date_text(e) + " BETWEEN "@ + sql_literal_seq(date_from) + " AND "@ + sql_literal_seq(date_to) + "
              "@ + account_filter_text(account_no_text(e), prefix)) + grand_livre_running_balance_piece28(), "
        WITH base AS (
            SELECT
                parsed_date = "@ + parsed_date_text(e) + ",
                journal = "@ + optional_text_column(e.journal_col, 64) + ",
                account_no = "@ + account_no_text(e) + ",
                account_label = "@ + account_label_text(e, lookup) + ",
                ref_piece = "@ + optional_text_column(e.ref_piece_col, 128) + ",
                lettrage = "@ + optional_text_column(e.lettrage_col, 64) + ",
                debit = "@ + e.debit_expr@ + ",
                credit = "@ + e.credit_expr@ + "
            FROM "@ + e.table.sql_name_text() + " e
            "@ + account_join_text(e, lookup) + "
            WHERE "@ + parsed_date_text(e) + " BETWEEN "@ + sql_literal_seq(date_from) + " AND "@ + sql_literal_seq(date_to) + "
              "@ + account_filter_text(account_no_text(e), prefix), grand_livre_running_balance_piece28(), seq![]);
    lemma_occurs_within(("
        WITH base AS (
            SELECT
                parsed_date = "@ + parsed_date_text(e) + ",
                journal = "@ + optional_text_column(e.journal_col, 64) + ",
                account_no = "@ + account_no_text(e) + ",
                account_label = "@ + account_label_text(e, lookup) + ",
                ref_piece = "@ + optional_text_column(e.ref_piece_col, 128) + ",
                lettrage = "@ + optional_text_column(e.lettrage_col, 64) + ",
                debit = "@ + e.debit_expr@ + ",
                credit = "@ + e.credit_expr@ + "
            FROM "@ + e.table.sql_name_text() + " e
            "@ + account_join_text(e, lookup) + "
            WHERE "@ + parsed_date_text(e) + " BETWEEN "@ + sql_literal_seq(date_from) + " AND "@ + sql_literal_seq(date_to) + "
              "@ + account_filter_text(account_no_text(e), prefix)) + grand_livre_running_balance_piece28(), grand_livre_running_balance_piece28(), "SUM(debit - credit) OVER (
                    PARTITION BY account_no
                    ORDER BY parsed_date"@, ("
        WITH base AS (
            SELECT
                parsed_date = "@ + parsed_date_text(e) + ",
                journal = "@ + optional_text_column(e.journal_col, 64) + ",
                account_no = "@ + account_no_text(e) + ",
                account_label = "@ + account_label_text(e, lookup) + ",
                ref_piece = "@ + optional_text_column(e.ref_piece_col, 128) + ",
                lettrage = "@ + optional_text_column(e.lettrage_col, 64) + ",
                debit = "@ + e.debit_expr@ + ",
                credit = "@ + e.credit_expr@ + "
            FROM "@ + e.table.sql_name_text() + " e
            "@ + account_join_text(e, lookup) + "
            WHERE "@ + parsed_date_text(e) + " BETWEEN "@ + sql_literal_seq(date_from) + " AND "@ + sql_literal_seq(date_to) + "
              "@ + account_filter_text(account_no_text(e), prefix)).len() as int, 314);
    lemma_occurs_in_prefix(t, ("
        WITH base AS (
            SELECT
                parsed_date = "@ + parsed_date_text(e) + ",
                journal = "@ + optional_text_column(e.journal_col, 64) + ",
                account_no = "@ + account_no_text(e) + ",
                account_label = "@ + account_label_text(e, lookup) + ",
                ref_piece = "@ + optional_text_column(e.ref_piece_col, 128) + ",
                lettrage = "@ + optional_text_column(e.lettrage_col, 64) + ",
                debit = "@ + e.debit_expr@ + ",
                credit = "@ + e.credit_expr@ + "
            FROM "@ + e.table.sql_name_text() + " e
            "@ + account_join_text(e, lookup) + "
            WHERE "@ + parsed_date_text(e) + " BETWEEN "@ + sql_literal_seq(date_from) + " AND "@ + sql_literal_seq(date_to) + "
              "@ + account_filter_text(account_no_text(e), prefix)) + grand_livre_running_balance_piece28(), "SUM(debit - credit) OVER (
                    PARTITION BY account_no
                    ORDER BY parsed_date"@, (("
        WITH base AS (
            SELECT
                parsed_date = "@ + parsed_date_text(e) + ",
                journal = "@ + optional_text_column(e.journal_col, 64) + ",
                account_no = "@ + account_no_text(e) + ",
                account_label = "@ + account_label_text(e, lookup) + ",
                ref_piece = "@ + optional_text_column(e.ref_piece_col, 128) + ",
                lettrage = "@ + optional_text_column(e.lettrage_col, 64) + ",
                debit = "@ + e.debit_expr@ + ",
                credit = "@ + e.credit_expr@ + "
            FROM "@ + e.table.sql_name_text() + " e
            "@ + account_join_text(e, lookup) + "
            WHERE "@ + parsed_date_text(e) + " BETWEEN "@ + sql_literal_seq(date_from) + " AND "@ + sql_literal_seq(date_to) + "
              "@ + account_filter_text(account_no_text(e), prefix)).len() + 314) as int);
    assert(t.subrange(0, (("
        WITH base AS (
            SELECT
                parsed_date = "@ + parsed_date_text(e) + ",
                journal = "@ + optional_text_column(e.journal_col, 64) + ",
                account_no = "@ + account_no_text(e) + ",
                account_label = "@ + account_label_text(e, lookup) + ",
                ref_piece = "@ + optional_text_column(e.ref_piece_col, 128) + ",
                lettrage = "@ + optional_text_column(e.lettrage_col, 64) + ",
                debit = "@ + e.debit_expr@ + ",
                credit = "@ + e.credit_expr@ + "
            FROM "@ + e.table.sql_name_text() + " e
            "@ + account_join_text(e, lookup) + "
            WHERE "@ + parsed_date_text(e) + " BETWEEN "@ + sql_literal_seq(date_from) + " AND "@ + sql_literal_seq(date_to) + "
              "@ + account_filter_text(account_no_text(e), prefix)) + grand_livre_running_balance_piece28()).len() as int) == ("
        WITH base AS (
            SELECT
                parsed_date = "@ + parsed_date_text(e) + ",
                journal = "@ + optional_text_column(e.journal_col, 64) + ",
                account_no = "@ + account_no_text(e) + ",
                account_label = "@ + account_label_text(e, lookup) + ",
                ref_piece = "@ + optional_text_column(e.ref_piece_col, 128) + ",
                lettrage = "@ + optional_text_column(e.lettrage_col, 64) + ",
                debit = "@ + e.debit_expr@ + ",
                credit = "@ + e.credit_expr@ + "
            FROM "@ + e.table.sql_name_text() + " e
            "@ + account_join_text(e, lookup) + "
            WHERE "@ + parsed_date_text(e) + " BETWEEN "@ + sql_literal_seq(date_from) + " AND "@ + sql_literal_seq(date_to) + "
              "@ + account_filter_text(account_no_text(e), prefix)) + grand_livre_running_balance_piece28()) by {
        assert(t.subrange(0, (("
        WITH base AS (
            SELECT
                parsed_date = "@ + parsed_date_text(e) + ",
                journal = "@ + optional_text_column(e.journal_col, 64) + ",
                account_no = "@ + account_no_text(e) + ",
                account_label = "@ + account_label_text(e, lookup) + ",
                ref_piece = "@ + optional_text_column(e.ref_piece_col, 128) + ",
                lettrage = "@ + optional_text_column(e.lettrage_col, 64) + ",
                debit = "@ + e.debit_expr@ + ",
                credit = "@ + e.credit_expr@ + "
            FROM "@ + e.table.sql_name_text() + " e
            "@ + account_join_text(e, lookup) + "
            WHERE "@ + parsed_date_text(e) + " BETWEEN "@ + sql_literal_seq(date_from) + " AND "@ + sql_literal_seq(date_to) + "
              "@ + account_filter_text(account_no_text(e), prefix)) + grand_livre_running_balance_piece28()).len() as int) =~= ("
        WITH base AS (
            SELECT
                parsed_date = "@ + parsed_date_text(e) + ",
                journal = "@ + optional_text_column(e.journal_col, 64) + ",
                account_no = "@ + account_no_text(e) + ",
                account_label = "@ + account_label_text(e, lookup) + ",
                ref_piece = "@ + optional_text_column(e.ref_piece_col, 128) + ",
                lettrage = "@ + optional_text_column(e.lettrage_col, 64) + ",
                debit = "@ + e.debit_expr@ + ",
                credit = "@ + e.credit_expr@ + "
            FROM "@ + e.table.sql_name_text() + " e
            "@ + account_join_text(e, lookup) + "
            WHERE "@ + parsed_date_text(e) + " BETWEEN "@ + sql_literal_seq(date_from) + " AND "@ + sql_literal_seq(date_to) + "
              "@ + account_filter_text(account_no_text(e), prefix)) + grand_livre_running_balance_piece28());
    }
    assert(("
        WITH base AS (
            SELECT
                parsed_date = "@ + parsed_date_text(e) + ",
                journal = "@ + optional_text_column(e.journal_col, 64) + ",
                account_no = "@ + account_no_text(e) + ",
                account_label = "@ + account_label_text(e, lookup) + ",
                ref_piece = "@ + optional_text_column(e.ref_piece_col, 128) + ",
                lettrage = "@ + optional_text_column(e.lettrage_col, 64) + ",
                debit = "@ + e.debit_expr@ + ",
                credit = "@ + e.credit_expr@ + "
            FROM "@ + e.table.sql_name_text() + " e
            "@ + account_join_text(e, lookup) + "
            WHERE "@ + parsed_date_text(e) + " BETWEEN "@ + sql_literal_seq(date_from) + " AND "@ + sql_literal_seq(date_to) + "
              "@ + account_filter_text(account_no_text(e), prefix)) + grand_livre_running_balance_piece28() =~= ("
        WITH base AS (
            SELECT
                parsed_date = "@ + parsed_date_text(e) + ",
                journal = "@ + optional_text_column(e.journal_col, 64) + ",
                account_no = "@ + account_no_text(e) + ",
                account_label = "@ + account_label_text(e, lookup) + ",
                ref_piece = "@ + optional_text_column(e.ref_piece_col, 128) + ",
                lettrage = "@ + optional_text_column(e.lettrage_col, 64) + ",
                debit = "@ + e.debit_expr@ + ",
                credit = "@ + e.credit_expr@ + "
            FROM "@ + e.table.sql_name_text() + " e
            "@ + account_join_text(e, lookup) + "
            WHERE "@ + parsed_date_text(e) + " BETWEEN "@ + sql_literal_seq(date_from) + " AND "@ + sql_literal_seq(date_to) + "
              "@ + account_filter_text(account_no_text(e), prefix)) + grand_livre_running_balance_piece28() + seq![]);
    lemma_occurs_between(("
        WITH base AS (
            SELECT
                parsed_date = "@ + parsed_date_text(e) + ",
                journal = "@ + optional_text_column(e.journal_col, 64) + ",
                account_no = "@ + account_no_text(e) + ",
                account_label = "@ + account_label_text(e, lookup) + ",
                ref_piece = "@ + optional_text_column(e.ref_piece_col, 128) + ",
                lettrage = "@ + optional_text_column(e.lettrage_col, 64) + ",
                debit = "@ + e.debit_expr@ + ",
                credit = "@ + e.credit_expr@ + "
            FROM "@ + e.table.sql_name_text() + " e
            "@ + account_join_text(e, lookup) + "
            WHERE "@ + parsed_date_text(e) + " BETWEEN "@ + sql_literal_seq(date_from) + " AND "@ + sql_literal_seq(date_to) + "
              "@ + account_filter_text(account_no_text(e), prefix)) + grand_livre_running_balance_piece28(), "
        WITH base AS (
            SELECT
                parsed_date = "@ + parsed_date_text(e) + ",
                journal = "@ + optional_text_column(e.journal_col, 64) + ",
                account_no = "@ + account_no_text(e) + ",
                account_label = "@ + account_label_text(e, lookup) + ",
                ref_piece = "@ + optional_text_column(e.ref_piece_col, 128) + ",
                lettrage = "@ + optional_text_column(e.lettrage_col, 64) + ",
                debit = "@ + e.debit_expr@ + ",
                credit = "@ + e.credit_expr@ + "
            FROM "@ + e.table.sql_name_text() + " e
            "@ + account_join_text(e, lookup) + "
            WHERE "@ + parsed_date_text(e) + " BETWEEN "@ + sql_literal_seq(date_from) + " AND "@ + sql_literal_seq(date_to) + "
              "@ + account_filter_text(account_no_text(e), prefix), grand_livre_running_balance_piece28(), seq![]);
    lemma_occurs_within(("
        WITH base AS (
            SELECT
                parsed_date = "@ + parsed_date_text(e) + ",
                journal = "@ + optional_text_column(e.journal_col, 64) + ",
                account_no = "@ + account_no_text(e) + ",
                account_label = "@ + account_label_text(e, lookup) + ",
                ref_piece = "@ + optional_text_column(e.ref_piece_col, 128) + ",
                lettrage = "@ + optional_text_column(e.lettrage_col, 64) + ",
                debit = "@ + e.debit_expr@ + ",
                credit = "@ + e.credit_expr@ + "
            FROM "@ + e.table.sql_name_text() + " e
            "@ + account_join_text(e, lookup) + "
            WHERE "@ + parsed_date_text(e) + " BETWEEN "@ + sql_literal_seq(date_from) + " AND "@ + sql_literal_seq(date_to) + "
              "@ + account_filter_text(account_no_text(e), prefix)) + grand_livre_running_balance_piece28(), grand_livre_running_balance_piece28(), "SUM(debit) AS total_debit,
                SUM(credit) AS total_credit,
                SUM(debit - credit) AS solde"@, ("
        WITH base AS (
            SELECT
                parsed_date = "@ + parsed_date_text(e) + ",
                journal = "@ + optional_text_column(e.journal_col, 64) + ",
                account_no = "@ + account_no_text(e) + ",
                account_label = "@ + account_label_text(e, lookup) + ",
                ref_piece = "@ + optional_text_column(e.ref_piece_col, 128) + ",
                lettrage = "@ + optional_text_column(e.lettrage_col, 64) + ",
                debit = "@ + e.debit_expr@ + ",
                credit = "@ + e.credit_expr@ + "
            FROM "@ + e.table.sql_name_text() + " e
            "@ + account_join_text(e, lookup) + "
            WHERE "@ + parsed_date_text(e) + " BETWEEN "@ + sql_literal_seq(date_from) + " AND "@ + sql_literal_seq(date_to) + "
              "@ + account_filter_text(account_no_text(e), prefix)).len() as int, 1427);
    lemma_occurs_in_prefix(t, ("
        WITH base AS (
            SELECT
                parsed_date = "@ + parsed_date_text(e) + ",
                journal = "@ + optional_text_column(e.journal_col, 64) + ",
                account_no = "@ + account_no_text(e) + ",
                account_label = "@ + account_label_text(e, lookup) + ",
                ref_piece = "@ + optional_text_column(e.ref_piece_col, 128) + ",
                lettrage = "@ + optional_text_column(e.lettrage_col, 64) + ",
                debit = "@ + e.debit_expr@ + ",
                credit = "@ + e.credit_expr@ + "
            FROM "@ + e.table.sql_name_text() + " e
            "@ + account_join_text(e, lookup) + "
            WHERE "@ + parsed_date_text(e) + " BETWEEN "@ + sql_literal_seq(date_from) + " AND "@ + sql_literal_seq(date_to) + "
              "@ + account_filter_text(account_no_text(e), prefix)) + grand_livre_running_balance_piece28(), "SUM(debit) AS total_debit,
                SUM(credit) AS total_credit,
                SUM(debit - credit) AS solde"@, (("
        WITH base AS (
            SELECT
                parsed_date = "@ + parsed_date_text(e) + ",
                journal = "@ + optional_text_column(e.journal_col, 64) + ",
                account_no = "@ + account_no_text(e) + ",
                account_label = "@ + account_label_text(e, lookup) + ",
                ref_piece = "@ + optional_text_column(e.ref_piece_col, 128) + ",
                lettrage = "@ + optional_text_column(e.lettrage_col, 64) + ",
                debit = "@ + e.debit_expr@ + ",
                credit = "@ + e.credit_expr@ + "
            FROM "@ + e.table.sql_name_text() + " e
            "@ + account_join_text(e, lookup) + "
            WHERE "@ + parsed_date_text(e) + " BETWEEN "@ + sql_literal_seq(date_from) + " AND "@ + sql_literal_seq(date_to) + "
              "@ + account_filter_text(account_no_text(e), prefix)).len() + 1427) as int);
    assert(t.subrange(0, (("
        WITH base AS (
            SELECT
                parsed_date = "@ + parsed_date_text(e) + ",
                journal = "@ + optional_text_column(e.journal_col, 64) + ",
                account_no = "@ + account_no_text(e) + ",
                account_label = "@ + account_label_text(e, lookup) + ",
                ref_piece = "@ + optional_text_column(e.ref_piece_col, 128) + ",
                lettrage = "@ + optional_text_column(e.lettrage_col, 64) + ",
                debit = "@ + e.debit_expr@ + ",
                credit = "@ + e.credit_expr@ + "
            FROM "@ + e.table.sql_name_text() + " e
            "@ + account_join_text(e, lookup) + "
            WHERE "@ + parsed_date_text(e) + " BETWEEN "@ + sql_literal_seq(date_from) + " AND "@ + sql_literal_seq(date_to) + "
              "@ + account_filter_text(account_no_text(e), prefix)) + grand_livre_running_balance_piece28()).len() as int) == ("
        WITH base AS (
            SELECT
                parsed_date = "@ + parsed_date_text(e) + ",
                journal = "@ + optional_text_column(e.journal_col, 64) + ",
                account_no = "@ + account_no_text(e) + ",
                account_label = "@ + account_label_text(e, lookup) + ",
                ref_piece = "@ + optional_text_column(e.ref_piece_col, 128) + ",
                lettrage = "@ + optional_text_column(e.lettrage_col, 64) + ",
                debit = "@ + e.debit_expr@ + ",
                credit = "@ + e.credit_expr@ + "
            FROM "@ + e.table.sql_name_text() + " e
            "@ + account_join_text(e, lookup) + "
            WHERE "@ + parsed_date_text(e) + " BETWEEN "@ + sql_literal_seq(date_from) + " AND "@ + sql_literal_seq(date_to) + "
              "@ + account_filter_text(account_no_text(e), prefix)) + grand_livre_running_balance_piece28()) by {
        assert(t.subrange(0, (("
        WITH base AS (
            SELECT
                parsed_date = "@ + parsed_date_text(e) + ",
                journal = "@ + optional_text_column(e.journal_col, 64) + ",
                account_no = "@ + account_no_text(e) + ",
                account_label = "@ + account_label_text(e, lookup) + ",
                ref_piece = "@ + optional_text_column(e.ref_piece_col, 128) + ",
                lettrage = "@ + optional_text_column(e.lettrage_col, 64) + ",
                debit = "@ + e.debit_expr@ + ",
                credit = "@ + e.credit_expr@ + "
            FROM "@ + e.table.sql_name_text() + " e
            "@ + account_join_text(e, lookup) + "
            WHERE "@ + parsed_date_text(e) + " BETWEEN "@ + sql_literal_seq(date_from) + " AND "@ + sql_literal_seq(date_to) + "
              "@ + account_filter_text(account_no_text(e), prefix)) + grand_livre_running_balance_piece28()).len() as int) =~= ("
        WITH base AS (
            SELECT
                parsed_date = "@ + parsed_date_text(e) + ",
                journal = "@ + optional_text_column(e.journal_col, 64) + ",
                account_no = "@ + account_no_text(e) + ",
                account_label = "@ + account_label_text(e, lookup) + ",
                ref_piece = "@ + optional_text_column(e.ref_piece_col, 128) + ",
                lettrage = "@ + optional_text_column(e.lettrage_col, 64) + ",
                debit = "@ + e.debit_expr@ + ",
                credit = "@ + e.credit_expr@ + "
            FROM "@ + e.table.sql_name_text() + " e
            "@ + account_join_text(e, lookup) + "
            WHERE "@ + parsed_date_text(e) + " BETWEEN "@ + sql_literal_seq(date_from) + " AND "@ + sql_literal_seq(date_to) + "
              "@ + account_filter_text(account_no_text(e), prefix)) + grand_livre_running_balance_piece28());
    }
    assert(("
        WITH base AS (
            SELECT
                parsed_date = "@ + parsed_date_text(e) + ",
                journal = "@ + optional_text_column(e.journal_col, 64) + ",
                account_no = "@ + account_no_text(e) + ",
                account_label = "@ + account_label_text(e, lookup) + ",
                ref_piece = "@ + optional_text_column(e.ref_piece_col, 128) + ",
                lettrage = "@ + optional_text_column(e.lettrage_col, 64) + ",
                debit = "@ + e.debit_expr@ + ",
                credit = "@ + e.credit_expr@ + "
            FROM "@ + e.table.sql_name_text() + " e
            "@ + account_join_text(e, lookup) + "
            WHERE "@ + parsed_date_text(e) + " BETWEEN "@ + sql_literal_seq(date_from) + " AND "@ + sql_literal_seq(date_to) + "
              "@ + account_filter_text(account_no_text(e), prefix)) + grand_livre_running_balance_piece28() =~= ("
        WITH base AS (
            SELECT
                parsed_date = "@ + parsed_date_text(e) + ",
                journal = "@ + optional_text_column(e.journal_col, 64) + ",
                account_no = "@ + account_no_text(e) + ",
                account_label = "@ + account_label_text(e, lookup) + ",
                ref_piece = "@ + optional_text_column(e.ref_piece_col, 128) + ",
                lettrage = "@ + optional_text_column(e.lettrage_col, 64) + ",
                debit = "@ + e.debit_expr@ + ",
                credit = "@ + e.credit_expr@ + "
            FROM "@ + e.table.sql_name_text() + " e
            "@ + account_join_text(e, lookup) + "
            WHERE "@ + parsed_date_text(e) + " BETWEEN "@ + sql_literal_seq(date_from) + " AND "@ + sql_literal_seq(date_to) + "
              "@ + account_filter_text(account_no_text(e), prefix)) + grand_livre_running_balance_piece28() + seq![]);
    lemma_occurs_between(("
        WITH base AS (
            SELECT
                parsed_date = "@ + parsed_date_text(e) + ",
                journal = "@ + optional_text_column(e.journal_col, 64) + ",
                account_no = "@ + account_no_text(e) + ",
                account_label = "@ + account_label_text(e, lookup) + ",
                ref_piece = "@ + optional_text_column(e.ref_piece_col, 128) + ",
                lettrage = "@ + optional_text_column(e.lettrage_col, 64) + ",
                debit = "@ + e.debit_expr@ + ",
                credit = "@ + e.credit_expr@ + "
            FROM "@ + e.table.sql_name_text() + " e
            "@ + account_join_text(e, lookup) + "
            WHERE "@ + parsed_date_text(e) + " BETWEEN "@ + sql_literal_seq(date_from) + " AND "@ + sql_literal_seq(date_to) + "
              "@ + account_filter_text(account_no_text(e), prefix)) + grand_livre_running_balance_piece28(), "
        WITH base AS (
            SELECT
                parsed_date = "@ + parsed_date_text(e) + ",
                journal = "@ + optional_text_column(e.journal_col, 64) + ",
                account_no = "@ + account_no_text(e) + ",
                account_label = "@ + account_label_text(e, lookup) + ",
                ref_piece = "@ + optional_text_column(e.ref_piece_col, 128) + ",
                lettrage = "@ + optional_text_column(e.lettrage_col, 64) + ",
                debit = "@ + e.debit_expr@ + ",
                credit = "@ + e.credit_expr@ + "
            FROM "@ + e.table.sql_name_text() + " e
            "@ + account_join_text(e, lookup) + "
            WHERE "@ + parsed_date_text(e) + " BETWEEN "@ + sql_literal_seq(date_from) + " AND "@ + sql_literal_seq(date_to) + "
              "@ + account_filter_text(account_no_text(e), prefix), grand_livre_running_balance_piece28(), seq![]);
    lemma_occurs_within(("
        WITH base AS (
            SELECT
                parsed_date = "@ + parsed_date_text(e) + ",
                journal = "@ + optional_text_column(e.journal_col, 64) + ",
                account_no = "@ + account_no_text(e) + ",
                account_label = "@ + account_label_text(e, lookup) + ",
                ref_piece = "@ + optional_text_column(e.ref_piece_col, 128) + ",
                lettrage = "@ + optional_text_column(e.lettrage_col, 64) + ",
                debit = "@ + e.debit_expr@ + ",
                credit = "@ + e.credit_expr@ + "
            FROM "@ + e.table.sql_name_text() + " e
            "@ + account_join_text(e, lookup) + "
            WHERE "@ + parsed_date_text(e) + " BETWEEN "@ + sql_literal_seq(date_from) + " AND "@ + sql_literal_seq(date_to) + "
              "@ + account_filter_text(account_no_text(e), prefix)) + grand_livre_running_balance_piece28(), grand_livre_running_balance_piece28(), "ORDER BY account_no, sort_row"@, ("
        WITH base AS (
            SELECT
                parsed_date = "@ + parsed_date_text(e) + ",
                journal = "@ + optional_text_column(e.journal_col, 64) + ",
                account_no = "@ + account_no_text(e) + ",
                account_label = "@ + account_label_text(e, lookup) + ",
                ref_piece = "@ + optional_text_column(e.ref_piece_col, 128) + ",
                lettrage = "@ + optional_text_column(e.lettrage_col, 64) + ",
                debit = "@ + e.debit_expr@ + ",
                credit = "@ + e.credit_expr@ + "
            FROM "@ + e.table.sql_name_text() + " e
            "@ + account_join_text(e, lookup) + "
            WHERE "@ + parsed_date_text(e) + " BETWEEN "@ + sql_literal_seq(date_from) + " AND "@ + sql_literal_seq(date_to) + "
              "@ + account_filter_text(account_no_text(e), prefix)).len() as int, 3060);
    lemma_occurs_in_prefix(t, ("
        WITH base AS (
            SELECT
                parsed_date = "@ + parsed_date_text(e) + ",
                journal = "@ + optional_text_column(e.journal_col, 64) + ",
                account_no = "@ + account_no_text(e) + ",
                account_label = "@ + account_label_text(e, lookup) + ",
                ref_piece = "@ + optional_text_column(e.ref_piece_col, 128) + ",
                lettrage = "@ + optional_text_column(e.lettrage_col, 64) + ",
                debit = "@ + e.debit_expr@ + ",
                credit = "@ + e.credit_expr@ + "
            FROM "@ + e.table.sql_name_text() + " e
            "@ + account_join_text(e, lookup) + "
            WHERE "@ + parsed_date_text(e) + " BETWEEN "@ + sql_literal_seq(date_from) + " AND "@ + sql_literal_seq(date_to) + "
              "@ + account_filter_text(account_no_text(e), prefix)) + grand_livre_running_balance_piece28(), "ORDER BY account_no, sort_row"@, (("
        WITH base AS (
            SELECT
                parsed_date = "@ + parsed_date_text(e) + ",
                journal = "@ + optional_text_column(e.journal_col, 64) + ",
                account_no = "@ + account_no_text(e) + ",
                account_label = "@ + account_label_text(e, lookup) + ",
                ref_piece = "@ + optional_text_column(e.ref_piece_col, 128) + ",
                lettrage = "@ + optional_text_column(e.lettrage_col, 64) + ",
                debit = "@ + e.debit_expr@ + ",
                credit = "@ + e.credit_expr@ + "
            FROM "@ + e.table.sql_name_text() + " e
            "@ + account_join_text(e, lookup) + "
            WHERE "@ + parsed_date_text(e) + " BETWEEN "@ + sql_literal_seq(date_from) + " AND "@ + sql_literal_seq(date_to) + "
              "@ + account_filter_text(account_no_text(e), prefix)).len() + 3060) as int);
}

pub open spec fn sage1000_grand_livre_running_balance_piece38() -> Seq<char> {
    "
        ),
        ranked AS (
            SELECT
                CONVERT(char(10), parsed_date, 103) AS [date],
                journal,
                account_no,
                account_label,
                ref_piece,
                lettrage,
                debit,
                credit,
                SUM(debit - credit) OVER (
                    PARTITION BY account_no
                    ORDER BY parsed_date, entry_number
                    ROWS UNBOUNDED PRECEDING
                ) AS solde_cumule,
                ROW_NUMBER() OVER (
                    PARTITION BY account_no
                    ORDER BY parsed_date, entry_number
                ) AS sort_row
            FROM base
            WHERE parsed_date IS NOT NULL
        ),
        subtotal AS (
            SELECT
                CAST(NULL AS NVARCHAR(10)) AS [date],
                CAST(NULL AS NVARCHAR(64)) AS journal,
                account_no,
                MAX(account_label) AS account_label,
                CAST(NULL AS NVARCHAR(128)) AS ref_piece,
                CAST(NULL AS NVARCHAR(64)) AS lettrage,
                CAST(0 AS DECIMAL(38, 6)) AS debit,
                CAST(0 AS DECIMAL(38, 6)) AS credit,
                SUM(debit - credit) AS solde_cumule,
                CAST(1 AS BIT) AS is_subtotal_row,
                SUM(debit) AS total_debit,
                SUM(credit) AS total_credit,
                SUM(debit - credit) AS solde,
                2147483647 AS sort_row
            FROM base
            WHERE parsed_date IS NOT NULL
            GROUP BY account_no
        )
        SELECT
            [date],
            journal,
            account_no,
            account_label,
            ref_piece,
            lettrage,
            debit,
            credit,
            solde_cumule,
            is_subtotal_row,
            total_debit,
            total_credit,
            solde
        FROM (
            SELECT
                [date],
                journal,
                account_no,
                account_label,
                ref_piece,
                lettrage,
                debit,
                credit,
                solde_cumule,
                CAST(0 AS BIT) AS is_subtotal_row,
                CAST(NULL AS DECIMAL(38, 6)) AS total_debit,
                CAST(NULL AS DECIMAL(38, 6)) AS total_credit,
                CAST(NULL AS DECIMAL(38, 6)) AS solde,
                sort_row
            FROM ranked
            UNION ALL
            SELECT
                [date],
                journal,
                account_no,
                account_label,
                ref_piece,
                lettrage,
                debit,
                credit,
                solde_cumule,
                is_subtotal_row,
                total_debit,
                total_credit,
                solde,
                sort_row
            FROM subtotal
        ) ledger
        ORDER BY account_no, sort_row
        "@
}

proof fn lemma_sage1000_grand_livre_running_balance_literals()
    ensures
        occurs_at(sage1000_grand_livre_running_balance_piece38(), "SUM(debit - credit) OVER (
                    PARTITION BY account_no
                    ORDER BY parsed_date"@, 314),
        occurs_at(sage1000_grand_livre_running_balance_piece38(), "SUM(debit) AS total_debit,
                SUM(credit) AS total_credit,
                SUM(debit - credit) AS solde"@, 1330),
{
    reveal_strlit("
        ),
        ranked AS (
            SELECT
                CONVERT(char(10), parsed_date, 103) AS [date],
                journal,
                account_no,
                account_label,
                ref_piece,
                lettrage,
                debit,
                credit,
                SUM(debit - credit) OVER (
                    PARTITION BY account_no
                    ORDER BY parsed_date, entry_number
                    ROWS UNBOUNDED PRECEDING
                ) AS solde_cumule,
                ROW_NUMBER() OVER (
                    PARTITION BY account_no
                    ORDER BY parsed_date, entry_number
                ) AS sort_row
            FROM base
            WHERE parsed_date IS NOT NULL
        ),
        subtotal AS (
            SELECT
                CAST(NULL AS NVARCHAR(10)) AS [date],
                CAST(NULL AS NVARCHAR(64)) AS journal,
                account_no,
                MAX(account_label) AS account_label,
                CAST(NULL AS NVARCHAR(128)) AS ref_piece,
                CAST(NULL AS NVARCHAR(64)) AS lettrage,
                CAST(0 AS DECIMAL(38, 6)) AS debit,
                CAST(0 AS DECIMAL(38, 6)) AS credit,
                SUM(debit - credit) AS solde_cumule,
                CAST(1 AS BIT) AS is_subtotal_row,
                SUM(debit) AS total_debit,
                SUM(credit) AS total_credit,
                SUM(debit - credit) AS solde,
                2147483647 AS sort_row
            FROM base
            WHERE parsed_date IS NOT NULL
            GROUP BY account_no
        )
        SELECT
            [date],
            journal,
            account_no,
            account_label,
            ref_piece,
            lettrage,
            debit,
            credit,
            solde_cumule,
            is_subtotal_row,
            total_debit,
            total_credit,
            solde
        FROM (
            SELECT
                [date],
                journal,
                account_no,
                account_label,
                ref_piece,
                lettrage,
                debit,
                credit,
                solde_cumule,
                CAST(0 AS BIT) AS is_subtotal_row,
                CAST(NULL AS DECIMAL(38, 6)) AS total_debit,
                CAST(NULL AS DECIMAL(38, 6)) AS total_credit,
                CAST(NULL AS DECIMAL(38, 6)) AS solde,
                sort_row
            FROM ranked
            UNION ALL
            SELECT
                [date],
                journal,
                account_no,
                account_label,
                ref_piece,
                lettrage,
                debit,
                credit,
                solde_cumule,
                is_subtotal_row,
                total_debit,
                total_credit,
                solde,
                sort_row
            FROM subtotal
        ) ledger
        ORDER BY account_no, sort_row
        ");
    reveal_strlit("SUM(debit - credit) OVER (
                    PARTITION BY account_no
                    ORDER BY parsed_date");
    reveal_strlit("SUM(debit) AS total_debit,
                SUM(credit) AS total_credit,
                SUM(debit - credit) AS solde");
    assert(sage1000_grand_livre_running_balance_piece38().subrange(314, (314 + "SUM(debit - credit) OVER (
                    PARTITION BY account_no
                    ORDER BY parsed_date"@.len()) as int) =~= "SUM(debit - credit) OVER (
                    PARTITION BY account_no
                    ORDER BY parsed_date"@);
    assert(sage1000_grand_livre_running_balance_piece38().subrange(1330, (1330 + "SUM(debit) AS total_debit,
                SUM(credit) AS total_credit,
                SUM(debit - credit) AS solde"@.len()) as int) =~= "SUM(debit) AS total_debit,
                SUM(credit) AS total_credit,
                SUM(debit - credit) AS solde"@);
}

/// The Sage 1000 General Ledger runs each account's balance as debit less
/// credit over its entries in date order and closes each account with its
/// debit, credit and balance totals.
#[verifier::rlimit(100)]
#[verifier::spinoff_prover]
pub proof fn lemma_sage1000_grand_livre_running_balance(c: Sage1000Context, date_from: Seq<char>, date_to: Seq<char>, prefix: Option<Seq<char>>)
    ensures
        occurs_in(sage1000_grand_livre_query_text(c, date_from, date_to, prefix), "SUM(debit - credit) OVER (
                    PARTITION BY account_no
                    ORDER BY parsed_date"@),
        occurs_in(sage1000_grand_livre_query_text(c, date_from, date_to, prefix), "SUM(debit) AS total_debit,
                SUM(credit) AS total_credit,
                SUM(debit - credit) AS solde"@),
{
    let t = sage1000_grand_livre_query_text(c, date_from, date_to, prefix);
    lemma_sage1000_grand_livre_running_balance_literals();
    assert(t.subrange(0, (("
        WITH base AS (
            SELECT
                parsed_date = TRY_CAST("@ + qualified("e"@, "eDate"@) + " AS DATE),
                journal = "@ + crate::ledger::journal_expr_text(c) + ",
                account_no = "@ + text_or_empty_text(qualified("cg"@, "codeCompte"@), 64) + ",
                account_label = "@ + sage1000_account_label_text() + ",
                ref_piece = "@ + crate::ledger::ref_piece_expr_text(c) + ",
                lettrage = "@ + text_or_empty_text(qualified("e"@, "CodeLettrageExterne"@), 64) + ",
                debit = "@ + decimal_or_zero_text(qualified("e"@, "debit"@)) + ",
                credit = "@ + decimal_or_zero_text(qualified("e"@, "credit"@)) + ",
                entry_number = COALESCE(TRY_CAST("@ + qualified("e"@, "numero"@) + " AS BIGINT), 0)
            FROM "@ + c.entries.sql_name_text() + " e
            LEFT JOIN "@ + c.accounts.sql_name_text() + " cg ON "@ + qualified("e"@, "oidcompteGeneral"@) + " = "@ + qualified("cg"@, "oid"@) + "
            "@ + crate::ledger::document_joins_text(c) + "
            WHERE TRY_CAST("@ + qualified("e"@, "eDate"@) + " AS DATE) BETWEEN "@ + sql_literal_seq(date_from) + " AND "@ + sql_literal_seq(date_to) + "
              AND "@ + text_or_empty_text(qualified("cg"@, "codeCompte"@), 64) + " <> ''
              "@ + account_filter_text(text_or_empty_text(qualified("cg"@, "codeCompte"@), 64), prefix)) + sage1000_grand_livre_running_balance_piece38()).len() as int) == ("
        WITH base AS (
            SELECT
                parsed_date = TRY_CAST("@ + qualified("e"@, "eDate"@) + " AS DATE),
                journal = "@ + crate::ledger::journal_expr_text(c) + ",
                account_no = "@ + text_or_empty_text(qualified("cg"@, "codeCompte"@), 64) + ",
                account_label = "@ + sage1000_account_label_text() + ",
                ref_piece = "@ + crate::ledger::ref_piece_expr_text(c) + ",
                lettrage = "@ + text_or_empty_text(qualified("e"@, "CodeLettrageExterne"@), 64) + ",
                debit = "@ + decimal_or_zero_text(qualified("e"@, "debit"@)) + ",
                credit = "@ + decimal_or_zero_text(qualified("e"@, "credit"@)) + ",
                entry_number = COALESCE(TRY_CAST("@ + qualified("e"@, "numero"@) + " AS BIGINT), 0)
            FROM "@ + c.entries.sql_name_text() + " e
            LEFT JOIN "@ + c.accounts.sql_name_text() + " cg ON "@ + qualified("e"@, "oidcompteGeneral"@) + " = "@ + qualified("cg"@, "oid"@) + "
            "@ + crate::ledger::document_joins_text(c) + "
            WHERE TRY_CAST("@ + qualified("e"@, "eDate"@) + " AS DATE) BETWEEN "@ + sql_literal_seq(date_from) + " AND "@ + sql_literal_seq(date_to) + "
              AND "@ + text_or_empty_text(qualified("cg"@, "codeCompte"@), 64) + " <> ''
              "@ + account_filter_text(text_or_empty_text(qualified("cg"@, "codeCompte"@), 64), prefix)) + sage1000_grand_livre_running_balance_piece38()) by {
        assert(t.subrange(0, (("
        WITH base AS (
            SELECT
                parsed_date = TRY_CAST("@ + qualified("e"@, "eDate"@) + " AS DATE),
                journal = "@ + crate::ledger::journal_expr_text(c) + ",
                account_no = "@ + text_or_empty_text(qualified("cg"@, "codeCompte"@), 64) + ",
                account_label = "@ + sage1000_account_label_text() + ",
                ref_piece = "@ + crate::ledger::ref_piece_expr_text(c) + ",
                lettrage = "@ + text_or_empty_text(qualified("e"@, "CodeLettrageExterne"@), 64) + ",
                debit = "@ + decimal_or_zero_text(qualified("e"@, "debit"@)) + ",
                credit = "@ + decimal_or_zero_text(qualified("e"@, "credit"@)) + ",
                entry_number = COALESCE(TRY_CAST("@ + qualified("e"@, "numero"@) + " AS BIGINT), 0)
            FROM "@ + c.entries.sql_name_text() + " e
            LEFT JOIN "@ + c.accounts.sql_name_text() + " cg ON "@ + qualified("e"@, "oidcompteGeneral"@) + " = "@ + qualified("cg"@, "oid"@) + "
            "@ + crate::ledger::document_joins_text(c) + "
            WHERE TRY_CAST("@ + qualified("e"@, "eDate"@) + " AS DATE) BETWEEN "@ + sql_literal_seq(date_from) + " AND "@ + sql_literal_seq(date_to) + "
              AND "@ + text_or_empty_text(qualified("cg"@, "codeCompte"@), 64) + " <> ''
              "@ + account_filter_text(text_or_empty_text(qualified("cg"@, "codeCompte"@), 64), prefix)) + sage1000_grand_livre_running_balance_piece38()).len() as int) =~= ("
        WITH base AS (
            SELECT
                parsed_date = TRY_CAST("@ + qualified("e"@, "eDate"@) + " AS DATE),
                journal = "@ + crate::ledger::journal_expr_text(c) + ",
                account_no = "@ + text_or_empty_text(qualified("cg"@, "codeCompte"@), 64) + ",
                account_label = "@ + sage1000_account_label_text() + ",
                ref_piece = "@ + crate::ledger::ref_piece_expr_text(c) + ",
                lettrage = "@ + text_or_empty_text(qualified("e"@, "CodeLettrageExterne"@), 64) + ",
                debit = "@ + decimal_or_zero_text(qualified("e"@, "debit"@)) + ",
                credit = "@ + decimal_or_zero_text(qualified("e"@, "credit"@)) + ",
                entry_number = COALESCE(TRY_CAST("@ + qualified("e"@, "numero"@) + " AS BIGINT), 0)
            FROM "@ + c.entries.sql_name_text() + " e
            LEFT JOIN "@ + c.accounts.sql_name_text() + " cg ON "@ + qualified("e"@, "oidcompteGeneral"@) + " = "@ + qualified("cg"@, "oid"@) + "
            "@ + crate::ledger::document_joins_text(c) + "
            WHERE TRY_CAST("@ + qualified("e"@, "eDate"@) + " AS DATE) BETWEEN "@ + sql_literal_seq(date_from) + " AND "@ + sql_literal_seq(date_to) + "
              AND "@ + text_or_empty_text(qualified("cg"@, "codeCompte"@), 64) + " <> ''
              "@ + account_filter_text(text_or_empty_text(qualified("cg"@, "codeCompte"@), 64), prefix)) + sage1000_grand_livre_running_balance_piece38());
    }
    assert(("
        WITH base AS (
            SELECT
                parsed_date = TRY_CAST("@ + qualified("e"@, "eDate"@) + " AS DATE),
                journal = "@ + crate::ledger::journal_expr_text(c) + ",
                account_no = "@ + text_or_empty_text(qualified("cg"@, "codeCompte"@), 64) + ",
                account_label = "@ + sage1000_account_label_text() + ",
                ref_piece = "@ + crate::ledger::ref_piece_expr_text(c) + ",
                lettrage = "@ + text_or_empty_text(qualified("e"@, "CodeLettrageExterne"@), 64) + ",
                debit = "@ + decimal_or_zero_text(qualified("e"@, "debit"@)) + ",
                credit = "@ + decimal_or_zero_text(qualified("e"@, "credit"@)) + ",
                entry_number = COALESCE(TRY_CAST("@ + qualified("e"@, "numero"@) + " AS BIGINT), 0)
            FROM "@ + c.entries.sql_name_text() + " e
            LEFT JOIN "@ + c.accounts.sql_name_text() + " cg ON "@ + qualified("e"@, "oidcompteGeneral"@) + " = "@ + qualified("cg"@, "oid"@) + "
            "@ + crate::ledger::document_joins_text(c) + "
            WHERE TRY_CAST("@ + qualified("e"@, "eDate"@) + " AS DATE) BETWEEN "@ + sql_literal_seq(date_from) + " AND "@ + sql_literal_seq(date_to) + "
              AND "@ + text_or_empty_text(qualified("cg"@, "codeCompte"@), 64) + " <> ''
              "@ + account_filter_text(text_or_empty_text(qualified("cg"@, "codeCompte"@), 64), prefix)) + sage1000_grand_livre_running_balance_piece38() =~= ("
        WITH base AS (
            SELECT
                parsed_date = TRY_CAST("@ + qualified("e"@, "eDate"@) + " AS DATE),
                journal = "@ + crate::ledger::journal_expr_text(c) + ",
                account_no = "@ + text_or_empty_text(qualified("cg"@, "codeCompte"@), 64) + ",
                account_label = "@ + sage1000_account_label_text() + ",
                ref_piece = "@ + crate::ledger::ref_piece_expr_text(c) + ",
                lettrage = "@ + text_or_empty_text(qualified("e"@, "CodeLettrageExterne"@), 64) + ",
                debit = "@ + decimal_or_zero_text(qualified("e"@, "debit"@)) + ",
                credit = "@ + decimal_or_zero_text(qualified("e"@, "credit"@)) + ",
                entry_number = COALESCE(TRY_CAST("@ + qualified("e"@, "numero"@) + " AS BIGINT), 0)
            FROM "@ + c.entries.sql_name_text() + " e
            LEFT JOIN "@ + c.accounts.sql_name_text() + " cg ON "@ + qualified("e"@, "oidcompteGeneral"@) + " = "@ + qualified("cg"@, "oid"@) + "
            "@ + crate::ledger::document_joins_text(c) + "
            WHERE TRY_CAST("@ + qualified("e"@, "eDate"@) + " AS DATE) BETWEEN "@ + sql_literal_seq(date_from) + " AND "@ + sql_literal_seq(date_to) + "
              AND "@ + text_or_empty_text(qualified("cg"@, "codeCompte"@), 64) + " <> ''
              "@ + account_filter_text(text_or_empty_text(qualified("cg"@, "codeCompte"@), 64), prefix)) + sage1000_grand_livre_running_balance_piece38() + seq![]);
    lemma_occurs_between(("
        WITH base AS (
            SELECT
                parsed_date = TRY_CAST("@ + qualified("e"@, "eDate"@) + " AS DATE),
                journal = "@ + crate::ledger::journal_expr_text(c) + ",
                account_no = "@ + text_or_empty_text(qualified("cg"@, "codeCompte"@), 64) + ",
                account_label = "@ + sage1000_account_label_text() + ",
                ref_piece = "@ + crate::ledger::ref_piece_expr_text(c) + ",
                lettrage = "@ + text_or_empty_text(qualified("e"@, "CodeLettrageExterne"@), 64) + ",
                debit = "@ + decimal_or_zero_text(qualified("e"@, "debit"@)) + ",
                credit = "@ + decimal_or_zero_text(qualified("e"@, "credit"@)) + ",
                entry_number = COALESCE(TRY_CAST("@ + qualified("e"@, "numero"@) + " AS BIGINT), 0)
            FROM "@ + c.entries.sql_name_text() + " e
            LEFT JOIN "@ + c.accounts.sql_name_text() + " cg ON "@ + qualified("e"@, "oidcompteGeneral"@) + " = "@ + qualified("cg"@, "oid"@) + "
            "@ + crate::ledger::document_joins_text(c) + "
            WHERE TRY_CAST("@ + qualified("e"@, "eDate"@) + " AS DATE) BETWEEN "@ + sql_literal_seq(date_from) + " AND "@ + sql_literal_seq(date_to) + "
              AND "@ + text_or_empty_text(qualified("cg"@, "codeCompte"@), 64) + " <> ''
              "@ + account_filter_text(text_or_empty_text(qualified("cg"@, "codeCompte"@), 64), prefix)) + sage1000_grand_livre_running_balance_piece38(), "
        WITH base AS (
            SELECT
                parsed_date = TRY_CAST("@ + qualified("e"@, "eDate"@) + " AS DATE),
                journal = "@ + crate::ledger::journal_expr_text(c) + ",
                account_no = "@ + text_or_empty_text(qualified("cg"@, "codeCompte"@), 64) + ",
                account_label = "@ + sage1000_account_label_text() + ",
                ref_piece = "@ + crate::ledger::ref_piece_expr_text(c) + ",
                lettrage = "@ + text_or_empty_text(qualified("e"@, "CodeLettrageExterne"@), 64) + ",
                debit = "@ + decimal_or_zero_text(qualified("e"@, "debit"@)) + ",
                credit = "@ + decimal_or_zero_text(qualified("e"@, "credit"@)) + ",
                entry_number = COALESCE(TRY_CAST("@ + qualified("e"@, "numero"@) + " AS BIGINT), 0)
            FROM "@ + c.entries.sql_name_text() + " e
            LEFT JOIN "@ + c.accounts.sql_name_text() + " cg ON "@ + qualified("e"@, "oidcompteGeneral"@) + " = "@ + qualified("cg"@, "oid"@) + "
            "@ + crate::ledger::document_joins_text(c) + "
            WHERE TRY_CAST("@ + qualified("e"@, "eDate"@) + " AS DATE) BETWEEN "@ + sql_literal_seq(date_from) + " AND "@ + sql_literal_seq(date_to) + "
              AND "@ + text_or_empty_text(qualified("cg"@, "codeCompte"@), 64) + " <> ''
              "@ + account_filter_text(text_or_empty_text(qualified("cg"@, "codeCompte"@), 64), prefix), sage1000_grand_livre_running_balance_piece38(), seq![]);
    lemma_occurs_within(("
        WITH base AS (
            SELECT
                parsed_date = TRY_CAST("@ + qualified("e"@, "eDate"@) + " AS DATE),
                journal = "@ + crate::ledger::journal_expr_text(c) + ",
                account_no = "@ + text_or_empty_text(qualified("cg"@, "codeCompte"@), 64) + ",
                account_label = "@ + sage1000_account_label_text() + ",
                ref_piece = "@ + crate::ledger::ref_piece_expr_text(c) + ",
                lettrage = "@ + text_or_empty_text(qualified("e"@, "CodeLettrageExterne"@), 64) + ",
                debit = "@ + decimal_or_zero_text(qualified("e"@, "debit"@)) + ",
                credit = "@ + decimal_or_zero_text(qualified("e"@, "credit"@)) + ",
                entry_number = COALESCE(TRY_CAST("@ + qualified("e"@, "numero"@) + " AS BIGINT), 0)
            FROM "@ + c.entries.sql_name_text() + " e
            LEFT JOIN "@ + c.accounts.sql_name_text() + " cg ON "@ + qualified("e"@, "oidcompteGeneral"@) + " = "@ + qualified("cg"@, "oid"@) + "
            "@ + crate::ledger::document_joins_text(c) + "
            WHERE TRY_CAST("@ + qualified("e"@, "eDate"@) + " AS DATE) BETWEEN "@ + sql_literal_seq(date_from) + " AND "@ + sql_literal_seq(date_to) + "
              AND "@ + text_or_empty_text(qualified("cg"@, "codeCompte"@), 64) + " <> ''
              "@ + account_filter_text(text_or_empty_text(qualified("cg"@, "codeCompte"@), 64), prefix)) + sage1000_grand_livre_running_balance_piece38(), sage1000_grand_livre_running_balance_piece38(), "SUM(debit - credit) OVER (
                    PARTITION BY account_no
                    ORDER BY parsed_date"@, ("
        WITH base AS (
            SELECT
                parsed_date = TRY_CAST("@ + qualified("e"@, "eDate"@) + " AS DATE),
                journal = "@ + crate::ledger::journal_expr_text(c) + ",
                account_no = "@ + text_or_empty_text(qualified("cg"@, "codeCompte"@), 64) + ",
                account_label = "@ + sage1000_account_label_text() + ",
                ref_piece = "@ + crate::ledger::ref_piece_expr_text(c) + ",
                lettrage = "@ + text_or_empty_text(qualified("e"@, "CodeLettrageExterne"@), 64) + ",
                debit = "@ + decimal_or_zero_text(qualified("e"@, "debit"@)) + ",
                credit = "@ + decimal_or_zero_text(qualified("e"@, "credit"@)) + ",
                entry_number = COALESCE(TRY_CAST("@ + qualified("e"@, "numero"@) + " AS BIGINT), 0)
            FROM "@ + c.entries.sql_name_text() + " e
            LEFT JOIN "@ + c.accounts.sql_name_text() + " cg ON "@ + qualified("e"@, "oidcompteGeneral"@) + " = "@ + qualified("cg"@, "oid"@) + "
            "@ + crate::ledger::document_joins_text(c) + "
            WHERE TRY_CAST("@ + qualified("e"@, "eDate"@) + " AS DATE) BETWEEN "@ + sql_literal_seq(date_from) + " AND "@ + sql_literal_seq(date_to) + "
              AND "@ + text_or_empty_text(qualified("cg"@, "codeCompte"@), 64) + " <> ''
              "@ + account_filter_text(text_or_empty_text(qualified("cg"@, "codeCompte"@), 64), prefix)).len() as int, 314);
    lemma_occurs_in_prefix(t, ("
        WITH base AS (
            SELECT
                parsed_date = TRY_CAST("@ + qualified("e"@, "eDate"@) + " AS DATE),
                journal = "@ + crate::ledger::journal_expr_text(c) + ",
                account_no = "@ + text_or_empty_text(qualified("cg"@, "codeCompte"@), 64) + ",
                account_label = "@ + sage1000_account_label_text() + ",
                ref_piece = "@ + crate::ledger::ref_piece_expr_text(c) + ",
                lettrage = "@ + text_or_empty_text(qualified("e"@, "CodeLettrageExterne"@), 64) + ",
                debit = "@ + decimal_or_zero_text(qualified("e"@, "debit"@)) + ",
                credit = "@ + decimal_or_zero_text(qualified("e"@, "credit"@)) + ",
                entry_number = COALESCE(TRY_CAST("@ + qualified("e"@, "numero"@) + " AS BIGINT), 0)
            FROM "@ + c.entries.sql_name_text() + " e
            LEFT JOIN "@ + c.accounts.sql_name_text() + " cg ON "@ + qualified("e"@, "oidcompteGeneral"@) + " = "@ + qualified("cg"@, "oid"@) + "
            "@ + crate::ledger::document_joins_text(c) + "
            WHERE TRY_CAST("@ + qualified("e"@, "eDate"@) + " AS DATE) BETWEEN "@ + sql_literal_seq(date_from) + " AND "@ + sql_literal_seq(date_to) + "
              AND "@ + text_or_empty_text(qualified("cg"@, "codeCompte"@), 64) + " <> ''
              "@ + account_filter_text(text_or_empty_text(qualified("cg"@, "codeCompte"@), 64), prefix)) + sage1000_grand_livre_running_balance_piece38(), "SUM(debit - credit) OVER (
                    PARTITION BY account_no
                    ORDER BY parsed_date"@, (("
        WITH base AS (
            SELECT
                parsed_date = TRY_CAST("@ + qualified("e"@, "eDate"@) + " AS DATE),
                journal = "@ + crate::ledger::journal_expr_text(c) + ",
                account_no = "@ + text_or_empty_text(qualified("cg"@, "codeCompte"@), 64) + ",
                account_label = "@ + sage1000_account_label_text() + ",
                ref_piece = "@ + crate::ledger::ref_piece_expr_text(c) + ",
                lettrage = "@ + text_or_empty_text(qualified("e"@, "CodeLettrageExterne"@), 64) + ",
                debit = "@ + decimal_or_zero_text(qualified("e"@, "debit"@)) + ",
                credit = "@ + decimal_or_zero_text(qualified("e"@, "credit"@)) + ",
                entry_number = COALESCE(TRY_CAST("@ + qualified("e"@, "numero"@) + " AS BIGINT), 0)
            FROM "@ + c.entries.sql_name_text() + " e
            LEFT JOIN "@ + c.accounts.sql_name_text() + " cg ON "@ + qualified("e"@, "oidcompteGeneral"@) + " = "@ + qualified("cg"@, "oid"@) + "
            "@ + crate::ledger::document_joins_text(c) + "
            WHERE TRY_CAST("@ + qualified("e"@, "eDate"@) + " AS DATE) BETWEEN "@ + sql_literal_seq(date_from) + " AND "@ + sql_literal_seq(date_to) + "
              AND "@ + text_or_empty_text(qualified("cg"@, "codeCompte"@), 64) + " <> ''
              "@ + account_filter_text(text_or_empty_text(qualified("cg"@, "codeCompte"@), 64), prefix)).len() + 314) as int);
    assert(t.subrange(0, (("
        WITH base AS (
            SELECT
                parsed_date = TRY_CAST("@ + qualified("e"@, "eDate"@) + " AS DATE),
                journal = "@ + crate::ledger::journal_expr_text(c) + ",
                account_no = "@ + text_or_empty_text(qualified("cg"@, "codeCompte"@), 64) + ",
                account_label = "@ + sage1000_account_label_text() + ",
                ref_piece = "@ + crate::ledger::ref_piece_expr_text(c) + ",
                lettrage = "@ + text_or_empty_text(qualified("e"@, "CodeLettrageExterne"@), 64) + ",
                debit = "@ + decimal_or_zero_text(qualified("e"@, "debit"@)) + ",
                credit = "@ + decimal_or_zero_text(qualified("e"@, "credit"@)) + ",
                entry_number = COALESCE(TRY_CAST("@ + qualified("e"@, "numero"@) + " AS BIGINT), 0)
            FROM "@ + c.entries.sql_name_text() + " e
            LEFT JOIN "@ + c.accounts.sql_name_text() + " cg ON "@ + qualified("e"@, "oidcompteGeneral"@) + " = "@ + qualified("cg"@, "oid"@) + "
            "@ + crate::ledger::document_joins_text(c) + "
            WHERE TRY_CAST("@ + qualified("e"@, "eDate"@) + " AS DATE) BETWEEN "@ + sql_literal_seq(date_from) + " AND "@ + sql_literal_seq(date_to) + "
              AND "@ + text_or_empty_text(qualified("cg"@, "codeCompte"@), 64) + " <> ''
              "@ + account_filter_text(text_or_empty_text(qualified("cg"@, "codeCompte"@), 64), prefix)) + sage1000_grand_livre_running_balance_piece38()).len() as int) == ("
        WITH base AS (
            SELECT
                parsed_date = TRY_CAST("@ + qualified("e"@, "eDate"@) + " AS DATE),
                journal = "@ + crate::ledger::journal_expr_text(c) + ",
                account_no = "@ + text_or_empty_text(qualified("cg"@, "codeCompte"@), 64) + ",
                account_label = "@ + sage1000_account_label_text() + ",
                ref_piece = "@ + crate::ledger::ref_piece_expr_text(c) + ",
                lettrage = "@ + text_or_empty_text(qualified("e"@, "CodeLettrageExterne"@), 64) + ",
                debit = "@ + decimal_or_zero_text(qualified("e"@, "debit"@)) + ",
                credit = "@ + decimal_or_zero_text(qualified("e"@, "credit"@)) + ",
                entry_number = COALESCE(TRY_CAST("@ + qualified("e"@, "numero"@) + " AS BIGINT), 0)
            FROM "@ + c.entries.sql_name_text() + " e
            LEFT JOIN "@ + c.accounts.sql_name_text() + " cg ON "@ + qualified("e"@, "oidcompteGeneral"@) + " = "@ + qualified("cg"@, "oid"@) + "
            "@ + crate::ledger::document_joins_text(c) + "
            WHERE TRY_CAST("@ + qualified("e"@, "eDate"@) + " AS DATE) BETWEEN "@ + sql_literal_seq(date_from) + " AND "@ + sql_literal_seq(date_to) + "
              AND "@ + text_or_empty_text(qualified("cg"@, "codeCompte"@), 64) + " <> ''
              "@ + account_filter_text(text_or_empty_text(qualified("cg"@, "codeCompte"@), 64), prefix)) + sage1000_grand_livre_running_balance_piece38()) by {
        assert(t.subrange(0, (("
        WITH base AS (
            SELECT
                parsed_date = TRY_CAST("@ + qualified("e"@, "eDate"@) + " AS DATE),
                journal = "@ + crate::ledger::journal_expr_text(c) + ",
                account_no = "@ + text_or_empty_text(qualified("cg"@, "codeCompte"@), 64) + ",
                account_label = "@ + sage1000_account_label_text() + ",
                ref_piece = "@ + crate::ledger::ref_piece_expr_text(c) + ",
                lettrage = "@ + text_or_empty_text(qualified("e"@, "CodeLettrageExterne"@), 64) + ",
                debit = "@ + decimal_or_zero_text(qualified("e"@, "debit"@)) + ",
                credit = "@ + decimal_or_zero_text(qualified("e"@, "credit"@)) + ",
                entry_number = COALESCE(TRY_CAST("@ + qualified("e"@, "numero"@) + " AS BIGINT), 0)
            FROM "@ + c.entries.sql_name_text() + " e
            LEFT JOIN "@ + c.accounts.sql_name_text() + " cg ON "@ + qualified("e"@, "oidcompteGeneral"@) + " = "@ + qualified("cg"@, "oid"@) + "
            "@ + crate::ledger::document_joins_text(c) + "
            WHERE TRY_CAST("@ + qualified("e"@, "eDate"@) + " AS DATE) BETWEEN "@ + sql_literal_seq(date_from) + " AND "@ + sql_literal_seq(date_to) + "
              AND "@ + text_or_empty_text(qualified("cg"@, "codeCompte"@), 64) + " <> ''
              "@ + account_filter_text(text_or_empty_text(qualified("cg"@, "codeCompte"@), 64), prefix)) + sage1000_grand_livre_running_balance_piece38()).len() as int) =~= ("
        WITH base AS (
            SELECT
                parsed_date = TRY_CAST("@ + qualified("e"@, "eDate"@) + " AS DATE),
                journal = "@ + crate::ledger::journal_expr_text(c) + ",
                account_no = "@ + text_or_empty_text(qualified("cg"@, "codeCompte"@), 64) + ",
                account_label = "@ + sage1000_account_label_text() + ",
                ref_piece = "@ + crate::ledger::ref_piece_expr_text(c) + ",
                lettrage = "@ + text_or_empty_text(qualified("e"@, "CodeLettrageExterne"@), 64) + ",
                debit = "@ + decimal_or_zero_text(qualified("e"@, "debit"@)) + ",
                credit = "@ + decimal_or_zero_text(qualified("e"@, "credit"@)) + ",
                entry_number = COALESCE(TRY_CAST("@ + qualified("e"@, "numero"@) + " AS BIGINT), 0)
            FROM "@ + c.entries.sql_name_text() + " e
            LEFT JOIN "@ + c.accounts.sql_name_text() + " cg ON "@ + qualified("e"@, "oidcompteGeneral"@) + " = "@ + qualified("cg"@, "oid"@) + "
            "@ + crate::ledger::document_joins_text(c) + "
            WHERE TRY_CAST("@ + qualified("e"@, "eDate"@) + " AS DATE) BETWEEN "@ + sql_literal_seq(date_from) + " AND "@ + sql_literal_seq(date_to) + "
              AND "@ + text_or_empty_text(qualified("cg"@, "codeCompte"@), 64) + " <> ''
              "@ + account_filter_text(text_or_empty_text(qualified("cg"@, "codeCompte"@), 64), prefix)) + sage1000_grand_livre_running_balance_piece38());
    }
    assert(("
        WITH base AS (
            SELECT
                parsed_date = TRY_CAST("@ + qualified("e"@, "eDate"@) + " AS DATE),
                journal = "@ + crate::ledger::journal_expr_text(c) + ",
                account_no = "@ + text_or_empty_text(qualified("cg"@, "codeCompte"@), 64) + ",
                account_label = "@ + sage1000_account_label_text() + ",
                ref_piece = "@ + crate::ledger::ref_piece_expr_text(c) + ",
                lettrage = "@ + text_or_empty_text(qualified("e"@, "CodeLettrageExterne"@), 64) + ",
                debit = "@ + decimal_or_zero_text(qualified("e"@, "debit"@)) + ",
                credit = "@ + decimal_or_zero_text(qualified("e"@, "credit"@)) + ",
                entry_number = COALESCE(TRY_CAST("@ + qualified("e"@, "numero"@) + " AS BIGINT), 0)
            FROM "@ + c.entries.sql_name_text() + " e
            LEFT JOIN "@ + c.accounts.sql_name_text() + " cg ON "@ + qualified("e"@, "oidcompteGeneral"@) + " = "@ + qualified("cg"@, "oid"@) + "
            "@ + crate::ledger::document_joins_text(c) + "
            WHERE TRY_CAST("@ + qualified("e"@, "eDate"@) + " AS DATE) BETWEEN "@ + sql_literal_seq(date_from) + " AND "@ + sql_literal_seq(date_to) + "
              AND "@ + text_or_empty_text(qualified("cg"@, "codeCompte"@), 64) + " <> ''
              "@ + account_filter_text(text_or_empty_text(qualified("cg"@, "codeCompte"@), 64), prefix)) + sage1000_grand_livre_running_balance_piece38() =~= ("
        WITH base AS (
            SELECT
                parsed_date = TRY_CAST("@ + qualified("e"@, "eDate"@) + " AS DATE),
                journal = "@ + crate::ledger::journal_expr_text(c) + ",
                account_no = "@ + text_or_empty_text(qualified("cg"@, "codeCompte"@), 64) + ",
                account_label = "@ + sage1000_account_label_text() + ",
                ref_piece = "@ + crate::ledger::ref_piece_expr_text(c) + ",
                lettrage = "@ + text_or_empty_text(qualified("e"@, "CodeLettrageExterne"@), 64) + ",
                debit = "@ + decimal_or_zero_text(qualified("e"@, "debit"@)) + ",
                credit = "@ + decimal_or_zero_text(qualified("e"@, "credit"@)) + ",
                entry_number = COALESCE(TRY_CAST("@ + qualified("e"@, "numero"@) + " AS BIGINT), 0)
            FROM "@ + c.entries.sql_name_text() + " e
            LEFT JOIN "@ + c.accounts.sql_name_text() + " cg ON "@ + qualified("e"@, "oidcompteGeneral"@) + " = "@ + qualified("cg"@, "oid"@) + "
            "@ + crate::ledger::document_joins_text(c) + "
            WHERE TRY_CAST("@ + qualified("e"@, "eDate"@) + " AS DATE) BETWEEN "@ + sql_literal_seq(date_from) + " AND "@ + sql_literal_seq(date_to) + "
              AND "@ + text_or_empty_text(qualified("cg"@, "codeCompte"@), 64) + " <> ''
              "@ + account_filter_text(text_or_empty_text(qualified("cg"@, "codeCompte"@), 64), prefix)) + sage1000_grand_livre_running_balance_piece38() + seq![]);
    lemma_occurs_between(("
        WITH base AS (
            SELECT
                parsed_date = TRY_CAST("@ + qualified("e"@, "eDate"@) + " AS DATE),
                journal = "@ + crate::ledger::journal_expr_text(c) + ",
                account_no = "@ + text_or_empty_text(qualified("cg"@, "codeCompte"@), 64) + ",
                account_label = "@ + sage1000_account_label_text() + ",
                ref_piece = "@ + crate::ledger::ref_piece_expr_text(c) + ",
                lettrage = "@ + text_or_empty_text(qualified("e"@, "CodeLettrageExterne"@), 64) + ",
                debit = "@ + decimal_or_zero_text(qualified("e"@, "debit"@)) + ",
                credit = "@ + decimal_or_zero_text(qualified("e"@, "credit"@)) + ",
                entry_number = COALESCE(TRY_CAST("@ + qualified("e"@, "numero"@) + " AS BIGINT), 0)
            FROM "@ + c.entries.sql_name_text() + " e
            LEFT JOIN "@ + c.accounts.sql_name_text() + " cg ON "@ + qualified("e"@, "oidcompteGeneral"@) + " = "@ + qualified("cg"@, "oid"@) + "
            "@ + crate::ledger::document_joins_text(c) + "
            WHERE TRY_CAST("@ + qualified("e"@, "eDate"@) + " AS DATE) BETWEEN "@ + sql_literal_seq(date_from) + " AND "@ + sql_literal_seq(date_to) + "
              AND "@ + text_or_empty_text(qualified("cg"@, "codeCompte"@), 64) + " <> ''
              "@ + account_filter_text(text_or_empty_text(qualified("cg"@, "codeCompte"@), 64), prefix)) + sage1000_grand_livre_running_balance_piece38(), "
        WITH base AS (
            SELECT
                parsed_date = TRY_CAST("@ + qualified("e"@, "eDate"@) + " AS DATE),
                journal = "@ + crate::ledger::journal_expr_text(c) + ",
                account_no = "@ + text_or_empty_text(qualified("cg"@, "codeCompte"@), 64) + ",
                account_label = "@ + sage1000_account_label_text() + ",
                ref_piece = "@ + crate::ledger::ref_piece_expr_text(c) + ",
                lettrage = "@ + text_or_empty_text(qualified("e"@, "CodeLettrageExterne"@), 64) + ",
                debit = "@ + decimal_or_zero_text(qualified("e"@, "debit"@)) + ",
                credit = "@ + decimal_or_zero_text(qualified("e"@, "credit"@)) + ",
                entry_number = COALESCE(TRY_CAST("@ + qualified("e"@, "numero"@) + " AS BIGINT), 0)
            FROM "@ + c.entries.sql_name_text() + " e
            LEFT JOIN "@ + c.accounts.sql_name_text() + " cg ON "@ + qualified("e"@, "oidcompteGeneral"@) + " = "@ + qualified("cg"@, "oid"@) + "
            "@ + crate::ledger::document_joins_text(c) + "
            WHERE TRY_CAST("@ + qualified("e"@, "eDate"@) + " AS DATE) BETWEEN "@ + sql_literal_seq(date_from) + " AND "@ + sql_literal_seq(date_to) + "
              AND "@ + text_or_empty_text(qualified("cg"@, "codeCompte"@), 64) + " <> ''
              "@ + account_filter_text(text_or_empty_text(qualified("cg"@, "codeCompte"@), 64), prefix), sage1000_grand_livre_running_balance_piece38(), seq![]);
    lemma_occurs_within(("
        WITH base AS (
            SELECT
                parsed_date = TRY_CAST("@ + qualified("e"@, "eDate"@) + " AS DATE),
                journal = "@ + crate::ledger::journal_expr_text(c) + ",
                account_no = "@ + text_or_empty_text(qualified("cg"@, "codeCompte"@), 64) + ",
                account_label = "@ + sage1000_account_label_text() + ",
                ref_piece = "@ + crate::ledger::ref_piece_expr_text(c) + ",
                lettrage = "@ + text_or_empty_text(qualified("e"@, "CodeLettrageExterne"@), 64) + ",
                debit = "@ + decimal_or_zero_text(qualified("e"@, "debit"@)) + ",
                credit = "@ + decimal_or_zero_text(qualified("e"@, "credit"@)) + ",
                entry_number = COALESCE(TRY_CAST("@ + qualified("e"@, "numero"@) + " AS BIGINT), 0)
            FROM "@ + c.entries.sql_name_text() + " e
            LEFT JOIN "@ + c.accounts.sql_name_text() + " cg ON "@ + qualified("e"@, "oidcompteGeneral"@) + " = "@ + qualified("cg"@, "oid"@) + "
            "@ + crate::ledger::document_joins_text(c) + "
            WHERE TRY_CAST("@ + qualified("e"@, "eDate"@) + " AS DATE) BETWEEN "@ + sql_literal_seq(date_from) + " AND "@ + sql_literal_seq(date_to) + "
              AND "@ + text_or_empty_text(qualified("cg"@, "codeCompte"@), 64) + " <> ''
              "@ + account_filter_text(text_or_empty_text(qualified("cg"@, "codeCompte"@), 64), prefix)) + sage1000_grand_livre_running_balance_piece38(), sage1000_grand_livre_running_balance_piece38(), "SUM(debit) AS total_debit,
                SUM(credit) AS total_credit,
                SUM(debit - credit) AS solde"@, ("
        WITH base AS (
            SELECT
                parsed_date = TRY_CAST("@ + qualified("e"@, "eDate"@) + " AS DATE),
                journal = "@ + crate::ledger::journal_expr_text(c) + ",
                account_no = "@ + text_or_empty_text(qualified("cg"@, "codeCompte"@), 64) + ",
                account_label = "@ + sage1000_account_label_text() + ",
                ref_piece = "@ + crate::ledger::ref_piece_expr_text(c) + ",
                lettrage = "@ + text_or_empty_text(qualified("e"@, "CodeLettrageExterne"@), 64) + ",
                debit = "@ + decimal_or_zero_text(qualified("e"@, "debit"@)) + ",
                credit = "@ + decimal_or_zero_text(qualified("e"@, "credit"@)) + ",
                entry_number = COALESCE(TRY_CAST("@ + qualified("e"@, "numero"@) + " AS BIGINT), 0)
            FROM "@ + c.entries.sql_name_text() + " e
            LEFT JOIN "@ + c.accounts.sql_name_text() + " cg ON "@ + qualified("e"@, "oidcompteGeneral"@) + " = "@ + qualified("cg"@, "oid"@) + "
            "@ + crate::ledger::document_joins_text(c) + "
            WHERE TRY_CAST("@ + qualified("e"@, "eDate"@) + " AS DATE) BETWEEN "@ + sql_literal_seq(date_from) + " AND "@ + sql_literal_seq(date_to) + "
              AND "@ + text_or_empty_text(qualified("cg"@, "codeCompte"@), 64) + " <> ''
              "@ + account_filter_text(text_or_empty_text(qualified("cg"@, "codeCompte"@), 64), prefix)).len() as int, 1330);
    lemma_occurs_in_prefix(t, ("
        WITH base AS (
            SELECT
                parsed_date = TRY_CAST("@ + qualified("e"@, "eDate"@) + " AS DATE),
                journal = "@ + crate::ledger::journal_expr_text(c) + ",
                account_no = "@ + text_or_empty_text(qualified("cg"@, "codeCompte"@), 64) + ",
                account_label = "@ + sage1000_account_label_text() + ",
                ref_piece = "@ + crate::ledger::ref_piece_expr_text(c) + ",
                lettrage = "@ + text_or_empty_text(qualified("e"@, "CodeLettrageExterne"@), 64) + ",
                debit = "@ + decimal_or_zero_text(qualified("e"@, "debit"@)) + ",
                credit = "@ + decimal_or_zero_text(qualified("e"@, "credit"@)) + ",
                entry_number = COALESCE(TRY_CAST("@ + qualified("e"@, "numero"@) + " AS BIGINT), 0)
            FROM "@ + c.entries.sql_name_text() + " e
            LEFT JOIN "@ + c.accounts.sql_name_text() + " cg ON "@ + qualified("e"@, "oidcompteGeneral"@) + " = "@ + qualified("cg"@, "oid"@) + "
            "@ + crate::ledger::document_joins_text(c) + "
            WHERE TRY_CAST("@ + qualified("e"@, "eDate"@) + " AS DATE) BETWEEN "@ + sql_literal_seq(date_from) + " AND "@ + sql_literal_seq(date_to) + "
              AND "@ + text_or_empty_text(qualified("cg"@, "codeCompte"@), 64) + " <> ''
              "@ + account_filter_text(text_or_empty_text(qualified("cg"@, "codeCompte"@), 64), prefix)) + sage1000_grand_livre_running_balance_piece38(), "SUM(debit) AS total_debit,
                SUM(credit) AS total_credit,
                SUM(debit - credit) AS solde"@, (("
        WITH base AS (
            SELECT
                parsed_date = TRY_CAST("@ + qualified("e"@, "eDate"@) + " AS DATE),
                journal = "@ + crate::ledger::journal_expr_text(c) + ",
                account_no = "@ + text_or_empty_text(qualified("cg"@, "codeCompte"@), 64) + ",
                account_label = "@ + sage1000_account_label_text() + ",
                ref_piece = "@ + crate::ledger::ref_piece_expr_text(c) + ",
                lettrage = "@ + text_or_empty_text(qualified("e"@, "CodeLettrageExterne"@), 64) + ",
                debit = "@ + decimal_or_zero_text(qualified("e"@, "debit"@)) + ",
                credit = "@ + decimal_or_zero_text(qualified("e"@, "credit"@)) + ",
                entry_number = COALESCE(TRY_CAST("@ + qualified("e"@, "numero"@) + " AS BIGINT), 0)
            FROM "@ + c.entries.sql_name_text() + " e
            LEFT JOIN "@ + c.accounts.sql_name_text() + " cg ON "@ + qualified("e"@, "oidcompteGeneral"@) + " = "@ + qualified("cg"@, "oid"@) + "
            "@ + crate::ledger::document_joins_text(c) + "
            WHERE TRY_CAST("@ + qualified("e"@, "eDate"@) + " AS DATE) BETWEEN "@ + sql_literal_seq(date_from) + " AND "@ + sql_literal_seq(date_to) + "
              AND "@ + text_or_empty_text(qualified("cg"@, "codeCompte"@), 64) + " <> ''
              "@ + account_filter_text(text_or_empty_text(qualified("cg"@, "codeCompte"@), 64), prefix)).len() + 1330) as int);
}

pub open spec fn auxiliary_running_balance_piece40() -> Seq<char> {
    "
        ),
        ranked AS (
            SELECT
                account_no,
                account_label,
                tiers_code,
                tiers_name,
                CONVERT(char(10), parsed_date, 103) AS [date],
                journal,
                description,
                ref_piece,
                lettrage,
                debit,
                credit,
                SUM(debit - credit) OVER (
                    PARTITION BY tiers_code
                    ORDER BY account_no, parsed_date, journal, ref_piece, description
                    ROWS UNBOUNDED PRECEDING
                ) AS running_balance,
                ROW_NUMBER() OVER (
                    PARTITION BY tiers_code
                    ORDER BY account_no, parsed_date, journal, ref_piece, description
                ) AS sort_row
            FROM base
            WHERE parsed_date IS NOT NULL
        ),
        totals AS (
            SELECT
                MAX(account_no) AS account_no,
                MAX(account_label) AS account_label,
                tiers_code,
                MAX(tiers_name) AS tiers_name,
                CAST(NULL AS NVARCHAR(10)) AS [date],
                CAST(NULL AS NVARCHAR(64)) AS journal,
                CAST(NULL AS NVARCHAR(255)) AS description,
                CAST(NULL AS NVARCHAR(128)) AS ref_piece,
                CAST(NULL AS NVARCHAR(64)) AS lettrage,
                SUM(debit) AS debit,
                SUM(credit) AS credit,
                SUM(debit - credit) AS running_balance,
                CAST(1 AS BIT) AS is_total_row,
                2147483647 AS sort_row
            FROM base
            WHERE parsed_date IS NOT NULL
            GROUP BY tiers_code
        )
        SELECT
            account_no,
            account_label,
            tiers_code,
            tiers_name,
            [date],
            journal,
            description,
            ref_piece,
            lettrage,
            debit,
            credit,
            running_balance,
            is_total_row
        FROM (
            SELECT
                account_no,
                account_label,
                tiers_code,
                tiers_name,
                [date],
                journal,
                description,
                ref_piece,
                lettrage,
                debit,
                credit,
                running_balance,
                CAST(0 AS BIT) AS is_total_row,
                sort_row
            FROM ranked
            UNION ALL
            SELECT
                account_no,
                account_label,
                tiers_code,
                tiers_name,
                [date],
                journal,
                description,
                ref_piece,
                lettrage,
                debit,
                credit,
                running_balance,
                is_total_row,
                sort_row
            FROM totals
        ) gl_aux
        ORDER BY account_no, tiers_code, sort_row
        "@
}

proof fn lemma_auxiliary_running_balance_literals()
    ensures
        occurs_at(auxiliary_running_balance_piece40(), "SUM(debit - credit) OVER (
                    PARTITION BY tiers_code"@, 399),
{
    reveal_strlit("
        ),
        ranked AS (
            SELECT
                account_no,
                account_label,
                tiers_code,
                tiers_name,
                CONVERT(char(10), parsed_date, 103) AS [date],
                journal,
                description,
                ref_piece,
                lettrage,
                debit,
                credit,
                SUM(debit - credit) OVER (
                    PARTITION BY tiers_code
                    ORDER BY account_no, parsed_date, journal, ref_piece, description
                    ROWS UNBOUNDED PRECEDING
                ) AS running_balance,
                ROW_NUMBER() OVER (
                    PARTITION BY tiers_code
                    ORDER BY account_no, parsed_date, journal, ref_piece, description
                ) AS sort_row
            FROM base
            WHERE parsed_date IS NOT NULL
        ),
        totals AS (
            SELECT
                MAX(account_no) AS account_no,
                MAX(account_label) AS account_label,
                tiers_code,
                MAX(tiers_name) AS tiers_name,
                CAST(NULL AS NVARCHAR(10)) AS [date],
                CAST(NULL AS NVARCHAR(64)) AS journal,
                CAST(NULL AS NVARCHAR(255)) AS description,
                CAST(NULL AS NVARCHAR(128)) AS ref_piece,
                CAST(NULL AS NVARCHAR(64)) AS lettrage,
                SUM(debit) AS debit,
                SUM(credit) AS credit,
                SUM(debit - credit) AS running_balance,
                CAST(1 AS BIT) AS is_total_row,
                2147483647 AS sort_row
            FROM base
            WHERE parsed_date IS NOT NULL
            GROUP BY tiers_code
        )
        SELECT
            account_no,
            account_label,
            tiers_code,
            tiers_name,
            [date],
            journal,
            description,
            ref_piece,
            lettrage,
            debit,
            credit,
            running_balance,
            is_total_row
        FROM (
            SELECT
                account_no,
                account_label,
                tiers_code,
                tiers_name,
                [date],
                journal,
                description,
                ref_piece,
                lettrage,
                debit,
                credit,
                running_balance,
                CAST(0 AS BIT) AS is_total_row,
                sort_row
            FROM ranked
            UNION ALL
            SELECT
                account_no,
                account_label,
                tiers_code,
                tiers_name,
                [date],
                journal,
                description,
                ref_piece,
                lettrage,
                debit,
                credit,
                running_balance,
                is_total_row,
                sort_row
            FROM totals
        ) gl_aux
        ORDER BY account_no, tiers_code, sort_row
        ");
    reveal_strlit("SUM(debit - credit) OVER (
                    PARTITION BY tiers_code");
    assert(auxiliary_running_balance_piece40().subrange(399, (399 + "SUM(debit - credit) OVER (
                    PARTITION BY tiers_code"@.len()) as int) =~= "SUM(debit - credit) OVER (
                    PARTITION BY tiers_code"@);
}

/// The auxiliary ledger runs each third party's balance as debit less
/// credit.
#[verifier::rlimit(100)]
#[verifier::spinoff_prover]
pub proof fn lemma_auxiliary_running_balance(e: EntryContext, tiers_code_col: Seq<char>, account_lookup: Option<LookupContext>, tiers_lookup: Option<LookupContext>, kind: TiersKind, date_from: Seq<char>, date_to: Seq<char>, prefix: Option<Seq<char>>)
    ensures
        occurs_in(auxiliary_ledger_query_text(e, tiers_code_col, account_lookup, tiers_lookup, kind, date_from, date_to, prefix), "SUM(debit - credit) OVER (
                    PARTITION BY tiers_code"@),
{
    let t = auxiliary_ledger_query_text(e, tiers_code_col, account_lookup, tiers_lookup, kind, date_from, date_to, prefix);
    lemma_auxiliary_running_balance_literals();
    assert(t.subrange(0, (("
        WITH base AS (
            SELECT
                parsed_date = "@ + parsed_date_text(e) + ",
                account_no = "@ + account_no_text(e) + ",
                account_label = "@ + account_label_text(e, account_lookup) + ",
                tiers_code = "@ + tiers_code_text(tiers_code_col) + ",
                tiers_name = "@ + tiers_name_text(tiers_lookup) + ",
                journal = "@ + optional_text_column(e.journal_col, 64) + ",
                description = "@ + optional_text_column(e.description_col, 255) + ",
                ref_piece = "@ + optional_text_column(e.ref_piece_col, 128) + ",
                lettrage = "@ + optional_text_column(e.lettrage_col, 64) + ",
                debit = "@ + e.debit_expr@ + ",
                credit = "@ + e.credit_expr@ + "
            FROM "@ + e.table.sql_name_text() + " e
            "@ + account_join_text(e, account_lookup) + "
            "@ + tiers_join_text(tiers_code_col, tiers_lookup) + "
            WHERE "@ + parsed_date_text(e) + " BETWEEN "@ + sql_literal_seq(date_from) + " AND "@ + sql_literal_seq(date_to) + "
              AND "@ + kind_filter_text(account_no_text(e), tiers_lookup, kind) + "
              AND "@ + tiers_code_text(tiers_code_col) + " <> ''
              "@ + account_filter_text(account_no_text(e), prefix)) + auxiliary_running_balance_piece40()).len() as int) == ("
        WITH base AS (
            SELECT
                parsed_date = "@ + parsed_date_text(e) + ",
                account_no = "@ + account_no_text(e) + ",
                account_label = "@ + account_label_text(e, account_lookup) + ",
                tiers_code = "@ + tiers_code_text(tiers_code_col) + ",
                tiers_name = "@ + tiers_name_text(tiers_lookup) + ",
                journal = "@ + optional_text_column(e.journal_col, 64) + ",
                description = "@ + optional_text_column(e.description_col, 255) + ",
                ref_piece = "@ + optional_text_column(e.ref_piece_col, 128) + ",
                lettrage = "@ + optional_text_column(e.lettrage_col, 64) + ",
                debit = "@ + e.debit_expr@ + ",
                credit = "@ + e.credit_expr@ + "
            FROM "@ + e.table.sql_name_text() + " e
            "@ + account_join_text(e, account_lookup) + "
            "@ + tiers_join_text(tiers_code_col, tiers_lookup) + "
            WHERE "@ + parsed_date_text(e) + " BETWEEN "@ + sql_literal_seq(date_from) + " AND "@ + sql_literal_seq(date_to) + "
              AND "@ + kind_filter_text(account_no_text(e), tiers_lookup, kind) + "
              AND "@ + tiers_code_text(tiers_code_col) + " <> ''
              "@ + account_filter_text(account_no_text(e), prefix)) + auxiliary_running_balance_piece40()) by {
        assert(t.subrange(0, (("
        WITH base AS (
            SELECT
                parsed_date = "@ + parsed_date_text(e) + ",
                account_no = "@ + account_no_text(e) + ",
                account_label = "@ + account_label_text(e, account_lookup) + ",
                tiers_code = "@ + tiers_code_text(tiers_code_col) + ",
                tiers_name = "@ + tiers_name_text(tiers_lookup) + ",
                journal = "@ + optional_text_column(e.journal_col, 64) + ",
                description = "@ + optional_text_column(e.description_col, 255) + ",
                ref_piece = "@ + optional_text_column(e.ref_piece_col, 128) + ",
                lettrage = "@ + optional_text_column(e.lettrage_col, 64) + ",
                debit = "@ + e.debit_expr@ + ",
                credit = "@ + e.credit_expr@ + "
            FROM "@ + e.table.sql_name_text() + " e
            "@ + account_join_text(e, account_lookup) + "
            "@ + tiers_join_text(tiers_code_col, tiers_lookup) + "
            WHERE "@ + parsed_date_text(e) + " BETWEEN "@ + sql_literal_seq(date_from) + " AND "@ + sql_literal_seq(date_to) + "
              AND "@ + kind_filter_text(account_no_text(e), tiers_lookup, kind) + "
              AND "@ + tiers_code_text(tiers_code_col) + " <> ''
              "@ + account_filter_text(account_no_text(e), prefix)) + auxiliary_running_balance_piece40()).len() as int) =~= ("
        WITH base AS (
            SELECT
                parsed_date = "@ + parsed_date_text(e) + ",
                account_no = "@ + account_no_text(e) + ",
                account_label = "@ + account_label_text(e, account_lookup) + ",
                tiers_code = "@ + tiers_code_text(tiers_code_col) + ",
                tiers_name = "@ + tiers_name_text(tiers_lookup) + ",
                journal = "@ + optional_text_column(e.journal_col, 64) + ",
                description = "@ + optional_text_column(e.description_col, 255) + ",
                ref_piece = "@ + optional_text_column(e.ref_piece_col, 128) + ",
                lettrage = "@ + optional_text_column(e.lettrage_col, 64) + ",
                debit = "@ + e.debit_expr@ + ",
                credit = "@ + e.credit_expr@ + "
            FROM "@ + e.table.sql_name_text() + " e
            "@ + account_join_text(e, account_lookup) + "
            "@ + tiers_join_text(tiers_code_col, tiers_lookup) + "
            WHERE "@ + parsed_date_text(e) + " BETWEEN "@ + sql_literal_seq(date_from) + " AND "@ + sql_literal_seq(date_to) + "
              AND "@ + kind_filter_text(account_no_text(e), tiers_lookup, kind) + "
              AND "@ + tiers_code_text(tiers_code_col) + " <> ''
              "@ + account_filter_text(account_no_text(e), prefix)) + auxiliary_running_balance_piece40());
    }
    assert(("
        WITH base AS (
            SELECT
                parsed_date = "@ + parsed_date_text(e) + ",
                account_no = "@ + account_no_text(e) + ",
                account_label = "@ + account_label_text(e, account_lookup) + ",
                tiers_code = "@ + tiers_code_text(tiers_code_col) + ",
                tiers_name = "@ + tiers_name_text(tiers_lookup) + ",
                journal = "@ + optional_text_column(e.journal_col, 64) + ",
                description = "@ + optional_text_column(e.description_col, 255) + ",
                ref_piece = "@ + optional_text_column(e.ref_piece_col, 128) + ",
                lettrage = "@ + optional_text_column(e.lettrage_col, 64) + ",
                debit = "@ + e.debit_expr@ + ",
                credit = "@ + e.credit_expr@ + "
            FROM "@ + e.table.sql_name_text() + " e
            "@ + account_join_text(e, account_lookup) + "
            "@ + tiers_join_text(tiers_code_col, tiers_lookup) + "
            WHERE "@ + parsed_date_text(e) + " BETWEEN "@ + sql_literal_seq(date_from) + " AND "@ + sql_literal_seq(date_to) + "
              AND "@ + kind_filter_text(account_no_text(e), tiers_lookup, kind) + "
              AND "@ + tiers_code_text(tiers_code_col) + " <> ''
              "@ + account_filter_text(account_no_text(e), prefix)) + auxiliary_running_balance_piece40() =~= ("
        WITH base AS (
            SELECT
                parsed_date = "@ + parsed_date_text(e) + ",
                account_no = "@ + account_no_text(e) + ",
                account_label = "@ + account_label_text(e, account_lookup) + ",
                tiers_code = "@ + tiers_code_text(tiers_code_col) + ",
                tiers_name = "@ + tiers_name_text(tiers_lookup) + ",
                journal = "@ + optional_text_column(e.journal_col, 64) + ",
                description = "@ + optional_text_column(e.description_col, 255) + ",
                ref_piece = "@ + optional_text_column(e.ref_piece_col, 128) + ",
                lettrage = "@ + optional_text_column(e.lettrage_col, 64) + ",
                debit = "@ + e.debit_expr@ + ",
                credit = "@ + e.credit_expr@ + "
            FROM "@ + e.table.sql_name_text() + " e
            "@ + account_join_text(e, account_lookup) + "
            "@ + tiers_join_text(tiers_code_col, tiers_lookup) + "
            WHERE "@ + parsed_date_text(e) + " BETWEEN "@ + sql_literal_seq(date_from) + " AND "@ + sql_literal_seq(date_to) + "
              AND "@ + kind_filter_text(account_no_text(e), tiers_lookup, kind) + "
              AND "@ + tiers_code_text(tiers_code_col) + " <> ''
              "@ + account_filter_text(account_no_text(e), prefix)) + auxiliary_running_balance_piece40() + seq![]);
    lemma_occurs_between(("
        WITH base AS (
            SELECT
                parsed_date = "@ + parsed_date_text(e) + ",
                account_no = "@ + account_no_text(e) + ",
                account_label = "@ + account_label_text(e, account_lookup) + ",
                tiers_code = "@ + tiers_code_text(tiers_code_col) + ",
                tiers_name = "@ + tiers_name_text(tiers_lookup) + ",
                journal = "@ + optional_text_column(e.journal_col, 64) + ",
                description = "@ + optional_text_column(e.description_col, 255) + ",
                ref_piece = "@ + optional_text_column(e.ref_piece_col, 128) + ",
                lettrage = "@ + optional_text_column(e.lettrage_col, 64) + ",
                debit = "@ + e.debit_expr@ + ",
                credit = "@ + e.credit_expr@ + "
            FROM "@ + e.table.sql_name_text() + " e
            "@ + account_join_text(e, account_lookup) + "
            "@ + tiers_join_text(tiers_code_col, tiers_lookup) + "
            WHERE "@ + parsed_date_text(e) + " BETWEEN "@ + sql_literal_seq(date_from) + " AND "@ + sql_literal_seq(date_to) + "
              AND "@ + kind_filter_text(account_no_text(e), tiers_lookup, kind) + "
              AND "@ + tiers_code_text(tiers_code_col) + " <> ''
              "@ + account_filter_text(account_no_text(e), prefix)) + auxiliary_running_balance_piece40(), "
        WITH base AS (
            SELECT
                parsed_date = "@ + parsed_date_text(e) + ",
                account_no = "@ + account_no_text(e) + ",
                account_label = "@ + account_label_text(e, account_lookup) + ",
                tiers_code = "@ + tiers_code_text(tiers_code_col) + ",
                tiers_name = "@ + tiers_name_text(tiers_lookup) + ",
                journal = "@ + optional_text_column(e.journal_col, 64) + ",
                description = "@ + optional_text_column(e.description_col, 255) + ",
                ref_piece = "@ + optional_text_column(e.ref_piece_col, 128) + ",
                lettrage = "@ + optional_text_column(e.lettrage_col, 64) + ",
                debit = "@ + e.debit_expr@ + ",
                credit = "@ + e.credit_expr@ + "
            FROM "@ + e.table.sql_name_text() + " e
            "@ + account_join_text(e, account_lookup) + "
            "@ + tiers_join_text(tiers_code_col, tiers_lookup) + "
            WHERE "@ + parsed_date_text(e) + " BETWEEN "@ + sql_literal_seq(date_from) + " AND "@ + sql_literal_seq(date_to) + "
              AND "@ + kind_filter_text(account_no_text(e), tiers_lookup, kind) + "
              AND "@ + tiers_code_text(tiers_code_col) + " <> ''
              "@ + account_filter_text(account_no_text(e), prefix), auxiliary_running_balance_piece40(), seq![]);
    lemma_occurs_within(("
        WITH base AS (
            SELECT
                parsed_date = "@ + parsed_date_text(e) + ",
                account_no = "@ + account_no_text(e) + ",
                account_label = "@ + account_label_text(e, account_lookup) + ",
                tiers_code = "@ + tiers_code_text(tiers_code_col) + ",
                tiers_name = "@ + tiers_name_text(tiers_lookup) + ",
                journal = "@ + optional_text_column(e.journal_col, 64) + ",
                description = "@ + optional_text_column(e.description_col, 255) + ",
                ref_piece = "@ + optional_text_column(e.ref_piece_col, 128) + ",
                lettrage = "@ + optional_text_column(e.lettrage_col, 64) + ",
                debit = "@ + e.debit_expr@ + ",
                credit = "@ + e.credit_expr@ + "
            FROM "@ + e.table.sql_name_text() + " e
            "@ + account_join_text(e, account_lookup) + "
            "@ + tiers_join_text(tiers_code_col, tiers_lookup) + "
            WHERE "@ + parsed_date_text(e) + " BETWEEN "@ + sql_literal_seq(date_from) + " AND "@ + sql_literal_seq(date_to) + "
              AND "@ + kind_filter_text(account_no_text(e), tiers_lookup, kind) + "
              AND "@ + tiers_code_text(tiers_code_col) + " <> ''
              "@ + account_filter_text(account_no_text(e), prefix)) + auxiliary_running_balance_piece40(), auxiliary_running_balance_piece40(), "SUM(debit - credit) OVER (
                    PARTITION BY tiers_code"@, ("
        WITH base AS (
            SELECT
                parsed_date = "@ + parsed_date_text(e) + ",
                account_no = "@ + account_no_text(e) + ",
                account_label = "@ + account_label_text(e, account_lookup) + ",
                tiers_code = "@ + tiers_code_text(tiers_code_col) + ",
                tiers_name = "@ + tiers_name_text(tiers_lookup) + ",
                journal = "@ + optional_text_column(e.journal_col, 64) + ",
                description = "@ + optional_text_column(e.description_col, 255) + ",
                ref_piece = "@ + optional_text_column(e.ref_piece_col, 128) + ",
                lettrage = "@ + optional_text_column(e.lettrage_col, 64) + ",
                debit = "@ + e.debit_expr@ + ",
                credit = "@ + e.credit_expr@ + "
            FROM "@ + e.table.sql_name_text() + " e
            "@ + account_join_text(e, account_lookup) + "
            "@ + tiers_join_text(tiers_code_col, tiers_lookup) + "
            WHERE "@ + parsed_date_text(e) + " BETWEEN "@ + sql_literal_seq(date_from) + " AND "@ + sql_literal_seq(date_to) + "
              AND "@ + kind_filter_text(account_no_text(e), tiers_lookup, kind) + "
              AND "@ + tiers_code_text(tiers_code_col) + " <> ''
              "@ + account_filter_text(account_no_text(e), prefix)).len() as int, 399);
    lemma_occurs_in_prefix(t, ("
        WITH base AS (
            SELECT
                parsed_date = "@ + parsed_date_text(e) + ",
                account_no = "@ + account_no_text(e) + ",
                account_label = "@ + account_label_text(e, account_lookup) + ",
                tiers_code = "@ + tiers_code_text(tiers_code_col) + ",
                tiers_name = "@ + tiers_name_text(tiers_lookup) + ",
                journal = "@ + optional_text_column(e.journal_col, 64) + ",
                description = "@ + optional_text_column(e.description_col, 255) + ",
                ref_piece = "@ + optional_text_column(e.ref_piece_col, 128) + ",
                lettrage = "@ + optional_text_column(e.lettrage_col, 64) + ",
                debit = "@ + e.debit_expr@ + ",
                credit = "@ + e.credit_expr@ + "
            FROM "@ + e.table.sql_name_text() + " e
            "@ + account_join_text(e, account_lookup) + "
            "@ + tiers_join_text(tiers_code_col, tiers_lookup) + "
            WHERE "@ + parsed_date_text(e) + " BETWEEN "@ + sql_literal_seq(date_from) + " AND "@ + sql_literal_seq(date_to) + "
              AND "@ + kind_filter_text(account_no_text(e), tiers_lookup, kind) + "
              AND "@ + tiers_code_text(tiers_code_col) + " <> ''
              "@ + account_filter_text(account_no_text(e), prefix)) + auxiliary_running_balance_piece40(), "SUM(debit - credit) OVER (
                    PARTITION BY tiers_code"@, (("
        WITH base AS (
            SELECT
                parsed_date = "@ + parsed_date_text(e) + ",
                account_no = "@ + account_no_text(e) + ",
                account_label = "@ + account_label_text(e, account_lookup) + ",
                tiers_code = "@ + tiers_code_text(tiers_code_col) + ",
                tiers_name = "@ + tiers_name_text(tiers_lookup) + ",
                journal = "@ + optional_text_column(e.journal_col, 64) + ",
                description = "@ + optional_text_column(e.description_col, 255) + ",
                ref_piece = "@ + optional_text_column(e.ref_piece_col, 128) + ",
                lettrage = "@ + optional_text_column(e.lettrage_col, 64) + ",
                debit = "@ + e.debit_expr@ + ",
                credit = "@ + e.credit_expr@ + "
            FROM "@ + e.table.sql_name_text() + " e
            "@ + account_join_text(e, account_lookup) + "
            "@ + tiers_join_text(tiers_code_col, tiers_lookup) + "
            WHERE "@ + parsed_date_text(e) + " BETWEEN "@ + sql_literal_seq(date_from) + " AND "@ + sql_literal_seq(date_to) + "
              AND "@ + kind_filter_text(account_no_text(e), tiers_lookup, kind) + "
              AND "@ + tiers_code_text(tiers_code_col) + " <> ''
              "@ + account_filter_text(account_no_text(e), prefix)).len() + 399) as int);
}

pub open spec fn balance_closing_is_opening_plus_movements_piece29() -> Seq<char> {
    "
            GROUP BY account_no
        )
        SELECT
            account_no,
            account_label,
            CASE WHEN (open_debit_raw - open_credit_raw) >= 0 THEN (open_debit_raw - open_credit_raw) ELSE CAST(0 AS DECIMAL(38, 6)) END AS ouverture_debit,
            CASE WHEN (open_debit_raw - open_credit_raw) < 0 THEN ABS(open_debit_raw - open_credit_raw) ELSE CAST(0 AS DECIMAL(38, 6)) END AS ouverture_credit,
            mvt_debit,
            mvt_credit,
            CASE
                WHEN ((open_debit_raw - open_credit_raw) + (mvt_debit - mvt_credit)) >= 0
                    THEN ((open_debit_raw - open_credit_raw) + (mvt_debit - mvt_credit))
                ELSE CAST(0 AS DECIMAL(38, 6))
            END AS cloture_debit,
            CASE
                WHEN ((open_debit_raw - open_credit_raw) + (mvt_debit - mvt_credit)) < 0
                    THEN ABS((open_debit_raw - open_credit_raw) + (mvt_debit - mvt_credit))
                ELSE CAST(0 AS DECIMAL(38, 6))
            END AS cloture_credit
        FROM aggregated
        ORDER BY account_no
        "@
}

proof fn lemma_balance_closing_is_opening_plus_movements_literals()
    ensures
        occurs_at(balance_closing_is_opening_plus_movements_piece29(), "CASE WHEN (open_debit_raw - open_credit_raw) >= 0 THEN (open_debit_raw - open_credit_raw) ELSE CAST(0 AS DECIMAL(38, 6)) END AS ouverture_debit"@, 121),
        occurs_at(balance_closing_is_opening_plus_movements_piece29(), "CASE WHEN (open_debit_raw - open_credit_raw) < 0 THEN ABS(open_debit_raw - open_credit_raw) ELSE CAST(0 AS DECIMAL(38, 6)) END AS ouverture_credit"@, 278),
        occurs_at(balance_closing_is_opening_plus_movements_piece29(), "WHEN ((open_debit_raw - open_credit_raw) + (mvt_debit - mvt_credit)) >= 0
                    THEN ((open_debit_raw - open_credit_raw) + (mvt_debit - mvt_credit))
                ELSE CAST(0 AS DECIMAL(38, 6))
            END AS cloture_debit"@, 506),
        occurs_at(balance_closing_is_opening_plus_movements_piece29(), "WHEN ((open_debit_raw - open_credit_raw) + (mvt_debit - mvt_credit)) < 0
                    THEN ABS((open_debit_raw - open_credit_raw) + (mvt_debit - mvt_credit))
                ELSE CAST(0 AS DECIMAL(38, 6))
            END AS cloture_credit"@, 783),
{
    reveal_strlit("
            GROUP BY account_no
        )
        SELECT
            account_no,
            account_label,
            CASE WHEN (open_debit_raw - open_credit_raw) >= 0 THEN (open_debit_raw - open_credit_raw) ELSE CAST(0 AS DECIMAL(38, 6)) END AS ouverture_debit,
            CASE WHEN (open_debit_raw - open_credit_raw) < 0 THEN ABS(open_debit_raw - open_credit_raw) ELSE CAST(0 AS DECIMAL(38, 6)) END AS ouverture_credit,
            mvt_debit,
            mvt_credit,
            CASE
                WHEN ((open_debit_raw - open_credit_raw) + (mvt_debit - mvt_credit)) >= 0
                    THEN ((open_debit_raw - open_credit_raw) + (mvt_debit - mvt_credit))
                ELSE CAST(0 AS DECIMAL(38, 6))
            END AS cloture_debit,
            CASE
                WHEN ((open_debit_raw - open_credit_raw) + (mvt_debit - mvt_credit)) < 0
                    THEN ABS((open_debit_raw - open_credit_raw) + (mvt_debit - mvt_credit))
                ELSE CAST(0 AS DECIMAL(38, 6))
            END AS cloture_credit
        FROM aggregated
        ORDER BY account_no
        ");
    reveal_strlit("CASE WHEN (open_debit_raw - open_credit_raw) < 0 THEN ABS(open_debit_raw - open_credit_raw) ELSE CAST(0 AS DECIMAL(38, 6)) END AS ouverture_credit");
    reveal_strlit("CASE WHEN (open_debit_raw - open_credit_raw) >= 0 THEN (open_debit_raw - open_credit_raw) ELSE CAST(0 AS DECIMAL(38, 6)) END AS ouverture_debit");
    reveal_strlit("WHEN ((open_debit_raw - open_credit_raw) + (mvt_debit - mvt_credit)) < 0
                    THEN ABS((open_debit_raw - open_credit_raw) + (mvt_debit - mvt_credit))
                ELSE CAST(0 AS DECIMAL(38, 6))
            END AS cloture_credit");
    reveal_strlit("WHEN ((open_debit_raw - open_credit_raw) + (mvt_debit - mvt_credit)) >= 0
                    THEN ((open_debit_raw - open_credit_raw) + (mvt_debit - mvt_credit))
                ELSE CAST(0 AS DECIMAL(38, 6))
            END AS cloture_debit");
    assert(balance_closing_is_opening_plus_movements_piece29().subrange(121, (121 + "CASE WHEN (open_debit_raw - open_credit_raw) >= 0 THEN (open_debit_raw - open_credit_raw) ELSE CAST(0 AS DECIMAL(38, 6)) END AS ouverture_debit"@.len()) as int) =~= "CASE WHEN (open_debit_raw - open_credit_raw) >= 0 THEN (open_debit_raw - open_credit_raw) ELSE CAST(0 AS DECIMAL(38, 6)) END AS ouverture_debit"@);
    assert(balance_closing_is_opening_plus_movements_piece29().subrange(278, (278 + "CASE WHEN (open_debit_raw - open_credit_raw) < 0 THEN ABS(open_debit_raw - open_credit_raw) ELSE CAST(0 AS DECIMAL(38, 6)) END AS ouverture_credit"@.len()) as int) =~= "CASE WHEN (open_debit_raw - open_credit_raw) < 0 THEN ABS(open_debit_raw - open_credit_raw) ELSE CAST(0 AS DECIMAL(38, 6)) END AS ouverture_credit"@);
    assert(balance_closing_is_opening_plus_movements_piece29().subrange(506, (506 + "WHEN ((open_debit_raw - open_credit_raw) + (mvt_debit - mvt_credit)) >= 0
                    THEN ((open_debit_raw - open_credit_raw) + (mvt_debit - mvt_credit))
                ELSE CAST(0 AS DECIMAL(38, 6))
            END AS cloture_debit"@.len()) as int) =~= "WHEN ((open_debit_raw - open_credit_raw) + (mvt_debit - mvt_credit)) >= 0
                    THEN ((open_debit_raw - open_credit_raw) + (mvt_debit - mvt_credit))
                ELSE CAST(0 AS DECIMAL(38, 6))
            END AS cloture_debit"@);
    assert(balance_closing_is_opening_plus_movements_piece29().subrange(783, (783 + "WHEN ((open_debit_raw - open_credit_raw) + (mvt_debit - mvt_credit)) < 0
                    THEN ABS((open_debit_raw - open_credit_raw) + (mvt_debit - mvt_credit))
                ELSE CAST(0 AS DECIMAL(38, 6))
            END AS cloture_credit"@.len()) as int) =~= "WHEN ((open_debit_raw - open_credit_raw) + (mvt_debit - mvt_credit)) < 0
                    THEN ABS((open_debit_raw - open_credit_raw) + (mvt_debit - mvt_credit))
                ELSE CAST(0 AS DECIMAL(38, 6))
            END AS cloture_credit"@);
}

/// The trial balance shows an account's opening net (debit less credit) on
/// the debit side when positive and on the credit side when negative, and
/// its closing as the opening net plus the movements' net, split the same
/// way.
#[verifier::rlimit(100)]
#[verifier::spinoff_prover]
pub proof fn lemma_balance_closing_is_opening_plus_movements(e: EntryContext, lookup: Option<LookupContext>, p: BalancePeriod, prefix: Option<Seq<char>>)
    ensures
        occurs_in(balance_query_text(e, lookup, p, prefix), "CASE WHEN (open_debit_raw - open_credit_raw) >= 0 THEN (open_debit_raw - open_credit_raw) ELSE CAST(0 AS DECIMAL(38, 6)) END AS ouverture_debit"@),
        occurs_in(balance_query_text(e, lookup, p, prefix), "CASE WHEN (open_debit_raw - open_credit_raw) < 0 THEN ABS(open_debit_raw - open_credit_raw) ELSE CAST(0 AS DECIMAL(38, 6)) END AS ouverture_credit"@),
        occurs_in(balance_query_text(e, lookup, p, prefix), "WHEN ((open_debit_raw - open_credit_raw) + (mvt_debit - mvt_credit)) >= 0
                    THEN ((open_debit_raw - open_credit_raw) + (mvt_debit - mvt_credit))
                ELSE CAST(0 AS DECIMAL(38, 6))
            END AS cloture_debit"@),
        occurs_in(balance_query_text(e, lookup, p, prefix), "WHEN ((open_debit_raw - open_credit_raw) + (mvt_debit - mvt_credit)) < 0
                    THEN ABS((open_debit_raw - open_credit_raw) + (mvt_debit - mvt_credit))
                ELSE CAST(0 AS DECIMAL(38, 6))
            END AS cloture_credit"@),
{
    let t = balance_query_text(e, lookup, p, prefix);
    lemma_balance_closing_is_opening_plus_movements_literals();
    assert(t.subrange(0, (("
        WITH base AS (
            SELECT
                parsed_date = "@ + parsed_date_text(e) + ",
                journal = "@ + optional_text_column(e.journal_col, 64) + ",
                account_no = "@ + account_no_text(e) + ",
                account_label = "@ + account_label_text(e, lookup) + ",
                debit = "@ + e.debit_expr@ + ",
                credit = "@ + e.credit_expr@ + "
            FROM "@ + e.table.sql_name_text() + " e
            "@ + account_join_text(e, lookup) + "
            WHERE "@ + "1 = 1"@ + account_filter_text(account_no_text(e), prefix) + "
        ),
        aggregated AS (
            SELECT
                account_no,
                MAX(account_label) AS account_label,
                SUM(CASE WHEN "@ + opening_text(e, p) + " THEN debit ELSE CAST(0 AS DECIMAL(38, 6)) END) AS open_debit_raw,
                SUM(CASE WHEN "@ + opening_text(e, p) + " THEN credit ELSE CAST(0 AS DECIMAL(38, 6)) END) AS open_credit_raw,
                SUM(CASE WHEN "@ + movement_text("account_no"@, "parsed_date"@, "journal"@, e.journal_col is Some, p) + " THEN debit ELSE CAST(0 AS DECIMAL(38, 6)) END) AS mvt_debit,
                SUM(CASE WHEN "@ + movement_text("account_no"@, "parsed_date"@, "journal"@, e.journal_col is Some, p) + " THEN credit ELSE CAST(0 AS DECIMAL(38, 6)) END) AS mvt_credit
            FROM base
            WHERE account_no <> ''
              AND parsed_date IS NOT NULL
              AND "@ + cutoff_text(e, p)) + balance_closing_is_opening_plus_movements_piece29()).len() as int) == ("
        WITH base AS (
            SELECT
                parsed_date = "@ + parsed_date_text(e) + ",
                journal = "@ + optional_text_column(e.journal_col, 64) + ",
                account_no = "@ + account_no_text(e) + ",
                account_label = "@ + account_label_text(e, lookup) + ",
                debit = "@ + e.debit_expr@ + ",
                credit = "@ + e.credit_expr@ + "
            FROM "@ + e.table.sql_name_text() + " e
            "@ + account_join_text(e, lookup) + "
            WHERE "@ + "1 = 1"@ + account_filter_text(account_no_text(e), prefix) + "
        ),
        aggregated AS (
            SELECT
                account_no,
                MAX(account_label) AS account_label,
                SUM(CASE WHEN "@ + opening_text(e, p) + " THEN debit ELSE CAST(0 AS DECIMAL(38, 6)) END) AS open_debit_raw,
                SUM(CASE WHEN "@ + opening_text(e, p) + " THEN credit ELSE CAST(0 AS DECIMAL(38, 6)) END) AS open_credit_raw,
                SUM(CASE WHEN "@ + movement_text("account_no"@, "parsed_date"@, "journal"@, e.journal_col is Some, p) + " THEN debit ELSE CAST(0 AS DECIMAL(38, 6)) END) AS mvt_debit,
                SUM(CASE WHEN "@ + movement_text("account_no"@, "parsed_date"@, "journal"@, e.journal_col is Some, p) + " THEN credit ELSE CAST(0 AS DECIMAL(38, 6)) END) AS mvt_credit
            FROM base
            WHERE account_no <> ''
              AND parsed_date IS NOT NULL
              AND "@ + cutoff_text(e, p)) + balance_closing_is_opening_plus_movements_piece29()) by {
        assert(t.subrange(0, (("
        WITH base AS (
            SELECT
                parsed_date = "@ + parsed_date_text(e) + ",
                journal = "@ + optional_text_column(e.journal_col, 64) + ",
                account_no = "@ + account_no_text(e) + ",
                account_label = "@ + account_label_text(e, lookup) + ",
                debit = "@ + e.debit_expr@ + ",
                credit = "@ + e.credit_expr@ + "
            FROM "@ + e.table.sql_name_text() + " e
            "@ + account_join_text(e, lookup) + "
            WHERE "@ + "1 = 1"@ + account_filter_text(account_no_text(e), prefix) + "
        ),
        aggregated AS (
            SELECT
                account_no,
                MAX(account_label) AS account_label,
                SUM(CASE WHEN "@ + opening_text(e, p) + " THEN debit ELSE CAST(0 AS DECIMAL(38, 6)) END) AS open_debit_raw,
                SUM(CASE WHEN "@ + opening_text(e, p) + " THEN credit ELSE CAST(0 AS DECIMAL(38, 6)) END) AS open_credit_raw,
                SUM(CASE WHEN "@ + movement_text("account_no"@, "parsed_date"@, "journal"@, e.journal_col is Some, p) + " THEN debit ELSE CAST(0 AS DECIMAL(38, 6)) END) AS mvt_debit,
                SUM(CASE WHEN "@ + movement_text("account_no"@, "parsed_date"@, "journal"@, e.journal_col is Some, p) + " THEN credit ELSE CAST(0 AS DECIMAL(38, 6)) END) AS mvt_credit
            FROM base
            WHERE account_no <> ''
              AND parsed_date IS NOT NULL
              AND "@ + cutoff_text(e, p)) + balance_closing_is_opening_plus_movements_piece29()).len() as int) =~= ("
        WITH base AS (
            SELECT
                parsed_date = "@ + parsed_date_text(e) + ",
                journal = "@ + optional_text_column(e.journal_col, 64) + ",
                account_no = "@ + account_no_text(e) + ",
                account_label = "@ + account_label_text(e, lookup) + ",
                debit = "@ + e.debit_expr@ + ",
                credit = "@ + e.credit_expr@ + "
            FROM "@ + e.table.sql_name_text() + " e
            "@ + account_join_text(e, lookup) + "
            WHERE "@ + "1 = 1"@ + account_filter_text(account_no_text(e), prefix) + "
        ),
        aggregated AS (
            SELECT
                account_no,
                MAX(account_label) AS account_label,
                SUM(CASE WHEN "@ + opening_text(e, p) + " THEN debit ELSE CAST(0 AS DECIMAL(38, 6)) END) AS open_debit_raw,
                SUM(CASE WHEN "@ + opening_text(e, p) + " THEN credit ELSE CAST(0 AS DECIMAL(38, 6)) END) AS open_credit_raw,
                SUM(CASE WHEN "@ + movement_text("account_no"@, "parsed_date"@, "journal"@, e.journal_col is Some, p) + " THEN debit ELSE CAST(0 AS DECIMAL(38, 6)) END) AS mvt_debit,
                SUM(CASE WHEN "@ + movement_text("account_no"@, "parsed_date"@, "journal"@, e.journal_col is Some, p) + " THEN credit ELSE CAST(0 AS DECIMAL(38, 6)) END) AS mvt_credit
            FROM base
            WHERE account_no <> ''
              AND parsed_date IS NOT NULL
              AND "@ + cutoff_text(e, p)) + balance_closing_is_opening_plus_movements_piece29());
    }
    assert(("
        WITH base AS (
            SELECT
                parsed_date = "@ + parsed_date_text(e) + ",
                journal = "@ + optional_text_column(e.journal_col, 64) + ",
                account_no = "@ + account_no_text(e) + ",
                account_label = "@ + account_label_text(e, lookup) + ",
                debit = "@ + e.debit_expr@ + ",
                credit = "@ + e.credit_expr@ + "
            FROM "@ + e.table.sql_name_text() + " e
            "@ + account_join_text(e, lookup) + "
            WHERE "@ + "1 = 1"@ + account_filter_text(account_no_text(e), prefix) + "
        ),
        aggregated AS (
            SELECT
                account_no,
                MAX(account_label) AS account_label,
                SUM(CASE WHEN "@ + opening_text(e, p) + " THEN debit ELSE CAST(0 AS DECIMAL(38, 6)) END) AS open_debit_raw,
                SUM(CASE WHEN "@ + opening_text(e, p) + " THEN credit ELSE CAST(0 AS DECIMAL(38, 6)) END) AS open_credit_raw,
                SUM(CASE WHEN "@ + movement_text("account_no"@, "parsed_date"@, "journal"@, e.journal_col is Some, p) + " THEN debit ELSE CAST(0 AS DECIMAL(38, 6)) END) AS mvt_debit,
                SUM(CASE WHEN "@ + movement_text("account_no"@, "parsed_date"@, "journal"@, e.journal_col is Some, p) + " THEN credit ELSE CAST(0 AS DECIMAL(38, 6)) END) AS mvt_credit
            FROM base
            WHERE account_no <> ''
              AND parsed_date IS NOT NULL
              AND "@ + cutoff_text(e, p)) + balance_closing_is_opening_plus_movements_piece29() =~= ("
        WITH base AS (
            SELECT
                parsed_date = "@ + parsed_date_text(e) + ",
                journal = "@ + optional_text_column(e.journal_col, 64) + ",
                account_no = "@ + account_no_text(e) + ",
                account_label = "@ + account_label_text(e, lookup) + ",
                debit = "@ + e.debit_expr@ + ",
                credit = "@ + e.credit_expr@ + "
            FROM "@ + e.table.sql_name_text() + " e
            "@ + account_join_text(e, lookup) + "
            WHERE "@ + "1 = 1"@ + account_filter_text(account_no_text(e), prefix) + "
        ),
        aggregated AS (
            SELECT
                account_no,
                MAX(account_label) AS account_label,
                SUM(CASE WHEN "@ + opening_text(e, p) + " THEN debit ELSE CAST(0 AS DECIMAL(38, 6)) END) AS open_debit_raw,
                SUM(CASE WHEN "@ + opening_text(e, p) + " THEN credit ELSE CAST(0 AS DECIMAL(38, 6)) END) AS open_credit_raw,
                SUM(CASE WHEN "@ + movement_text("account_no"@, "parsed_date"@, "journal"@, e.journal_col is Some, p) + " THEN debit ELSE CAST(0 AS DECIMAL(38, 6)) END) AS mvt_debit,
                SUM(CASE WHEN "@ + movement_text("account_no"@, "parsed_date"@, "journal"@, e.journal_col is Some, p) + " THEN credit ELSE CAST(0 AS DECIMAL(38, 6)) END) AS mvt_credit
            FROM base
            WHERE account_no <> ''
              AND parsed_date IS NOT NULL
              AND "@ + cutoff_text(e, p)) + balance_closing_is_opening_plus_movements_piece29() + seq![]);
    lemma_occurs_between(("
        WITH base AS (
            SELECT
                parsed_date = "@ + parsed_date_text(e) + ",
                journal = "@ + optional_text_column(e.journal_col, 64) + ",
                account_no = "@ + account_no_text(e) + ",
                account_label = "@ + account_label_text(e, lookup) + ",
                debit = "@ + e.debit_expr@ + ",
                credit = "@ + e.credit_expr@ + "
            FROM "@ + e.table.sql_name_text() + " e
            "@ + account_join_text(e, lookup) + "
            WHERE "@ + "1 = 1"@ + account_filter_text(account_no_text(e), prefix) + "
        ),
        aggregated AS (
            SELECT
                account_no,
                MAX(account_label) AS account_label,
                SUM(CASE WHEN "@ + opening_text(e, p) + " THEN debit ELSE CAST(0 AS DECIMAL(38, 6)) END) AS open_debit_raw,
                SUM(CASE WHEN "@ + opening_text(e, p) + " THEN credit ELSE CAST(0 AS DECIMAL(38, 6)) END) AS open_credit_raw,
                SUM(CASE WHEN "@ + movement_text("account_no"@, "parsed_date"@, "journal"@, e.journal_col is Some, p) + " THEN debit ELSE CAST(0 AS DECIMAL(38, 6)) END) AS mvt_debit,
                SUM(CASE WHEN "@ + movement_text("account_no"@, "parsed_date"@, "journal"@, e.journal_col is Some, p) + " THEN credit ELSE CAST(0 AS DECIMAL(38, 6)) END) AS mvt_credit
            FROM base
            WHERE account_no <> ''
              AND parsed_date IS NOT NULL
              AND "@ + cutoff_text(e, p)) + balance_closing_is_opening_plus_movements_piece29(), "
        WITH base AS (
            SELECT
                parsed_date = "@ + parsed_date_text(e) + ",
                journal = "@ + optional_text_column(e.journal_col, 64) + ",
                account_no = "@ + account_no_text(e) + ",
                account_label = "@ + account_label_text(e, lookup) + ",
                debit = "@ + e.debit_expr@ + ",
                credit = "@ + e.credit_expr@ + "
            FROM "@ + e.table.sql_name_text() + " e
            "@ + account_join_text(e, lookup) + "
            WHERE "@ + "1 = 1"@ + account_filter_text(account_no_text(e), prefix) + "
        ),
        aggregated AS (
            SELECT
                account_no,
                MAX(account_label) AS account_label,
                SUM(CASE WHEN "@ + opening_text(e, p) + " THEN debit ELSE CAST(0 AS DECIMAL(38, 6)) END) AS open_debit_raw,
                SUM(CASE WHEN "@ + opening_text(e, p) + " THEN credit ELSE CAST(0 AS DECIMAL(38, 6)) END) AS open_credit_raw,
                SUM(CASE WHEN "@ + movement_text("account_no"@, "parsed_date"@, "journal"@, e.journal_col is Some, p) + " THEN debit ELSE CAST(0 AS DECIMAL(38, 6)) END) AS mvt_debit,
                SUM(CASE WHEN "@ + movement_text("account_no"@, "parsed_date"@, "journal"@, e.journal_col is Some, p) + " THEN credit ELSE CAST(0 AS DECIMAL(38, 6)) END) AS mvt_credit
            FROM base
            WHERE account_no <> ''
              AND parsed_date IS NOT NULL
              AND "@ + cutoff_text(e, p), balance_closing_is_opening_plus_movements_piece29(), seq![]);
    lemma_occurs_within(("
        WITH base AS (
            SELECT
                parsed_date = "@ + parsed_date_text(e) + ",
                journal = "@ + optional_text_column(e.journal_col, 64) + ",
                account_no = "@ + account_no_text(e) + ",
                account_label = "@ + account_label_text(e, lookup) + ",
                debit = "@ + e.debit_expr@ + ",
                credit = "@ + e.credit_expr@ + "
            FROM "@ + e.table.sql_name_text() + " e
            "@ + account_join_text(e, lookup) + "
            WHERE "@ + "1 = 1"@ + account_filter_text(account_no_text(e), prefix) + "
        ),
        aggregated AS (
            SELECT
                account_no,
                MAX(account_label) AS account_label,
                SUM(CASE WHEN "@ + opening_text(e, p) + " THEN debit ELSE CAST(0 AS DECIMAL(38, 6)) END) AS open_debit_raw,
                SUM(CASE WHEN "@ + opening_text(e, p) + " THEN credit ELSE CAST(0 AS DECIMAL(38, 6)) END) AS open_credit_raw,
                SUM(CASE WHEN "@ + movement_text("account_no"@, "parsed_date"@, "journal"@, e.journal_col is Some, p) + " THEN debit ELSE CAST(0 AS DECIMAL(38, 6)) END) AS mvt_debit,
                SUM(CASE WHEN "@ + movement_text("account_no"@, "parsed_date"@, "journal"@, e.journal_col is Some, p) + " THEN credit ELSE CAST(0 AS DECIMAL(38, 6)) END) AS mvt_credit
            FROM base
            WHERE account_no <> ''
              AND parsed_date IS NOT NULL
              AND "@ + cutoff_text(e, p)) + balance_closing_is_opening_plus_movements_piece29(), balance_closing_is_opening_plus_movements_piece29(), "CASE WHEN (open_debit_raw - open_credit_raw) >= 0 THEN (open_debit_raw - open_credit_raw) ELSE CAST(0 AS DECIMAL(38, 6)) END AS ouverture_debit"@, ("
        WITH base AS (
            SELECT
                parsed_date = "@ + parsed_date_text(e) + ",
                journal = "@ + optional_text_column(e.journal_col, 64) + ",
                account_no = "@ + account_no_text(e) + ",
                account_label = "@ + account_label_text(e, lookup) + ",
                debit = "@ + e.debit_expr@ + ",
                credit = "@ + e.credit_expr@ + "
            FROM "@ + e.table.sql_name_text() + " e
            "@ + account_join_text(e, lookup) + "
            WHERE "@ + "1 = 1"@ + account_filter_text(account_no_text(e), prefix) + "
        ),
        aggregated AS (
            SELECT
                account_no,
                MAX(account_label) AS account_label,
                SUM(CASE WHEN "@ + opening_text(e, p) + " THEN debit ELSE CAST(0 AS DECIMAL(38, 6)) END) AS open_debit_raw,
                SUM(CASE WHEN "@ + opening_text(e, p) + " THEN credit ELSE CAST(0 AS DECIMAL(38, 6)) END) AS open_credit_raw,
                SUM(CASE WHEN "@ + movement_text("account_no"@, "parsed_date"@, "journal"@, e.journal_col is Some, p) + " THEN debit ELSE CAST(0 AS DECIMAL(38, 6)) END) AS mvt_debit,
                SUM(CASE WHEN "@ + movement_text("account_no"@, "parsed_date"@, "journal"@, e.journal_col is Some, p) + " THEN credit ELSE CAST(0 AS DECIMAL(38, 6)) END) AS mvt_credit
            FROM base
            WHERE account_no <> ''
              AND parsed_date IS NOT NULL
              AND "@ + cutoff_text(e, p)).len() as int, 121);
    lemma_occurs_in_prefix(t, ("
        WITH base AS (
            SELECT
                parsed_date = "@ + parsed_date_text(e) + ",
                journal = "@ + optional_text_column(e.journal_col, 64) + ",
                account_no = "@ + account_no_text(e) + ",
                account_label = "@ + account_label_text(e, lookup) + ",
                debit = "@ + e.debit_expr@ + ",
                credit = "@ + e.credit_expr@ + "
            FROM "@ + e.table.sql_name_text() + " e
            "@ + account_join_text(e, lookup) + "
            WHERE "@ + "1 = 1"@ + account_filter_text(account_no_text(e), prefix) + "
        ),
        aggregated AS (
            SELECT
                account_no,
                MAX(account_label) AS account_label,
                SUM(CASE WHEN "@ + opening_text(e, p) + " THEN debit ELSE CAST(0 AS DECIMAL(38, 6)) END) AS open_debit_raw,
                SUM(CASE WHEN "@ + opening_text(e, p) + " THEN credit ELSE CAST(0 AS DECIMAL(38, 6)) END) AS open_credit_raw,
                SUM(CASE WHEN "@ + movement_text("account_no"@, "parsed_date"@, "journal"@, e.journal_col is Some, p) + " THEN debit ELSE CAST(0 AS DECIMAL(38, 6)) END) AS mvt_debit,
                SUM(CASE WHEN "@ + movement_text("account_no"@, "parsed_date"@, "journal"@, e.journal_col is Some, p) + " THEN credit ELSE CAST(0 AS DECIMAL(38, 6)) END) AS mvt_credit
            FROM base
            WHERE account_no <> ''
              AND parsed_date IS NOT NULL
              AND "@ + cutoff_text(e, p)) + balance_closing_is_opening_plus_movements_piece29(), "CASE WHEN (open_debit_raw - open_credit_raw) >= 0 THEN (open_debit_raw - open_credit_raw) ELSE CAST(0 AS DECIMAL(38, 6)) END AS ouverture_debit"@, (("
        WITH base AS (
            SELECT
                parsed_date = "@ + parsed_date_text(e) + ",
                journal = "@ + optional_text_column(e.journal_col, 64) + ",
                account_no = "@ + account_no_text(e) + ",
                account_label = "@ + account_label_text(e, lookup) + ",
                debit = "@ + e.debit_expr@ + ",
                credit = "@ + e.credit_expr@ + "
            FROM "@ + e.table.sql_name_text() + " e
            "@ + account_join_text(e, lookup) + "
            WHERE "@ + "1 = 1"@ + account_filter_text(account_no_text(e), prefix) + "
        ),
        aggregated AS (
            SELECT
                account_no,
                MAX(account_label) AS account_label,
                SUM(CASE WHEN "@ + opening_text(e, p) + " THEN debit ELSE CAST(0 AS DECIMAL(38, 6)) END) AS open_debit_raw,
                SUM(CASE WHEN "@ + opening_text(e, p) + " THEN credit ELSE CAST(0 AS DECIMAL(38, 6)) END) AS open_credit_raw,
                SUM(CASE WHEN "@ + movement_text("account_no"@, "parsed_date"@, "journal"@, e.journal_col is Some, p) + " THEN debit ELSE CAST(0 AS DECIMAL(38, 6)) END) AS mvt_debit,
                SUM(CASE WHEN "@ + movement_text("account_no"@, "parsed_date"@, "journal"@, e.journal_col is Some, p) + " THEN credit ELSE CAST(0 AS DECIMAL(38, 6)) END) AS mvt_credit
            FROM base
            WHERE account_no <> ''
              AND parsed_date IS NOT NULL
              AND "@ + cutoff_text(e, p)).len() + 121) as int);
    assert(t.subrange(0, (("
        WITH base AS (
            SELECT
                parsed_date = "@ + parsed_date_text(e) + ",
                journal = "@ + optional_text_column(e.journal_col, 64) + ",
                account_no = "@ + account_no_text(e) + ",
                account_label = "@ + account_label_text(e, lookup) + ",
                debit = "@ + e.debit_expr@ + ",
                credit = "@ + e.credit_expr@ + "
            FROM "@ + e.table.sql_name_text() + " e
            "@ + account_join_text(e, lookup) + "
            WHERE "@ + "1 = 1"@ + account_filter_text(account_no_text(e), prefix) + "
        ),
        aggregated AS (
            SELECT
                account_no,
                MAX(account_label) AS account_label,
                SUM(CASE WHEN "@ + opening_text(e, p) + " THEN debit ELSE CAST(0 AS DECIMAL(38, 6)) END) AS open_debit_raw,
                SUM(CASE WHEN "@ + opening_text(e, p) + " THEN credit ELSE CAST(0 AS DECIMAL(38, 6)) END) AS open_credit_raw,
                SUM(CASE WHEN "@ + movement_text("account_no"@, "parsed_date"@, "journal"@, e.journal_col is Some, p) + " THEN debit ELSE CAST(0 AS DECIMAL(38, 6)) END) AS mvt_debit,
                SUM(CASE WHEN "@ + movement_text("account_no"@, "parsed_date"@, "journal"@, e.journal_col is Some, p) + " THEN credit ELSE CAST(0 AS DECIMAL(38, 6)) END) AS mvt_credit
            FROM base
            WHERE account_no <> ''
              AND parsed_date IS NOT NULL
              AND "@ + cutoff_text(e, p)) + balance_closing_is_opening_plus_movements_piece29()).len() as int) == ("
        WITH base AS (
            SELECT
                parsed_date = "@ + parsed_date_text(e) + ",
                journal = "@ + optional_text_column(e.journal_col, 64) + ",
                account_no = "@ + account_no_text(e) + ",
                account_label = "@ + account_label_text(e, lookup) + ",
                debit = "@ + e.debit_expr@ + ",
                credit = "@ + e.credit_expr@ + "
            FROM "@ + e.table.sql_name_text() + " e
            "@ + account_join_text(e, lookup) + "
            WHERE "@ + "1 = 1"@ + account_filter_text(account_no_text(e), prefix) + "
        ),
        aggregated AS (
            SELECT
                account_no,
                MAX(account_label) AS account_label,
                SUM(CASE WHEN "@ + opening_text(e, p) + " THEN debit ELSE CAST(0 AS DECIMAL(38, 6)) END) AS open_debit_raw,
                SUM(CASE WHEN "@ + opening_text(e, p) + " THEN credit ELSE CAST(0 AS DECIMAL(38, 6)) END) AS open_credit_raw,
                SUM(CASE WHEN "@ + movement_text("account_no"@, "parsed_date"@, "journal"@, e.journal_col is Some, p) + " THEN debit ELSE CAST(0 AS DECIMAL(38, 6)) END) AS mvt_debit,
                SUM(CASE WHEN "@ + movement_text("account_no"@, "parsed_date"@, "journal"@, e.journal_col is Some, p) + " THEN credit ELSE CAST(0 AS DECIMAL(38, 6)) END) AS mvt_credit
            FROM base
            WHERE account_no <> ''
              AND parsed_date IS NOT NULL
              AND "@ + cutoff_text(e, p)) + balance_closing_is_opening_plus_movements_piece29()) by {
        assert(t.subrange(0, (("
        WITH base AS (
            SELECT
                parsed_date = "@ + parsed_date_text(e) + ",
                journal = "@ + optional_text_column(e.journal_col, 64) + ",
                account_no = "@ + account_no_text(e) + ",
                account_label = "@ + account_label_text(e, lookup) + ",
                debit = "@ + e.debit_expr@ + ",
                credit = "@ + e.credit_expr@ + "
            FROM "@ + e.table.sql_name_text() + " e
            "@ + account_join_text(e, lookup) + "
            WHERE "@ + "1 = 1"@ + account_filter_text(account_no_text(e), prefix) + "
        ),
        aggregated AS (
            SELECT
                account_no,
                MAX(account_label) AS account_label,
                SUM(CASE WHEN "@ + opening_text(e, p) + " THEN debit ELSE CAST(0 AS DECIMAL(38, 6)) END) AS open_debit_raw,
                SUM(CASE WHEN "@ + opening_text(e, p) + " THEN credit ELSE CAST(0 AS DECIMAL(38, 6)) END) AS open_credit_raw,
                SUM(CASE WHEN "@ + movement_text("account_no"@, "parsed_date"@, "journal"@, e.journal_col is Some, p) + " THEN debit ELSE CAST(0 AS DECIMAL(38, 6)) END) AS mvt_debit,
                SUM(CASE WHEN "@ + movement_text("account_no"@, "parsed_date"@, "journal"@, e.journal_col is Some, p) + " THEN credit ELSE CAST(0 AS DECIMAL(38, 6)) END) AS mvt_credit
            FROM base
            WHERE account_no <> ''
              AND parsed_date IS NOT NULL
              AND "@ + cutoff_text(e, p)) + balance_closing_is_opening_plus_movements_piece29()).len() as int) =~= ("
        WITH base AS (
            SELECT
                parsed_date = "@ + parsed_date_text(e) + ",
                journal = "@ + optional_text_column(e.journal_col, 64) + ",
                account_no = "@ + account_no_text(e) + ",
                account_label = "@ + account_label_text(e, lookup) + ",
                debit = "@ + e.debit_expr@ + ",
                credit = "@ + e.credit_expr@ + "
            FROM "@ + e.table.sql_name_text() + " e
            "@ + account_join_text(e, lookup) + "
            WHERE "@ + "1 = 1"@ + account_filter_text(account_no_text(e), prefix) + "
        ),
        aggregated AS (
            SELECT
                account_no,
                MAX(account_label) AS account_label,
                SUM(CASE WHEN "@ + opening_text(e, p) + " THEN debit ELSE CAST(0 AS DECIMAL(38, 6)) END) AS open_debit_raw,
                SUM(CASE WHEN "@ + opening_text(e, p) + " THEN credit ELSE CAST(0 AS DECIMAL(38, 6)) END) AS open_credit_raw,
                SUM(CASE WHEN "@ + movement_text("account_no"@, "parsed_date"@, "journal"@, e.journal_col is Some, p) + " THEN debit ELSE CAST(0 AS DECIMAL(38, 6)) END) AS mvt_debit,
                SUM(CASE WHEN "@ + movement_text("account_no"@, "parsed_date"@, "journal"@, e.journal_col is Some, p) + " THEN credit ELSE CAST(0 AS DECIMAL(38, 6)) END) AS mvt_credit
            FROM base
            WHERE account_no <> ''
              AND parsed_date IS NOT NULL
              AND "@ + cutoff_text(e, p)) + balance_closing_is_opening_plus_movements_piece29());
    }
    assert(("
        WITH base AS (
            SELECT
                parsed_date = "@ + parsed_date_text(e) + ",
                journal = "@ + optional_text_column(e.journal_col, 64) + ",
                account_no = "@ + account_no_text(e) + ",
                account_label = "@ + account_label_text(e, lookup) + ",
                debit = "@ + e.debit_expr@ + ",
                credit = "@ + e.credit_expr@ + "
            FROM "@ + e.table.sql_name_text() + " e
            "@ + account_join_text(e, lookup) + "
            WHERE "@ + "1 = 1"@ + account_filter_text(account_no_text(e), prefix) + "
        ),
        aggregated AS (
            SELECT
                account_no,
                MAX(account_label) AS account_label,
                SUM(CASE WHEN "@ + opening_text(e, p) + " THEN debit ELSE CAST(0 AS DECIMAL(38, 6)) END) AS open_debit_raw,
                SUM(CASE WHEN "@ + opening_text(e, p) + " THEN credit ELSE CAST(0 AS DECIMAL(38, 6)) END) AS open_credit_raw,
                SUM(CASE WHEN "@ + movement_text("account_no"@, "parsed_date"@, "journal"@, e.journal_col is Some, p) + " THEN debit ELSE CAST(0 AS DECIMAL(38, 6)) END) AS mvt_debit,
                SUM(CASE WHEN "@ + movement_text("account_no"@, "parsed_date"@, "journal"@, e.journal_col is Some, p) + " THEN credit ELSE CAST(0 AS DECIMAL(38, 6)) END) AS mvt_credit
            FROM base
            WHERE account_no <> ''
              AND parsed_date IS NOT NULL
              AND "@ + cutoff_text(e, p)) + balance_closing_is_opening_plus_movements_piece29() =~= ("
        WITH base AS (
            SELECT
                parsed_date = "@ + parsed_date_text(e) + ",
                journal = "@ + optional_text_column(e.journal_col, 64) + ",
                account_no = "@ + account_no_text(e) + ",
                account_label = "@ + account_label_text(e, lookup) + ",
                debit = "@ + e.debit_expr@ + ",
                credit = "@ + e.credit_expr@ + "
            FROM "@ + e.table.sql_name_text() + " e
            "@ + account_join_text(e, lookup) + "
            WHERE "@ + "1 = 1"@ + account_filter_text(account_no_text(e), prefix) + "
        ),
        aggregated AS (
            SELECT
                account_no,
                MAX(account_label) AS account_label,
                SUM(CASE WHEN "@ + opening_text(e, p) + " THEN debit ELSE CAST(0 AS DECIMAL(38, 6)) END) AS open_debit_raw,
                SUM(CASE WHEN "@ + opening_text(e, p) + " THEN credit ELSE CAST(0 AS DECIMAL(38, 6)) END) AS open_credit_raw,
                SUM(CASE WHEN "@ + movement_text("account_no"@, "parsed_date"@, "journal"@, e.journal_col is Some, p) + " THEN debit ELSE CAST(0 AS DECIMAL(38, 6)) END) AS mvt_debit,
                SUM(CASE WHEN "@ + movement_text("account_no"@, "parsed_date"@, "journal"@, e.journal_col is Some, p) + " THEN credit ELSE CAST(0 AS DECIMAL(38, 6)) END) AS mvt_credit
            FROM base
            WHERE account_no <> ''
              AND parsed_date IS NOT NULL
              AND "@ + cutoff_text(e, p)) + balance_closing_is_opening_plus_movements_piece29() + seq![]);
    lemma_occurs_between(("
        WITH base AS (
            SELECT
                parsed_date = "@ + parsed_date_text(e) + ",
                journal = "@ + optional_text_column(e.journal_col, 64) + ",
                account_no = "@ + account_no_text(e) + ",
                account_label = "@ + account_label_text(e, lookup) + ",
                debit = "@ + e.debit_expr@ + ",
                credit = "@ + e.credit_expr@ + "
            FROM "@ + e.table.sql_name_text() + " e
            "@ + account_join_text(e, lookup) + "
            WHERE "@ + "1 = 1"@ + account_filter_text(account_no_text(e), prefix) + "
        ),
        aggregated AS (
            SELECT
                account_no,
                MAX(account_label) AS account_label,
                SUM(CASE WHEN "@ + opening_text(e, p) + " THEN debit ELSE CAST(0 AS DECIMAL(38, 6)) END) AS open_debit_raw,
                SUM(CASE WHEN "@ + opening_text(e, p) + " THEN credit ELSE CAST(0 AS DECIMAL(38, 6)) END) AS open_credit_raw,
                SUM(CASE WHEN "@ + movement_text("account_no"@, "parsed_date"@, "journal"@, e.journal_col is Some, p) + " THEN debit ELSE CAST(0 AS DECIMAL(38, 6)) END) AS mvt_debit,
                SUM(CASE WHEN "@ + movement_text("account_no"@, "parsed_date"@, "journal"@, e.journal_col is Some, p) + " THEN credit ELSE CAST(0 AS DECIMAL(38, 6)) END) AS mvt_credit
            FROM base
            WHERE account_no <> ''
              AND parsed_date IS NOT NULL
              AND "@ + cutoff_text(e, p)) + balance_closing_is_opening_plus_movements_piece29(), "
        WITH base AS (
            SELECT
                parsed_date = "@ + parsed_date_text(e) + ",
                journal = "@ + optional_text_column(e.journal_col, 64) + ",
                account_no = "@ + account_no_text(e) + ",
                account_label = "@ + account_label_text(e, lookup) + ",
                debit = "@ + e.debit_expr@ + ",
                credit = "@ + e.credit_expr@ + "
            FROM "@ + e.table.sql_name_text() + " e
            "@ + account_join_text(e, lookup) + "
            WHERE "@ + "1 = 1"@ + account_filter_text(account_no_text(e), prefix) + "
        ),
        aggregated AS (
            SELECT
                account_no,
                MAX(account_label) AS account_label,
                SUM(CASE WHEN "@ + opening_text(e, p) + " THEN debit ELSE CAST(0 AS DECIMAL(38, 6)) END) AS open_debit_raw,
                SUM(CASE WHEN "@ + opening_text(e, p) + " THEN credit ELSE CAST(0 AS DECIMAL(38, 6)) END) AS open_credit_raw,
                SUM(CASE WHEN "@ + movement_text("account_no"@, "parsed_date"@, "journal"@, e.journal_col is Some, p) + " THEN debit ELSE CAST(0 AS DECIMAL(38, 6)) END) AS mvt_debit,
                SUM(CASE WHEN "@ + movement_text("account_no"@, "parsed_date"@, "journal"@, e.journal_col is Some, p) + " THEN credit ELSE CAST(0 AS DECIMAL(38, 6)) END) AS mvt_credit
            FROM base
            WHERE account_no <> ''
              AND parsed_date IS NOT NULL
              AND "@ + cutoff_text(e, p), balance_closing_is_opening_plus_movements_piece29(), seq![]);
    lemma_occurs_within(("
        WITH base AS (
            SELECT
                parsed_date = "@ + parsed_date_text(e) + ",
                journal = "@ + optional_text_column(e.journal_col, 64) + ",
                account_no = "@ + account_no_text(e) + ",
                account_label = "@ + account_label_text(e, lookup) + ",
                debit = "@ + e.debit_expr@ + ",
                credit = "@ + e.credit_expr@ + "
            FROM "@ + e.table.sql_name_text() + " e
            "@ + account_join_text(e, lookup) + "
            WHERE "@ + "1 = 1"@ + account_filter_text(account_no_text(e), prefix) + "
        ),
        aggregated AS (
            SELECT
                account_no,
                MAX(account_label) AS account_label,
                SUM(CASE WHEN "@ + opening_text(e, p) + " THEN debit ELSE CAST(0 AS DECIMAL(38, 6)) END) AS open_debit_raw,
                SUM(CASE WHEN "@ + opening_text(e, p) + " THEN credit ELSE CAST(0 AS DECIMAL(38, 6)) END) AS open_credit_raw,
                SUM(CASE WHEN "@ + movement_text("account_no"@, "parsed_date"@, "journal"@, e.journal_col is Some, p) + " THEN debit ELSE CAST(0 AS DECIMAL(38, 6)) END) AS mvt_debit,
                SUM(CASE WHEN "@ + movement_text("account_no"@, "parsed_date"@, "journal"@, e.journal_col is Some, p) + " THEN credit ELSE CAST(0 AS DECIMAL(38, 6)) END) AS mvt_credit
            FROM base
            WHERE account_no <> ''
              AND parsed_date IS NOT NULL
              AND "@ + cutoff_text(e, p)) + balance_closing_is_opening_plus_movements_piece29(), balance_closing_is_opening_plus_movements_piece29(), "CASE WHEN (open_debit_raw - open_credit_raw) < 0 THEN ABS(open_debit_raw - open_credit_raw) ELSE CAST(0 AS DECIMAL(38, 6)) END AS ouverture_credit"@, ("
        WITH base AS (
            SELECT
                parsed_date = "@ + parsed_date_text(e) + ",
                journal = "@ + optional_text_column(e.journal_col, 64) + ",
                account_no = "@ + account_no_text(e) + ",
                account_label = "@ + account_label_text(e, lookup) + ",
                debit = "@ + e.debit_expr@ + ",
                credit = "@ + e.credit_expr@ + "
            FROM "@ + e.table.sql_name_text() + " e
            "@ + account_join_text(e, lookup) + "
            WHERE "@ + "1 = 1"@ + account_filter_text(account_no_text(e), prefix) + "
        ),
        aggregated AS (
            SELECT
                account_no,
                MAX(account_label) AS account_label,
                SUM(CASE WHEN "@ + opening_text(e, p) + " THEN debit ELSE CAST(0 AS DECIMAL(38, 6)) END) AS open_debit_raw,
                SUM(CASE WHEN "@ + opening_text(e, p) + " THEN credit ELSE CAST(0 AS DECIMAL(38, 6)) END) AS open_credit_raw,
                SUM(CASE WHEN "@ + movement_text("account_no"@, "parsed_date"@, "journal"@, e.journal_col is Some, p) + " THEN debit ELSE CAST(0 AS DECIMAL(38, 6)) END) AS mvt_debit,
                SUM(CASE WHEN "@ + movement_text("account_no"@, "parsed_date"@, "journal"@, e.journal_col is Some, p) + " THEN credit ELSE CAST(0 AS DECIMAL(38, 6)) END) AS mvt_credit
            FROM base
            WHERE account_no <> ''
              AND parsed_date IS NOT NULL
              AND "@ + cutoff_text(e, p)).len() as int, 278);
    lemma_occurs_in_prefix(t, ("
        WITH base AS (
            SELECT
                parsed_date = "@ + parsed_date_text(e) + ",
                journal = "@ + optional_text_column(e.journal_col, 64) + ",
                account_no = "@ + account_no_text(e) + ",
                account_label = "@ + account_label_text(e, lookup) + ",
                debit = "@ + e.debit_expr@ + ",
                credit = "@ + e.credit_expr@ + "
            FROM "@ + e.table.sql_name_text() + " e
            "@ + account_join_text(e, lookup) + "
            WHERE "@ + "1 = 1"@ + account_filter_text(account_no_text(e), prefix) + "
        ),
        aggregated AS (
            SELECT
                account_no,
                MAX(account_label) AS account_label,
                SUM(CASE WHEN "@ + opening_text(e, p) + " THEN debit ELSE CAST(0 AS DECIMAL(38, 6)) END) AS open_debit_raw,
                SUM(CASE WHEN "@ + opening_text(e, p) + " THEN credit ELSE CAST(0 AS DECIMAL(38, 6)) END) AS open_credit_raw,
                SUM(CASE WHEN "@ + movement_text("account_no"@, "parsed_date"@, "journal"@, e.journal_col is Some, p) + " THEN debit ELSE CAST(0 AS DECIMAL(38, 6)) END) AS mvt_debit,
                SUM(CASE WHEN "@ + movement_text("account_no"@, "parsed_date"@, "journal"@, e.journal_col is Some, p) + " THEN credit ELSE CAST(0 AS DECIMAL(38, 6)) END) AS mvt_credit
            FROM base
            WHERE account_no <> ''
              AND parsed_date IS NOT NULL
              AND "@ + cutoff_text(e, p)) + balance_closing_is_opening_plus_movements_piece29(), "CASE WHEN (open_debit_raw - open_credit_raw) < 0 THEN ABS(open_debit_raw - open_credit_raw) ELSE CAST(0 AS DECIMAL(38, 6)) END AS ouverture_credit"@, (("
        WITH base AS (
            SELECT
                parsed_date = "@ + parsed_date_text(e) + ",
                journal = "@ + optional_text_column(e.journal_col, 64) + ",
                account_no = "@ + account_no_text(e) + ",
                account_label = "@ + account_label_text(e, lookup) + ",
                debit = "@ + e.debit_expr@ + ",
                credit = "@ + e.credit_expr@ + "
            FROM "@ + e.table.sql_name_text() + " e
            "@ + account_join_text(e, lookup) + "
            WHERE "@ + "1 = 1"@ + account_filter_text(account_no_text(e), prefix) + "
        ),
        aggregated AS (
            SELECT
                account_no,
                MAX(account_label) AS account_label,
                SUM(CASE WHEN "@ + opening_text(e, p) + " THEN debit ELSE CAST(0 AS DECIMAL(38, 6)) END) AS open_debit_raw,
                SUM(CASE WHEN "@ + opening_text(e, p) + " THEN credit ELSE CAST(0 AS DECIMAL(38, 6)) END) AS open_credit_raw,
                SUM(CASE WHEN "@ + movement_text("account_no"@, "parsed_date"@, "journal"@, e.journal_col is Some, p) + " THEN debit ELSE CAST(0 AS DECIMAL(38, 6)) END) AS mvt_debit,
                SUM(CASE WHEN "@ + movement_text("account_no"@, "parsed_date"@, "journal"@, e.journal_col is Some, p) + " THEN credit ELSE CAST(0 AS DECIMAL(38, 6)) END) AS mvt_credit
            FROM base
            WHERE account_no <> ''
              AND parsed_date IS NOT NULL
              AND "@ + cutoff_text(e, p)).len() + 278) as int);
    assert(t.subrange(0, (("
        WITH base AS (
            SELECT
                parsed_date = "@ + parsed_date_text(e) + ",
                journal = "@ + optional_text_column(e.journal_col, 64) + ",
                account_no = "@ + account_no_text(e) + ",
                account_label = "@ + account_label_text(e, lookup) + ",
                debit = "@ + e.debit_expr@ + ",
                credit = "@ + e.credit_expr@ + "
            FROM "@ + e.table.sql_name_text() + " e
            "@ + account_join_text(e, lookup) + "
            WHERE "@ + "1 = 1"@ + account_filter_text(account_no_text(e), prefix) + "
        ),
        aggregated AS (
            SELECT
                account_no,
                MAX(account_label) AS account_label,
                SUM(CASE WHEN "@ + opening_text(e, p) + " THEN debit ELSE CAST(0 AS DECIMAL(38, 6)) END) AS open_debit_raw,
                SUM(CASE WHEN "@ + opening_text(e, p) + " THEN credit ELSE CAST(0 AS DECIMAL(38, 6)) END) AS open_credit_raw,
                SUM(CASE WHEN "@ + movement_text("account_no"@, "parsed_date"@, "journal"@, e.journal_col is Some, p) + " THEN debit ELSE CAST(0 AS DECIMAL(38, 6)) END) AS mvt_debit,
                SUM(CASE WHEN "@ + movement_text("account_no"@, "parsed_date"@, "journal"@, e.journal_col is Some, p) + " THEN credit ELSE CAST(0 AS DECIMAL(38, 6)) END) AS mvt_credit
            FROM base
            WHERE account_no <> ''
              AND parsed_date IS NOT NULL
              AND "@ + cutoff_text(e, p)) + balance_closing_is_opening_plus_movements_piece29()).len() as int) == ("
        WITH base AS (
            SELECT
                parsed_date = "@ + parsed_date_text(e) + ",
                journal = "@ + optional_text_column(e.journal_col, 64) + ",
                account_no = "@ + account_no_text(e) + ",
                account_label = "@ + account_label_text(e, lookup) + ",
                debit = "@ + e.debit_expr@ + ",
                credit = "@ + e.credit_expr@ + "
            FROM "@ + e.table.sql_name_text() + " e
            "@ + account_join_text(e, lookup) + "
            WHERE "@ + "1 = 1"@ + account_filter_text(account_no_text(e), prefix) + "
        ),
        aggregated AS (
            SELECT
                account_no,
                MAX(account_label) AS account_label,
                SUM(CASE WHEN "@ + opening_text(e, p) + " THEN debit ELSE CAST(0 AS DECIMAL(38, 6)) END) AS open_debit_raw,
                SUM(CASE WHEN "@ + opening_text(e, p) + " THEN credit ELSE CAST(0 AS DECIMAL(38, 6)) END) AS open_credit_raw,
                SUM(CASE WHEN "@ + movement_text("account_no"@, "parsed_date"@, "journal"@, e.journal_col is Some, p) + " THEN debit ELSE CAST(0 AS DECIMAL(38, 6)) END) AS mvt_debit,
                SUM(CASE WHEN "@ + movement_text("account_no"@, "parsed_date"@, "journal"@, e.journal_col is Some, p) + " THEN credit ELSE CAST(0 AS DECIMAL(38, 6)) END) AS mvt_credit
            FROM base
            WHERE account_no <> ''
              AND parsed_date IS NOT NULL
              AND "@ + cutoff_text(e, p)) + balance_closing_is_opening_plus_movements_piece29()) by {
        assert(t.subrange(0, (("
        WITH base AS (
            SELECT
                parsed_date = "@ + parsed_date_text(e) + ",
                journal = "@ + optional_text_column(e.journal_col, 64) + ",
                account_no = "@ + account_no_text(e) + ",
                account_label = "@ + account_label_text(e, lookup) + ",
                debit = "@ + e.debit_expr@ + ",
                credit = "@ + e.credit_expr@ + "
            FROM "@ + e.table.sql_name_text() + " e
            "@ + account_join_text(e, lookup) + "
            WHERE "@ + "1 = 1"@ + account_filter_text(account_no_text(e), prefix) + "
        ),
        aggregated AS (
            SELECT
                account_no,
                MAX(account_label) AS account_label,
                SUM(CASE WHEN "@ + opening_text(e, p) + " THEN debit ELSE CAST(0 AS DECIMAL(38, 6)) END) AS open_debit_raw,
                SUM(CASE WHEN "@ + opening_text(e, p) + " THEN credit ELSE CAST(0 AS DECIMAL(38, 6)) END) AS open_credit_raw,
                SUM(CASE WHEN "@ + movement_text("account_no"@, "parsed_date"@, "journal"@, e.journal_col is Some, p) + " THEN debit ELSE CAST(0 AS DECIMAL(38, 6)) END) AS mvt_debit,
                SUM(CASE WHEN "@ + movement_text("account_no"@, "parsed_date"@, "journal"@, e.journal_col is Some, p) + " THEN credit ELSE CAST(0 AS DECIMAL(38, 6)) END) AS mvt_credit
            FROM base
            WHERE account_no <> ''
              AND parsed_date IS NOT NULL
              AND "@ + cutoff_text(e, p)) + balance_closing_is_opening_plus_movements_piece29()).len() as int) =~= ("
        WITH base AS (
            SELECT
                parsed_date = "@ + parsed_date_text(e) + ",
                journal = "@ + optional_text_column(e.journal_col, 64) + ",
                account_no = "@ + account_no_text(e) + ",
                account_label = "@ + account_label_text(e, lookup) + ",
                debit = "@ + e.debit_expr@ + ",
                credit = "@ + e.credit_expr@ + "
            FROM "@ + e.table.sql_name_text() + " e
            "@ + account_join_text(e, lookup) + "
            WHERE "@ + "1 = 1"@ + account_filter_text(account_no_text(e), prefix) + "
        ),
        aggregated AS (
            SELECT
                account_no,
                MAX(account_label) AS account_label,
                SUM(CASE WHEN "@ + opening_text(e, p) + " THEN debit ELSE CAST(0 AS DECIMAL(38, 6)) END) AS open_debit_raw,
                SUM(CASE WHEN "@ + opening_text(e, p) + " THEN credit ELSE CAST(0 AS DECIMAL(38, 6)) END) AS open_credit_raw,
                SUM(CASE WHEN "@ + movement_text("account_no"@, "parsed_date"@, "journal"@, e.journal_col is Some, p) + " THEN debit ELSE CAST(0 AS DECIMAL(38, 6)) END) AS mvt_debit,
                SUM(CASE WHEN "@ + movement_text("account_no"@, "parsed_date"@, "journal"@, e.journal_col is Some, p) + " THEN credit ELSE CAST(0 AS DECIMAL(38, 6)) END) AS mvt_credit
            FROM base
            WHERE account_no <> ''
              AND parsed_date IS NOT NULL
              AND "@ + cutoff_text(e, p)) + balance_closing_is_opening_plus_movements_piece29());
    }
    assert(("
        WITH base AS (
            SELECT
                parsed_date = "@ + parsed_date_text(e) + ",
                journal = "@ + optional_text_column(e.journal_col, 64) + ",
                account_no = "@ + account_no_text(e) + ",
                account_label = "@ + account_label_text(e, lookup) + ",
                debit = "@ + e.debit_expr@ + ",
                credit = "@ + e.credit_expr@ + "
            FROM "@ + e.table.sql_name_text() + " e
            "@ + account_join_text(e, lookup) + "
            WHERE "@ + "1 = 1"@ + account_filter_text(account_no_text(e), prefix) + "
        ),
        aggregated AS (
            SELECT
                account_no,
                MAX(account_label) AS account_label,
                SUM(CASE WHEN "@ + opening_text(e, p) + " THEN debit ELSE CAST(0 AS DECIMAL(38, 6)) END) AS open_debit_raw,
                SUM(CASE WHEN "@ + opening_text(e, p) + " THEN credit ELSE CAST(0 AS DECIMAL(38, 6)) END) AS open_credit_raw,
                SUM(CASE WHEN "@ + movement_text("account_no"@, "parsed_date"@, "journal"@, e.journal_col is Some, p) + " THEN debit ELSE CAST(0 AS DECIMAL(38, 6)) END) AS mvt_debit,
                SUM(CASE WHEN "@ + movement_text("account_no"@, "parsed_date"@, "journal"@, e.journal_col is Some, p) + " THEN credit ELSE CAST(0 AS DECIMAL(38, 6)) END) AS mvt_credit
            FROM base
            WHERE account_no <> ''
              AND parsed_date IS NOT NULL
              AND "@ + cutoff_text(e, p)) + balance_closing_is_opening_plus_movements_piece29() =~= ("
        WITH base AS (
            SELECT
                parsed_date = "@ + parsed_date_text(e) + ",
                journal = "@ + optional_text_column(e.journal_col, 64) + ",
                account_no = "@ + account_no_text(e) + ",
                account_label = "@ + account_label_text(e, lookup) + ",
                debit = "@ + e.debit_expr@ + ",
                credit = "@ + e.credit_expr@ + "
            FROM "@ + e.table.sql_name_text() + " e
            "@ + account_join_text(e, lookup) + "
            WHERE "@ + "1 = 1"@ + account_filter_text(account_no_text(e), prefix) + "
        ),
        aggregated AS (
            SELECT
                account_no,
                MAX(account_label) AS account_label,
                SUM(CASE WHEN "@ + opening_text(e, p) + " THEN debit ELSE CAST(0 AS DECIMAL(38, 6)) END) AS open_debit_raw,
                SUM(CASE WHEN "@ + opening_text(e, p) + " THEN credit ELSE CAST(0 AS DECIMAL(38, 6)) END) AS open_credit_raw,
                SUM(CASE WHEN "@ + movement_text("account_no"@, "parsed_date"@, "journal"@, e.journal_col is Some, p) + " THEN debit ELSE CAST(0 AS DECIMAL(38, 6)) END) AS mvt_debit,
                SUM(CASE WHEN "@ + movement_text("account_no"@, "parsed_date"@, "journal"@, e.journal_col is Some, p) + " THEN credit ELSE CAST(0 AS DECIMAL(38, 6)) END) AS mvt_credit
            FROM base
            WHERE account_no <> ''
              AND parsed_date IS NOT NULL
              AND "@ + cutoff_text(e, p)) + balance_closing_is_opening_plus_movements_piece29() + seq![]);
    lemma_occurs_between(("
        WITH base AS (
            SELECT
                parsed_date = "@ + parsed_date_text(e) + ",
                journal = "@ + optional_text_column(e.journal_col, 64) + ",
                account_no = "@ + account_no_text(e) + ",
                account_label = "@ + account_label_text(e, lookup) + ",
                debit = "@ + e.debit_expr@ + ",
                credit = "@ + e.credit_expr@ + "
            FROM "@ + e.table.sql_name_text() + " e
            "@ + account_join_text(e, lookup) + "
            WHERE "@ + "1 = 1"@ + account_filter_text(account_no_text(e), prefix) + "
        ),
        aggregated AS (
            SELECT
                account_no,
                MAX(account_label) AS account_label,
                SUM(CASE WHEN "@ + opening_text(e, p) + " THEN debit ELSE CAST(0 AS DECIMAL(38, 6)) END) AS open_debit_raw,
                SUM(CASE WHEN "@ + opening_text(e, p) + " THEN credit ELSE CAST(0 AS DECIMAL(38, 6)) END) AS open_credit_raw,
                SUM(CASE WHEN "@ + movement_text("account_no"@, "parsed_date"@, "journal"@, e.journal_col is Some, p) + " THEN debit ELSE CAST(0 AS DECIMAL(38, 6)) END) AS mvt_debit,
                SUM(CASE WHEN "@ + movement_text("account_no"@, "parsed_date"@, "journal"@, e.journal_col is Some, p) + " THEN credit ELSE CAST(0 AS DECIMAL(38, 6)) END) AS mvt_credit
            FROM base
            WHERE account_no <> ''
              AND parsed_date IS NOT NULL
              AND "@ + cutoff_text(e, p)) + balance_closing_is_opening_plus_movements_piece29(), "
        WITH base AS (
            SELECT
                parsed_date = "@ + parsed_date_text(e) + ",
                journal = "@ + optional_text_column(e.journal_col, 64) + ",
                account_no = "@ + account_no_text(e) + ",
                account_label = "@ + account_label_text(e, lookup) + ",
                debit = "@ + e.debit_expr@ + ",
                credit = "@ + e.credit_expr@ + "
            FROM "@ + e.table.sql_name_text() + " e
            "@ + account_join_text(e, lookup) + "
            WHERE "@ + "1 = 1"@ + account_filter_text(account_no_text(e), prefix) + "
        ),
        aggregated AS (
            SELECT
                account_no,
                MAX(account_label) AS account_label,
                SUM(CASE WHEN "@ + opening_text(e, p) + " THEN debit ELSE CAST(0 AS DECIMAL(38, 6)) END) AS open_debit_raw,
                SUM(CASE WHEN "@ + opening_text(e, p) + " THEN credit ELSE CAST(0 AS DECIMAL(38, 6)) END) AS open_credit_raw,
                SUM(CASE WHEN "@ + movement_text("account_no"@, "parsed_date"@, "journal"@, e.journal_col is Some, p) + " THEN debit ELSE CAST(0 AS DECIMAL(38, 6)) END) AS mvt_debit,
                SUM(CASE WHEN "@ + movement_text("account_no"@, "parsed_date"@, "journal"@, e.journal_col is Some, p) + " THEN credit ELSE CAST(0 AS DECIMAL(38, 6)) END) AS mvt_credit
            FROM base
            WHERE account_no <> ''
              AND parsed_date IS NOT NULL
              AND "@ + cutoff_text(e, p), balance_closing_is_opening_plus_movements_piece29(), seq![]);
    lemma_occurs_within(("
        WITH base AS (
            SELECT
                parsed_date = "@ + parsed_date_text(e) + ",
                journal = "@ + optional_text_column(e.journal_col, 64) + ",
                account_no = "@ + account_no_text(e) + ",
                account_label = "@ + account_label_text(e, lookup) + ",
                debit = "@ + e.debit_expr@ + ",
                credit = "@ + e.credit_expr@ + "
            FROM "@ + e.table.sql_name_text() + " e
            "@ + account_join_text(e, lookup) + "
            WHERE "@ + "1 = 1"@ + account_filter_text(account_no_text(e), prefix) + "
        ),
        aggregated AS (
            SELECT
                account_no,
                MAX(account_label) AS account_label,
                SUM(CASE WHEN "@ + opening_text(e, p) + " THEN debit ELSE CAST(0 AS DECIMAL(38, 6)) END) AS open_debit_raw,
                SUM(CASE WHEN "@ + opening_text(e, p) + " THEN credit ELSE CAST(0 AS DECIMAL(38, 6)) END) AS open_credit_raw,
                SUM(CASE WHEN "@ + movement_text("account_no"@, "parsed_date"@, "journal"@, e.journal_col is Some, p) + " THEN debit ELSE CAST(0 AS DECIMAL(38, 6)) END) AS mvt_debit,
                SUM(CASE WHEN "@ + movement_text("account_no"@, "parsed_date"@, "journal"@, e.journal_col is Some, p) + " THEN credit ELSE CAST(0 AS DECIMAL(38, 6)) END) AS mvt_credit
            FROM base
            WHERE account_no <> ''
              AND parsed_date IS NOT NULL
              AND "@ + cutoff_text(e, p)) + balance_closing_is_opening_plus_movements_piece29(), balance_closing_is_opening_plus_movements_piece29(), "WHEN ((open_debit_raw - open_credit_raw) + (mvt_debit - mvt_credit)) >= 0
                    THEN ((open_debit_raw - open_credit_raw) + (mvt_debit - mvt_credit))
                ELSE CAST(0 AS DECIMAL(38, 6))
            END AS cloture_debit"@, ("
        WITH base AS (
            SELECT
                parsed_date = "@ + parsed_date_text(e) + ",
                journal = "@ + optional_text_column(e.journal_col, 64) + ",
                account_no = "@ + account_no_text(e) + ",
                account_label = "@ + account_label_text(e, lookup) + ",
                debit = "@ + e.debit_expr@ + ",
                credit = "@ + e.credit_expr@ + "
            FROM "@ + e.table.sql_name_text() + " e
            "@ + account_join_text(e, lookup) + "
            WHERE "@ + "1 = 1"@ + account_filter_text(account_no_text(e), prefix) + "
        ),
        aggregated AS (
            SELECT
                account_no,
                MAX(account_label) AS account_label,
                SUM(CASE WHEN "@ + opening_text(e, p) + " THEN debit ELSE CAST(0 AS DECIMAL(38, 6)) END) AS open_debit_raw,
                SUM(CASE WHEN "@ + opening_text(e, p) + " THEN credit ELSE CAST(0 AS DECIMAL(38, 6)) END) AS open_credit_raw,
                SUM(CASE WHEN "@ + movement_text("account_no"@, "parsed_date"@, "journal"@, e.journal_col is Some, p) + " THEN debit ELSE CAST(0 AS DECIMAL(38, 6)) END) AS mvt_debit,
                SUM(CASE WHEN "@ + movement_text("account_no"@, "parsed_date"@, "journal"@, e.journal_col is Some, p) + " THEN credit ELSE CAST(0 AS DECIMAL(38, 6)) END) AS mvt_credit
            FROM base
            WHERE account_no <> ''
              AND parsed_date IS NOT NULL
              AND "@ + cutoff_text(e, p)).len() as int, 506);
    lemma_occurs_in_prefix(t, ("
        WITH base AS (
            SELECT
                parsed_date = "@ + parsed_date_text(e) + ",
                journal = "@ + optional_text_column(e.journal_col, 64) + ",
                account_no = "@ + account_no_text(e) + ",
                account_label = "@ + account_label_text(e, lookup) + ",
                debit = "@ + e.debit_expr@ + ",
                credit = "@ + e.credit_expr@ + "
            FROM "@ + e.table.sql_name_text() + " e
            "@ + account_join_text(e, lookup) + "
            WHERE "@ + "1 = 1"@ + account_filter_text(account_no_text(e), prefix) + "
        ),
        aggregated AS (
            SELECT
                account_no,
                MAX(account_label) AS account_label,
                SUM(CASE WHEN "@ + opening_text(e, p) + " THEN debit ELSE CAST(0 AS DECIMAL(38, 6)) END) AS open_debit_raw,
                SUM(CASE WHEN "@ + opening_text(e, p) + " THEN credit ELSE CAST(0 AS DECIMAL(38, 6)) END) AS open_credit_raw,
                SUM(CASE WHEN "@ + movement_text("account_no"@, "parsed_date"@, "journal"@, e.journal_col is Some, p) + " THEN debit ELSE CAST(0 AS DECIMAL(38, 6)) END) AS mvt_debit,
                SUM(CASE WHEN "@ + movement_text("account_no"@, "parsed_date"@, "journal"@, e.journal_col is Some, p) + " THEN credit ELSE CAST(0 AS DECIMAL(38, 6)) END) AS mvt_credit
            FROM base
            WHERE account_no <> ''
              AND parsed_date IS NOT NULL
              AND "@ + cutoff_text(e, p)) + balance_closing_is_opening_plus_movements_piece29(), "WHEN ((open_debit_raw - open_credit_raw) + (mvt_debit - mvt_credit)) >= 0
                    THEN ((open_debit_raw - open_credit_raw) + (mvt_debit - mvt_credit))
                ELSE CAST(0 AS DECIMAL(38, 6))
            END AS cloture_debit"@, (("
        WITH base AS (
            SELECT
                parsed_date = "@ + parsed_date_text(e) + ",
                journal = "@ + optional_text_column(e.journal_col, 64) + ",
                account_no = "@ + account_no_text(e) + ",
                account_label = "@ + account_label_text(e, lookup) + ",
                debit = "@ + e.debit_expr@ + ",
                credit = "@ + e.credit_expr@ + "
            FROM "@ + e.table.sql_name_text() + " e
            "@ + account_join_text(e, lookup) + "
            WHERE "@ + "1 = 1"@ + account_filter_text(account_no_text(e), prefix) + "
        ),
        aggregated AS (
            SELECT
                account_no,
                MAX(account_label) AS account_label,
                SUM(CASE WHEN "@ + opening_text(e, p) + " THEN debit ELSE CAST(0 AS DECIMAL(38, 6)) END) AS open_debit_raw,
                SUM(CASE WHEN "@ + opening_text(e, p) + " THEN credit ELSE CAST(0 AS DECIMAL(38, 6)) END) AS open_credit_raw,
                SUM(CASE WHEN "@ + movement_text("account_no"@, "parsed_date"@, "journal"@, e.journal_col is Some, p) + " THEN debit ELSE CAST(0 AS DECIMAL(38, 6)) END) AS mvt_debit,
                SUM(CASE WHEN "@ + movement_text("account_no"@, "parsed_date"@, "journal"@, e.journal_col is Some, p) + " THEN credit ELSE CAST(0 AS DECIMAL(38, 6)) END) AS mvt_credit
            FROM base
            WHERE account_no <> ''
              AND parsed_date IS NOT NULL
              AND "@ + cutoff_text(e, p)).len() + 506) as int);
    assert(t.subrange(0, (("
        WITH base AS (
            SELECT
                parsed_date = "@ + parsed_date_text(e) + ",
                journal = "@ + optional_text_column(e.journal_col, 64) + ",
                account_no = "@ + account_no_text(e) + ",
                account_label = "@ + account_label_text(e, lookup) + ",
                debit = "@ + e.debit_expr@ + ",
                credit = "@ + e.credit_expr@ + "
            FROM "@ + e.table.sql_name_text() + " e
            "@ + account_join_text(e, lookup) + "
            WHERE "@ + "1 = 1"@ + account_filter_text(account_no_text(e), prefix) + "
        ),
        aggregated AS (
            SELECT
                account_no,
                MAX(account_label) AS account_label,
                SUM(CASE WHEN "@ + opening_text(e, p) + " THEN debit ELSE CAST(0 AS DECIMAL(38, 6)) END) AS open_debit_raw,
                SUM(CASE WHEN "@ + opening_text(e, p) + " THEN credit ELSE CAST(0 AS DECIMAL(38, 6)) END) AS open_credit_raw,
                SUM(CASE WHEN "@ + movement_text("account_no"@, "parsed_date"@, "journal"@, e.journal_col is Some, p) + " THEN debit ELSE CAST(0 AS DECIMAL(38, 6)) END) AS mvt_debit,
                SUM(CASE WHEN "@ + movement_text("account_no"@, "parsed_date"@, "journal"@, e.journal_col is Some, p) + " THEN credit ELSE CAST(0 AS DECIMAL(38, 6)) END) AS mvt_credit
            FROM base
            WHERE account_no <> ''
              AND parsed_date IS NOT NULL
              AND "@ + cutoff_text(e, p)) + balance_closing_is_opening_plus_movements_piece29()).len() as int) == ("
        WITH base AS (
            SELECT
                parsed_date = "@ + parsed_date_text(e) + ",
                journal = "@ + optional_text_column(e.journal_col, 64) + ",
                account_no = "@ + account_no_text(e) + ",
                account_label = "@ + account_label_text(e, lookup) + ",
                debit = "@ + e.debit_expr@ + ",
                credit = "@ + e.credit_expr@ + "
            FROM "@ + e.table.sql_name_text() + " e
            "@ + account_join_text(e, lookup) + "
            WHERE "@ + "1 = 1"@ + account_filter_text(account_no_text(e), prefix) + "
        ),
        aggregated AS (
            SELECT
                account_no,
                MAX(account_label) AS account_label,
                SUM(CASE WHEN "@ + opening_text(e, p) + " THEN debit ELSE CAST(0 AS DECIMAL(38, 6)) END) AS open_debit_raw,
                SUM(CASE WHEN "@ + opening_text(e, p) + " THEN credit ELSE CAST(0 AS DECIMAL(38, 6)) END) AS open_credit_raw,
                SUM(CASE WHEN "@ + movement_text("account_no"@, "parsed_date"@, "journal"@, e.journal_col is Some, p) + " THEN debit ELSE CAST(0 AS DECIMAL(38, 6)) END) AS mvt_debit,
                SUM(CASE WHEN "@ + movement_text("account_no"@, "parsed_date"@, "journal"@, e.journal_col is Some, p) + " THEN credit ELSE CAST(0 AS DECIMAL(38, 6)) END) AS mvt_credit
            FROM base
            WHERE account_no <> ''
              AND parsed_date IS NOT NULL
              AND "@ + cutoff_text(e, p)) + balance_closing_is_opening_plus_movements_piece29()) by {
        assert(t.subrange(0, (("
        WITH base AS (
            SELECT
                parsed_date = "@ + parsed_date_text(e) + ",
                journal = "@ + optional_text_column(e.journal_col, 64) + ",
                account_no = "@ + account_no_text(e) + ",
                account_label = "@ + account_label_text(e, lookup) + ",
                debit = "@ + e.debit_expr@ + ",
                credit = "@ + e.credit_expr@ + "
            FROM "@ + e.table.sql_name_text() + " e
            "@ + account_join_text(e, lookup) + "
            WHERE "@ + "1 = 1"@ + account_filter_text(account_no_text(e), prefix) + "
        ),
        aggregated AS (
            SELECT
                account_no,
                MAX(account_label) AS account_label,
                SUM(CASE WHEN "@ + opening_text(e, p) + " THEN debit ELSE CAST(0 AS DECIMAL(38, 6)) END) AS open_debit_raw,
                SUM(CASE WHEN "@ + opening_text(e, p) + " THEN credit ELSE CAST(0 AS DECIMAL(38, 6)) END) AS open_credit_raw,
                SUM(CASE WHEN "@ + movement_text("account_no"@, "parsed_date"@, "journal"@, e.journal_col is Some, p) + " THEN debit ELSE CAST(0 AS DECIMAL(38, 6)) END) AS mvt_debit,
                SUM(CASE WHEN "@ + movement_text("account_no"@, "parsed_date"@, "journal"@, e.journal_col is Some, p) + " THEN credit ELSE CAST(0 AS DECIMAL(38, 6)) END) AS mvt_credit
            FROM base
            WHERE account_no <> ''
              AND parsed_date IS NOT NULL
              AND "@ + cutoff_text(e, p)) + balance_closing_is_opening_plus_movements_piece29()).len() as int) =~= ("
        WITH base AS (
            SELECT
                parsed_date = "@ + parsed_date_text(e) + ",
                journal = "@ + optional_text_column(e.journal_col, 64) + ",
                account_no = "@ + account_no_text(e) + ",
                account_label = "@ + account_label_text(e, lookup) + ",
                debit = "@ + e.debit_expr@ + ",
                credit = "@ + e.credit_expr@ + "
            FROM "@ + e.table.sql_name_text() + " e
            "@ + account_join_text(e, lookup) + "
            WHERE "@ + "1 = 1"@ + account_filter_text(account_no_text(e), prefix) + "
        ),
        aggregated AS (
            SELECT
                account_no,
                MAX(account_label) AS account_label,
                SUM(CASE WHEN "@ + opening_text(e, p) + " THEN debit ELSE CAST(0 AS DECIMAL(38, 6)) END) AS open_debit_raw,
                SUM(CASE WHEN "@ + opening_text(e, p) + " THEN credit ELSE CAST(0 AS DECIMAL(38, 6)) END) AS open_credit_raw,
                SUM(CASE WHEN "@ + movement_text("account_no"@, "parsed_date"@, "journal"@, e.journal_col is Some, p) + " THEN debit ELSE CAST(0 AS DECIMAL(38, 6)) END) AS mvt_debit,
                SUM(CASE WHEN "@ + movement_text("account_no"@, "parsed_date"@, "journal"@, e.journal_col is Some, p) + " THEN credit ELSE CAST(0 AS DECIMAL(38, 6)) END) AS mvt_credit
            FROM base
            WHERE account_no <> ''
              AND parsed_date IS NOT NULL
              AND "@ + cutoff_text(e, p)) + balance_closing_is_opening_plus_movements_piece29());
    }
    assert(("
        WITH base AS (
            SELECT
                parsed_date = "@ + parsed_date_text(e) + ",
                journal = "@ + optional_text_column(e.journal_col, 64) + ",
                account_no = "@ + account_no_text(e) + ",
                account_label = "@ + account_label_text(e, lookup) + ",
                debit = "@ + e.debit_expr@ + ",
                credit = "@ + e.credit_expr@ + "
            FROM "@ + e.table.sql_name_text() + " e
            "@ + account_join_text(e, lookup) + "
            WHERE "@ + "1 = 1"@ + account_filter_text(account_no_text(e), prefix) + "
        ),
        aggregated AS (
            SELECT
                account_no,
                MAX(account_label) AS account_label,
                SUM(CASE WHEN "@ + opening_text(e, p) + " THEN debit ELSE CAST(0 AS DECIMAL(38, 6)) END) AS open_debit_raw,
                SUM(CASE WHEN "@ + opening_text(e, p) + " THEN credit ELSE CAST(0 AS DECIMAL(38, 6)) END) AS open_credit_raw,
                SUM(CASE WHEN "@ + movement_text("account_no"@, "parsed_date"@, "journal"@, e.journal_col is Some, p) + " THEN debit ELSE CAST(0 AS DECIMAL(38, 6)) END) AS mvt_debit,
                SUM(CASE WHEN "@ + movement_text("account_no"@, "parsed_date"@, "journal"@, e.journal_col is Some, p) + " THEN credit ELSE CAST(0 AS DECIMAL(38, 6)) END) AS mvt_credit
            FROM base
            WHERE account_no <> ''
              AND parsed_date IS NOT NULL
              AND "@ + cutoff_text(e, p)) + balance_closing_is_opening_plus_movements_piece29() =~= ("
        WITH base AS (
            SELECT
                parsed_date = "@ + parsed_date_text(e) + ",
                journal = "@ + optional_text_column(e.journal_col, 64) + ",
                account_no = "@ + account_no_text(e) + ",
                account_label = "@ + account_label_text(e, lookup) + ",
                debit = "@ + e.debit_expr@ + ",
                credit = "@ + e.credit_expr@ + "
            FROM "@ + e.table.sql_name_text() + " e
            "@ + account_join_text(e, lookup) + "
            WHERE "@ + "1 = 1"@ + account_filter_text(account_no_text(e), prefix) + "
        ),
        aggregated AS (
            SELECT
                account_no,
                MAX(account_label) AS account_label,
                SUM(CASE WHEN "@ + opening_text(e, p) + " THEN debit ELSE CAST(0 AS DECIMAL(38, 6)) END) AS open_debit_raw,
                SUM(CASE WHEN "@ + opening_text(e, p) + " THEN credit ELSE CAST(0 AS DECIMAL(38, 6)) END) AS open_credit_raw,
                SUM(CASE WHEN "@ + movement_text("account_no"@, "parsed_date"@, "journal"@, e.journal_col is Some, p) + " THEN debit ELSE CAST(0 AS DECIMAL(38, 6)) END) AS mvt_debit,
                SUM(CASE WHEN "@ + movement_text("account_no"@, "parsed_date"@, "journal"@, e.journal_col is Some, p) + " THEN credit ELSE CAST(0 AS DECIMAL(38, 6)) END) AS mvt_credit
            FROM base
            WHERE account_no <> ''
              AND parsed_date IS NOT NULL
              AND "@ + cutoff_text(e, p)) + balance_closing_is_opening_plus_movements_piece29() + seq![]);
    lemma_occurs_between(("
        WITH base AS (
            SELECT
                parsed_date = "@ + parsed_date_text(e) + ",
                journal = "@ + optional_text_column(e.journal_col, 64) + ",
                account_no = "@ + account_no_text(e) + ",
                account_label = "@ + account_label_text(e, lookup) + ",
                debit = "@ + e.debit_expr@ + ",
                credit = "@ + e.credit_expr@ + "
            FROM "@ + e.table.sql_name_text() + " e
            "@ + account_join_text(e, lookup) + "
            WHERE "@ + "1 = 1"@ + account_filter_text(account_no_text(e), prefix) + "
        ),
        aggregated AS (
            SELECT
                account_no,
                MAX(account_label) AS account_label,
                SUM(CASE WHEN "@ + opening_text(e, p) + " THEN debit ELSE CAST(0 AS DECIMAL(38, 6)) END) AS open_debit_raw,
                SUM(CASE WHEN "@ + opening_text(e, p) + " THEN credit ELSE CAST(0 AS DECIMAL(38, 6)) END) AS open_credit_raw,
                SUM(CASE WHEN "@ + movement_text("account_no"@, "parsed_date"@, "journal"@, e.journal_col is Some, p) + " THEN debit ELSE CAST(0 AS DECIMAL(38, 6)) END) AS mvt_debit,
                SUM(CASE WHEN "@ + movement_text("account_no"@, "parsed_date"@, "journal"@, e.journal_col is Some, p) + " THEN credit ELSE CAST(0 AS DECIMAL(38, 6)) END) AS mvt_credit
            FROM base
            WHERE account_no <> ''
              AND parsed_date IS NOT NULL
              AND "@ + cutoff_text(e, p)) + balance_closing_is_opening_plus_movements_piece29(), "
        WITH base AS (
            SELECT
                parsed_date = "@ + parsed_date_text(e) + ",
                journal = "@ + optional_text_column(e.journal_col, 64) + ",
                account_no = "@ + account_no_text(e) + ",
                account_label = "@ + account_label_text(e, lookup) + ",
                debit = "@ + e.debit_expr@ + ",
                credit = "@ + e.credit_expr@ + "
            FROM "@ + e.table.sql_name_text() + " e
            "@ + account_join_text(e, lookup) + "
            WHERE "@ + "1 = 1"@ + account_filter_text(account_no_text(e), prefix) + "
        ),
        aggregated AS (
            SELECT
                account_no,
                MAX(account_label) AS account_label,
                SUM(CASE WHEN "@ + opening_text(e, p) + " THEN debit ELSE CAST(0 AS DECIMAL(38, 6)) END) AS open_debit_raw,
                SUM(CASE WHEN "@ + opening_text(e, p) + " THEN credit ELSE CAST(0 AS DECIMAL(38, 6)) END) AS open_credit_raw,
                SUM(CASE WHEN "@ + movement_text("account_no"@, "parsed_date"@, "journal"@, e.journal_col is Some, p) + " THEN debit ELSE CAST(0 AS DECIMAL(38, 6)) END) AS mvt_debit,
                SUM(CASE WHEN "@ + movement_text("account_no"@, "parsed_date"@, "journal"@, e.journal_col is Some, p) + " THEN credit ELSE CAST(0 AS DECIMAL(38, 6)) END) AS mvt_credit
            FROM base
            WHERE account_no <> ''
              AND parsed_date IS NOT NULL
              AND "@ + cutoff_text(e, p), balance_closing_is_opening_plus_movements_piece29(), seq![]);
    lemma_occurs_within(("
        WITH base AS (
            SELECT
                parsed_date = "@ + parsed_date_text(e) + ",
                journal = "@ + optional_text_column(e.journal_col, 64) + ",
                account_no = "@ + account_no_text(e) + ",
                account_label = "@ + account_label_text(e, lookup) + ",
                debit = "@ + e.debit_expr@ + ",
                credit = "@ + e.credit_expr@ + "
            FROM "@ + e.table.sql_name_text() + " e
            "@ + account_join_text(e, lookup) + "
            WHERE "@ + "1 = 1"@ + account_filter_text(account_no_text(e), prefix) + "
        ),
        aggregated AS (
            SELECT
                account_no,
                MAX(account_label) AS account_label,
                SUM(CASE WHEN "@ + opening_text(e, p) + " THEN debit ELSE CAST(0 AS DECIMAL(38, 6)) END) AS open_debit_raw,
                SUM(CASE WHEN "@ + opening_text(e, p) + " THEN credit ELSE CAST(0 AS DECIMAL(38, 6)) END) AS open_credit_raw,
                SUM(CASE WHEN "@ + movement_text("account_no"@, "parsed_date"@, "journal"@, e.journal_col is Some, p) + " THEN debit ELSE CAST(0 AS DECIMAL(38, 6)) END) AS mvt_debit,
                SUM(CASE WHEN "@ + movement_text("account_no"@, "parsed_date"@, "journal"@, e.journal_col is Some, p) + " THEN credit ELSE CAST(0 AS DECIMAL(38, 6)) END) AS mvt_credit
            FROM base
            WHERE account_no <> ''
              AND parsed_date IS NOT NULL
              AND "@ + cutoff_text(e, p)) + balance_closing_is_opening_plus_movements_piece29(), balance_closing_is_opening_plus_movements_piece29(), "WHEN ((open_debit_raw - open_credit_raw) + (mvt_debit - mvt_credit)) < 0
                    THEN ABS((open_debit_raw - open_credit_raw) + (mvt_debit - mvt_credit))
                ELSE CAST(0 AS DECIMAL(38, 6))
            END AS cloture_credit"@, ("
        WITH base AS (
            SELECT
                parsed_date = "@ + parsed_date_text(e) + ",
                journal = "@ + optional_text_column(e.journal_col, 64) + ",
                account_no = "@ + account_no_text(e) + ",
                account_label = "@ + account_label_text(e, lookup) + ",
                debit = "@ + e.debit_expr@ + ",
                credit = "@ + e.credit_expr@ + "
            FROM "@ + e.table.sql_name_text() + " e
            "@ + account_join_text(e, lookup) + "
            WHERE "@ + "1 = 1"@ + account_filter_text(account_no_text(e), prefix) + "
        ),
        aggregated AS (
            SELECT
                account_no,
                MAX(account_label) AS account_label,
                SUM(CASE WHEN "@ + opening_text(e, p) + " THEN debit ELSE CAST(0 AS DECIMAL(38, 6)) END) AS open_debit_raw,
                SUM(CASE WHEN "@ + opening_text(e, p) + " THEN credit ELSE CAST(0 AS DECIMAL(38, 6)) END) AS open_credit_raw,
                SUM(CASE WHEN "@ + movement_text("account_no"@, "parsed_date"@, "journal"@, e.journal_col is Some, p) + " THEN debit ELSE CAST(0 AS DECIMAL(38, 6)) END) AS mvt_debit,
                SUM(CASE WHEN "@ + movement_text("account_no"@, "parsed_date"@, "journal"@, e.journal_col is Some, p) + " THEN credit ELSE CAST(0 AS DECIMAL(38, 6)) END) AS mvt_credit
            FROM base
            WHERE account_no <> ''
              AND parsed_date IS NOT NULL
              AND "@ + cutoff_text(e, p)).len() as int, 783);
    lemma_occurs_in_prefix(t, ("
        WITH base AS (
            SELECT
                parsed_date = "@ + parsed_date_text(e) + ",
                journal = "@ + optional_text_column(e.journal_col, 64) + ",
                account_no = "@ + account_no_text(e) + ",
                account_label = "@ + account_label_text(e, lookup) + ",
                debit = "@ + e.debit_expr@ + ",
                credit = "@ + e.credit_expr@ + "
            FROM "@ + e.table.sql_name_text() + " e
            "@ + account_join_text(e, lookup) + "
            WHERE "@ + "1 = 1"@ + account_filter_text(account_no_text(e), prefix) + "
        ),
        aggregated AS (
            SELECT
                account_no,
                MAX(account_label) AS account_label,
                SUM(CASE WHEN "@ + opening_text(e, p) + " THEN debit ELSE CAST(0 AS DECIMAL(38, 6)) END) AS open_debit_raw,
                SUM(CASE WHEN "@ + opening_text(e, p) + " THEN credit ELSE CAST(0 AS DECIMAL(38, 6)) END) AS open_credit_raw,
                SUM(CASE WHEN "@ + movement_text("account_no"@, "parsed_date"@, "journal"@, e.journal_col is Some, p) + " THEN debit ELSE CAST(0 AS DECIMAL(38, 6)) END) AS mvt_debit,
                SUM(CASE WHEN "@ + movement_text("account_no"@, "parsed_date"@, "journal"@, e.journal_col is Some, p) + " THEN credit ELSE CAST(0 AS DECIMAL(38, 6)) END) AS mvt_credit
            FROM base
            WHERE account_no <> ''
              AND parsed_date IS NOT NULL
              AND "@ + cutoff_text(e, p)) + balance_closing_is_opening_plus_movements_piece29(), "WHEN ((open_debit_raw - open_credit_raw) + (mvt_debit - mvt_credit)) < 0
                    THEN ABS((open_debit_raw - open_credit_raw) + (mvt_debit - mvt_credit))
                ELSE CAST(0 AS DECIMAL(38, 6))
            END AS cloture_credit"@, (("
        WITH base AS (
            SELECT
                parsed_date = "@ + parsed_date_text(e) + ",
                journal = "@ + optional_text_column(e.journal_col, 64) + ",
                account_no = "@ + account_no_text(e) + ",
                account_label = "@ + account_label_text(e, lookup) + ",
                debit = "@ + e.debit_expr@ + ",
                credit = "@ + e.credit_expr@ + "
            FROM "@ + e.table.sql_name_text() + " e
            "@ + account_join_text(e, lookup) + "
            WHERE "@ + "1 = 1"@ + account_filter_text(account_no_text(e), prefix) + "
        ),
        aggregated AS (
            SELECT
                account_no,
                MAX(account_label) AS account_label,
                SUM(CASE WHEN "@ + opening_text(e, p) + " THEN debit ELSE CAST(0 AS DECIMAL(38, 6)) END) AS open_debit_raw,
                SUM(CASE WHEN "@ + opening_text(e, p) + " THEN credit ELSE CAST(0 AS DECIMAL(38, 6)) END) AS open_credit_raw,
                SUM(CASE WHEN "@ + movement_text("account_no"@, "parsed_date"@, "journal"@, e.journal_col is Some, p) + " THEN debit ELSE CAST(0 AS DECIMAL(38, 6)) END) AS mvt_debit,
                SUM(CASE WHEN "@ + movement_text("account_no"@, "parsed_date"@, "journal"@, e.journal_col is Some, p) + " THEN credit ELSE CAST(0 AS DECIMAL(38, 6)) END) AS mvt_credit
            FROM base
            WHERE account_no <> ''
              AND parsed_date IS NOT NULL
              AND "@ + cutoff_text(e, p)).len() + 783) as int);
}

pub open spec fn monthly_accounts_sum_each_side_piece20() -> Seq<char> {
    "
            )
            SELECT
                account_no,
                MAX(account_label) AS account_label,
                MONTH(parsed_date) AS [month],
                SUM(debit) AS debit,
                SUM(credit) AS credit
            FROM base
            WHERE parsed_date IS NOT NULL AND account_no <> ''
            GROUP BY account_no, MONTH(parsed_date)
            ORDER BY account_no, [month]
            "@
}

proof fn lemma_monthly_accounts_sum_each_side_literals()
    ensures
        occurs_at(monthly_accounts_sum_each_side_piece20(), "MONTH(parsed_date) AS [month],
                SUM(debit) AS debit,
                SUM(credit) AS credit"@, 131),
{
    reveal_strlit("
            )
            SELECT
                account_no,
                MAX(account_label) AS account_label,
                MONTH(parsed_date) AS [month],
                SUM(debit) AS debit,
                SUM(credit) AS credit
            FROM base
            WHERE parsed_date IS NOT NULL AND account_no <> ''
            GROUP BY account_no, MONTH(parsed_date)
            ORDER BY account_no, [month]
            ");
    reveal_strlit("MONTH(parsed_date) AS [month],
                SUM(debit) AS debit,
                SUM(credit) AS credit");
    assert(monthly_accounts_sum_each_side_piece20().subrange(131, (131 + "MONTH(parsed_date) AS [month],
                SUM(debit) AS debit,
                SUM(credit) AS credit"@.len()) as int) =~= "MONTH(parsed_date) AS [month],
                SUM(debit) AS debit,
                SUM(credit) AS credit"@);
}

/// The operating account report sums each account's debits and credits by
/// month.
#[verifier::rlimit(100)]
#[verifier::spinoff_prover]
pub proof fn lemma_monthly_accounts_sum_each_side(e: EntryContext, lookup: Option<LookupContext>, date_from: Seq<char>, date_to: Seq<char>)
    ensures
        occurs_in(monthly_accounts_query_text(e, lookup, date_from, date_to), "MONTH(parsed_date) AS [month],
                SUM(debit) AS debit,
                SUM(credit) AS credit"@),
{
    let t = monthly_accounts_query_text(e, lookup, date_from, date_to);
    lemma_monthly_accounts_sum_each_side_literals();
    assert(t.subrange(0, (("
            WITH base AS (
                SELECT
                    parsed_date = "@ + parsed_date_text(e) + ",
                    account_no = "@ + account_no_text(e) + ",
                    account_label = "@ + account_label_text(e, lookup) + ",
                    debit = "@ + e.debit_expr@ + ",
                    credit = "@ + e.credit_expr@ + "
                FROM "@ + e.table.sql_name_text() + " e
                "@ + account_join_text(e, lookup) + "
                WHERE "@ + parsed_date_text(e) + " BETWEEN "@ + sql_literal_seq(date_from) + " AND "@ + sql_literal_seq(date_to)) + monthly_accounts_sum_each_side_piece20()).len() as int) == ("
            WITH base AS (
                SELECT
                    parsed_date = "@ + parsed_date_text(e) + ",
                    account_no = "@ + account_no_text(e) + ",
                    account_label = "@ + account_label_text(e, lookup) + ",
                    debit = "@ + e.debit_expr@ + ",
                    credit = "@ + e.credit_expr@ + "
                FROM "@ + e.table.sql_name_text() + " e
                "@ + account_join_text(e, lookup) + "
                WHERE "@ + parsed_date_text(e) + " BETWEEN "@ + sql_literal_seq(date_from) + " AND "@ + sql_literal_seq(date_to)) + monthly_accounts_sum_each_side_piece20()) by {
        assert(t.subrange(0, (("
            WITH base AS (
                SELECT
                    parsed_date = "@ + parsed_date_text(e) + ",
                    account_no = "@ + account_no_text(e) + ",
                    account_label = "@ + account_label_text(e, lookup) + ",
                    debit = "@ + e.debit_expr@ + ",
                    credit = "@ + e.credit_expr@ + "
                FROM "@ + e.table.sql_name_text() + " e
                "@ + account_join_text(e, lookup) + "
                WHERE "@ + parsed_date_text(e) + " BETWEEN "@ + sql_literal_seq(date_from) + " AND "@ + sql_literal_seq(date_to)) + monthly_accounts_sum_each_side_piece20()).len() as int) =~= ("
            WITH base AS (
                SELECT
                    parsed_date = "@ + parsed_date_text(e) + ",
                    account_no = "@ + account_no_text(e) + ",
                    account_label = "@ + account_label_text(e, lookup) + ",
                    debit = "@ + e.debit_expr@ + ",
                    credit = "@ + e.credit_expr@ + "
                FROM "@ + e.table.sql_name_text() + " e
                "@ + account_join_text(e, lookup) + "
                WHERE "@ + parsed_date_text(e) + " BETWEEN "@ + sql_literal_seq(date_from) + " AND "@ + sql_literal_seq(date_to)) + monthly_accounts_sum_each_side_piece20());
    }
    assert(("
            WITH base AS (
                SELECT
                    parsed_date = "@ + parsed_date_text(e) + ",
                    account_no = "@ + account_no_text(e) + ",
                    account_label = "@ + account_label_text(e, lookup) + ",
                    debit = "@ + e.debit_expr@ + ",
                    credit = "@ + e.credit_expr@ + "
                FROM "@ + e.table.sql_name_text() + " e
                "@ + account_join_text(e, lookup) + "
                WHERE "@ + parsed_date_text(e) + " BETWEEN "@ + sql_literal_seq(date_from) + " AND "@ + sql_literal_seq(date_to)) + monthly_accounts_sum_each_side_piece20() =~= ("
            WITH base AS (
                SELECT
                    parsed_date = "@ + parsed_date_text(e) + ",
                    account_no = "@ + account_no_text(e) + ",
                    account_label = "@ + account_label_text(e, lookup) + ",
                    debit = "@ + e.debit_expr@ + ",
                    credit = "@ + e.credit_expr@ + "
                FROM "@ + e.table.sql_name_text() + " e
                "@ + account_join_text(e, lookup) + "
                WHERE "@ + parsed_date_text(e) + " BETWEEN "@ + sql_literal_seq(date_from) + " AND "@ + sql_literal_seq(date_to)) + monthly_accounts_sum_each_side_piece20() + seq![]);
    lemma_occurs_between(("
            WITH base AS (
                SELECT
                    parsed_date = "@ + parsed_date_text(e) + ",
                    account_no = "@ + account_no_text(e) + ",
                    account_label = "@ + account_label_text(e, lookup) + ",
                    debit = "@ + e.debit_expr@ + ",
                    credit = "@ + e.credit_expr@ + "
                FROM "@ + e.table.sql_name_text() + " e
                "@ + account_join_text(e, lookup) + "
                WHERE "@ + parsed_date_text(e) + " BETWEEN "@ + sql_literal_seq(date_from) + " AND "@ + sql_literal_seq(date_to)) + monthly_accounts_sum_each_side_piece20(), "
            WITH base AS (
                SELECT
                    parsed_date = "@ + parsed_date_text(e) + ",
                    account_no = "@ + account_no_text(e) + ",
                    account_label = "@ + account_label_text(e, lookup) + ",
                    debit = "@ + e.debit_expr@ + ",
                    credit = "@ + e.credit_expr@ + "
                FROM "@ + e.table.sql_name_text() + " e
                "@ + account_join_text(e, lookup) + "
                WHERE "@ + parsed_date_text(e) + " BETWEEN "@ + sql_literal_seq(date_from) + " AND "@ + sql_literal_seq(date_to), monthly_accounts_sum_each_side_piece20(), seq![]);
    lemma_occurs_within(("
            WITH base AS (
                SELECT
                    parsed_date = "@ + parsed_date_text(e) + ",
                    account_no = "@ + account_no_text(e) + ",
                    account_label = "@ + account_label_text(e, lookup) + ",
                    debit = "@ + e.debit_expr@ + ",
                    credit = "@ + e.credit_expr@ + "
                FROM "@ + e.table.sql_name_text() + " e
                "@ + account_join_text(e, lookup) + "
                WHERE "@ + parsed_date_text(e) + " BETWEEN "@ + sql_literal_seq(date_from) + " AND "@ + sql_literal_seq(date_to)) + monthly_accounts_sum_each_side_piece20(), monthly_accounts_sum_each_side_piece20(), "MONTH(parsed_date) AS [month],
                SUM(debit) AS debit,
                SUM(credit) AS credit"@, ("
            WITH base AS (
                SELECT
                    parsed_date = "@ + parsed_date_text(e) + ",
                    account_no = "@ + account_no_text(e) + ",
                    account_label = "@ + account_label_text(e, lookup) + ",
                    debit = "@ + e.debit_expr@ + ",
                    credit = "@ + e.credit_expr@ + "
                FROM "@ + e.table.sql_name_text() + " e
                "@ + account_join_text(e, lookup) + "
                WHERE "@ + parsed_date_text(e) + " BETWEEN "@ + sql_literal_seq(date_from) + " AND "@ + sql_literal_seq(date_to)).len() as int, 131);
    lemma_occurs_in_prefix(t, ("
            WITH base AS (
                SELECT
                    parsed_date = "@ + parsed_date_text(e) + ",
                    account_no = "@ + account_no_text(e) + ",
                    account_label = "@ + account_label_text(e, lookup) + ",
                    debit = "@ + e.debit_expr@ + ",
                    credit = "@ + e.credit_expr@ + "
                FROM "@ + e.table.sql_name_text() + " e
                "@ + account_join_text(e, lookup) + "
                WHERE "@ + parsed_date_text(e) + " BETWEEN "@ + sql_literal_seq(date_from) + " AND "@ + sql_literal_seq(date_to)) + monthly_accounts_sum_each_side_piece20(), "MONTH(parsed_date) AS [month],
                SUM(debit) AS debit,
                SUM(credit) AS credit"@, (("
            WITH base AS (
                SELECT
                    parsed_date = "@ + parsed_date_text(e) + ",
                    account_no = "@ + account_no_text(e) + ",
                    account_label = "@ + account_label_text(e, lookup) + ",
                    debit = "@ + e.debit_expr@ + ",
                    credit = "@ + e.credit_expr@ + "
                FROM "@ + e.table.sql_name_text() + " e
                "@ + account_join_text(e, lookup) + "
                WHERE "@ + parsed_date_text(e) + " BETWEEN "@ + sql_literal_seq(date_from) + " AND "@ + sql_literal_seq(date_to)).len() + 131) as int);
}

pub open spec fn sage1000_monthly_accounts_read_the_date_range_piece18() -> Seq<char> {
    "
                WHERE TRY_CAST("@
}

pub open spec fn sage1000_monthly_accounts_read_the_date_range_piece24() -> Seq<char> {
    "
            )
            SELECT
                account_no,
                MAX(account_label) AS account_label,
                MONTH(parsed_date) AS [month],
                SUM(debit) AS debit,
                SUM(credit) AS credit
            FROM base
            WHERE parsed_date IS NOT NULL AND account_no <> ''
            GROUP BY account_no, MONTH(parsed_date)
            ORDER BY account_no, [month]
            "@
}

proof fn lemma_sage1000_monthly_accounts_read_the_date_range_literals()
    ensures
        ends_with(sage1000_monthly_accounts_read_the_date_range_piece18(), "WHERE TRY_CAST("@),
        begins_with(sage1000_monthly_accounts_read_the_date_range_piece24(), ""@),
{
    reveal_strlit("
                WHERE TRY_CAST(");
    reveal_strlit("
            )
            SELECT
                account_no,
                MAX(account_label) AS account_label,
                MONTH(parsed_date) AS [month],
                SUM(debit) AS debit,
                SUM(credit) AS credit
            FROM base
            WHERE parsed_date IS NOT NULL AND account_no <> ''
            GROUP BY account_no, MONTH(parsed_date)
            ORDER BY account_no, [month]
            ");
    reveal_strlit("");
    reveal_strlit("WHERE TRY_CAST(");
    assert(sage1000_monthly_accounts_read_the_date_range_piece18().subrange(sage1000_monthly_accounts_read_the_date_range_piece18().len() - "WHERE TRY_CAST("@.len(), sage1000_monthly_accounts_read_the_date_range_piece18().len() as int) =~= "WHERE TRY_CAST("@);
    assert(sage1000_monthly_accounts_read_the_date_range_piece24().subrange(0, ""@.len() as int) =~= ""@);
}

/// The Sage 1000 operating account report reads exactly the entries dated in
/// the requested range.
#[verifier::rlimit(100)]
#[verifier::spinoff_prover]
pub proof fn lemma_sage1000_monthly_accounts_read_the_date_range(c: Sage1000Context, date_from: Seq<char>, date_to: Seq<char>)
    ensures
        occurs_in(
            sage1000_monthly_accounts_query_text(c, date_from, date_to),
            "WHERE TRY_CAST("@ + qualified("e"@, "eDate"@) + " AS DATE) BETWEEN "@ + sql_literal_seq(date_from) + " AND "@ + sql_literal_seq(date_to),
        ),
{
    reveal_strlit("");
    let t = sage1000_monthly_accounts_query_text(c, date_from, date_to);
    lemma_sage1000_monthly_accounts_read_the_date_range_literals();
    assert(t.subrange(0, (("
            WITH base AS (
                SELECT
                    parsed_date = TRY_CAST("@ + qualified("e"@, "eDate"@) + " AS DATE),
                    account_no = "@ + text_or_empty_text(qualified("cg"@, "codeCompte"@), 64) + ",
                    account_label = "@ + text_or_empty_text(qualified("cg"@, "Caption"@), 255) + ",
                    debit = "@ + decimal_or_zero_text(qualified("e"@, "debit"@)) + ",
                    credit = "@ + decimal_or_zero_text(qualified("e"@, "credit"@)) + "
                FROM "@ + c.entries.sql_name_text() + " e
                LEFT JOIN "@ + c.accounts.sql_name_text() + " cg ON "@ + qualified("e"@, "oidcompteGeneral"@) + " = "@ + qualified("cg"@, "oid"@)) + sage1000_monthly_accounts_read_the_date_range_piece18() + (qualified("e"@, "eDate"@) + " AS DATE) BETWEEN "@ + sql_literal_seq(date_from) + " AND "@ + sql_literal_seq(date_to)) + sage1000_monthly_accounts_read_the_date_range_piece24()).len() as int) == ("
            WITH base AS (
                SELECT
                    parsed_date = TRY_CAST("@ + qualified("e"@, "eDate"@) + " AS DATE),
                    account_no = "@ + text_or_empty_text(qualified("cg"@, "codeCompte"@), 64) + ",
                    account_label = "@ + text_or_empty_text(qualified("cg"@, "Caption"@), 255) + ",
                    debit = "@ + decimal_or_zero_text(qualified("e"@, "debit"@)) + ",
                    credit = "@ + decimal_or_zero_text(qualified("e"@, "credit"@)) + "
                FROM "@ + c.entries.sql_name_text() + " e
                LEFT JOIN "@ + c.accounts.sql_name_text() + " cg ON "@ + qualified("e"@, "oidcompteGeneral"@) + " = "@ + qualified("cg"@, "oid"@)) + sage1000_monthly_accounts_read_the_date_range_piece18() + (qualified("e"@, "eDate"@) + " AS DATE) BETWEEN "@ + sql_literal_seq(date_from) + " AND "@ + sql_literal_seq(date_to)) + sage1000_monthly_accounts_read_the_date_range_piece24()) by {
        assert(t.subrange(0, (("
            WITH base AS (
                SELECT
                    parsed_date = TRY_CAST("@ + qualified("e"@, "eDate"@) + " AS DATE),
                    account_no = "@ + text_or_empty_text(qualified("cg"@, "codeCompte"@), 64) + ",
                    account_label = "@ + text_or_empty_text(qualified("cg"@, "Caption"@), 255) + ",
                    debit = "@ + decimal_or_zero_text(qualified("e"@, "debit"@)) + ",
                    credit = "@ + decimal_or_zero_text(qualified("e"@, "credit"@)) + "
                FROM "@ + c.entries.sql_name_text() + " e
                LEFT JOIN "@ + c.accounts.sql_name_text() + " cg ON "@ + qualified("e"@, "oidcompteGeneral"@) + " = "@ + qualified("cg"@, "oid"@)) + sage1000_monthly_accounts_read_the_date_range_piece18() + (qualified("e"@, "eDate"@) + " AS DATE) BETWEEN "@ + sql_literal_seq(date_from) + " AND "@ + sql_literal_seq(date_to)) + sage1000_monthly_accounts_read_the_date_range_piece24()).len() as int) =~= ("
            WITH base AS (
                SELECT
                    parsed_date = TRY_CAST("@ + qualified("e"@, "eDate"@) + " AS DATE),
                    account_no = "@ + text_or_empty_text(qualified("cg"@, "codeCompte"@), 64) + ",
                    account_label = "@ + text_or_empty_text(qualified("cg"@, "Caption"@), 255) + ",
                    debit = "@ + decimal_or_zero_text(qualified("e"@, "debit"@)) + ",
                    credit = "@ + decimal_or_zero_text(qualified("e"@, "credit"@)) + "
                FROM "@ + c.entries.sql_name_text() + " e
                LEFT JOIN "@ + c.accounts.sql_name_text() + " cg ON "@ + qualified("e"@, "oidcompteGeneral"@) + " = "@ + qualified("cg"@, "oid"@)) + sage1000_monthly_accounts_read_the_date_range_piece18() + (qualified("e"@, "eDate"@) + " AS DATE) BETWEEN "@ + sql_literal_seq(date_from) + " AND "@ + sql_literal_seq(date_to)) + sage1000_monthly_accounts_read_the_date_range_piece24());
    }
    lemma_occurs_around(t, "
            WITH base AS (
                SELECT
                    parsed_date = TRY_CAST("@ + qualified("e"@, "eDate"@) + " AS DATE),
                    account_no = "@ + text_or_empty_text(qualified("cg"@, "codeCompte"@), 64) + ",
                    account_label = "@ + text_or_empty_text(qualified("cg"@, "Caption"@), 255) + ",
                    debit = "@ + decimal_or_zero_text(qualified("e"@, "debit"@)) + ",
                    credit = "@ + decimal_or_zero_text(qualified("e"@, "credit"@)) + "
                FROM "@ + c.entries.sql_name_text() + " e
                LEFT JOIN "@ + c.accounts.sql_name_text() + " cg ON "@ + qualified("e"@, "oidcompteGeneral"@) + " = "@ + qualified("cg"@, "oid"@), sage1000_monthly_accounts_read_the_date_range_piece18(), qualified("e"@, "eDate"@) + " AS DATE) BETWEEN "@ + sql_literal_seq(date_from) + " AND "@ + sql_literal_seq(date_to), sage1000_monthly_accounts_read_the_date_range_piece24(), "WHERE TRY_CAST("@, ""@);
    assert("WHERE TRY_CAST("@ + (qualified("e"@, "eDate"@) + " AS DATE) BETWEEN "@ + sql_literal_seq(date_from) + " AND "@ + sql_literal_seq(date_to)) + ""@ =~= "WHERE TRY_CAST("@ + qualified("e"@, "eDate"@) + " AS DATE) BETWEEN "@ + sql_literal_seq(date_from) + " AND "@ + sql_literal_seq(date_to));
}

pub open spec fn stream_balance_closing_is_opening_plus_movements_piece28() -> Seq<char> {
    " GROUP BY account_no)
SELECT account_no, account_label, CASE WHEN (open_debit_raw-open_credit_raw)>=0 THEN (open_debit_raw-open_credit_raw) ELSE CAST(0 AS DECIMAL(38,6)) END AS ouverture_debit, CASE WHEN (open_debit_raw-open_credit_raw)<0 THEN ABS(open_debit_raw-open_credit_raw) ELSE CAST(0 AS DECIMAL(38,6)) END AS ouverture_credit, mvt_debit, mvt_credit, CASE WHEN ((open_debit_raw-open_credit_raw)+(mvt_debit-mvt_credit))>=0 THEN ((open_debit_raw-open_credit_raw)+(mvt_debit-mvt_credit)) ELSE CAST(0 AS DECIMAL(38,6)) END AS cloture_debit, CASE WHEN ((open_debit_raw-open_credit_raw)+(mvt_debit-mvt_credit))<0 THEN ABS((open_debit_raw-open_credit_raw)+(mvt_debit-mvt_credit)) ELSE CAST(0 AS DECIMAL(38,6)) END AS cloture_credit FROM aggregated ORDER BY account_no"@
}

proof fn lemma_stream_balance_closing_is_opening_plus_movements_literals()
    ensures
        occurs_at(stream_balance_closing_is_opening_plus_movements_piece28(), "CASE WHEN (open_debit_raw-open_credit_raw)>=0 THEN (open_debit_raw-open_credit_raw) ELSE CAST(0 AS DECIMAL(38,6)) END AS ouverture_debit"@, 56),
        occurs_at(stream_balance_closing_is_opening_plus_movements_piece28(), "CASE WHEN (open_debit_raw-open_credit_raw)<0 THEN ABS(open_debit_raw-open_credit_raw) ELSE CAST(0 AS DECIMAL(38,6)) END AS ouverture_credit"@, 194),
        occurs_at(stream_balance_closing_is_opening_plus_movements_piece28(), "CASE WHEN ((open_debit_raw-open_credit_raw)+(mvt_debit-mvt_credit))>=0 THEN ((open_debit_raw-open_credit_raw)+(mvt_debit-mvt_credit)) ELSE CAST(0 AS DECIMAL(38,6)) END AS cloture_debit"@, 358),
        occurs_at(stream_balance_closing_is_opening_plus_movements_piece28(), "CASE WHEN ((open_debit_raw-open_credit_raw)+(mvt_debit-mvt_credit))<0 THEN ABS((open_debit_raw-open_credit_raw)+(mvt_debit-mvt_credit)) ELSE CAST(0 AS DECIMAL(38,6)) END AS cloture_credit"@, 544),
{
    reveal_strlit(" GROUP BY account_no)
SELECT account_no, account_label, CASE WHEN (open_debit_raw-open_credit_raw)>=0 THEN (open_debit_raw-open_credit_raw) ELSE CAST(0 AS DECIMAL(38,6)) END AS ouverture_debit, CASE WHEN (open_debit_raw-open_credit_raw)<0 THEN ABS(open_debit_raw-open_credit_raw) ELSE CAST(0 AS DECIMAL(38,6)) END AS ouverture_credit, mvt_debit, mvt_credit, CASE WHEN ((open_debit_raw-open_credit_raw)+(mvt_debit-mvt_credit))>=0 THEN ((open_debit_raw-open_credit_raw)+(mvt_debit-mvt_credit)) ELSE CAST(0 AS DECIMAL(38,6)) END AS cloture_debit, CASE WHEN ((open_debit_raw-open_credit_raw)+(mvt_debit-mvt_credit))<0 THEN ABS((open_debit_raw-open_credit_raw)+(mvt_debit-mvt_credit)) ELSE CAST(0 AS DECIMAL(38,6)) END AS cloture_credit FROM aggregated ORDER BY account_no");
    reveal_strlit("CASE WHEN ((open_debit_raw-open_credit_raw)+(mvt_debit-mvt_credit))<0 THEN ABS((open_debit_raw-open_credit_raw)+(mvt_debit-mvt_credit)) ELSE CAST(0 AS DECIMAL(38,6)) END AS cloture_credit");
    reveal_strlit("CASE WHEN ((open_debit_raw-open_credit_raw)+(mvt_debit-mvt_credit))>=0 THEN ((open_debit_raw-open_credit_raw)+(mvt_debit-mvt_credit)) ELSE CAST(0 AS DECIMAL(38,6)) END AS cloture_debit");
    reveal_strlit("CASE WHEN (open_debit_raw-open_credit_raw)<0 THEN ABS(open_debit_raw-open_credit_raw) ELSE CAST(0 AS DECIMAL(38,6)) END AS ouverture_credit");
    reveal_strlit("CASE WHEN (open_debit_raw-open_credit_raw)>=0 THEN (open_debit_raw-open_credit_raw) ELSE CAST(0 AS DECIMAL(38,6)) END AS ouverture_debit");
    assert(stream_balance_closing_is_opening_plus_movements_piece28().subrange(56, (56 + "CASE WHEN (open_debit_raw-open_credit_raw)>=0 THEN (open_debit_raw-open_credit_raw) ELSE CAST(0 AS DECIMAL(38,6)) END AS ouverture_debit"@.len()) as int) =~= "CASE WHEN (open_debit_raw-open_credit_raw)>=0 THEN (open_debit_raw-open_credit_raw) ELSE CAST(0 AS DECIMAL(38,6)) END AS ouverture_debit"@);
    assert(stream_balance_closing_is_opening_plus_movements_piece28().subrange(194, (194 + "CASE WHEN (open_debit_raw-open_credit_raw)<0 THEN ABS(open_debit_raw-open_credit_raw) ELSE CAST(0 AS DECIMAL(38,6)) END AS ouverture_credit"@.len()) as int) =~= "CASE WHEN (open_debit_raw-open_credit_raw)<0 THEN ABS(open_debit_raw-open_credit_raw) ELSE CAST(0 AS DECIMAL(38,6)) END AS ouverture_credit"@);
    assert(stream_balance_closing_is_opening_plus_movements_piece28().subrange(358, (358 + "CASE WHEN ((open_debit_raw-open_credit_raw)+(mvt_debit-mvt_credit))>=0 THEN ((open_debit_raw-open_credit_raw)+(mvt_debit-mvt_credit)) ELSE CAST(0 AS DECIMAL(38,6)) END AS cloture_debit"@.len()) as int) =~= "CASE WHEN ((open_debit_raw-open_credit_raw)+(mvt_debit-mvt_credit))>=0 THEN ((open_debit_raw-open_credit_raw)+(mvt_debit-mvt_credit)) ELSE CAST(0 AS DECIMAL(38,6)) END AS cloture_debit"@);
    assert(stream_balance_closing_is_opening_plus_movements_piece28().subrange(544, (544 + "CASE WHEN ((open_debit_raw-open_credit_raw)+(mvt_debit-mvt_credit))<0 THEN ABS((open_debit_raw-open_credit_raw)+(mvt_debit-mvt_credit)) ELSE CAST(0 AS DECIMAL(38,6)) END AS cloture_credit"@.len()) as int) =~= "CASE WHEN ((open_debit_raw-open_credit_raw)+(mvt_debit-mvt_credit))<0 THEN ABS((open_debit_raw-open_credit_raw)+(mvt_debit-mvt_credit)) ELSE CAST(0 AS DECIMAL(38,6)) END AS cloture_credit"@);
}

/// The streamed trial balance splits the opening net and the closing net
/// (opening plus movements) into their debit and credit sides.
#[verifier::rlimit(100)]
#[verifier::spinoff_prover]
pub proof fn lemma_stream_balance_closing_is_opening_plus_movements(e: EntryContext, lookup: Option<LookupContext>, p: BalancePeriod, prefix: Option<Seq<char>>)
    ensures
        occurs_in(stream_balance_query_text(e, lookup, p, prefix), "CASE WHEN (open_debit_raw-open_credit_raw)>=0 THEN (open_debit_raw-open_credit_raw) ELSE CAST(0 AS DECIMAL(38,6)) END AS ouverture_debit"@),
        occurs_in(stream_balance_query_text(e, lookup, p, prefix), "CASE WHEN (open_debit_raw-open_credit_raw)<0 THEN ABS(open_debit_raw-open_credit_raw) ELSE CAST(0 AS DECIMAL(38,6)) END AS ouverture_credit"@),
        occurs_in(stream_balance_query_text(e, lookup, p, prefix), "CASE WHEN ((open_debit_raw-open_credit_raw)+(mvt_debit-mvt_credit))>=0 THEN ((open_debit_raw-open_credit_raw)+(mvt_debit-mvt_credit)) ELSE CAST(0 AS DECIMAL(38,6)) END AS cloture_debit"@),
        occurs_in(stream_balance_query_text(e, lookup, p, prefix), "CASE WHEN ((open_debit_raw-open_credit_raw)+(mvt_debit-mvt_credit))<0 THEN ABS((open_debit_raw-open_credit_raw)+(mvt_debit-mvt_credit)) ELSE CAST(0 AS DECIMAL(38,6)) END AS cloture_credit"@),
{
    let t = stream_balance_query_text(e, lookup, p, prefix);
    lemma_stream_balance_closing_is_opening_plus_movements_literals();
    assert(t.subrange(0, (("WITH base AS (SELECT parsed_date = "@ + parsed_date_text(e) + ", journal = "@ + optional_text_column(e.journal_col, 64) + ", account_no = "@ + account_no_text(e) + ", account_label = "@ + account_label_text(e, lookup) + ", debit = "@ + e.debit_expr@ + ", credit = "@ + e.credit_expr@ + " FROM "@ + e.table.sql_name_text() + " e "@ + account_join_text(e, lookup) + " WHERE 1=1 "@ + account_filter_text(account_no_text(e), prefix) + "),
aggregated AS (SELECT account_no, MAX(account_label) AS account_label, SUM(CASE WHEN "@ + opening_text(e, p) + " THEN debit ELSE CAST(0 AS DECIMAL(38,6)) END) AS open_debit_raw, SUM(CASE WHEN "@ + opening_text(e, p) + " THEN credit ELSE CAST(0 AS DECIMAL(38,6)) END) AS open_credit_raw, SUM(CASE WHEN "@ + movement_text("account_no"@, "parsed_date"@, "journal"@, e.journal_col is Some, p) + " THEN debit ELSE CAST(0 AS DECIMAL(38,6)) END) AS mvt_debit, SUM(CASE WHEN "@ + movement_text("account_no"@, "parsed_date"@, "journal"@, e.journal_col is Some, p) + " THEN credit ELSE CAST(0 AS DECIMAL(38,6)) END) AS mvt_credit FROM base WHERE account_no <> '' AND parsed_date IS NOT NULL AND "@ + cutoff_text(e, p)) + stream_balance_closing_is_opening_plus_movements_piece28()).len() as int) == ("WITH base AS (SELECT parsed_date = "@ + parsed_date_text(e) + ", journal = "@ + optional_text_column(e.journal_col, 64) + ", account_no = "@ + account_no_text(e) + ", account_label = "@ + account_label_text(e, lookup) + ", debit = "@ + e.debit_expr@ + ", credit = "@ + e.credit_expr@ + " FROM "@ + e.table.sql_name_text() + " e "@ + account_join_text(e, lookup) + " WHERE 1=1 "@ + account_filter_text(account_no_text(e), prefix) + "),
aggregated AS (SELECT account_no, MAX(account_label) AS account_label, SUM(CASE WHEN "@ + opening_text(e, p) + " THEN debit ELSE CAST(0 AS DECIMAL(38,6)) END) AS open_debit_raw, SUM(CASE WHEN "@ + opening_text(e, p) + " THEN credit ELSE CAST(0 AS DECIMAL(38,6)) END) AS open_credit_raw, SUM(CASE WHEN "@ + movement_text("account_no"@, "parsed_date"@, "journal"@, e.journal_col is Some, p) + " THEN debit ELSE CAST(0 AS DECIMAL(38,6)) END) AS mvt_debit, SUM(CASE WHEN "@ + movement_text("account_no"@, "parsed_date"@, "journal"@, e.journal_col is Some, p) + " THEN credit ELSE CAST(0 AS DECIMAL(38,6)) END) AS mvt_credit FROM base WHERE account_no <> '' AND parsed_date IS NOT NULL AND "@ + cutoff_text(e, p)) + stream_balance_closing_is_opening_plus_movements_piece28()) by {
        assert(t.subrange(0, (("WITH base AS (SELECT parsed_date = "@ + parsed_date_text(e) + ", journal = "@ + optional_text_column(e.journal_col, 64) + ", account_no = "@ + account_no_text(e) + ", account_label = "@ + account_label_text(e, lookup) + ", debit = "@ + e.debit_expr@ + ", credit = "@ + e.credit_expr@ + " FROM "@ + e.table.sql_name_text() + " e "@ + account_join_text(e, lookup) + " WHERE 1=1 "@ + account_filter_text(account_no_text(e), prefix) + "),
aggregated AS (SELECT account_no, MAX(account_label) AS account_label, SUM(CASE WHEN "@ + opening_text(e, p) + " THEN debit ELSE CAST(0 AS DECIMAL(38,6)) END) AS open_debit_raw, SUM(CASE WHEN "@ + opening_text(e, p) + " THEN credit ELSE CAST(0 AS DECIMAL(38,6)) END) AS open_credit_raw, SUM(CASE WHEN "@ + movement_text("account_no"@, "parsed_date"@, "journal"@, e.journal_col is Some, p) + " THEN debit ELSE CAST(0 AS DECIMAL(38,6)) END) AS mvt_debit, SUM(CASE WHEN "@ + movement_text("account_no"@, "parsed_date"@, "journal"@, e.journal_col is Some, p) + " THEN credit ELSE CAST(0 AS DECIMAL(38,6)) END) AS mvt_credit FROM base WHERE account_no <> '' AND parsed_date IS NOT NULL AND "@ + cutoff_text(e, p)) + stream_balance_closing_is_opening_plus_movements_piece28()).len() as int) =~= ("WITH base AS (SELECT parsed_date = "@ + parsed_date_text(e) + ", journal = "@ + optional_text_column(e.journal_col, 64) + ", account_no = "@ + account_no_text(e) + ", account_label = "@ + account_label_text(e, lookup) + ", debit = "@ + e.debit_expr@ + ", credit = "@ + e.credit_expr@ + " FROM "@ + e.table.sql_name_text() + " e "@ + account_join_text(e, lookup) + " WHERE 1=1 "@ + account_filter_text(account_no_text(e), prefix) + "),
aggregated AS (SELECT account_no, MAX(account_label) AS account_label, SUM(CASE WHEN "@ + opening_text(e, p) + " THEN debit ELSE CAST(0 AS DECIMAL(38,6)) END) AS open_debit_raw, SUM(CASE WHEN "@ + opening_text(e, p) + " THEN credit ELSE CAST(0 AS DECIMAL(38,6)) END) AS open_credit_raw, SUM(CASE WHEN "@ + movement_text("account_no"@, "parsed_date"@, "journal"@, e.journal_col is Some, p) + " THEN debit ELSE CAST(0 AS DECIMAL(38,6)) END) AS mvt_debit, SUM(CASE WHEN "@ + movement_text("account_no"@, "parsed_date"@, "journal"@, e.journal_col is Some, p) + " THEN credit ELSE CAST(0 AS DECIMAL(38,6)) END) AS mvt_credit FROM base WHERE account_no <> '' AND parsed_date IS NOT NULL AND "@ + cutoff_text(e, p)) + stream_balance_closing_is_opening_plus_movements_piece28());
    }
    assert(("WITH base AS (SELECT parsed_date = "@ + parsed_date_text(e) + ", journal = "@ + optional_text_column(e.journal_col, 64) + ", account_no = "@ + account_no_text(e) + ", account_label = "@ + account_label_text(e, lookup) + ", debit = "@ + e.debit_expr@ + ", credit = "@ + e.credit_expr@ + " FROM "@ + e.table.sql_name_text() + " e "@ + account_join_text(e, lookup) + " WHERE 1=1 "@ + account_filter_text(account_no_text(e), prefix) + "),
aggregated AS (SELECT account_no, MAX(account_label) AS account_label, SUM(CASE WHEN "@ + opening_text(e, p) + " THEN debit ELSE CAST(0 AS DECIMAL(38,6)) END) AS open_debit_raw, SUM(CASE WHEN "@ + opening_text(e, p) + " THEN credit ELSE CAST(0 AS DECIMAL(38,6)) END) AS open_credit_raw, SUM(CASE WHEN "@ + movement_text("account_no"@, "parsed_date"@, "journal"@, e.journal_col is Some, p) + " THEN debit ELSE CAST(0 AS DECIMAL(38,6)) END) AS mvt_debit, SUM(CASE WHEN "@ + movement_text("account_no"@, "parsed_date"@, "journal"@, e.journal_col is Some, p) + " THEN credit ELSE CAST(0 AS DECIMAL(38,6)) END) AS mvt_credit FROM base WHERE account_no <> '' AND parsed_date IS NOT NULL AND "@ + cutoff_text(e, p)) + stream_balance_closing_is_opening_plus_movements_piece28() =~= ("WITH base AS (SELECT parsed_date = "@ + parsed_date_text(e) + ", journal = "@ + optional_text_column(e.journal_col, 64) + ", account_no = "@ + account_no_text(e) + ", account_label = "@ + account_label_text(e, lookup) + ", debit = "@ + e.debit_expr@ + ", credit = "@ + e.credit_expr@ + " FROM "@ + e.table.sql_name_text() + " e "@ + account_join_text(e, lookup) + " WHERE 1=1 "@ + account_filter_text(account_no_text(e), prefix) + "),
aggregated AS (SELECT account_no, MAX(account_label) AS account_label, SUM(CASE WHEN "@ + opening_text(e, p) + " THEN debit ELSE CAST(0 AS DECIMAL(38,6)) END) AS open_debit_raw, SUM(CASE WHEN "@ + opening_text(e, p) + " THEN credit ELSE CAST(0 AS DECIMAL(38,6)) END) AS open_credit_raw, SUM(CASE WHEN "@ + movement_text("account_no"@, "parsed_date"@, "journal"@, e.journal_col is Some, p) + " THEN debit ELSE CAST(0 AS DECIMAL(38,6)) END) AS mvt_debit, SUM(CASE WHEN "@ + movement_text("account_no"@, "parsed_date"@, "journal"@, e.journal_col is Some, p) + " THEN credit ELSE CAST(0 AS DECIMAL(38,6)) END) AS mvt_credit FROM base WHERE account_no <> '' AND parsed_date IS NOT NULL AND "@ + cutoff_text(e, p)) + stream_balance_closing_is_opening_plus_movements_piece28() + seq![]);
    lemma_occurs_between(("WITH base AS (SELECT parsed_date = "@ + parsed_date_text(e) + ", journal = "@ + optional_text_column(e.journal_col, 64) + ", account_no = "@ + account_no_text(e) + ", account_label = "@ + account_label_text(e, lookup) + ", debit = "@ + e.debit_expr@ + ", credit = "@ + e.credit_expr@ + " FROM "@ + e.table.sql_name_text() + " e "@ + account_join_text(e, lookup) + " WHERE 1=1 "@ + account_filter_text(account_no_text(e), prefix) + "),
aggregated AS (SELECT account_no, MAX(account_label) AS account_label, SUM(CASE WHEN "@ + opening_text(e, p) + " THEN debit ELSE CAST(0 AS DECIMAL(38,6)) END) AS open_debit_raw, SUM(CASE WHEN "@ + opening_text(e, p) + " THEN credit ELSE CAST(0 AS DECIMAL(38,6)) END) AS open_credit_raw, SUM(CASE WHEN "@ + movement_text("account_no"@, "parsed_date"@, "journal"@, e.journal_col is Some, p) + " THEN debit ELSE CAST(0 AS DECIMAL(38,6)) END) AS mvt_debit, SUM(CASE WHEN "@ + movement_text("account_no"@, "parsed_date"@, "journal"@, e.journal_col is Some, p) + " THEN credit ELSE CAST(0 AS DECIMAL(38,6)) END) AS mvt_credit FROM base WHERE account_no <> '' AND parsed_date IS NOT NULL AND "@ + cutoff_text(e, p)) + stream_balance_closing_is_opening_plus_movements_piece28(), "WITH base AS (SELECT parsed_date = "@ + parsed_date_text(e) + ", journal = "@ + optional_text_column(e.journal_col, 64) + ", account_no = "@ + account_no_text(e) + ", account_label = "@ + account_label_text(e, lookup) + ", debit = "@ + e.debit_expr@ + ", credit = "@ + e.credit_expr@ + " FROM "@ + e.table.sql_name_text() + " e "@ + account_join_text(e, lookup) + " WHERE 1=1 "@ + account_filter_text(account_no_text(e), prefix) + "),
aggregated AS (SELECT account_no, MAX(account_label) AS account_label, SUM(CASE WHEN "@ + opening_text(e, p) + " THEN debit ELSE CAST(0 AS DECIMAL(38,6)) END) AS open_debit_raw, SUM(CASE WHEN "@ + opening_text(e, p) + " THEN credit ELSE CAST(0 AS DECIMAL(38,6)) END) AS open_credit_raw, SUM(CASE WHEN "@ + movement_text("account_no"@, "parsed_date"@, "journal"@, e.journal_col is Some, p) + " THEN debit ELSE CAST(0 AS DECIMAL(38,6)) END) AS mvt_debit, SUM(CASE WHEN "@ + movement_text("account_no"@, "parsed_date"@, "journal"@, e.journal_col is Some, p) + " THEN credit ELSE CAST(0 AS DECIMAL(38,6)) END) AS mvt_credit FROM base WHERE account_no <> '' AND parsed_date IS NOT NULL AND "@ + cutoff_text(e, p), stream_balance_closing_is_opening_plus_movements_piece28(), seq![]);
    lemma_occurs_within(("WITH base AS (SELECT parsed_date = "@ + parsed_date_text(e) + ", journal = "@ + optional_text_column(e.journal_col, 64) + ", account_no = "@ + account_no_text(e) + ", account_label = "@ + account_label_text(e, lookup) + ", debit = "@ + e.debit_expr@ + ", credit = "@ + e.credit_expr@ + " FROM "@ + e.table.sql_name_text() + " e "@ + account_join_text(e, lookup) + " WHERE 1=1 "@ + account_filter_text(account_no_text(e), prefix) + "),
aggregated AS (SELECT account_no, MAX(account_label) AS account_label, SUM(CASE WHEN "@ + opening_text(e, p) + " THEN debit ELSE CAST(0 AS DECIMAL(38,6)) END) AS open_debit_raw, SUM(CASE WHEN "@ + opening_text(e, p) + " THEN credit ELSE CAST(0 AS DECIMAL(38,6)) END) AS open_credit_raw, SUM(CASE WHEN "@ + movement_text("account_no"@, "parsed_date"@, "journal"@, e.journal_col is Some, p) + " THEN debit ELSE CAST(0 AS DECIMAL(38,6)) END) AS mvt_debit, SUM(CASE WHEN "@ + movement_text("account_no"@, "parsed_date"@, "journal"@, e.journal_col is Some, p) + " THEN credit ELSE CAST(0 AS DECIMAL(38,6)) END) AS mvt_credit FROM base WHERE account_no <> '' AND parsed_date IS NOT NULL AND "@ + cutoff_text(e, p)) + stream_balance_closing_is_opening_plus_movements_piece28(), stream_balance_closing_is_opening_plus_movements_piece28(), "CASE WHEN (open_debit_raw-open_credit_raw)>=0 THEN (open_debit_raw-open_credit_raw) ELSE CAST(0 AS DECIMAL(38,6)) END AS ouverture_debit"@, ("WITH base AS (SELECT parsed_date = "@ + parsed_date_text(e) + ", journal = "@ + optional_text_column(e.journal_col, 64) + ", account_no = "@ + account_no_text(e) + ", account_label = "@ + account_label_text(e, lookup) + ", debit = "@ + e.debit_expr@ + ", credit = "@ + e.credit_expr@ + " FROM "@ + e.table.sql_name_text() + " e "@ + account_join_text(e, lookup) + " WHERE 1=1 "@ + account_filter_text(account_no_text(e), prefix) + "),
aggregated AS (SELECT account_no, MAX(account_label) AS account_label, SUM(CASE WHEN "@ + opening_text(e, p) + " THEN debit ELSE CAST(0 AS DECIMAL(38,6)) END) AS open_debit_raw, SUM(CASE WHEN "@ + opening_text(e, p) + " THEN credit ELSE CAST(0 AS DECIMAL(38,6)) END) AS open_credit_raw, SUM(CASE WHEN "@ + movement_text("account_no"@, "parsed_date"@, "journal"@, e.journal_col is Some, p) + " THEN debit ELSE CAST(0 AS DECIMAL(38,6)) END) AS mvt_debit, SUM(CASE WHEN "@ + movement_text("account_no"@, "parsed_date"@, "journal"@, e.journal_col is Some, p) + " THEN credit ELSE CAST(0 AS DECIMAL(38,6)) END) AS mvt_credit FROM base WHERE account_no <> '' AND parsed_date IS NOT NULL AND "@ + cutoff_text(e, p)).len() as int, 56);
    lemma_occurs_in_prefix(t, ("WITH base AS (SELECT parsed_date = "@ + parsed_date_text(e) + ", journal = "@ + optional_text_column(e.journal_col, 64) + ", account_no = "@ + account_no_text(e) + ", account_label = "@ + account_label_text(e, lookup) + ", debit = "@ + e.debit_expr@ + ", credit = "@ + e.credit_expr@ + " FROM "@ + e.table.sql_name_text() + " e "@ + account_join_text(e, lookup) + " WHERE 1=1 "@ + account_filter_text(account_no_text(e), prefix) + "),
aggregated AS (SELECT account_no, MAX(account_label) AS account_label, SUM(CASE WHEN "@ + opening_text(e, p) + " THEN debit ELSE CAST(0 AS DECIMAL(38,6)) END) AS open_debit_raw, SUM(CASE WHEN "@ + opening_text(e, p) + " THEN credit ELSE CAST(0 AS DECIMAL(38,6)) END) AS open_credit_raw, SUM(CASE WHEN "@ + movement_text("account_no"@, "parsed_date"@, "journal"@, e.journal_col is Some, p) + " THEN debit ELSE CAST(0 AS DECIMAL(38,6)) END) AS mvt_debit, SUM(CASE WHEN "@ + movement_text("account_no"@, "parsed_date"@, "journal"@, e.journal_col is Some, p) + " THEN credit ELSE CAST(0 AS DECIMAL(38,6)) END) AS mvt_credit FROM base WHERE account_no <> '' AND parsed_date IS NOT NULL AND "@ + cutoff_text(e, p)) + stream_balance_closing_is_opening_plus_movements_piece28(), "CASE WHEN (open_debit_raw-open_credit_raw)>=0 THEN (open_debit_raw-open_credit_raw) ELSE CAST(0 AS DECIMAL(38,6)) END AS ouverture_debit"@, (("WITH base AS (SELECT parsed_date = "@ + parsed_date_text(e) + ", journal = "@ + optional_text_column(e.journal_col, 64) + ", account_no = "@ + account_no_text(e) + ", account_label = "@ + account_label_text(e, lookup) + ", debit = "@ + e.debit_expr@ + ", credit = "@ + e.credit_expr@ + " FROM "@ + e.table.sql_name_text() + " e "@ + account_join_text(e, lookup) + " WHERE 1=1 "@ + account_filter_text(account_no_text(e), prefix) + "),
aggregated AS (SELECT account_no, MAX(account_label) AS account_label, SUM(CASE WHEN "@ + opening_text(e, p) + " THEN debit ELSE CAST(0 AS DECIMAL(38,6)) END) AS open_debit_raw, SUM(CASE WHEN "@ + opening_text(e, p) + " THEN credit ELSE CAST(0 AS DECIMAL(38,6)) END) AS open_credit_raw, SUM(CASE WHEN "@ + movement_text("account_no"@, "parsed_date"@, "journal"@, e.journal_col is Some, p) + " THEN debit ELSE CAST(0 AS DECIMAL(38,6)) END) AS mvt_debit, SUM(CASE WHEN "@ + movement_text("account_no"@, "parsed_date"@, "journal"@, e.journal_col is Some, p) + " THEN credit ELSE CAST(0 AS DECIMAL(38,6)) END) AS mvt_credit FROM base WHERE account_no <> '' AND parsed_date IS NOT NULL AND "@ + cutoff_text(e, p)).len() + 56) as int);
    assert(t.subrange(0, (("WITH base AS (SELECT parsed_date = "@ + parsed_date_text(e) + ", journal = "@ + optional_text_column(e.journal_col, 64) + ", account_no = "@ + account_no_text(e) + ", account_label = "@ + account_label_text(e, lookup) + ", debit = "@ + e.debit_expr@ + ", credit = "@ + e.credit_expr@ + " FROM "@ + e.table.sql_name_text() + " e "@ + account_join_text(e, lookup) + " WHERE 1=1 "@ + account_filter_text(account_no_text(e), prefix) + "),
aggregated AS (SELECT account_no, MAX(account_label) AS account_label, SUM(CASE WHEN "@ + opening_text(e, p) + " THEN debit ELSE CAST(0 AS DECIMAL(38,6)) END) AS open_debit_raw, SUM(CASE WHEN "@ + opening_text(e, p) + " THEN credit ELSE CAST(0 AS DECIMAL(38,6)) END) AS open_credit_raw, SUM(CASE WHEN "@ + movement_text("account_no"@, "parsed_date"@, "journal"@, e.journal_col is Some, p) + " THEN debit ELSE CAST(0 AS DECIMAL(38,6)) END) AS mvt_debit, SUM(CASE WHEN "@ + movement_text("account_no"@, "parsed_date"@, "journal"@, e.journal_col is Some, p) + " THEN credit ELSE CAST(0 AS DECIMAL(38,6)) END) AS mvt_credit FROM base WHERE account_no <> '' AND parsed_date IS NOT NULL AND "@ + cutoff_text(e, p)) + stream_balance_closing_is_opening_plus_movements_piece28()).len() as int) == ("WITH base AS (SELECT parsed_date = "@ + parsed_date_text(e) + ", journal = "@ + optional_text_column(e.journal_col, 64) + ", account_no = "@ + account_no_text(e) + ", account_label = "@ + account_label_text(e, lookup) + ", debit = "@ + e.debit_expr@ + ", credit = "@ + e.credit_expr@ + " FROM "@ + e.table.sql_name_text() + " e "@ + account_join_text(e, lookup) + " WHERE 1=1 "@ + account_filter_text(account_no_text(e), prefix) + "),
aggregated AS (SELECT account_no, MAX(account_label) AS account_label, SUM(CASE WHEN "@ + opening_text(e, p) + " THEN debit ELSE CAST(0 AS DECIMAL(38,6)) END) AS open_debit_raw, SUM(CASE WHEN "@ + opening_text(e, p) + " THEN credit ELSE CAST(0 AS DECIMAL(38,6)) END) AS open_credit_raw, SUM(CASE WHEN "@ + movement_text("account_no"@, "parsed_date"@, "journal"@, e.journal_col is Some, p) + " THEN debit ELSE CAST(0 AS DECIMAL(38,6)) END) AS mvt_debit, SUM(CASE WHEN "@ + movement_text("account_no"@, "parsed_date"@, "journal"@, e.journal_col is Some, p) + " THEN credit ELSE CAST(0 AS DECIMAL(38,6)) END) AS mvt_credit FROM base WHERE account_no <> '' AND parsed_date IS NOT NULL AND "@ + cutoff_text(e, p)) + stream_balance_closing_is_opening_plus_movements_piece28()) by {
        assert(t.subrange(0, (("WITH base AS (SELECT parsed_date = "@ + parsed_date_text(e) + ", journal = "@ + optional_text_column(e.journal_col, 64) + ", account_no = "@ + account_no_text(e) + ", account_label = "@ + account_label_text(e, lookup) + ", debit = "@ + e.debit_expr@ + ", credit = "@ + e.credit_expr@ + " FROM "@ + e.table.sql_name_text() + " e "@ + account_join_text(e, lookup) + " WHERE 1=1 "@ + account_filter_text(account_no_text(e), prefix) + "),
aggregated AS (SELECT account_no, MAX(account_label) AS account_label, SUM(CASE WHEN "@ + opening_text(e, p) + " THEN debit ELSE CAST(0 AS DECIMAL(38,6)) END) AS open_debit_raw, SUM(CASE WHEN "@ + opening_text(e, p) + " THEN credit ELSE CAST(0 AS DECIMAL(38,6)) END) AS open_credit_raw, SUM(CASE WHEN "@ + movement_text("account_no"@, "parsed_date"@, "journal"@, e.journal_col is Some, p) + " THEN debit ELSE CAST(0 AS DECIMAL(38,6)) END) AS mvt_debit, SUM(CASE WHEN "@ + movement_text("account_no"@, "parsed_date"@, "journal"@, e.journal_col is Some, p) + " THEN credit ELSE CAST(0 AS DECIMAL(38,6)) END) AS mvt_credit FROM base WHERE account_no <> '' AND parsed_date IS NOT NULL AND "@ + cutoff_text(e, p)) + stream_balance_closing_is_opening_plus_movements_piece28()).len() as int) =~= ("WITH base AS (SELECT parsed_date = "@ + parsed_date_text(e) + ", journal = "@ + optional_text_column(e.journal_col, 64) + ", account_no = "@ + account_no_text(e) + ", account_label = "@ + account_label_text(e, lookup) + ", debit = "@ + e.debit_expr@ + ", credit = "@ + e.credit_expr@ + " FROM "@ + e.table.sql_name_text() + " e "@ + account_join_text(e, lookup) + " WHERE 1=1 "@ + account_filter_text(account_no_text(e), prefix) + "),
aggregated AS (SELECT account_no, MAX(account_label) AS account_label, SUM(CASE WHEN "@ + opening_text(e, p) + " THEN debit ELSE CAST(0 AS DECIMAL(38,6)) END) AS open_debit_raw, SUM(CASE WHEN "@ + opening_text(e, p) + " THEN credit ELSE CAST(0 AS DECIMAL(38,6)) END) AS open_credit_raw, SUM(CASE WHEN "@ + movement_text("account_no"@, "parsed_date"@, "journal"@, e.journal_col is Some, p) + " THEN debit ELSE CAST(0 AS DECIMAL(38,6)) END) AS mvt_debit, SUM(CASE WHEN "@ + movement_text("account_no"@, "parsed_date"@, "journal"@, e.journal_col is Some, p) + " THEN credit ELSE CAST(0 AS DECIMAL(38,6)) END) AS mvt_credit FROM base WHERE account_no <> '' AND parsed_date IS NOT NULL AND "@ + cutoff_text(e, p)) + stream_balance_closing_is_opening_plus_movements_piece28());
    }
    assert(("WITH base AS (SELECT parsed_date = "@ + parsed_date_text(e) + ", journal = "@ + optional_text_column(e.journal_col, 64) + ", account_no = "@ + account_no_text(e) + ", account_label = "@ + account_label_text(e, lookup) + ", debit = "@ + e.debit_expr@ + ", credit = "@ + e.credit_expr@ + " FROM "@ + e.table.sql_name_text() + " e "@ + account_join_text(e, lookup) + " WHERE 1=1 "@ + account_filter_text(account_no_text(e), prefix) + "),
aggregated AS (SELECT account_no, MAX(account_label) AS account_label, SUM(CASE WHEN "@ + opening_text(e, p) + " THEN debit ELSE CAST(0 AS DECIMAL(38,6)) END) AS open_debit_raw, SUM(CASE WHEN "@ + opening_text(e, p) + " THEN credit ELSE CAST(0 AS DECIMAL(38,6)) END) AS open_credit_raw, SUM(CASE WHEN "@ + movement_text("account_no"@, "parsed_date"@, "journal"@, e.journal_col is Some, p) + " THEN debit ELSE CAST(0 AS DECIMAL(38,6)) END) AS mvt_debit, SUM(CASE WHEN "@ + movement_text("account_no"@, "parsed_date"@, "journal"@, e.journal_col is Some, p) + " THEN credit ELSE CAST(0 AS DECIMAL(38,6)) END) AS mvt_credit FROM base WHERE account_no <> '' AND parsed_date IS NOT NULL AND "@ + cutoff_text(e, p)) + stream_balance_closing_is_opening_plus_movements_piece28() =~= ("WITH base AS (SELECT parsed_date = "@ + parsed_date_text(e) + ", journal = "@ + optional_text_column(e.journal_col, 64) + ", account_no = "@ + account_no_text(e) + ", account_label = "@ + account_label_text(e, lookup) + ", debit = "@ + e.debit_expr@ + ", credit = "@ + e.credit_expr@ + " FROM "@ + e.table.sql_name_text() + " e "@ + account_join_text(e, lookup) + " WHERE 1=1 "@ + account_filter_text(account_no_text(e), prefix) + "),
aggregated AS (SELECT account_no, MAX(account_label) AS account_label, SUM(CASE WHEN "@ + opening_text(e, p) + " THEN debit ELSE CAST(0 AS DECIMAL(38,6)) END) AS open_debit_raw, SUM(CASE WHEN "@ + opening_text(e, p) + " THEN credit ELSE CAST(0 AS DECIMAL(38,6)) END) AS open_credit_raw, SUM(CASE WHEN "@ + movement_text("account_no"@, "parsed_date"@, "journal"@, e.journal_col is Some, p) + " THEN debit ELSE CAST(0 AS DECIMAL(38,6)) END) AS mvt_debit, SUM(CASE WHEN "@ + movement_text("account_no"@, "parsed_date"@, "journal"@, e.journal_col is Some, p) + " THEN credit ELSE CAST(0 AS DECIMAL(38,6)) END) AS mvt_credit FROM base WHERE account_no <> '' AND parsed_date IS NOT NULL AND "@ + cutoff_text(e, p)) + stream_balance_closing_is_opening_plus_movements_piece28() + seq![]);
    lemma_occurs_between(("WITH base AS (SELECT parsed_date = "@ + parsed_date_text(e) + ", journal = "@ + optional_text_column(e.journal_col, 64) + ", account_no = "@ + account_no_text(e) + ", account_label = "@ + account_label_text(e, lookup) + ", debit = "@ + e.debit_expr@ + ", credit = "@ + e.credit_expr@ + " FROM "@ + e.table.sql_name_text() + " e "@ + account_join_text(e, lookup) + " WHERE 1=1 "@ + account_filter_text(account_no_text(e), prefix) + "),
aggregated AS (SELECT account_no, MAX(account_label) AS account_label, SUM(CASE WHEN "@ + opening_text(e, p) + " THEN debit ELSE CAST(0 AS DECIMAL(38,6)) END) AS open_debit_raw, SUM(CASE WHEN "@ + opening_text(e, p) + " THEN credit ELSE CAST(0 AS DECIMAL(38,6)) END) AS open_credit_raw, SUM(CASE WHEN "@ + movement_text("account_no"@, "parsed_date"@, "journal"@, e.journal_col is Some, p) + " THEN debit ELSE CAST(0 AS DECIMAL(38,6)) END) AS mvt_debit, SUM(CASE WHEN "@ + movement_text("account_no"@, "parsed_date"@, "journal"@, e.journal_col is Some, p) + " THEN credit ELSE CAST(0 AS DECIMAL(38,6)) END) AS mvt_credit FROM base WHERE account_no <> '' AND parsed_date IS NOT NULL AND "@ + cutoff_text(e, p)) + stream_balance_closing_is_opening_plus_movements_piece28(), "WITH base AS (SELECT parsed_date = "@ + parsed_date_text(e) + ", journal = "@ + optional_text_column(e.journal_col, 64) + ", account_no = "@ + account_no_text(e) + ", account_label = "@ + account_label_text(e, lookup) + ", debit = "@ + e.debit_expr@ + ", credit = "@ + e.credit_expr@ + " FROM "@ + e.table.sql_name_text() + " e "@ + account_join_text(e, lookup) + " WHERE 1=1 "@ + account_filter_text(account_no_text(e), prefix) + "),
aggregated AS (SELECT account_no, MAX(account_label) AS account_label, SUM(CASE WHEN "@ + opening_text(e, p) + " THEN debit ELSE CAST(0 AS DECIMAL(38,6)) END) AS open_debit_raw, SUM(CASE WHEN "@ + opening_text(e, p) + " THEN credit ELSE CAST(0 AS DECIMAL(38,6)) END) AS open_credit_raw, SUM(CASE WHEN "@ + movement_text("account_no"@, "parsed_date"@, "journal"@, e.journal_col is Some, p) + " THEN debit ELSE CAST(0 AS DECIMAL(38,6)) END) AS mvt_debit, SUM(CASE WHEN "@ + movement_text("account_no"@, "parsed_date"@, "journal"@, e.journal_col is Some, p) + " THEN credit ELSE CAST(0 AS DECIMAL(38,6)) END) AS mvt_credit FROM base WHERE account_no <> '' AND parsed_date IS NOT NULL AND "@ + cutoff_text(e, p), stream_balance_closing_is_opening_plus_movements_piece28(), seq![]);
    lemma_occurs_within(("WITH base AS (SELECT parsed_date = "@ + parsed_date_text(e) + ", journal = "@ + optional_text_column(e.journal_col, 64) + ", account_no = "@ + account_no_text(e) + ", account_label = "@ + account_label_text(e, lookup) + ", debit = "@ + e.debit_expr@ + ", credit = "@ + e.credit_expr@ + " FROM "@ + e.table.sql_name_text() + " e "@ + account_join_text(e, lookup) + " WHERE 1=1 "@ + account_filter_text(account_no_text(e), prefix) + "),
aggregated AS (SELECT account_no, MAX(account_label) AS account_label, SUM(CASE WHEN "@ + opening_text(e, p) + " THEN debit ELSE CAST(0 AS DECIMAL(38,6)) END) AS open_debit_raw, SUM(CASE WHEN "@ + opening_text(e, p) + " THEN credit ELSE CAST(0 AS DECIMAL(38,6)) END) AS open_credit_raw, SUM(CASE WHEN "@ + movement_text("account_no"@, "parsed_date"@, "journal"@, e.journal_col is Some, p) + " THEN debit ELSE CAST(0 AS DECIMAL(38,6)) END) AS mvt_debit, SUM(CASE WHEN "@ + movement_text("account_no"@, "parsed_date"@, "journal"@, e.journal_col is Some, p) + " THEN credit ELSE CAST(0 AS DECIMAL(38,6)) END) AS mvt_credit FROM base WHERE account_no <> '' AND parsed_date IS NOT NULL AND "@ + cutoff_text(e, p)) + stream_balance_closing_is_opening_plus_movements_piece28(), stream_balance_closing_is_opening_plus_movements_piece28(), "CASE WHEN (open_debit_raw-open_credit_raw)<0 THEN ABS(open_debit_raw-open_credit_raw) ELSE CAST(0 AS DECIMAL(38,6)) END AS ouverture_credit"@, ("WITH base AS (SELECT parsed_date = "@ + parsed_date_text(e) + ", journal = "@ + optional_text_column(e.journal_col, 64) + ", account_no = "@ + account_no_text(e) + ", account_label = "@ + account_label_text(e, lookup) + ", debit = "@ + e.debit_expr@ + ", credit = "@ + e.credit_expr@ + " FROM "@ + e.table.sql_name_text() + " e "@ + account_join_text(e, lookup) + " WHERE 1=1 "@ + account_filter_text(account_no_text(e), prefix) + "),
aggregated AS (SELECT account_no, MAX(account_label) AS account_label, SUM(CASE WHEN "@ + opening_text(e, p) + " THEN debit ELSE CAST(0 AS DECIMAL(38,6)) END) AS open_debit_raw, SUM(CASE WHEN "@ + opening_text(e, p) + " THEN credit ELSE CAST(0 AS DECIMAL(38,6)) END) AS open_credit_raw, SUM(CASE WHEN "@ + movement_text("account_no"@, "parsed_date"@, "journal"@, e.journal_col is Some, p) + " THEN debit ELSE CAST(0 AS DECIMAL(38,6)) END) AS mvt_debit, SUM(CASE WHEN "@ + movement_text("account_no"@, "parsed_date"@, "journal"@, e.journal_col is Some, p) + " THEN credit ELSE CAST(0 AS DECIMAL(38,6)) END) AS mvt_credit FROM base WHERE account_no <> '' AND parsed_date IS NOT NULL AND "@ + cutoff_text(e, p)).len() as int, 194);
    lemma_occurs_in_prefix(t, ("WITH base AS (SELECT parsed_date = "@ + parsed_date_text(e) + ", journal = "@ + optional_text_column(e.journal_col, 64) + ", account_no = "@ + account_no_text(e) + ", account_label = "@ + account_label_text(e, lookup) + ", debit = "@ + e.debit_expr@ + ", credit = "@ + e.credit_expr@ + " FROM "@ + e.table.sql_name_text() + " e "@ + account_join_text(e, lookup) + " WHERE 1=1 "@ + account_filter_text(account_no_text(e), prefix) + "),
aggregated AS (SELECT account_no, MAX(account_label) AS account_label, SUM(CASE WHEN "@ + opening_text(e, p) + " THEN debit ELSE CAST(0 AS DECIMAL(38,6)) END) AS open_debit_raw, SUM(CASE WHEN "@ + opening_text(e, p) + " THEN credit ELSE CAST(0 AS DECIMAL(38,6)) END) AS open_credit_raw, SUM(CASE WHEN "@ + movement_text("account_no"@, "parsed_date"@, "journal"@, e.journal_col is Some, p) + " THEN debit ELSE CAST(0 AS DECIMAL(38,6)) END) AS mvt_debit, SUM(CASE WHEN "@ + movement_text("account_no"@, "parsed_date"@, "journal"@, e.journal_col is Some, p) + " THEN credit ELSE CAST(0 AS DECIMAL(38,6)) END) AS mvt_credit FROM base WHERE account_no <> '' AND parsed_date IS NOT NULL AND "@ + cutoff_text(e, p)) + stream_balance_closing_is_opening_plus_movements_piece28(), "CASE WHEN (open_debit_raw-open_credit_raw)<0 THEN ABS(open_debit_raw-open_credit_raw) ELSE CAST(0 AS DECIMAL(38,6)) END AS ouverture_credit"@, (("WITH base AS (SELECT parsed_date = "@ + parsed_date_text(e) + ", journal = "@ + optional_text_column(e.journal_col, 64) + ", account_no = "@ + account_no_text(e) + ", account_label = "@ + account_label_text(e, lookup) + ", debit = "@ + e.debit_expr@ + ", credit = "@ + e.credit_expr@ + " FROM "@ + e.table.sql_name_text() + " e "@ + account_join_text(e, lookup) + " WHERE 1=1 "@ + account_filter_text(account_no_text(e), prefix) + "),
aggregated AS (SELECT account_no, MAX(account_label) AS account_label, SUM(CASE WHEN "@ + opening_text(e, p) + " THEN debit ELSE CAST(0 AS DECIMAL(38,6)) END) AS open_debit_raw, SUM(CASE WHEN "@ + opening_text(e, p) + " THEN credit ELSE CAST(0 AS DECIMAL(38,6)) END) AS open_credit_raw, SUM(CASE WHEN "@ + movement_text("account_no"@, "parsed_date"@, "journal"@, e.journal_col is Some, p) + " THEN debit ELSE CAST(0 AS DECIMAL(38,6)) END) AS mvt_debit, SUM(CASE WHEN "@ + movement_text("account_no"@, "parsed_date"@, "journal"@, e.journal_col is Some, p) + " THEN credit ELSE CAST(0 AS DECIMAL(38,6)) END) AS mvt_credit FROM base WHERE account_no <> '' AND parsed_date IS NOT NULL AND "@ + cutoff_text(e, p)).len() + 194) as int);
    assert(t.subrange(0, (("WITH base AS (SELECT parsed_date = "@ + parsed_date_text(e) + ", journal = "@ + optional_text_column(e.journal_col, 64) + ", account_no = "@ + account_no_text(e) + ", account_label = "@ + account_label_text(e, lookup) + ", debit = "@ + e.debit_expr@ + ", credit = "@ + e.credit_expr@ + " FROM "@ + e.table.sql_name_text() + " e "@ + account_join_text(e, lookup) + " WHERE 1=1 "@ + account_filter_text(account_no_text(e), prefix) + "),
aggregated AS (SELECT account_no, MAX(account_label) AS account_label, SUM(CASE WHEN "@ + opening_text(e, p) + " THEN debit ELSE CAST(0 AS DECIMAL(38,6)) END) AS open_debit_raw, SUM(CASE WHEN "@ + opening_text(e, p) + " THEN credit ELSE CAST(0 AS DECIMAL(38,6)) END) AS open_credit_raw, SUM(CASE WHEN "@ + movement_text("account_no"@, "parsed_date"@, "journal"@, e.journal_col is Some, p) + " THEN debit ELSE CAST(0 AS DECIMAL(38,6)) END) AS mvt_debit, SUM(CASE WHEN "@ + movement_text("account_no"@, "parsed_date"@, "journal"@, e.journal_col is Some, p) + " THEN credit ELSE CAST(0 AS DECIMAL(38,6)) END) AS mvt_credit FROM base WHERE account_no <> '' AND parsed_date IS NOT NULL AND "@ + cutoff_text(e, p)) + stream_balance_closing_is_opening_plus_movements_piece28()).len() as int) == ("WITH base AS (SELECT parsed_date = "@ + parsed_date_text(e) + ", journal = "@ + optional_text_column(e.journal_col, 64) + ", account_no = "@ + account_no_text(e) + ", account_label = "@ + account_label_text(e, lookup) + ", debit = "@ + e.debit_expr@ + ", credit = "@ + e.credit_expr@ + " FROM "@ + e.table.sql_name_text() + " e "@ + account_join_text(e, lookup) + " WHERE 1=1 "@ + account_filter_text(account_no_text(e), prefix) + "),
aggregated AS (SELECT account_no, MAX(account_label) AS account_label, SUM(CASE WHEN "@ + opening_text(e, p) + " THEN debit ELSE CAST(0 AS DECIMAL(38,6)) END) AS open_debit_raw, SUM(CASE WHEN "@ + opening_text(e, p) + " THEN credit ELSE CAST(0 AS DECIMAL(38,6)) END) AS open_credit_raw, SUM(CASE WHEN "@ + movement_text("account_no"@, "parsed_date"@, "journal"@, e.journal_col is Some, p) + " THEN debit ELSE CAST(0 AS DECIMAL(38,6)) END) AS mvt_debit, SUM(CASE WHEN "@ + movement_text("account_no"@, "parsed_date"@, "journal"@, e.journal_col is Some, p) + " THEN credit ELSE CAST(0 AS DECIMAL(38,6)) END) AS mvt_credit FROM base WHERE account_no <> '' AND parsed_date IS NOT NULL AND "@ + cutoff_text(e, p)) + stream_balance_closing_is_opening_plus_movements_piece28()) by {
        assert(t.subrange(0, (("WITH base AS (SELECT parsed_date = "@ + parsed_date_text(e) + ", journal = "@ + optional_text_column(e.journal_col, 64) + ", account_no = "@ + account_no_text(e) + ", account_label = "@ + account_label_text(e, lookup) + ", debit = "@ + e.debit_expr@ + ", credit = "@ + e.credit_expr@ + " FROM "@ + e.table.sql_name_text() + " e "@ + account_join_text(e, lookup) + " WHERE 1=1 "@ + account_filter_text(account_no_text(e), prefix) + "),
aggregated AS (SELECT account_no, MAX(account_label) AS account_label, SUM(CASE WHEN "@ + opening_text(e, p) + " THEN debit ELSE CAST(0 AS DECIMAL(38,6)) END) AS open_debit_raw, SUM(CASE WHEN "@ + opening_text(e, p) + " THEN credit ELSE CAST(0 AS DECIMAL(38,6)) END) AS open_credit_raw, SUM(CASE WHEN "@ + movement_text("account_no"@, "parsed_date"@, "journal"@, e.journal_col is Some, p) + " THEN debit ELSE CAST(0 AS DECIMAL(38,6)) END) AS mvt_debit, SUM(CASE WHEN "@ + movement_text("account_no"@, "parsed_date"@, "journal"@, e.journal_col is Some, p) + " THEN credit ELSE CAST(0 AS DECIMAL(38,6)) END) AS mvt_credit FROM base WHERE account_no <> '' AND parsed_date IS NOT NULL AND "@ + cutoff_text(e, p)) + stream_balance_closing_is_opening_plus_movements_piece28()).len() as int) =~= ("WITH base AS (SELECT parsed_date = "@ + parsed_date_text(e) + ", journal = "@ + optional_text_column(e.journal_col, 64) + ", account_no = "@ + account_no_text(e) + ", account_label = "@ + account_label_text(e, lookup) + ", debit = "@ + e.debit_expr@ + ", credit = "@ + e.credit_expr@ + " FROM "@ + e.table.sql_name_text() + " e "@ + account_join_text(e, lookup) + " WHERE 1=1 "@ + account_filter_text(account_no_text(e), prefix) + "),
aggregated AS (SELECT account_no, MAX(account_label) AS account_label, SUM(CASE WHEN "@ + opening_text(e, p) + " THEN debit ELSE CAST(0 AS DECIMAL(38,6)) END) AS open_debit_raw, SUM(CASE WHEN "@ + opening_text(e, p) + " THEN credit ELSE CAST(0 AS DECIMAL(38,6)) END) AS open_credit_raw, SUM(CASE WHEN "@ + movement_text("account_no"@, "parsed_date"@, "journal"@, e.journal_col is Some, p) + " THEN debit ELSE CAST(0 AS DECIMAL(38,6)) END) AS mvt_debit, SUM(CASE WHEN "@ + movement_text("account_no"@, "parsed_date"@, "journal"@, e.journal_col is Some, p) + " THEN credit ELSE CAST(0 AS DECIMAL(38,6)) END) AS mvt_credit FROM base WHERE account_no <> '' AND parsed_date IS NOT NULL AND "@ + cutoff_text(e, p)) + stream_balance_closing_is_opening_plus_movements_piece28());
    }
    assert(("WITH base AS (SELECT parsed_date = "@ + parsed_date_text(e) + ", journal = "@ + optional_text_column(e.journal_col, 64) + ", account_no = "@ + account_no_text(e) + ", account_label = "@ + account_label_text(e, lookup) + ", debit = "@ + e.debit_expr@ + ", credit = "@ + e.credit_expr@ + " FROM "@ + e.table.sql_name_text() + " e "@ + account_join_text(e, lookup) + " WHERE 1=1 "@ + account_filter_text(account_no_text(e), prefix) + "),
aggregated AS (SELECT account_no, MAX(account_label) AS account_label, SUM(CASE WHEN "@ + opening_text(e, p) + " THEN debit ELSE CAST(0 AS DECIMAL(38,6)) END) AS open_debit_raw, SUM(CASE WHEN "@ + opening_text(e, p) + " THEN credit ELSE CAST(0 AS DECIMAL(38,6)) END) AS open_credit_raw, SUM(CASE WHEN "@ + movement_text("account_no"@, "parsed_date"@, "journal"@, e.journal_col is Some, p) + " THEN debit ELSE CAST(0 AS DECIMAL(38,6)) END) AS mvt_debit, SUM(CASE WHEN "@ + movement_text("account_no"@, "parsed_date"@, "journal"@, e.journal_col is Some, p) + " THEN credit ELSE CAST(0 AS DECIMAL(38,6)) END) AS mvt_credit FROM base WHERE account_no <> '' AND parsed_date IS NOT NULL AND "@ + cutoff_text(e, p)) + stream_balance_closing_is_opening_plus_movements_piece28() =~= ("WITH base AS (SELECT parsed_date = "@ + parsed_date_text(e) + ", journal = "@ + optional_text_column(e.journal_col, 64) + ", account_no = "@ + account_no_text(e) + ", account_label = "@ + account_label_text(e, lookup) + ", debit = "@ + e.debit_expr@ + ", credit = "@ + e.credit_expr@ + " FROM "@ + e.table.sql_name_text() + " e "@ + account_join_text(e, lookup) + " WHERE 1=1 "@ + account_filter_text(account_no_text(e), prefix) + "),
aggregated AS (SELECT account_no, MAX(account_label) AS account_label, SUM(CASE WHEN "@ + opening_text(e, p) + " THEN debit ELSE CAST(0 AS DECIMAL(38,6)) END) AS open_debit_raw, SUM(CASE WHEN "@ + opening_text(e, p) + " THEN credit ELSE CAST(0 AS DECIMAL(38,6)) END) AS open_credit_raw, SUM(CASE WHEN "@ + movement_text("account_no"@, "parsed_date"@, "journal"@, e.journal_col is Some, p) + " THEN debit ELSE CAST(0 AS DECIMAL(38,6)) END) AS mvt_debit, SUM(CASE WHEN "@ + movement_text("account_no"@, "parsed_date"@, "journal"@, e.journal_col is Some, p) + " THEN credit ELSE CAST(0 AS DECIMAL(38,6)) END) AS mvt_credit FROM base WHERE account_no <> '' AND parsed_date IS NOT NULL AND "@ + cutoff_text(e, p)) + stream_balance_closing_is_opening_plus_movements_piece28() + seq![]);
    lemma_occurs_between(("WITH base AS (SELECT parsed_date = "@ + parsed_date_text(e) + ", journal = "@ + optional_text_column(e.journal_col, 64) + ", account_no = "@ + account_no_text(e) + ", account_label = "@ + account_label_text(e, lookup) + ", debit = "@ + e.debit_expr@ + ", credit = "@ + e.credit_expr@ + " FROM "@ + e.table.sql_name_text() + " e "@ + account_join_text(e, lookup) + " WHERE 1=1 "@ + account_filter_text(account_no_text(e), prefix) + "),
aggregated AS (SELECT account_no, MAX(account_label) AS account_label, SUM(CASE WHEN "@ + opening_text(e, p) + " THEN debit ELSE CAST(0 AS DECIMAL(38,6)) END) AS open_debit_raw, SUM(CASE WHEN "@ + opening_text(e, p) + " THEN credit ELSE CAST(0 AS DECIMAL(38,6)) END) AS open_credit_raw, SUM(CASE WHEN "@ + movement_text("account_no"@, "parsed_date"@, "journal"@, e.journal_col is Some, p) + " THEN debit ELSE CAST(0 AS DECIMAL(38,6)) END) AS mvt_debit, SUM(CASE WHEN "@ + movement_text("account_no"@, "parsed_date"@, "journal"@, e.journal_col is Some, p) + " THEN credit ELSE CAST(0 AS DECIMAL(38,6)) END) AS mvt_credit FROM base WHERE account_no <> '' AND parsed_date IS NOT NULL AND "@ + cutoff_text(e, p)) + stream_balance_closing_is_opening_plus_movements_piece28(), "WITH base AS (SELECT parsed_date = "@ + parsed_date_text(e) + ", journal = "@ + optional_text_column(e.journal_col, 64) + ", account_no = "@ + account_no_text(e) + ", account_label = "@ + account_label_text(e, lookup) + ", debit = "@ + e.debit_expr@ + ", credit = "@ + e.credit_expr@ + " FROM "@ + e.table.sql_name_text() + " e "@ + account_join_text(e, lookup) + " WHERE 1=1 "@ + account_filter_text(account_no_text(e), prefix) + "),
aggregated AS (SELECT account_no, MAX(account_label) AS account_label, SUM(CASE WHEN "@ + opening_text(e, p) + " THEN debit ELSE CAST(0 AS DECIMAL(38,6)) END) AS open_debit_raw, SUM(CASE WHEN "@ + opening_text(e, p) + " THEN credit ELSE CAST(0 AS DECIMAL(38,6)) END) AS open_credit_raw, SUM(CASE WHEN "@ + movement_text("account_no"@, "parsed_date"@, "journal"@, e.journal_col is Some, p) + " THEN debit ELSE CAST(0 AS DECIMAL(38,6)) END) AS mvt_debit, SUM(CASE WHEN "@ + movement_text("account_no"@, "parsed_date"@, "journal"@, e.journal_col is Some, p) + " THEN credit ELSE CAST(0 AS DECIMAL(38,6)) END) AS mvt_credit FROM base WHERE account_no <> '' AND parsed_date IS NOT NULL AND "@ + cutoff_text(e, p), stream_balance_closing_is_opening_plus_movements_piece28(), seq![]);
    lemma_occurs_within(("WITH base AS (SELECT parsed_date = "@ + parsed_date_text(e) + ", journal = "@ + optional_text_column(e.journal_col, 64) + ", account_no = "@ + account_no_text(e) + ", account_label = "@ + account_label_text(e, lookup) + ", debit = "@ + e.debit_expr@ + ", credit = "@ + e.credit_expr@ + " FROM "@ + e.table.sql_name_text() + " e "@ + account_join_text(e, lookup) + " WHERE 1=1 "@ + account_filter_text(account_no_text(e), prefix) + "),
aggregated AS (SELECT account_no, MAX(account_label) AS account_label, SUM(CASE WHEN "@ + opening_text(e, p) + " THEN debit ELSE CAST(0 AS DECIMAL(38,6)) END) AS open_debit_raw, SUM(CASE WHEN "@ + opening_text(e, p) + " THEN credit ELSE CAST(0 AS DECIMAL(38,6)) END) AS open_credit_raw, SUM(CASE WHEN "@ + movement_text("account_no"@, "parsed_date"@, "journal"@, e.journal_col is Some, p) + " THEN debit ELSE CAST(0 AS DECIMAL(38,6)) END) AS mvt_debit, SUM(CASE WHEN "@ + movement_text("account_no"@, "parsed_date"@, "journal"@, e.journal_col is Some, p) + " THEN credit ELSE CAST(0 AS DECIMAL(38,6)) END) AS mvt_credit FROM base WHERE account_no <> '' AND parsed_date IS NOT NULL AND "@ + cutoff_text(e, p)) + stream_balance_closing_is_opening_plus_movements_piece28(), stream_balance_closing_is_opening_plus_movements_piece28(), "CASE WHEN ((open_debit_raw-open_credit_raw)+(mvt_debit-mvt_credit))>=0 THEN ((open_debit_raw-open_credit_raw)+(mvt_debit-mvt_credit)) ELSE CAST(0 AS DECIMAL(38,6)) END AS cloture_debit"@, ("WITH base AS (SELECT parsed_date = "@ + parsed_date_text(e) + ", journal = "@ + optional_text_column(e.journal_col, 64) + ", account_no = "@ + account_no_text(e) + ", account_label = "@ + account_label_text(e, lookup) + ", debit = "@ + e.debit_expr@ + ", credit = "@ + e.credit_expr@ + " FROM "@ + e.table.sql_name_text() + " e "@ + account_join_text(e, lookup) + " WHERE 1=1 "@ + account_filter_text(account_no_text(e), prefix) + "),
aggregated AS (SELECT account_no, MAX(account_label) AS account_label, SUM(CASE WHEN "@ + opening_text(e, p) + " THEN debit ELSE CAST(0 AS DECIMAL(38,6)) END) AS open_debit_raw, SUM(CASE WHEN "@ + opening_text(e, p) + " THEN credit ELSE CAST(0 AS DECIMAL(38,6)) END) AS open_credit_raw, SUM(CASE WHEN "@ + movement_text("account_no"@, "parsed_date"@, "journal"@, e.journal_col is Some, p) + " THEN debit ELSE CAST(0 AS DECIMAL(38,6)) END) AS mvt_debit, SUM(CASE WHEN "@ + movement_text("account_no"@, "parsed_date"@, "journal"@, e.journal_col is Some, p) + " THEN credit ELSE CAST(0 AS DECIMAL(38,6)) END) AS mvt_credit FROM base WHERE account_no <> '' AND parsed_date IS NOT NULL AND "@ + cutoff_text(e, p)).len() as int, 358);
    lemma_occurs_in_prefix(t, ("WITH base AS (SELECT parsed_date = "@ + parsed_date_text(e) + ", journal = "@ + optional_text_column(e.journal_col, 64) + ", account_no = "@ + account_no_text(e) + ", account_label = "@ + account_label_text(e, lookup) + ", debit = "@ + e.debit_expr@ + ", credit = "@ + e.credit_expr@ + " FROM "@ + e.table.sql_name_text() + " e "@ + account_join_text(e, lookup) + " WHERE 1=1 "@ + account_filter_text(account_no_text(e), prefix) + "),
aggregated AS (SELECT account_no, MAX(account_label) AS account_label, SUM(CASE WHEN "@ + opening_text(e, p) + " THEN debit ELSE CAST(0 AS DECIMAL(38,6)) END) AS open_debit_raw, SUM(CASE WHEN "@ + opening_text(e, p) + " THEN credit ELSE CAST(0 AS DECIMAL(38,6)) END) AS open_credit_raw, SUM(CASE WHEN "@ + movement_text("account_no"@, "parsed_date"@, "journal"@, e.journal_col is Some, p) + " THEN debit ELSE CAST(0 AS DECIMAL(38,6)) END) AS mvt_debit, SUM(CASE WHEN "@ + movement_text("account_no"@, "parsed_date"@, "journal"@, e.journal_col is Some, p) + " THEN credit ELSE CAST(0 AS DECIMAL(38,6)) END) AS mvt_credit FROM base WHERE account_no <> '' AND parsed_date IS NOT NULL AND "@ + cutoff_text(e, p)) + stream_balance_closing_is_opening_plus_movements_piece28(), "CASE WHEN ((open_debit_raw-open_credit_raw)+(mvt_debit-mvt_credit))>=0 THEN ((open_debit_raw-open_credit_raw)+(mvt_debit-mvt_credit)) ELSE CAST(0 AS DECIMAL(38,6)) END AS cloture_debit"@, (("WITH base AS (SELECT parsed_date = "@ + parsed_date_text(e) + ", journal = "@ + optional_text_column(e.journal_col, 64) + ", account_no = "@ + account_no_text(e) + ", account_label = "@ + account_label_text(e, lookup) + ", debit = "@ + e.debit_expr@ + ", credit = "@ + e.credit_expr@ + " FROM "@ + e.table.sql_name_text() + " e "@ + account_join_text(e, lookup) + " WHERE 1=1 "@ + account_filter_text(account_no_text(e), prefix) + "),
aggregated AS (SELECT account_no, MAX(account_label) AS account_label, SUM(CASE WHEN "@ + opening_text(e, p) + " THEN debit ELSE CAST(0 AS DECIMAL(38,6)) END) AS open_debit_raw, SUM(CASE WHEN "@ + opening_text(e, p) + " THEN credit ELSE CAST(0 AS DECIMAL(38,6)) END) AS open_credit_raw, SUM(CASE WHEN "@ + movement_text("account_no"@, "parsed_date"@, "journal"@, e.journal_col is Some, p) + " THEN debit ELSE CAST(0 AS DECIMAL(38,6)) END) AS mvt_debit, SUM(CASE WHEN "@ + movement_text("account_no"@, "parsed_date"@, "journal"@, e.journal_col is Some, p) + " THEN credit ELSE CAST(0 AS DECIMAL(38,6)) END) AS mvt_credit FROM base WHERE account_no <> '' AND parsed_date IS NOT NULL AND "@ + cutoff_text(e, p)).len() + 358) as int);
    assert(t.subrange(0, (("WITH base AS (SELECT parsed_date = "@ + parsed_date_text(e) + ", journal = "@ + optional_text_column(e.journal_col, 64) + ", account_no = "@ + account_no_text(e) + ", account_label = "@ + account_label_text(e, lookup) + ", debit = "@ + e.debit_expr@ + ", credit = "@ + e.credit_expr@ + " FROM "@ + e.table.sql_name_text() + " e "@ + account_join_text(e, lookup) + " WHERE 1=1 "@ + account_filter_text(account_no_text(e), prefix) + "),
aggregated AS (SELECT account_no, MAX(account_label) AS account_label, SUM(CASE WHEN "@ + opening_text(e, p) + " THEN debit ELSE CAST(0 AS DECIMAL(38,6)) END) AS open_debit_raw, SUM(CASE WHEN "@ + opening_text(e, p) + " THEN credit ELSE CAST(0 AS DECIMAL(38,6)) END) AS open_credit_raw, SUM(CASE WHEN "@ + movement_text("account_no"@, "parsed_date"@, "journal"@, e.journal_col is Some, p) + " THEN debit ELSE CAST(0 AS DECIMAL(38,6)) END) AS mvt_debit, SUM(CASE WHEN "@ + movement_text("account_no"@, "parsed_date"@, "journal"@, e.journal_col is Some, p) + " THEN credit ELSE CAST(0 AS DECIMAL(38,6)) END) AS mvt_credit FROM base WHERE account_no <> '' AND parsed_date IS NOT NULL AND "@ + cutoff_text(e, p)) + stream_balance_closing_is_opening_plus_movements_piece28()).len() as int) == ("WITH base AS (SELECT parsed_date = "@ + parsed_date_text(e) + ", journal = "@ + optional_text_column(e.journal_col, 64) + ", account_no = "@ + account_no_text(e) + ", account_label = "@ + account_label_text(e, lookup) + ", debit = "@ + e.debit_expr@ + ", credit = "@ + e.credit_expr@ + " FROM "@ + e.table.sql_name_text() + " e "@ + account_join_text(e, lookup) + " WHERE 1=1 "@ + account_filter_text(account_no_text(e), prefix) + "),
aggregated AS (SELECT account_no, MAX(account_label) AS account_label, SUM(CASE WHEN "@ + opening_text(e, p) + " THEN debit ELSE CAST(0 AS DECIMAL(38,6)) END) AS open_debit_raw, SUM(CASE WHEN "@ + opening_text(e, p) + " THEN credit ELSE CAST(0 AS DECIMAL(38,6)) END) AS open_credit_raw, SUM(CASE WHEN "@ + movement_text("account_no"@, "parsed_date"@, "journal"@, e.journal_col is Some, p) + " THEN debit ELSE CAST(0 AS DECIMAL(38,6)) END) AS mvt_debit, SUM(CASE WHEN "@ + movement_text("account_no"@, "parsed_date"@, "journal"@, e.journal_col is Some, p) + " THEN credit ELSE CAST(0 AS DECIMAL(38,6)) END) AS mvt_credit FROM base WHERE account_no <> '' AND parsed_date IS NOT NULL AND "@ + cutoff_text(e, p)) + stream_balance_closing_is_opening_plus_movements_piece28()) by {
        assert(t.subrange(0, (("WITH base AS (SELECT parsed_date = "@ + parsed_date_text(e) + ", journal = "@ + optional_text_column(e.journal_col, 64) + ", account_no = "@ + account_no_text(e) + ", account_label = "@ + account_label_text(e, lookup) + ", debit = "@ + e.debit_expr@ + ", credit = "@ + e.credit_expr@ + " FROM "@ + e.table.sql_name_text() + " e "@ + account_join_text(e, lookup) + " WHERE 1=1 "@ + account_filter_text(account_no_text(e), prefix) + "),
aggregated AS (SELECT account_no, MAX(account_label) AS account_label, SUM(CASE WHEN "@ + opening_text(e, p) + " THEN debit ELSE CAST(0 AS DECIMAL(38,6)) END) AS open_debit_raw, SUM(CASE WHEN "@ + opening_text(e, p) + " THEN credit ELSE CAST(0 AS DECIMAL(38,6)) END) AS open_credit_raw, SUM(CASE WHEN "@ + movement_text("account_no"@, "parsed_date"@, "journal"@, e.journal_col is Some, p) + " THEN debit ELSE CAST(0 AS DECIMAL(38,6)) END) AS mvt_debit, SUM(CASE WHEN "@ + movement_text("account_no"@, "parsed_date"@, "journal"@, e.journal_col is Some, p) + " THEN credit ELSE CAST(0 AS DECIMAL(38,6)) END) AS mvt_credit FROM base WHERE account_no <> '' AND parsed_date IS NOT NULL AND "@ + cutoff_text(e, p)) + stream_balance_closing_is_opening_plus_movements_piece28()).len() as int) =~= ("WITH base AS (SELECT parsed_date = "@ + parsed_date_text(e) + ", journal = "@ + optional_text_column(e.journal_col, 64) + ", account_no = "@ + account_no_text(e) + ", account_label = "@ + account_label_text(e, lookup) + ", debit = "@ + e.debit_expr@ + ", credit = "@ + e.credit_expr@ + " FROM "@ + e.table.sql_name_text() + " e "@ + account_join_text(e, lookup) + " WHERE 1=1 "@ + account_filter_text(account_no_text(e), prefix) + "),
aggregated AS (SELECT account_no, MAX(account_label) AS account_label, SUM(CASE WHEN "@ + opening_text(e, p) + " THEN debit ELSE CAST(0 AS DECIMAL(38,6)) END) AS open_debit_raw, SUM(CASE WHEN "@ + opening_text(e, p) + " THEN credit ELSE CAST(0 AS DECIMAL(38,6)) END) AS open_credit_raw, SUM(CASE WHEN "@ + movement_text("account_no"@, "parsed_date"@, "journal"@, e.journal_col is Some, p) + " THEN debit ELSE CAST(0 AS DECIMAL(38,6)) END) AS mvt_debit, SUM(CASE WHEN "@ + movement_text("account_no"@, "parsed_date"@, "journal"@, e.journal_col is Some, p) + " THEN credit ELSE CAST(0 AS DECIMAL(38,6)) END) AS mvt_credit FROM base WHERE account_no <> '' AND parsed_date IS NOT NULL AND "@ + cutoff_text(e, p)) + stream_balance_closing_is_opening_plus_movements_piece28());
    }
    assert(("WITH base AS (SELECT parsed_date = "@ + parsed_date_text(e) + ", journal = "@ + optional_text_column(e.journal_col, 64) + ", account_no = "@ + account_no_text(e) + ", account_label = "@ + account_label_text(e, lookup) + ", debit = "@ + e.debit_expr@ + ", credit = "@ + e.credit_expr@ + " FROM "@ + e.table.sql_name_text() + " e "@ + account_join_text(e, lookup) + " WHERE 1=1 "@ + account_filter_text(account_no_text(e), prefix) + "),
aggregated AS (SELECT account_no, MAX(account_label) AS account_label, SUM(CASE WHEN "@ + opening_text(e, p) + " THEN debit ELSE CAST(0 AS DECIMAL(38,6)) END) AS open_debit_raw, SUM(CASE WHEN "@ + opening_text(e, p) + " THEN credit ELSE CAST(0 AS DECIMAL(38,6)) END) AS open_credit_raw, SUM(CASE WHEN "@ + movement_text("account_no"@, "parsed_date"@, "journal"@, e.journal_col is Some, p) + " THEN debit ELSE CAST(0 AS DECIMAL(38,6)) END) AS mvt_debit, SUM(CASE WHEN "@ + movement_text("account_no"@, "parsed_date"@, "journal"@, e.journal_col is Some, p) + " THEN credit ELSE CAST(0 AS DECIMAL(38,6)) END) AS mvt_credit FROM base WHERE account_no <> '' AND parsed_date IS NOT NULL AND "@ + cutoff_text(e, p)) + stream_balance_closing_is_opening_plus_movements_piece28() =~= ("WITH base AS (SELECT parsed_date = "@ + parsed_date_text(e) + ", journal = "@ + optional_text_column(e.journal_col, 64) + ", account_no = "@ + account_no_text(e) + ", account_label = "@ + account_label_text(e, lookup) + ", debit = "@ + e.debit_expr@ + ", credit = "@ + e.credit_expr@ + " FROM "@ + e.table.sql_name_text() + " e "@ + account_join_text(e, lookup) + " WHERE 1=1 "@ + account_filter_text(account_no_text(e), prefix) + "),
aggregated AS (SELECT account_no, MAX(account_label) AS account_label, SUM(CASE WHEN "@ + opening_text(e, p) + " THEN debit ELSE CAST(0 AS DECIMAL(38,6)) END) AS open_debit_raw, SUM(CASE WHEN "@ + opening_text(e, p) + " THEN credit ELSE CAST(0 AS DECIMAL(38,6)) END) AS open_credit_raw, SUM(CASE WHEN "@ + movement_text("account_no"@, "parsed_date"@, "journal"@, e.journal_col is Some, p) + " THEN debit ELSE CAST(0 AS DECIMAL(38,6)) END) AS mvt_debit, SUM(CASE WHEN "@ + movement_text("account_no"@, "parsed_date"@, "journal"@, e.journal_col is Some, p) + " THEN credit ELSE CAST(0 AS DECIMAL(38,6)) END) AS mvt_credit FROM base WHERE account_no <> '' AND parsed_date IS NOT NULL AND "@ + cutoff_text(e, p)) + stream_balance_closing_is_opening_plus_movements_piece28() + seq![]);
    lemma_occurs_between(("WITH base AS (SELECT parsed_date = "@ + parsed_date_text(e) + ", journal = "@ + optional_text_column(e.journal_col, 64) + ", account_no = "@ + account_no_text(e) + ", account_label = "@ + account_label_text(e, lookup) + ", debit = "@ + e.debit_expr@ + ", credit = "@ + e.credit_expr@ + " FROM "@ + e.table.sql_name_text() + " e "@ + account_join_text(e, lookup) + " WHERE 1=1 "@ + account_filter_text(account_no_text(e), prefix) + "),
aggregated AS (SELECT account_no, MAX(account_label) AS account_label, SUM(CASE WHEN "@ + opening_text(e, p) + " THEN debit ELSE CAST(0 AS DECIMAL(38,6)) END) AS open_debit_raw, SUM(CASE WHEN "@ + opening_text(e, p) + " THEN credit ELSE CAST(0 AS DECIMAL(38,6)) END) AS open_credit_raw, SUM(CASE WHEN "@ + movement_text("account_no"@, "parsed_date"@, "journal"@, e.journal_col is Some, p) + " THEN debit ELSE CAST(0 AS DECIMAL(38,6)) END) AS mvt_debit, SUM(CASE WHEN "@ + movement_text("account_no"@, "parsed_date"@, "journal"@, e.journal_col is Some, p) + " THEN credit ELSE CAST(0 AS DECIMAL(38,6)) END) AS mvt_credit FROM base WHERE account_no <> '' AND parsed_date IS NOT NULL AND "@ + cutoff_text(e, p)) + stream_balance_closing_is_opening_plus_movements_piece28(), "WITH base AS (SELECT parsed_date = "@ + parsed_date_text(e) + ", journal = "@ + optional_text_column(e.journal_col, 64) + ", account_no = "@ + account_no_text(e) + ", account_label = "@ + account_label_text(e, lookup) + ", debit = "@ + e.debit_expr@ + ", credit = "@ + e.credit_expr@ + " FROM "@ + e.table.sql_name_text() + " e "@ + account_join_text(e, lookup) + " WHERE 1=1 "@ + account_filter_text(account_no_text(e), prefix) + "),
aggregated AS (SELECT account_no, MAX(account_label) AS account_label, SUM(CASE WHEN "@ + opening_text(e, p) + " THEN debit ELSE CAST(0 AS DECIMAL(38,6)) END) AS open_debit_raw, SUM(CASE WHEN "@ + opening_text(e, p) + " THEN credit ELSE CAST(0 AS DECIMAL(38,6)) END) AS open_credit_raw, SUM(CASE WHEN "@ + movement_text("account_no"@, "parsed_date"@, "journal"@, e.journal_col is Some, p) + " THEN debit ELSE CAST(0 AS DECIMAL(38,6)) END) AS mvt_debit, SUM(CASE WHEN "@ + movement_text("account_no"@, "parsed_date"@, "journal"@, e.journal_col is Some, p) + " THEN credit ELSE CAST(0 AS DECIMAL(38,6)) END) AS mvt_credit FROM base WHERE account_no <> '' AND parsed_date IS NOT NULL AND "@ + cutoff_text(e, p), stream_balance_closing_is_opening_plus_movements_piece28(), seq![]);
    lemma_occurs_within(("WITH base AS (SELECT parsed_date = "@ + parsed_date_text(e) + ", journal = "@ + optional_text_column(e.journal_col, 64) + ", account_no = "@ + account_no_text(e) + ", account_label = "@ + account_label_text(e, lookup) + ", debit = "@ + e.debit_expr@ + ", credit = "@ + e.credit_expr@ + " FROM "@ + e.table.sql_name_text() + " e "@ + account_join_text(e, lookup) + " WHERE 1=1 "@ + account_filter_text(account_no_text(e), prefix) + "),
aggregated AS (SELECT account_no, MAX(account_label) AS account_label, SUM(CASE WHEN "@ + opening_text(e, p) + " THEN debit ELSE CAST(0 AS DECIMAL(38,6)) END) AS open_debit_raw, SUM(CASE WHEN "@ + opening_text(e, p) + " THEN credit ELSE CAST(0 AS DECIMAL(38,6)) END) AS open_credit_raw, SUM(CASE WHEN "@ + movement_text("account_no"@, "parsed_date"@, "journal"@, e.journal_col is Some, p) + " THEN debit ELSE CAST(0 AS DECIMAL(38,6)) END) AS mvt_debit, SUM(CASE WHEN "@ + movement_text("account_no"@, "parsed_date"@, "journal"@, e.journal_col is Some, p) + " THEN credit ELSE CAST(0 AS DECIMAL(38,6)) END) AS mvt_credit FROM base WHERE account_no <> '' AND parsed_date IS NOT NULL AND "@ + cutoff_text(e, p)) + stream_balance_closing_is_opening_plus_movements_piece28(), stream_balance_closing_is_opening_plus_movements_piece28(), "CASE WHEN ((open_debit_raw-open_credit_raw)+(mvt_debit-mvt_credit))<0 THEN ABS((open_debit_raw-open_credit_raw)+(mvt_debit-mvt_credit)) ELSE CAST(0 AS DECIMAL(38,6)) END AS cloture_credit"@, ("WITH base AS (SELECT parsed_date = "@ + parsed_date_text(e) + ", journal = "@ + optional_text_column(e.journal_col, 64) + ", account_no = "@ + account_no_text(e) + ", account_label = "@ + account_label_text(e, lookup) + ", debit = "@ + e.debit_expr@ + ", credit = "@ + e.credit_expr@ + " FROM "@ + e.table.sql_name_text() + " e "@ + account_join_text(e, lookup) + " WHERE 1=1 "@ + account_filter_text(account_no_text(e), prefix) + "),
aggregated AS (SELECT account_no, MAX(account_label) AS account_label, SUM(CASE WHEN "@ + opening_text(e, p) + " THEN debit ELSE CAST(0 AS DECIMAL(38,6)) END) AS open_debit_raw, SUM(CASE WHEN "@ + opening_text(e, p) + " THEN credit ELSE CAST(0 AS DECIMAL(38,6)) END) AS open_credit_raw, SUM(CASE WHEN "@ + movement_text("account_no"@, "parsed_date"@, "journal"@, e.journal_col is Some, p) + " THEN debit ELSE CAST(0 AS DECIMAL(38,6)) END) AS mvt_debit, SUM(CASE WHEN "@ + movement_text("account_no"@, "parsed_date"@, "journal"@, e.journal_col is Some, p) + " THEN credit ELSE CAST(0 AS DECIMAL(38,6)) END) AS mvt_credit FROM base WHERE account_no <> '' AND parsed_date IS NOT NULL AND "@ + cutoff_text(e, p)).len() as int, 544);
    lemma_occurs_in_prefix(t, ("WITH base AS (SELECT parsed_date = "@ + parsed_date_text(e) + ", journal = "@ + optional_text_column(e.journal_col, 64) + ", account_no = "@ + account_no_text(e) + ", account_label = "@ + account_label_text(e, lookup) + ", debit = "@ + e.debit_expr@ + ", credit = "@ + e.credit_expr@ + " FROM "@ + e.table.sql_name_text() + " e "@ + account_join_text(e, lookup) + " WHERE 1=1 "@ + account_filter_text(account_no_text(e), prefix) + "),
aggregated AS (SELECT account_no, MAX(account_label) AS account_label, SUM(CASE WHEN "@ + opening_text(e, p) + " THEN debit ELSE CAST(0 AS DECIMAL(38,6)) END) AS open_debit_raw, SUM(CASE WHEN "@ + opening_text(e, p) + " THEN credit ELSE CAST(0 AS DECIMAL(38,6)) END) AS open_credit_raw, SUM(CASE WHEN "@ + movement_text("account_no"@, "parsed_date"@, "journal"@, e.journal_col is Some, p) + " THEN debit ELSE CAST(0 AS DECIMAL(38,6)) END) AS mvt_debit, SUM(CASE WHEN "@ + movement_text("account_no"@, "parsed_date"@, "journal"@, e.journal_col is Some, p) + " THEN credit ELSE CAST(0 AS DECIMAL(38,6)) END) AS mvt_credit FROM base WHERE account_no <> '' AND parsed_date IS NOT NULL AND "@ + cutoff_text(e, p)) + stream_balance_closing_is_opening_plus_movements_piece28(), "CASE WHEN ((open_debit_raw-open_credit_raw)+(mvt_debit-mvt_credit))<0 THEN ABS((open_debit_raw-open_credit_raw)+(mvt_debit-mvt_credit)) ELSE CAST(0 AS DECIMAL(38,6)) END AS cloture_credit"@, (("WITH base AS (SELECT parsed_date = "@ + parsed_date_text(e) + ", journal = "@ + optional_text_column(e.journal_col, 64) + ", account_no = "@ + account_no_text(e) + ", account_label = "@ + account_label_text(e, lookup) + ", debit = "@ + e.debit_expr@ + ", credit = "@ + e.credit_expr@ + " FROM "@ + e.table.sql_name_text() + " e "@ + account_join_text(e, lookup) + " WHERE 1=1 "@ + account_filter_text(account_no_text(e), prefix) + "),
aggregated AS (SELECT account_no, MAX(account_label) AS account_label, SUM(CASE WHEN "@ + opening_text(e, p) + " THEN debit ELSE CAST(0 AS DECIMAL(38,6)) END) AS open_debit_raw, SUM(CASE WHEN "@ + opening_text(e, p) + " THEN credit ELSE CAST(0 AS DECIMAL(38,6)) END) AS open_credit_raw, SUM(CASE WHEN "@ + movement_text("account_no"@, "parsed_date"@, "journal"@, e.journal_col is Some, p) + " THEN debit ELSE CAST(0 AS DECIMAL(38,6)) END) AS mvt_debit, SUM(CASE WHEN "@ + movement_text("account_no"@, "parsed_date"@, "journal"@, e.journal_col is Some, p) + " THEN credit ELSE CAST(0 AS DECIMAL(38,6)) END) AS mvt_credit FROM base WHERE account_no <> '' AND parsed_date IS NOT NULL AND "@ + cutoff_text(e, p)).len() + 544) as int);
}

} // verus!
