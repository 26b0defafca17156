//! The SQL of the reports on the Sage 1000 tables that the queries shared
//! with the other editions do not cover: the auxiliary ledger, the bases of
//! the streamed ledgers, and the balance read from the period totals.
use vstd::prelude::*;
use crate::schema::{is_sage1000, sage1000_route_source, SageSchema};
use crate::report_laws::{
    begins_with, customer_accounts, ends_with, lemma_kind_clause_keeps_its_accounts, lemma_occurs_around,
    lemma_occurs_between, lemma_occurs_within, occurs_at, occurs_in, supplier_accounts,
};
use crate::ledger::{
    decimal_or_zero_text, document_joins_text, journal_expr_text, qualified, ref_piece_expr_text,
    sage1000_document_sql, text_or_empty_text, BalancePeriod, DetectedTable, Sage1000Context,
};
use crate::ledger_sql::{
    account_filter_expr, account_filter_text, kind_filter_expr, kind_filter_text, sage1000_account_label_text,
    sage1000_account_no_text, sage1000_tiers_code_text, TiersKind,
};
use crate::sql::{decimal_or_zero, qualify, sql_literal, sql_literal_seq, text_or_empty};

verus! {

// ---------------------------------------------------------------------------
// Expressions
// ---------------------------------------------------------------------------

fn sage1000_account_label() -> (r: String)
    ensures
        r@ == sage1000_account_label_text(),
{
    let mut r = String::from_str("COALESCE(CAST(");
    r.append(qualify("cg", "Caption").as_str());
    r.append(" AS NVARCHAR(255)), CAST(");
    r.append(qualify("e", "reference").as_str());
    r.append(" AS NVARCHAR(255)), CAST('' AS NVARCHAR(255)))");
    r
}

/// The name of a third party: its company name, else its name, else its code.
pub open spec fn sage1000_tiers_name_text() -> Seq<char> {
    "COALESCE(CAST("@ + qualified("t"@, "raisonSociale"@) + " AS NVARCHAR(255)), CAST("@ + qualified("t"@, "nom"@)
        + " AS NVARCHAR(255)), CAST("@ + qualified("t"@, "code"@) + " AS NVARCHAR(255)), CAST('' AS NVARCHAR(255)))"@
}

fn sage1000_tiers_name() -> (r: String)
    ensures
        r@ == sage1000_tiers_name_text(),
{
    let mut r = String::from_str("COALESCE(CAST(");
    r.append(qualify("t", "raisonSociale").as_str());
    r.append(" AS NVARCHAR(255)), CAST(");
    r.append(qualify("t", "nom").as_str());
    r.append(" AS NVARCHAR(255)), CAST(");
    r.append(qualify("t", "code").as_str());
    r.append(" AS NVARCHAR(255)), CAST('' AS NVARCHAR(255)))");
    r
}

/// The description of an entry: its reference, else its caption.
pub open spec fn sage1000_description_text() -> Seq<char> {
    "COALESCE(CAST("@ + qualified("e"@, "reference"@) + " AS NVARCHAR(255)), CAST("@ + qualified("e"@, "Caption"@)
        + " AS NVARCHAR(255)), CAST('' AS NVARCHAR(255)))"@
}

fn sage1000_description() -> (r: String)
    ensures
        r@ == sage1000_description_text(),
{
    let mut r = String::from_str("COALESCE(CAST(");
    r.append(qualify("e", "reference").as_str());
    r.append(" AS NVARCHAR(255)), CAST(");
    r.append(qualify("e", "Caption").as_str());
    r.append(" AS NVARCHAR(255)), CAST('' AS NVARCHAR(255)))");
    r
}

/// The third party of an entry: its role's, else its piece's when there
/// are pieces.
pub open spec fn sage1000_tier_oid_text(c: Sage1000Context) -> Seq<char> {
    if c.pieces is Some {
        "COALESCE("@ + qualified("rt"@, "oidTiers"@) + ", "@ + qualified("p"@, "oidTiers"@) + ")"@
    } else {
        qualified("rt"@, "oidTiers"@)
    }
}

fn sage1000_tier_oid(c: &Sage1000Context) -> (r: String)
    ensures
        r@ == sage1000_tier_oid_text(*c),
{
    if c.pieces.is_some() {
        let mut o = String::from_str("COALESCE(");
        o.append(qualify("rt", "oidTiers").as_str());
        o.append(", ");
        o.append(qualify("p", "oidTiers").as_str());
        o.append(")");
        o
    } else {
        qualify("rt", "oidTiers")
    }
}

/// The first two digits of the collective accounts of a kind of third
/// party: 40 for suppliers, 41 for customers.
pub open spec fn role_prefix_text(kind: TiersKind) -> Seq<char> {
    match kind {
        TiersKind::Suppliers => "40"@,
        TiersKind::Customers => "41"@,
    }
}

/// Entries of a kind of third party: the privileged account of their role,
/// or their own account, starts with the kind's two digits.
pub open spec fn sage1000_role_filter_text(kind: TiersKind) -> Seq<char> {
    "(LEFT("@ + text_or_empty_text(qualified("ap"@, "codeCompte"@), 64) + ", 2) = "@ + sql_literal_seq(role_prefix_text(kind))
        + " OR LEFT("@ + sage1000_account_no_text() + ", 2) = "@ + sql_literal_seq(role_prefix_text(kind)) + ")"@
}

fn sage1000_role_filter(kind: TiersKind) -> (r: String)
    ensures
        r@ == sage1000_role_filter_text(kind),
{
    let role_prefix = match kind {
        TiersKind::Suppliers => "40",
        TiersKind::Customers => "41",
    };
    let literal = sql_literal(role_prefix);
    let role_account_expr = text_or_empty(qualify("ap", "codeCompte").as_str(), 64);
    let account_no_expr = text_or_empty(qualify("cg", "codeCompte").as_str(), 64);
    let mut r = String::from_str("(LEFT(");
    r.append(role_account_expr.as_str());
    r.append(", 2) = ");
    r.append(literal.as_str());
    r.append(" OR LEFT(");
    r.append(account_no_expr.as_str());
    r.append(", 2) = ");
    r.append(literal.as_str());
    r.append(")");
    r
}

// ---------------------------------------------------------------------------
// Auxiliary ledger
// ---------------------------------------------------------------------------

/// Why the auxiliary ledger cannot be read from the Sage 1000 tables
/// found, if it cannot: it needs the entries and accounts, the third-party
/// roles and the third parties.
pub open spec fn sage1000_auxiliary_blocker_text(c: Option<Sage1000Context>) -> Option<Seq<char>> {
    match c {
        None => Some("Sage 1000 tables TECRITURE and TCOMPTEGENERAL were not detected"@),
        Some(c) => if c.role_tiers is None {
            Some("Sage 1000 table TROLETIERS was not detected"@)
        } else if c.tiers is None {
            Some("Sage 1000 table TTIERS was not detected"@)
        } else {
            None
        },
    }
}

pub fn sage1000_auxiliary_blocker(c: &Option<Sage1000Context>) -> (r: Option<String>)
    ensures
        match sage1000_auxiliary_blocker_text(*c) {
            Some(m) => (r matches Some(s) && s@ == m),
            None => r is None,
        },
{
    proof {
        reveal_strlit("Sage 1000 tables TECRITURE and TCOMPTEGENERAL were not detected");
        reveal_strlit("Sage 1000 table TROLETIERS was not detected");
        reveal_strlit("Sage 1000 table TTIERS was not detected");
    }
    match c {
        None => Some(String::from_str("Sage 1000 tables TECRITURE and TCOMPTEGENERAL were not detected")),
        Some(c) => if c.role_tiers.is_none() {
            Some(String::from_str("Sage 1000 table TROLETIERS was not detected"))
        } else if c.tiers.is_none() {
            Some(String::from_str("Sage 1000 table TTIERS was not detected"))
        } else {
            None
        },
    }
}

/// The auxiliary ledger on Sage 1000: each third party's entries in
/// account, date and entry-number order with a running balance, then its
/// total row.
pub open spec fn sage1000_auxiliary_query_text(c: Sage1000Context, rt: DetectedTable, t: DetectedTable, kind: TiersKind, date_from: Seq<char>, date_to: Seq<char>, prefix: Option<Seq<char>>) -> Seq<char> {
    "
        WITH base AS (
            SELECT
                parsed_date = TRY_CAST("@
        + qualified("e"@, "eDate"@)
        + " AS DATE),
                account_no = "@
        + sage1000_account_no_text()
        + ",
                account_label = "@
        + sage1000_account_label_text()
        + ",
                tiers_code = "@
        + text_or_empty_text(qualified("t"@, "code"@), 64)
        + ",
                tiers_name = "@
        + sage1000_tiers_name_text()
        + ",
                journal = "@
        + journal_expr_text(c)
        + ",
                description = "@
        + sage1000_description_text()
        + ",
                ref_piece = "@
        + ref_piece_expr_text(c)
        + ",
                lettrage = "@
        + text_or_empty_text(qualified("e"@, "CodeLettrageExterne"@), 64)
        + ",
                debit = "@
        + decimal_or_zero_text(qualified("e"@, "debit"@))
        + ",
                credit = "@
        + decimal_or_zero_text(qualified("e"@, "credit"@))
        + ",
                entry_number = COALESCE(TRY_CAST("@
        + qualified("e"@, "numero"@)
        + " AS BIGINT), 0)
            FROM "@
        + c.entries.sql_name_text()
        + " e
            LEFT JOIN "@
        + c.accounts.sql_name_text()
        + " cg ON "@
        + qualified("e"@, "oidcompteGeneral"@)
        + " = "@
        + qualified("cg"@, "oid"@)
        + "
            LEFT JOIN "@
        + rt.sql_name_text()
        + " rt ON "@
        + qualified("e"@, "oidroleTiers"@)
        + " = "@
        + qualified("rt"@, "oid"@)
        + "
            "@
        + document_joins_text(c)
        + "
            LEFT JOIN "@
        + t.sql_name_text()
        + " t ON "@
        + sage1000_tier_oid_text(c)
        + " = "@
        + qualified("t"@, "oid"@)
        + "
            LEFT JOIN "@
        + c.accounts.sql_name_text()
        + " ap ON "@
        + qualified("rt"@, "oidcomptePrivilegie"@)
        + " = "@
        + qualified("ap"@, "oid"@)
        + "
            WHERE TRY_CAST("@
        + qualified("e"@, "eDate"@)
        + " AS DATE) BETWEEN "@
        + sql_literal_seq(date_from)
        + " AND "@
        + sql_literal_seq(date_to)
        + "
              AND "@
        + sage1000_role_filter_text(kind)
        + "
              AND "@
        + text_or_empty_text(qualified("t"@, "code"@), 64)
        + " <> ''
              AND "@
        + sage1000_account_no_text()
        + " <> ''
              "@
        + account_filter_text(sage1000_account_no_text(), prefix)
        + "
        ),
        ranked AS (
            SELECT
                account_no,
                account_label,
                tiers_code,
                tiers_name,
                CONVERT(char(10), parsed_date, 103) AS [date],
                journal,
                description,
                ref_piece,
                lettrage,
                debit,
                credit,
                SUM(debit - credit) OVER (
                    PARTITION BY tiers_code
                    ORDER BY account_no, parsed_date, entry_number
                    ROWS UNBOUNDED PRECEDING
                ) AS running_balance,
                ROW_NUMBER() OVER (
                    PARTITION BY tiers_code
                    ORDER BY account_no, parsed_date, entry_number
                ) AS sort_row
            FROM base
            WHERE parsed_date IS NOT NULL
        ),
        totals AS (
            SELECT
                MAX(account_no) AS account_no,
                MAX(account_label) AS account_label,
                tiers_code,
                MAX(tiers_name) AS tiers_name,
                CAST(NULL AS NVARCHAR(10)) AS [date],
                CAST(NULL AS NVARCHAR(64)) AS journal,
                CAST(NULL AS NVARCHAR(255)) AS description,
                CAST(NULL AS NVARCHAR(128)) AS ref_piece,
                CAST(NULL AS NVARCHAR(64)) AS lettrage,
                SUM(debit) AS debit,
                SUM(credit) AS credit,
                SUM(debit - credit) AS running_balance,
                CAST(1 AS BIT) AS is_total_row,
                2147483647 AS sort_row
            FROM base
            WHERE parsed_date IS NOT NULL
            GROUP BY tiers_code
        )
        SELECT
            account_no,
            account_label,
            tiers_code,
            tiers_name,
            [date],
            journal,
            description,
            ref_piece,
            lettrage,
            debit,
            credit,
            running_balance,
            is_total_row
        FROM (
            SELECT
                account_no,
                account_label,
                tiers_code,
                tiers_name,
                [date],
                journal,
                description,
                ref_piece,
                lettrage,
                debit,
                credit,
                running_balance,
                CAST(0 AS BIT) AS is_total_row,
                sort_row
            FROM ranked
            UNION ALL
            SELECT
                account_no,
                account_label,
                tiers_code,
                tiers_name,
                [date],
                journal,
                description,
                ref_piece,
                lettrage,
                debit,
                credit,
                running_balance,
                is_total_row,
                sort_row
            FROM totals
        ) gl_aux
        ORDER BY account_no, tiers_code, sort_row
        "@
}

/// The auxiliary ledger query of the auxiliary ledger report on the Sage
/// 1000 tables, once `sage1000_auxiliary_blocker` finds nothing missing.
pub fn sage1000_auxiliary_query(
    c: &Sage1000Context,
    kind: TiersKind,
    date_from: &str,
    date_to: &str,
    account_prefix: Option<&str>,
) -> (r: String)
    requires
        c.role_tiers is Some,
        c.tiers is Some,
    ensures
        r@ == sage1000_auxiliary_query_text(*c, c.role_tiers.unwrap(), c.tiers.unwrap(), kind, date_from@, date_to@, match account_prefix {
            Some(p) => Some(p@),
            None => None,
        }),
{
    let document_sql = sage1000_document_sql(c);
    let date_col = qualify("e", "eDate");
    let account_no_expr = text_or_empty(qualify("cg", "codeCompte").as_str(), 64);
    let account_label_expr = sage1000_account_label();
    let lettrage_expr = text_or_empty(qualify("e", "CodeLettrageExterne").as_str(), 64);
    let debit_expr = decimal_or_zero(qualify("e", "debit").as_str());
    let credit_expr = decimal_or_zero(qualify("e", "credit").as_str());
    let entry_number_col = qualify("e", "numero");
    let entries_table = c.entries.sql_name();
    let accounts_table = c.accounts.sql_name();
    let entry_account_fk = qualify("e", "oidcompteGeneral");
    let account_pk = qualify("cg", "oid");
    let date_from = sql_literal(date_from);
    let date_to = sql_literal(date_to);
    let account_filter_sql = account_filter_expr(account_no_expr.as_str(), account_prefix);
    let role_tiers_table = match &c.role_tiers {
        Some(t) => t.sql_name(),
        None => String::new(),
    };
    let tiers_table = match &c.tiers {
        Some(t) => t.sql_name(),
        None => String::new(),
    };
    let tiers_code_expr = text_or_empty(qualify("t", "code").as_str(), 64);
    let tiers_name_expr = sage1000_tiers_name();
    let description_expr = sage1000_description();
    let entry_role_fk = qualify("e", "oidroleTiers");
    let role_pk = qualify("rt", "oid");
    let tier_oid_expr = sage1000_tier_oid(c);
    let tiers_pk = qualify("t", "oid");
    let role_account_fk = qualify("rt", "oidcomptePrivilegie");
    let role_account_pk = qualify("ap", "oid");
    let tier_kind_filter = sage1000_role_filter(kind);
    let mut r = String::new();
    r.append("
        WITH base AS (
            SELECT
                parsed_date = TRY_CAST(");
    r.append(date_col.as_str());
    r.append(" AS DATE),
                account_no = ");
    r.append(account_no_expr.as_str());
    r.append(",
                account_label = ");
    r.append(account_label_expr.as_str());
    r.append(",
                tiers_code = ");
    r.append(tiers_code_expr.as_str());
    r.append(",
                tiers_name = ");
    r.append(tiers_name_expr.as_str());
    r.append(",
                journal = ");
    r.append(document_sql.journal_expr.as_str());
    r.append(",
                description = ");
    r.append(description_expr.as_str());
    r.append(",
                ref_piece = ");
    r.append(document_sql.ref_piece_expr.as_str());
    r.append(",
                lettrage = ");
    r.append(lettrage_expr.as_str());
    r.append(",
                debit = ");
    r.append(debit_expr.as_str());
    r.append(",
                credit = ");
    r.append(credit_expr.as_str());
    r.append(",
                entry_number = COALESCE(TRY_CAST(");
    r.append(entry_number_col.as_str());
    r.append(" AS BIGINT), 0)
            FROM ");
    r.append(entries_table.as_str());
    r.append(" e
            LEFT JOIN ");
    r.append(accounts_table.as_str());
    r.append(" cg ON ");
    r.append(entry_account_fk.as_str());
    r.append(" = ");
    r.append(account_pk.as_str());
    r.append("
            LEFT JOIN ");
    r.append(role_tiers_table.as_str());
    r.append(" rt ON ");
    r.append(entry_role_fk.as_str());
    r.append(" = ");
    r.append(role_pk.as_str());
    r.append("
            ");
    r.append(document_sql.join_sql.as_str());
    r.append("
            LEFT JOIN ");
    r.append(tiers_table.as_str());
    r.append(" t ON ");
    r.append(tier_oid_expr.as_str());
    r.append(" = ");
    r.append(tiers_pk.as_str());
    r.append("
            LEFT JOIN ");
    r.append(accounts_table.as_str());
    r.append(" ap ON ");
    r.append(role_account_fk.as_str());
    r.append(" = ");
    r.append(role_account_pk.as_str());
    r.append("
            WHERE TRY_CAST(");
    r.append(date_col.as_str());
    r.append(" AS DATE) BETWEEN ");
    r.append(date_from.as_str());
    r.append(" AND ");
    r.append(date_to.as_str());
    r.append("
              AND ");
    r.append(tier_kind_filter.as_str());
    r.append("
              AND ");
    r.append(tiers_code_expr.as_str());
    r.append(" <> ''
              AND ");
    r.append(account_no_expr.as_str());
    r.append(" <> ''
              ");
    r.append(account_filter_sql.as_str());
    r.append("
        ),
        ranked AS (
            SELECT
                account_no,
                account_label,
                tiers_code,
                tiers_name,
                CONVERT(char(10), parsed_date, 103) AS [date],
                journal,
                description,
                ref_piece,
                lettrage,
                debit,
                credit,
                SUM(debit - credit) OVER (
                    PARTITION BY tiers_code
                    ORDER BY account_no, parsed_date, entry_number
                    ROWS UNBOUNDED PRECEDING
                ) AS running_balance,
                ROW_NUMBER() OVER (
                    PARTITION BY tiers_code
                    ORDER BY account_no, parsed_date, entry_number
                ) AS sort_row
            FROM base
            WHERE parsed_date IS NOT NULL
        ),
        totals AS (
            SELECT
                MAX(account_no) AS account_no,
                MAX(account_label) AS account_label,
                tiers_code,
                MAX(tiers_name) AS tiers_name,
                CAST(NULL AS NVARCHAR(10)) AS [date],
                CAST(NULL AS NVARCHAR(64)) AS journal,
                CAST(NULL AS NVARCHAR(255)) AS description,
                CAST(NULL AS NVARCHAR(128)) AS ref_piece,
                CAST(NULL AS NVARCHAR(64)) AS lettrage,
                SUM(debit) AS debit,
                SUM(credit) AS credit,
                SUM(debit - credit) AS running_balance,
                CAST(1 AS BIT) AS is_total_row,
                2147483647 AS sort_row
            FROM base
            WHERE parsed_date IS NOT NULL
            GROUP BY tiers_code
        )
        SELECT
            account_no,
            account_label,
            tiers_code,
            tiers_name,
            [date],
            journal,
            description,
            ref_piece,
            lettrage,
            debit,
            credit,
            running_balance,
            is_total_row
        FROM (
            SELECT
                account_no,
                account_label,
                tiers_code,
                tiers_name,
                [date],
                journal,
                description,
                ref_piece,
                lettrage,
                debit,
                credit,
                running_balance,
                CAST(0 AS BIT) AS is_total_row,
                sort_row
            FROM ranked
            UNION ALL
            SELECT
                account_no,
                account_label,
                tiers_code,
                tiers_name,
                [date],
                journal,
                description,
                ref_piece,
                lettrage,
                debit,
                credit,
                running_balance,
                is_total_row,
                sort_row
            FROM totals
        ) gl_aux
        ORDER BY account_no, tiers_code, sort_row
        ");
    r
}

// ---------------------------------------------------------------------------
// Streamed ledgers
// ---------------------------------------------------------------------------

/// The warning of a general ledger stream without the Sage 1000 tables.
pub const SAGE1000_LEDGER_WARNING: &'static str = "Sage 1000 tables TECRITURE / TCOMPTEGENERAL non d\u{e9}tect\u{e9}es";

/// The order a Sage 1000 general ledger is streamed in.
pub const SAGE1000_LEDGER_ORDER: &'static str = "account_no, parsed_date, entry_number";

/// The entries a Sage 1000 general ledger is streamed and exported from.
pub open spec fn sage1000_ledger_stream_base_text(c: Sage1000Context, date_from: Seq<char>, date_to: Seq<char>, prefix: Option<Seq<char>>) -> Seq<char> {
    "WITH base AS (SELECT parsed_date = TRY_CAST("@
        + qualified("e"@, "eDate"@)
        + " AS DATE), journal = "@
        + journal_expr_text(c)
        + ", account_no = "@
        + sage1000_account_no_text()
        + ", account_label = "@
        + sage1000_account_label_text()
        + ", ref_piece = "@
        + ref_piece_expr_text(c)
        + ", lettrage = "@
        + text_or_empty_text(qualified("e"@, "CodeLettrageExterne"@), 64)
        + ", debit = "@
        + decimal_or_zero_text(qualified("e"@, "debit"@))
        + ", credit = "@
        + decimal_or_zero_text(qualified("e"@, "credit"@))
        + ", entry_number = COALESCE(TRY_CAST("@
        + qualified("e"@, "numero"@)
        + " AS BIGINT), 0) FROM "@
        + c.entries.sql_name_text()
        + " e LEFT JOIN "@
        + c.accounts.sql_name_text()
        + " cg ON "@
        + qualified("e"@, "oidcompteGeneral"@)
        + " = "@
        + qualified("cg"@, "oid"@)
        + " "@
        + document_joins_text(c)
        + " WHERE TRY_CAST("@
        + qualified("e"@, "eDate"@)
        + " AS DATE) BETWEEN "@
        + sql_literal_seq(date_from)
        + " AND "@
        + sql_literal_seq(date_to)
        + " AND "@
        + sage1000_account_no_text()
        + " <> '' "@
        + account_filter_text(sage1000_account_no_text(), prefix)
        + ")"@
}

/// The base of the general ledger stream and export on the Sage 1000
/// tables.
pub fn sage1000_ledger_stream_base(c: &Sage1000Context, date_from: &str, date_to: &str, account_prefix: Option<&str>) -> (r: String)
    ensures
        r@ == sage1000_ledger_stream_base_text(*c, date_from@, date_to@, match account_prefix {
            Some(p) => Some(p@),
            None => None,
        }),
{
    let document_sql = sage1000_document_sql(c);
    let date_col = qualify("e", "eDate");
    let account_no_expr = text_or_empty(qualify("cg", "codeCompte").as_str(), 64);
    let account_label_expr = sage1000_account_label();
    let lettrage_expr = text_or_empty(qualify("e", "CodeLettrageExterne").as_str(), 64);
    let debit_expr = decimal_or_zero(qualify("e", "debit").as_str());
    let credit_expr = decimal_or_zero(qualify("e", "credit").as_str());
    let entry_number_col = qualify("e", "numero");
    let entries_table = c.entries.sql_name();
    let accounts_table = c.accounts.sql_name();
    let entry_account_fk = qualify("e", "oidcompteGeneral");
    let account_pk = qualify("cg", "oid");
    let date_from = sql_literal(date_from);
    let date_to = sql_literal(date_to);
    let account_filter_sql = account_filter_expr(account_no_expr.as_str(), account_prefix);
    let mut r = String::new();
    r.append("WITH base AS (SELECT parsed_date = TRY_CAST(");
    r.append(date_col.as_str());
    r.append(" AS DATE), journal = ");
    r.append(document_sql.journal_expr.as_str());
    r.append(", account_no = ");
    r.append(account_no_expr.as_str());
    r.append(", account_label = ");
    r.append(account_label_expr.as_str());
    r.append(", ref_piece = ");
    r.append(document_sql.ref_piece_expr.as_str());
    r.append(", lettrage = ");
    r.append(lettrage_expr.as_str());
    r.append(", debit = ");
    r.append(debit_expr.as_str());
    r.append(", credit = ");
    r.append(credit_expr.as_str());
    r.append(", entry_number = COALESCE(TRY_CAST(");
    r.append(entry_number_col.as_str());
    r.append(" AS BIGINT), 0) FROM ");
    r.append(entries_table.as_str());
    r.append(" e LEFT JOIN ");
    r.append(accounts_table.as_str());
    r.append(" cg ON ");
    r.append(entry_account_fk.as_str());
    r.append(" = ");
    r.append(account_pk.as_str());
    r.append(" ");
    r.append(document_sql.join_sql.as_str());
    r.append(" WHERE TRY_CAST(");
    r.append(date_col.as_str());
    r.append(" AS DATE) BETWEEN ");
    r.append(date_from.as_str());
    r.append(" AND ");
    r.append(date_to.as_str());
    r.append(" AND ");
    r.append(account_no_expr.as_str());
    r.append(" <> '' ");
    r.append(account_filter_sql.as_str());
    r.append(")");
    r
}

/// The warning of an auxiliary ledger stream without the Sage 1000 tables.
pub const SAGE1000_AUXILIARY_WARNING: &'static str = "Sage 1000 tables non d\u{e9}tect\u{e9}es";

/// The order a Sage 1000 auxiliary ledger is streamed in.
pub const SAGE1000_AUXILIARY_ORDER: &'static str = "account_no, tiers_code, parsed_date, entry_number";

/// The joins that give a streamed entry its third party: through its role
/// (and its piece when there is one), or through its piece alone.
pub open spec fn sage1000_stream_tiers_join_text(c: Sage1000Context) -> Seq<char> {
    match (c.role_tiers, c.tiers) {
        (Some(rt), Some(t)) => "LEFT JOIN "@ + rt.sql_name_text() + " rt ON "@ + qualified("e"@, "oidroleTiers"@) + " = "@
            + qualified("rt"@, "oid"@) + "\n            LEFT JOIN "@ + t.sql_name_text() + " t ON "@ + sage1000_tier_oid_text(c)
            + " = "@ + qualified("t"@, "oid"@),
        (None, Some(t)) => if c.pieces is Some {
            "LEFT JOIN "@ + t.sql_name_text() + " t ON "@ + qualified("p"@, "oidTiers"@) + " = "@ + qualified("t"@, "oid"@)
        } else {
            Seq::<char>::empty()
        },
        _ => Seq::<char>::empty(),
    }
}

fn sage1000_stream_tiers_join(c: &Sage1000Context) -> (r: String)
    ensures
        r@ == sage1000_stream_tiers_join_text(*c),
{
    match (&c.role_tiers, &c.tiers) {
        (Some(role_tiers), Some(tiers)) => {
            let mut r = String::from_str("LEFT JOIN ");
            r.append(role_tiers.sql_name().as_str());
            r.append(" rt ON ");
            r.append(qualify("e", "oidroleTiers").as_str());
            r.append(" = ");
            r.append(qualify("rt", "oid").as_str());
            r.append("\n            LEFT JOIN ");
            r.append(tiers.sql_name().as_str());
            r.append(" t ON ");
            r.append(sage1000_tier_oid(c).as_str());
            r.append(" = ");
            r.append(qualify("t", "oid").as_str());
            r
        },
        (None, Some(tiers)) => if c.pieces.is_some() {
            let mut r = String::from_str("LEFT JOIN ");
            r.append(tiers.sql_name().as_str());
            r.append(" t ON ");
            r.append(qualify("p", "oidTiers").as_str());
            r.append(" = ");
            r.append(qualify("t", "oid").as_str());
            r
        } else {
            String::new()
        },
        _ => String::new(),
    }
}

/// The join of the role's privileged account, when roles and third
/// parties are both found.
pub open spec fn sage1000_role_account_join_text(c: Sage1000Context) -> Seq<char> {
    if c.role_tiers is Some && c.tiers is Some {
        "LEFT JOIN "@ + c.accounts.sql_name_text() + " ap ON "@ + qualified("rt"@, "oidcomptePrivilegie"@) + " = "@
            + qualified("ap"@, "oid"@)
    } else {
        Seq::<char>::empty()
    }
}

fn sage1000_role_account_join(c: &Sage1000Context) -> (r: String)
    ensures
        r@ == sage1000_role_account_join_text(*c),
{
    if c.role_tiers.is_some() && c.tiers.is_some() {
        let mut r = String::from_str("LEFT JOIN ");
        r.append(c.accounts.sql_name().as_str());
        r.append(" ap ON ");
        r.append(qualify("rt", "oidcomptePrivilegie").as_str());
        r.append(" = ");
        r.append(qualify("ap", "oid").as_str());
        r
    } else {
        String::new()
    }
}

/// The name of a streamed entry's third party, when the third parties are
/// found.
pub open spec fn sage1000_stream_tiers_name_text(c: Sage1000Context) -> Seq<char> {
    if c.tiers is Some {
        sage1000_tiers_name_text()
    } else {
        "CAST('' AS NVARCHAR(255))"@
    }
}

/// The entries of a kind of third party: by the role's account when roles
/// and third parties are found, else by the usual collective accounts.
pub open spec fn sage1000_stream_kind_filter_text(c: Sage1000Context, kind: TiersKind) -> Seq<char> {
    if c.role_tiers is Some && c.tiers is Some {
        sage1000_role_filter_text(kind)
    } else {
        kind_filter_text(sage1000_account_no_text(), None, kind)
    }
}

/// The entries a Sage 1000 auxiliary ledger is streamed from.
pub open spec fn sage1000_auxiliary_stream_base_text(c: Sage1000Context, kind: TiersKind, date_from: Seq<char>, date_to: Seq<char>, prefix: Option<Seq<char>>) -> Seq<char> {
    "WITH base AS (SELECT parsed_date = TRY_CAST("@
        + qualified("e"@, "eDate"@)
        + " AS DATE), account_no = "@
        + sage1000_account_no_text()
        + ", account_label = "@
        + sage1000_account_label_text()
        + ", tiers_code = "@
        + sage1000_tiers_code_text(c)
        + ", tiers_name = "@
        + sage1000_stream_tiers_name_text(c)
        + ", journal = "@
        + journal_expr_text(c)
        + ", description = CAST('' AS NVARCHAR(255)), ref_piece = "@
        + ref_piece_expr_text(c)
        + ", lettrage = "@
        + text_or_empty_text(qualified("e"@, "CodeLettrageExterne"@), 64)
        + ", debit = "@
        + decimal_or_zero_text(qualified("e"@, "debit"@))
        + ", credit = "@
        + decimal_or_zero_text(qualified("e"@, "credit"@))
        + ", entry_number = COALESCE(TRY_CAST("@
        + qualified("e"@, "numero"@)
        + " AS BIGINT), 0) FROM "@
        + c.entries.sql_name_text()
        + " e LEFT JOIN "@
        + c.accounts.sql_name_text()
        + " cg ON "@
        + qualified("e"@, "oidcompteGeneral"@)
        + " = "@
        + qualified("cg"@, "oid"@)
        + " "@
        + document_joins_text(c)
        + " "@
        + sage1000_stream_tiers_join_text(c)
        + " "@
        + sage1000_role_account_join_text(c)
        + " WHERE TRY_CAST("@
        + qualified("e"@, "eDate"@)
        + " AS DATE) BETWEEN "@
        + sql_literal_seq(date_from)
        + " AND "@
        + sql_literal_seq(date_to)
        + " AND "@
        + sage1000_stream_kind_filter_text(c, kind)
        + " AND "@
        + sage1000_tiers_code_text(c)
        + " <> '' "@
        + account_filter_text(sage1000_account_no_text(), prefix)
        + ")"@
}

/// The base of the auxiliary ledger stream on the Sage 1000 tables.
pub fn sage1000_auxiliary_stream_base(
    c: &Sage1000Context,
    kind: TiersKind,
    date_from: &str,
    date_to: &str,
    account_prefix: Option<&str>,
) -> (r: String)
    ensures
        r@ == sage1000_auxiliary_stream_base_text(*c, kind, date_from@, date_to@, match account_prefix {
            Some(p) => Some(p@),
            None => None,
        }),
{
    let document_sql = sage1000_document_sql(c);
    let date_col = qualify("e", "eDate");
    let account_no_expr = text_or_empty(qualify("cg", "codeCompte").as_str(), 64);
    let account_label_expr = sage1000_account_label();
    let lettrage_expr = text_or_empty(qualify("e", "CodeLettrageExterne").as_str(), 64);
    let debit_expr = decimal_or_zero(qualify("e", "debit").as_str());
    let credit_expr = decimal_or_zero(qualify("e", "credit").as_str());
    let entry_number_col = qualify("e", "numero");
    let entries_table = c.entries.sql_name();
    let accounts_table = c.accounts.sql_name();
    let entry_account_fk = qualify("e", "oidcompteGeneral");
    let account_pk = qualify("cg", "oid");
    let date_from = sql_literal(date_from);
    let date_to = sql_literal(date_to);
    let account_filter_sql = account_filter_expr(account_no_expr.as_str(), account_prefix);
    let tiers_join = sage1000_stream_tiers_join(c);
    let role_account_join = sage1000_role_account_join(c);
    let tiers_code_expr = if c.tiers.is_some() {
        text_or_empty(qualify("t", "code").as_str(), 64)
    } else {
        String::from_str("CAST('' AS NVARCHAR(64))")
    };
    let tiers_name_expr = if c.tiers.is_some() {
        sage1000_tiers_name()
    } else {
        String::from_str("CAST('' AS NVARCHAR(255))")
    };
    let account_filter = if c.role_tiers.is_some() && c.tiers.is_some() {
        sage1000_role_filter(kind)
    } else {
        kind_filter_expr(account_no_expr.as_str(), &None, kind)
    };
    let mut r = String::new();
    r.append("WITH base AS (SELECT parsed_date = TRY_CAST(");
    r.append(date_col.as_str());
    r.append(" AS DATE), account_no = ");
    r.append(account_no_expr.as_str());
    r.append(", account_label = ");
    r.append(account_label_expr.as_str());
    r.append(", tiers_code = ");
    r.append(tiers_code_expr.as_str());
    r.append(", tiers_name = ");
    r.append(tiers_name_expr.as_str());
    r.append(", journal = ");
    r.append(document_sql.journal_expr.as_str());
    r.append(", description = CAST('' AS NVARCHAR(255)), ref_piece = ");
    r.append(document_sql.ref_piece_expr.as_str());
    r.append(", lettrage = ");
    r.append(lettrage_expr.as_str());
    r.append(", debit = ");
    r.append(debit_expr.as_str());
    r.append(", credit = ");
    r.append(credit_expr.as_str());
    r.append(", entry_number = COALESCE(TRY_CAST(");
    r.append(entry_number_col.as_str());
    r.append(" AS BIGINT), 0) FROM ");
    r.append(entries_table.as_str());
    r.append(" e LEFT JOIN ");
    r.append(accounts_table.as_str());
    r.append(" cg ON ");
    r.append(entry_account_fk.as_str());
    r.append(" = ");
    r.append(account_pk.as_str());
    r.append(" ");
    r.append(document_sql.join_sql.as_str());
    r.append(" ");
    r.append(tiers_join.as_str());
    r.append(" ");
    r.append(role_account_join.as_str());
    r.append(" WHERE TRY_CAST(");
    r.append(date_col.as_str());
    r.append(" AS DATE) BETWEEN ");
    r.append(date_from.as_str());
    r.append(" AND ");
    r.append(date_to.as_str());
    r.append(" AND ");
    r.append(account_filter.as_str());
    r.append(" AND ");
    r.append(tiers_code_expr.as_str());
    r.append(" <> '' ");
    r.append(account_filter_sql.as_str());
    r.append(")");
    r
}

// ---------------------------------------------------------------------------
// Balance from the period totals
// ---------------------------------------------------------------------------

/// The tables of period totals a Sage 1000 balance can be read from.
pub struct CumulTables {
    pub period_cumul: DetectedTable,
    pub opening_cumul: DetectedTable,
    pub exercises: DetectedTable,
    pub periods: DetectedTable,
}

/// The tables `CumulTables` is looked up as, in its fields' order.
pub const PERIOD_CUMUL_TABLE: &'static str = "TCUMULPERIODECOMPTE";
pub const OPENING_CUMUL_TABLE: &'static str = "TCUMULANOUVEAUCOMPTE";
pub const EXERCISE_TABLE: &'static str = "TEXERCICE";
pub const PERIOD_TABLE: &'static str = "TPERIODE";

/// The balance from the period totals: the opening of each account from
/// the current exercise's carried-forward totals (else the previous
/// exercise's close) and the periods before the start date, the movements
/// from the periods inside the range and the entries of the periods it
/// only partly covers.
pub open spec fn sage1000_cumulative_balance_query_text(tables: CumulTables, c: Sage1000Context, p: BalancePeriod, prefix: Option<Seq<char>>) -> Seq<char> {
    "
        WITH target_exercise AS (
            SELECT TOP (1) ex.oid, ex.dateDebut, ex.dateFin
            FROM "@
        + tables.exercises.sql_name_text()
        + " ex
            WHERE "@
        + sql_literal_seq(p.date_from@)
        + " BETWEEN CAST(ex.dateDebut AS date) AND CAST(ex.dateFin AS date)
            ORDER BY ex.dateDebut DESC
        ),
        previous_exercise AS (
            SELECT TOP (1) ex.oid
            FROM "@
        + tables.exercises.sql_name_text()
        + " ex
            CROSS JOIN target_exercise tx
            WHERE CAST(ex.dateFin AS date) < CAST(tx.dateDebut AS date)
            ORDER BY ex.dateFin DESC
        ),
        current_an_available AS (
            SELECT has_values = CASE WHEN COALESCE(SUM(ABS(COALESCE(an.debit, 0)) + ABS(COALESCE(an.credit, 0))), 0) <> 0 THEN 1 ELSE 0 END
            FROM "@
        + tables.opening_cumul.sql_name_text()
        + " an
            JOIN target_exercise tx ON an.oidExercice = tx.oid
            WHERE COALESCE(TRY_CAST(an.ApprocheNationale AS int), 0) = 1
              AND COALESCE(TRY_CAST(an.ApprocheIAS AS int), 0) = 0
        ),
        current_an AS (
            SELECT an.oidcompteGeneral, SUM(COALESCE(an.debit, 0)) debit, SUM(COALESCE(an.credit, 0)) credit
            FROM "@
        + tables.opening_cumul.sql_name_text()
        + " an
            JOIN target_exercise tx ON an.oidExercice = tx.oid
            WHERE COALESCE(TRY_CAST(an.ApprocheNationale AS int), 0) = 1
              AND COALESCE(TRY_CAST(an.ApprocheIAS AS int), 0) = 0
            GROUP BY an.oidcompteGeneral
        ),
        previous_close AS (
            SELECT source.oidcompteGeneral, SUM(source.debit) debit, SUM(source.credit) credit
            FROM (
                SELECT an.oidcompteGeneral, COALESCE(an.debit, 0) debit, COALESCE(an.credit, 0) credit
                FROM "@
        + tables.opening_cumul.sql_name_text()
        + " an
                JOIN previous_exercise px ON an.oidExercice = px.oid
                WHERE COALESCE(TRY_CAST(an.ApprocheNationale AS int), 0) = 1
                  AND COALESCE(TRY_CAST(an.ApprocheIAS AS int), 0) = 0
                UNION ALL
                SELECT cp.oidcompteGeneral, COALESCE(cp.debit, 0), COALESCE(cp.credit, 0)
                FROM "@
        + tables.period_cumul.sql_name_text()
        + " cp
                JOIN "@
        + tables.periods.sql_name_text()
        + " per ON cp.oidPeriode = per.oid
                JOIN previous_exercise px ON per.oidexercice = px.oid
                WHERE COALESCE(TRY_CAST(cp.ApprocheNationale AS int), 0) = 1
                  AND COALESCE(TRY_CAST(cp.ApprocheIAS AS int), 0) = 0
                  AND COALESCE(TRY_CAST(cp.typeLot AS int), 1) = 1
            ) source
            GROUP BY source.oidcompteGeneral
        ),
        opening_periods AS (
            SELECT cp.oidcompteGeneral, SUM(COALESCE(cp.debit, 0)) debit, SUM(COALESCE(cp.credit, 0)) credit
            FROM "@
        + tables.period_cumul.sql_name_text()
        + " cp
            JOIN "@
        + tables.periods.sql_name_text()
        + " per ON cp.oidPeriode = per.oid
            JOIN target_exercise tx ON per.oidexercice = tx.oid
            WHERE CAST(per.dateFin AS date) < "@
        + sql_literal_seq(p.date_from@)
        + "
              AND COALESCE(TRY_CAST(cp.ApprocheNationale AS int), 0) = 1
              AND COALESCE(TRY_CAST(cp.ApprocheIAS AS int), 0) = 0
              AND COALESCE(TRY_CAST(cp.typeLot AS int), 1) = 1
            GROUP BY cp.oidcompteGeneral
        ),
        movement_periods AS (
            SELECT cp.oidcompteGeneral, SUM(COALESCE(cp.debit, 0)) debit, SUM(COALESCE(cp.credit, 0)) credit
            FROM "@
        + tables.period_cumul.sql_name_text()
        + " cp
            JOIN "@
        + tables.periods.sql_name_text()
        + " per ON cp.oidPeriode = per.oid
            WHERE CAST(per.dateDebut AS date) >= "@
        + sql_literal_seq(p.date_from@)
        + "
              AND CAST(per.dateFin AS date) <= "@
        + sql_literal_seq(p.date_to@)
        + "
              AND COALESCE(TRY_CAST(cp.ApprocheNationale AS int), 0) = 1
              AND COALESCE(TRY_CAST(cp.ApprocheIAS AS int), 0) = 0
              AND COALESCE(TRY_CAST(cp.typeLot AS int), 1) = 1
            GROUP BY cp.oidcompteGeneral
        ),
        partial_entries AS (
            SELECT e.oidcompteGeneral,
                   SUM(COALESCE(TRY_CAST(e.debit AS decimal(38, 6)), 0)) debit,
                   SUM(COALESCE(TRY_CAST(e.credit AS decimal(38, 6)), 0)) credit
            FROM "@
        + c.entries.sql_name_text()
        + " e
            WHERE TRY_CAST(e.eDate AS date) BETWEEN "@
        + sql_literal_seq(p.date_from@)
        + " AND "@
        + sql_literal_seq(p.date_to@)
        + "
              AND NOT EXISTS (
                  SELECT 1 FROM "@
        + tables.periods.sql_name_text()
        + " covered
                  WHERE CAST(covered.dateDebut AS date) >= "@
        + sql_literal_seq(p.date_from@)
        + "
                    AND CAST(covered.dateFin AS date) <= "@
        + sql_literal_seq(p.date_to@)
        + "
                    AND TRY_CAST(e.eDate AS date) BETWEEN CAST(covered.dateDebut AS date) AND CAST(covered.dateFin AS date)
              )
            GROUP BY e.oidcompteGeneral
        ),
        account_base AS (
            SELECT account_no = "@
        + sage1000_account_no_text()
        + ",
                   account_label = "@
        + text_or_empty_text(qualified("cg"@, "Caption"@), 255)
        + ",
                   opening_net = CASE WHEN ("@
        + sage1000_account_no_text()
        + " LIKE '6%' OR "@
        + sage1000_account_no_text()
        + " LIKE '7%') THEN CAST(0 AS decimal(38, 6)) ELSE
                       (CASE WHEN availability.has_values = 1
                             THEN COALESCE(can.debit, 0) - COALESCE(can.credit, 0)
                             ELSE COALESCE(pc.debit, 0) - COALESCE(pc.credit, 0) END)
                       + COALESCE(op.debit, 0) - COALESCE(op.credit, 0) END,
                   mvt_debit = COALESCE(mp.debit, 0) + COALESCE(pe.debit, 0),
                   mvt_credit = COALESCE(mp.credit, 0) + COALESCE(pe.credit, 0)
            FROM "@
        + c.accounts.sql_name_text()
        + " cg
            CROSS JOIN current_an_available availability
            LEFT JOIN current_an can ON can.oidcompteGeneral = cg.oid
            LEFT JOIN previous_close pc ON pc.oidcompteGeneral = cg.oid
            LEFT JOIN opening_periods op ON op.oidcompteGeneral = cg.oid
            LEFT JOIN movement_periods mp ON mp.oidcompteGeneral = cg.oid
            LEFT JOIN partial_entries pe ON pe.oidcompteGeneral = cg.oid
            WHERE COALESCE(TRY_CAST(cg.enActivite AS int), 1) = 1
              AND "@
        + sage1000_account_no_text()
        + " <> '' "@
        + account_filter_text(sage1000_account_no_text(), prefix)
        + "
        )
        SELECT account_no, account_label,
               ouverture_debit = CASE WHEN opening_net > 0 THEN opening_net ELSE CAST(0 AS decimal(38, 6)) END,
               ouverture_credit = CASE WHEN opening_net < 0 THEN ABS(opening_net) ELSE CAST(0 AS decimal(38, 6)) END,
               mvt_debit, mvt_credit,
               cloture_debit = CASE WHEN opening_net + mvt_debit - mvt_credit > 0 THEN opening_net + mvt_debit - mvt_credit ELSE CAST(0 AS decimal(38, 6)) END,
               cloture_credit = CASE WHEN opening_net + mvt_debit - mvt_credit < 0 THEN ABS(opening_net + mvt_debit - mvt_credit) ELSE CAST(0 AS decimal(38, 6)) END
        FROM account_base
        WHERE opening_net <> 0 OR mvt_debit <> 0 OR mvt_credit <> 0
        ORDER BY account_no
        "@
}

/// The query of the trial balance on Sage 1000 when the period totals are found.
pub fn sage1000_cumulative_balance_query(
    tables: &CumulTables,
    c: &Sage1000Context,
    period: &BalancePeriod,
    account_prefix: Option<&str>,
) -> (r: String)
    ensures
        r@ == sage1000_cumulative_balance_query_text(*tables, *c, *period, match account_prefix {
            Some(p) => Some(p@),
            None => None,
        }),
{
    let exercises = tables.exercises.sql_name();
    let opening_cumul = tables.opening_cumul.sql_name();
    let period_cumul = tables.period_cumul.sql_name();
    let periods = tables.periods.sql_name();
    let entries = c.entries.sql_name();
    let accounts = c.accounts.sql_name();
    let date_from = sql_literal(period.date_from.as_str());
    let date_to = sql_literal(period.date_to.as_str());
    let account_no = text_or_empty(qualify("cg", "codeCompte").as_str(), 64);
    let account_label = text_or_empty(qualify("cg", "Caption").as_str(), 255);
    let account_filter_sql = account_filter_expr(account_no.as_str(), account_prefix);
    let mut r = String::new();
    r.append("
        WITH target_exercise AS (
            SELECT TOP (1) ex.oid, ex.dateDebut, ex.dateFin
            FROM ");
    r.append(exercises.as_str());
    r.append(" ex
            WHERE ");
    r.append(date_from.as_str());
    r.append(" BETWEEN CAST(ex.dateDebut AS date) AND CAST(ex.dateFin AS date)
            ORDER BY ex.dateDebut DESC
        ),
        previous_exercise AS (
            SELECT TOP (1) ex.oid
            FROM ");
    r.append(exercises.as_str());
    r.append(" ex
            CROSS JOIN target_exercise tx
            WHERE CAST(ex.dateFin AS date) < CAST(tx.dateDebut AS date)
            ORDER BY ex.dateFin DESC
        ),
        current_an_available AS (
            SELECT has_values = CASE WHEN COALESCE(SUM(ABS(COALESCE(an.debit, 0)) + ABS(COALESCE(an.credit, 0))), 0) <> 0 THEN 1 ELSE 0 END
            FROM ");
    r.append(opening_cumul.as_str());
    r.append(" an
            JOIN target_exercise tx ON an.oidExercice = tx.oid
            WHERE COALESCE(TRY_CAST(an.ApprocheNationale AS int), 0) = 1
              AND COALESCE(TRY_CAST(an.ApprocheIAS AS int), 0) = 0
        ),
        current_an AS (
            SELECT an.oidcompteGeneral, SUM(COALESCE(an.debit, 0)) debit, SUM(COALESCE(an.credit, 0)) credit
            FROM ");
    r.append(opening_cumul.as_str());
    r.append(" an
            JOIN target_exercise tx ON an.oidExercice = tx.oid
            WHERE COALESCE(TRY_CAST(an.ApprocheNationale AS int), 0) = 1
              AND COALESCE(TRY_CAST(an.ApprocheIAS AS int), 0) = 0
            GROUP BY an.oidcompteGeneral
        ),
        previous_close AS (
            SELECT source.oidcompteGeneral, SUM(source.debit) debit, SUM(source.credit) credit
            FROM (
                SELECT an.oidcompteGeneral, COALESCE(an.debit, 0) debit, COALESCE(an.credit, 0) credit
                FROM ");
    r.append(opening_cumul.as_str());
    r.append(" an
                JOIN previous_exercise px ON an.oidExercice = px.oid
                WHERE COALESCE(TRY_CAST(an.ApprocheNationale AS int), 0) = 1
                  AND COALESCE(TRY_CAST(an.ApprocheIAS AS int), 0) = 0
                UNION ALL
                SELECT cp.oidcompteGeneral, COALESCE(cp.debit, 0), COALESCE(cp.credit, 0)
                FROM ");
    r.append(period_cumul.as_str());
    r.append(" cp
                JOIN ");
    r.append(periods.as_str());
    r.append(" per ON cp.oidPeriode = per.oid
                JOIN previous_exercise px ON per.oidexercice = px.oid
                WHERE COALESCE(TRY_CAST(cp.ApprocheNationale AS int), 0) = 1
                  AND COALESCE(TRY_CAST(cp.ApprocheIAS AS int), 0) = 0
                  AND COALESCE(TRY_CAST(cp.typeLot AS int), 1) = 1
            ) source
            GROUP BY source.oidcompteGeneral
        ),
        opening_periods AS (
            SELECT cp.oidcompteGeneral, SUM(COALESCE(cp.debit, 0)) debit, SUM(COALESCE(cp.credit, 0)) credit
            FROM ");
    r.append(period_cumul.as_str());
    r.append(" cp
            JOIN ");
    r.append(periods.as_str());
    r.append(" per ON cp.oidPeriode = per.oid
            JOIN target_exercise tx ON per.oidexercice = tx.oid
            WHERE CAST(per.dateFin AS date) < ");
    r.append(date_from.as_str());
    r.append("
              AND COALESCE(TRY_CAST(cp.ApprocheNationale AS int), 0) = 1
              AND COALESCE(TRY_CAST(cp.ApprocheIAS AS int), 0) = 0
              AND COALESCE(TRY_CAST(cp.typeLot AS int), 1) = 1
            GROUP BY cp.oidcompteGeneral
        ),
        movement_periods AS (
            SELECT cp.oidcompteGeneral, SUM(COALESCE(cp.debit, 0)) debit, SUM(COALESCE(cp.credit, 0)) credit
            FROM ");
    r.append(period_cumul.as_str());
    r.append(" cp
            JOIN ");
    r.append(periods.as_str());
    r.append(" per ON cp.oidPeriode = per.oid
            WHERE CAST(per.dateDebut AS date) >= ");
    r.append(date_from.as_str());
    r.append("
              AND CAST(per.dateFin AS date) <= ");
    r.append(date_to.as_str());
    r.append("
              AND COALESCE(TRY_CAST(cp.ApprocheNationale AS int), 0) = 1
              AND COALESCE(TRY_CAST(cp.ApprocheIAS AS int), 0) = 0
              AND COALESCE(TRY_CAST(cp.typeLot AS int), 1) = 1
            GROUP BY cp.oidcompteGeneral
        ),
        partial_entries AS (
            SELECT e.oidcompteGeneral,
                   SUM(COALESCE(TRY_CAST(e.debit AS decimal(38, 6)), 0)) debit,
                   SUM(COALESCE(TRY_CAST(e.credit AS decimal(38, 6)), 0)) credit
            FROM ");
    r.append(entries.as_str());
    r.append(" e
            WHERE TRY_CAST(e.eDate AS date) BETWEEN ");
    r.append(date_from.as_str());
    r.append(" AND ");
    r.append(date_to.as_str());
    r.append("
              AND NOT EXISTS (
                  SELECT 1 FROM ");
    r.append(periods.as_str());
    r.append(" covered
                  WHERE CAST(covered.dateDebut AS date) >= ");
    r.append(date_from.as_str());
    r.append("
                    AND CAST(covered.dateFin AS date) <= ");
    r.append(date_to.as_str());
    r.append("
                    AND TRY_CAST(e.eDate AS date) BETWEEN CAST(covered.dateDebut AS date) AND CAST(covered.dateFin AS date)
              )
            GROUP BY e.oidcompteGeneral
        ),
        account_base AS (
            SELECT account_no = ");
    r.append(account_no.as_str());
    r.append(",
                   account_label = ");
    r.append(account_label.as_str());
    r.append(",
                   opening_net = CASE WHEN (");
    r.append(account_no.as_str());
    r.append(" LIKE '6%' OR ");
    r.append(account_no.as_str());
    r.append(" LIKE '7%') THEN CAST(0 AS decimal(38, 6)) ELSE
                       (CASE WHEN availability.has_values = 1
                             THEN COALESCE(can.debit, 0) - COALESCE(can.credit, 0)
                             ELSE COALESCE(pc.debit, 0) - COALESCE(pc.credit, 0) END)
                       + COALESCE(op.debit, 0) - COALESCE(op.credit, 0) END,
                   mvt_debit = COALESCE(mp.debit, 0) + COALESCE(pe.debit, 0),
                   mvt_credit = COALESCE(mp.credit, 0) + COALESCE(pe.credit, 0)
            FROM ");
    r.append(accounts.as_str());
    r.append(" cg
            CROSS JOIN current_an_available availability
            LEFT JOIN current_an can ON can.oidcompteGeneral = cg.oid
            LEFT JOIN previous_close pc ON pc.oidcompteGeneral = cg.oid
            LEFT JOIN opening_periods op ON op.oidcompteGeneral = cg.oid
            LEFT JOIN movement_periods mp ON mp.oidcompteGeneral = cg.oid
            LEFT JOIN partial_entries pe ON pe.oidcompteGeneral = cg.oid
            WHERE COALESCE(TRY_CAST(cg.enActivite AS int), 1) = 1
              AND ");
    r.append(account_no.as_str());
    r.append(" <> '' ");
    r.append(account_filter_sql.as_str());
    r.append("
        )
        SELECT account_no, account_label,
               ouverture_debit = CASE WHEN opening_net > 0 THEN opening_net ELSE CAST(0 AS decimal(38, 6)) END,
               ouverture_credit = CASE WHEN opening_net < 0 THEN ABS(opening_net) ELSE CAST(0 AS decimal(38, 6)) END,
               mvt_debit, mvt_credit,
               cloture_debit = CASE WHEN opening_net + mvt_debit - mvt_credit > 0 THEN opening_net + mvt_debit - mvt_credit ELSE CAST(0 AS decimal(38, 6)) END,
               cloture_credit = CASE WHEN opening_net + mvt_debit - mvt_credit < 0 THEN ABS(opening_net + mvt_debit - mvt_credit) ELSE CAST(0 AS decimal(38, 6)) END
        FROM account_base
        WHERE opening_net <> 0 OR mvt_debit <> 0 OR mvt_credit <> 0
        ORDER BY account_no
        ");
    r
}

/// The auxiliary ledger on the Sage 1000 tables found: the query, or the
/// warning of the first table missing.
pub fn sage1000_auxiliary_plan(
    c: &Option<Sage1000Context>,
    kind: TiersKind,
    date_from: &str,
    date_to: &str,
    account_prefix: Option<&str>,
) -> (r: Result<String, String>)
    ensures
        match sage1000_auxiliary_blocker_text(*c) {
            Some(m) => r matches Err(e) && e@ == m,
            None => r matches Ok(q) && *c matches Some(ctx) && q@ == sage1000_auxiliary_query_text(
                ctx,
                ctx.role_tiers.unwrap(),
                ctx.tiers.unwrap(),
                kind,
                date_from@,
                date_to@,
                match account_prefix {
                    Some(p) => Some(p@),
                    None => None,
                },
            ),
        },
{
    match sage1000_auxiliary_blocker(c) {
        Some(m) => Err(m),
        None => match c {
            Some(ctx) => Ok(sage1000_auxiliary_query(ctx, kind, date_from, date_to, account_prefix)),
            None => Err(String::new()),
        },
    }
}

// ---------------------------------------------------------------------------
// Which tables the analytics read
// ---------------------------------------------------------------------------

/// Where the analytics read their entries.
pub enum AnalyticsRoute {
    /// The Sage 1000 tables that were found.
    Sage1000(Sage1000Context),
    /// Sage 1000 was chosen by the schema hint, but its tables were not found.
    Sage1000Missing,
    /// The detected entries table.
    Entries,
}

/// The warning of a Sage 1000 route whose tables were not found.
pub const SAGE1000_TABLES_MISSING: &'static str = "Sage 1000 tables TECRITURE and TCOMPTEGENERAL were not detected";

/// The route of the analytics: a Sage 1000 schema hint chooses the Sage 1000
/// tables, found or not; without it, the Sage 1000 tables are read when they
/// were found, and the detected entries table otherwise.
pub fn analytics_route(hint: Option<&SageSchema>, context: Option<Sage1000Context>) -> (r: AnalyticsRoute)
    ensures
        context matches Some(c) ==> r == AnalyticsRoute::Sage1000(c),
        context is None && is_sage1000(hint) ==> r is Sage1000Missing,
        context is None && !is_sage1000(hint) ==> r is Entries,
{
    let source = sage1000_route_source(hint, context.is_some());
    match (source, context) {
        (Some(_), Some(c)) => AnalyticsRoute::Sage1000(c),
        (Some(_), None) => AnalyticsRoute::Sage1000Missing,
        (None, _) => AnalyticsRoute::Entries,
    }
}

pub open spec fn sage1000_auxiliary_keeps_the_requested_kind_piece52() -> Seq<char> {
    "
            WHERE TRY_CAST("@
}

pub open spec fn sage1000_auxiliary_keeps_the_requested_kind_piece58() -> Seq<char> {
    "
              AND "@
}

pub open spec fn sage1000_auxiliary_keeps_the_requested_kind_piece60() -> Seq<char> {
    "
              AND "@
}

proof fn lemma_sage1000_auxiliary_keeps_the_requested_kind_literals()
    ensures
        ends_with(sage1000_auxiliary_keeps_the_requested_kind_piece52(), "WHERE TRY_CAST("@),
        begins_with(sage1000_auxiliary_keeps_the_requested_kind_piece58(), ""@),
        ends_with(sage1000_auxiliary_keeps_the_requested_kind_piece58(), "AND "@),
        begins_with(sage1000_auxiliary_keeps_the_requested_kind_piece60(), ""@),
{
    reveal_strlit("
              AND ");
    reveal_strlit("
            WHERE TRY_CAST(");
    reveal_strlit("");
    reveal_strlit("AND ");
    reveal_strlit("WHERE TRY_CAST(");
    assert(sage1000_auxiliary_keeps_the_requested_kind_piece52().subrange(sage1000_auxiliary_keeps_the_requested_kind_piece52().len() - "WHERE TRY_CAST("@.len(), sage1000_auxiliary_keeps_the_requested_kind_piece52().len() as int) =~= "WHERE TRY_CAST("@);
    assert(sage1000_auxiliary_keeps_the_requested_kind_piece58().subrange(0, ""@.len() as int) =~= ""@);
    assert(sage1000_auxiliary_keeps_the_requested_kind_piece58().subrange(sage1000_auxiliary_keeps_the_requested_kind_piece58().len() - "AND "@.len(), sage1000_auxiliary_keeps_the_requested_kind_piece58().len() as int) =~= "AND "@);
    assert(sage1000_auxiliary_keeps_the_requested_kind_piece60().subrange(0, ""@.len() as int) =~= ""@);
}

/// The Sage 1000 auxiliary ledger reads the entries dated in the requested
/// range and requires the role filter of the requested kind.
#[verifier::rlimit(100)]
#[verifier::spinoff_prover]
pub proof fn lemma_sage1000_auxiliary_keeps_the_requested_kind(c: Sage1000Context, rt: DetectedTable, tt: DetectedTable, kind: TiersKind, date_from: Seq<char>, date_to: Seq<char>, prefix: Option<Seq<char>>)
    ensures
        occurs_in(
            sage1000_auxiliary_query_text(c, rt, tt, kind, date_from, date_to, prefix),
            "WHERE TRY_CAST("@ + qualified("e"@, "eDate"@) + " AS DATE) BETWEEN "@ + sql_literal_seq(date_from) + " AND "@ + sql_literal_seq(date_to),
        ),
        occurs_in(
            sage1000_auxiliary_query_text(c, rt, tt, kind, date_from, date_to, prefix),
            "AND "@ + sage1000_role_filter_text(kind),
        ),
{
    reveal_strlit("");
    let t = sage1000_auxiliary_query_text(c, rt, tt, kind, date_from, date_to, prefix);
    lemma_sage1000_auxiliary_keeps_the_requested_kind_literals();
    assert(t.subrange(0, (("
        WITH base AS (
            SELECT
                parsed_date = TRY_CAST("@ + qualified("e"@, "eDate"@) + " AS DATE),
                account_no = "@ + sage1000_account_no_text() + ",
                account_label = "@ + sage1000_account_label_text() + ",
                tiers_code = "@ + text_or_empty_text(qualified("t"@, "code"@), 64) + ",
                tiers_name = "@ + sage1000_tiers_name_text() + ",
                journal = "@ + journal_expr_text(c) + ",
                description = "@ + sage1000_description_text() + ",
                ref_piece = "@ + ref_piece_expr_text(c) + ",
                lettrage = "@ + text_or_empty_text(qualified("e"@, "CodeLettrageExterne"@), 64) + ",
                debit = "@ + decimal_or_zero_text(qualified("e"@, "debit"@)) + ",
                credit = "@ + decimal_or_zero_text(qualified("e"@, "credit"@)) + ",
                entry_number = COALESCE(TRY_CAST("@ + qualified("e"@, "numero"@) + " AS BIGINT), 0)
            FROM "@ + c.entries.sql_name_text() + " e
            LEFT JOIN "@ + c.accounts.sql_name_text() + " cg ON "@ + qualified("e"@, "oidcompteGeneral"@) + " = "@ + qualified("cg"@, "oid"@) + "
            LEFT JOIN "@ + rt.sql_name_text() + " rt ON "@ + qualified("e"@, "oidroleTiers"@) + " = "@ + qualified("rt"@, "oid"@) + "
            "@ + document_joins_text(c) + "
            LEFT JOIN "@ + tt.sql_name_text() + " t ON "@ + sage1000_tier_oid_text(c) + " = "@ + qualified("t"@, "oid"@) + "
            LEFT JOIN "@ + c.accounts.sql_name_text() + " ap ON "@ + qualified("rt"@, "oidcomptePrivilegie"@) + " = "@ + qualified("ap"@, "oid"@)) + sage1000_auxiliary_keeps_the_requested_kind_piece52() + (qualified("e"@, "eDate"@) + " AS DATE) BETWEEN "@ + sql_literal_seq(date_from) + " AND "@ + sql_literal_seq(date_to)) + sage1000_auxiliary_keeps_the_requested_kind_piece58()).len() as int) == ("
        WITH base AS (
            SELECT
                parsed_date = TRY_CAST("@ + qualified("e"@, "eDate"@) + " AS DATE),
                account_no = "@ + sage1000_account_no_text() + ",
                account_label = "@ + sage1000_account_label_text() + ",
                tiers_code = "@ + text_or_empty_text(qualified("t"@, "code"@), 64) + ",
                tiers_name = "@ + sage1000_tiers_name_text() + ",
                journal = "@ + journal_expr_text(c) + ",
                description = "@ + sage1000_description_text() + ",
                ref_piece = "@ + ref_piece_expr_text(c) + ",
                lettrage = "@ + text_or_empty_text(qualified("e"@, "CodeLettrageExterne"@), 64) + ",
                debit = "@ + decimal_or_zero_text(qualified("e"@, "debit"@)) + ",
                credit = "@ + decimal_or_zero_text(qualified("e"@, "credit"@)) + ",
                entry_number = COALESCE(TRY_CAST("@ + qualified("e"@, "numero"@) + " AS BIGINT), 0)
            FROM "@ + c.entries.sql_name_text() + " e
            LEFT JOIN "@ + c.accounts.sql_name_text() + " cg ON "@ + qualified("e"@, "oidcompteGeneral"@) + " = "@ + qualified("cg"@, "oid"@) + "
            LEFT JOIN "@ + rt.sql_name_text() + " rt ON "@ + qualified("e"@, "oidroleTiers"@) + " = "@ + qualified("rt"@, "oid"@) + "
            "@ + document_joins_text(c) + "
            LEFT JOIN "@ + tt.sql_name_text() + " t ON "@ + sage1000_tier_oid_text(c) + " = "@ + qualified("t"@, "oid"@) + "
            LEFT JOIN "@ + c.accounts.sql_name_text() + " ap ON "@ + qualified("rt"@, "oidcomptePrivilegie"@) + " = "@ + qualified("ap"@, "oid"@)) + sage1000_auxiliary_keeps_the_requested_kind_piece52() + (qualified("e"@, "eDate"@) + " AS DATE) BETWEEN "@ + sql_literal_seq(date_from) + " AND "@ + sql_literal_seq(date_to)) + sage1000_auxiliary_keeps_the_requested_kind_piece58()) by {
        assert(t.subrange(0, (("
        WITH base AS (
            SELECT
                parsed_date = TRY_CAST("@ + qualified("e"@, "eDate"@) + " AS DATE),
                account_no = "@ + sage1000_account_no_text() + ",
                account_label = "@ + sage1000_account_label_text() + ",
                tiers_code = "@ + text_or_empty_text(qualified("t"@, "code"@), 64) + ",
                tiers_name = "@ + sage1000_tiers_name_text() + ",
                journal = "@ + journal_expr_text(c) + ",
                description = "@ + sage1000_description_text() + ",
                ref_piece = "@ + ref_piece_expr_text(c) + ",
                lettrage = "@ + text_or_empty_text(qualified("e"@, "CodeLettrageExterne"@), 64) + ",
                debit = "@ + decimal_or_zero_text(qualified("e"@, "debit"@)) + ",
                credit = "@ + decimal_or_zero_text(qualified("e"@, "credit"@)) + ",
                entry_number = COALESCE(TRY_CAST("@ + qualified("e"@, "numero"@) + " AS BIGINT), 0)
            FROM "@ + c.entries.sql_name_text() + " e
            LEFT JOIN "@ + c.accounts.sql_name_text() + " cg ON "@ + qualified("e"@, "oidcompteGeneral"@) + " = "@ + qualified("cg"@, "oid"@) + "
            LEFT JOIN "@ + rt.sql_name_text() + " rt ON "@ + qualified("e"@, "oidroleTiers"@) + " = "@ + qualified("rt"@, "oid"@) + "
            "@ + document_joins_text(c) + "
            LEFT JOIN "@ + tt.sql_name_text() + " t ON "@ + sage1000_tier_oid_text(c) + " = "@ + qualified("t"@, "oid"@) + "
            LEFT JOIN "@ + c.accounts.sql_name_text() + " ap ON "@ + qualified("rt"@, "oidcomptePrivilegie"@) + " = "@ + qualified("ap"@, "oid"@)) + sage1000_auxiliary_keeps_the_requested_kind_piece52() + (qualified("e"@, "eDate"@) + " AS DATE) BETWEEN "@ + sql_literal_seq(date_from) + " AND "@ + sql_literal_seq(date_to)) + sage1000_auxiliary_keeps_the_requested_kind_piece58()).len() as int) =~= ("
        WITH base AS (
            SELECT
                parsed_date = TRY_CAST("@ + qualified("e"@, "eDate"@) + " AS DATE),
                account_no = "@ + sage1000_account_no_text() + ",
                account_label = "@ + sage1000_account_label_text() + ",
                tiers_code = "@ + text_or_empty_text(qualified("t"@, "code"@), 64) + ",
                tiers_name = "@ + sage1000_tiers_name_text() + ",
                journal = "@ + journal_expr_text(c) + ",
                description = "@ + sage1000_description_text() + ",
                ref_piece = "@ + ref_piece_expr_text(c) + ",
                lettrage = "@ + text_or_empty_text(qualified("e"@, "CodeLettrageExterne"@), 64) + ",
                debit = "@ + decimal_or_zero_text(qualified("e"@, "debit"@)) + ",
                credit = "@ + decimal_or_zero_text(qualified("e"@, "credit"@)) + ",
                entry_number = COALESCE(TRY_CAST("@ + qualified("e"@, "numero"@) + " AS BIGINT), 0)
            FROM "@ + c.entries.sql_name_text() + " e
            LEFT JOIN "@ + c.accounts.sql_name_text() + " cg ON "@ + qualified("e"@, "oidcompteGeneral"@) + " = "@ + qualified("cg"@, "oid"@) + "
            LEFT JOIN "@ + rt.sql_name_text() + " rt ON "@ + qualified("e"@, "oidroleTiers"@) + " = "@ + qualified("rt"@, "oid"@) + "
            "@ + document_joins_text(c) + "
            LEFT JOIN "@ + tt.sql_name_text() + " t ON "@ + sage1000_tier_oid_text(c) + " = "@ + qualified("t"@, "oid"@) + "
            LEFT JOIN "@ + c.accounts.sql_name_text() + " ap ON "@ + qualified("rt"@, "oidcomptePrivilegie"@) + " = "@ + qualified("ap"@, "oid"@)) + sage1000_auxiliary_keeps_the_requested_kind_piece52() + (qualified("e"@, "eDate"@) + " AS DATE) BETWEEN "@ + sql_literal_seq(date_from) + " AND "@ + sql_literal_seq(date_to)) + sage1000_auxiliary_keeps_the_requested_kind_piece58());
    }
    lemma_occurs_around(t, "
        WITH base AS (
            SELECT
                parsed_date = TRY_CAST("@ + qualified("e"@, "eDate"@) + " AS DATE),
                account_no = "@ + sage1000_account_no_text() + ",
                account_label = "@ + sage1000_account_label_text() + ",
                tiers_code = "@ + text_or_empty_text(qualified("t"@, "code"@), 64) + ",
                tiers_name = "@ + sage1000_tiers_name_text() + ",
                journal = "@ + journal_expr_text(c) + ",
                description = "@ + sage1000_description_text() + ",
                ref_piece = "@ + ref_piece_expr_text(c) + ",
                lettrage = "@ + text_or_empty_text(qualified("e"@, "CodeLettrageExterne"@), 64) + ",
                debit = "@ + decimal_or_zero_text(qualified("e"@, "debit"@)) + ",
                credit = "@ + decimal_or_zero_text(qualified("e"@, "credit"@)) + ",
                entry_number = COALESCE(TRY_CAST("@ + qualified("e"@, "numero"@) + " AS BIGINT), 0)
            FROM "@ + c.entries.sql_name_text() + " e
            LEFT JOIN "@ + c.accounts.sql_name_text() + " cg ON "@ + qualified("e"@, "oidcompteGeneral"@) + " = "@ + qualified("cg"@, "oid"@) + "
            LEFT JOIN "@ + rt.sql_name_text() + " rt ON "@ + qualified("e"@, "oidroleTiers"@) + " = "@ + qualified("rt"@, "oid"@) + "
            "@ + document_joins_text(c) + "
            LEFT JOIN "@ + tt.sql_name_text() + " t ON "@ + sage1000_tier_oid_text(c) + " = "@ + qualified("t"@, "oid"@) + "
            LEFT JOIN "@ + c.accounts.sql_name_text() + " ap ON "@ + qualified("rt"@, "oidcomptePrivilegie"@) + " = "@ + qualified("ap"@, "oid"@), sage1000_auxiliary_keeps_the_requested_kind_piece52(), qualified("e"@, "eDate"@) + " AS DATE) BETWEEN "@ + sql_literal_seq(date_from) + " AND "@ + sql_literal_seq(date_to), sage1000_auxiliary_keeps_the_requested_kind_piece58(), "WHERE TRY_CAST("@, ""@);
    assert("WHERE TRY_CAST("@ + (qualified("e"@, "eDate"@) + " AS DATE) BETWEEN "@ + sql_literal_seq(date_from) + " AND "@ + sql_literal_seq(date_to)) + ""@ =~= "WHERE TRY_CAST("@ + qualified("e"@, "eDate"@) + " AS DATE) BETWEEN "@ + sql_literal_seq(date_from) + " AND "@ + sql_literal_seq(date_to));
    assert(t.subrange(0, (("
        WITH base AS (
            SELECT
                parsed_date = TRY_CAST("@ + qualified("e"@, "eDate"@) + " AS DATE),
                account_no = "@ + sage1000_account_no_text() + ",
                account_label = "@ + sage1000_account_label_text() + ",
                tiers_code = "@ + text_or_empty_text(qualified("t"@, "code"@), 64) + ",
                tiers_name = "@ + sage1000_tiers_name_text() + ",
                journal = "@ + journal_expr_text(c) + ",
                description = "@ + sage1000_description_text() + ",
                ref_piece = "@ + ref_piece_expr_text(c) + ",
                lettrage = "@ + text_or_empty_text(qualified("e"@, "CodeLettrageExterne"@), 64) + ",
                debit = "@ + decimal_or_zero_text(qualified("e"@, "debit"@)) + ",
                credit = "@ + decimal_or_zero_text(qualified("e"@, "credit"@)) + ",
                entry_number = COALESCE(TRY_CAST("@ + qualified("e"@, "numero"@) + " AS BIGINT), 0)
            FROM "@ + c.entries.sql_name_text() + " e
            LEFT JOIN "@ + c.accounts.sql_name_text() + " cg ON "@ + qualified("e"@, "oidcompteGeneral"@) + " = "@ + qualified("cg"@, "oid"@) + "
            LEFT JOIN "@ + rt.sql_name_text() + " rt ON "@ + qualified("e"@, "oidroleTiers"@) + " = "@ + qualified("rt"@, "oid"@) + "
            "@ + document_joins_text(c) + "
            LEFT JOIN "@ + tt.sql_name_text() + " t ON "@ + sage1000_tier_oid_text(c) + " = "@ + qualified("t"@, "oid"@) + "
            LEFT JOIN "@ + c.accounts.sql_name_text() + " ap ON "@ + qualified("rt"@, "oidcomptePrivilegie"@) + " = "@ + qualified("ap"@, "oid"@) + "
            WHERE TRY_CAST("@ + qualified("e"@, "eDate"@) + " AS DATE) BETWEEN "@ + sql_literal_seq(date_from) + " AND "@ + sql_literal_seq(date_to)) + sage1000_auxiliary_keeps_the_requested_kind_piece58() + (sage1000_role_filter_text(kind)) + sage1000_auxiliary_keeps_the_requested_kind_piece60()).len() as int) == ("
        WITH base AS (
            SELECT
                parsed_date = TRY_CAST("@ + qualified("e"@, "eDate"@) + " AS DATE),
                account_no = "@ + sage1000_account_no_text() + ",
                account_label = "@ + sage1000_account_label_text() + ",
                tiers_code = "@ + text_or_empty_text(qualified("t"@, "code"@), 64) + ",
                tiers_name = "@ + sage1000_tiers_name_text() + ",
                journal = "@ + journal_expr_text(c) + ",
                description = "@ + sage1000_description_text() + ",
                ref_piece = "@ + ref_piece_expr_text(c) + ",
                lettrage = "@ + text_or_empty_text(qualified("e"@, "CodeLettrageExterne"@), 64) + ",
                debit = "@ + decimal_or_zero_text(qualified("e"@, "debit"@)) + ",
                credit = "@ + decimal_or_zero_text(qualified("e"@, "credit"@)) + ",
                entry_number = COALESCE(TRY_CAST("@ + qualified("e"@, "numero"@) + " AS BIGINT), 0)
            FROM "@ + c.entries.sql_name_text() + " e
            LEFT JOIN "@ + c.accounts.sql_name_text() + " cg ON "@ + qualified("e"@, "oidcompteGeneral"@) + " = "@ + qualified("cg"@, "oid"@) + "
            LEFT JOIN "@ + rt.sql_name_text() + " rt ON "@ + qualified("e"@, "oidroleTiers"@) + " = "@ + qualified("rt"@, "oid"@) + "
            "@ + document_joins_text(c) + "
            LEFT JOIN "@ + tt.sql_name_text() + " t ON "@ + sage1000_tier_oid_text(c) + " = "@ + qualified("t"@, "oid"@) + "
            LEFT JOIN "@ + c.accounts.sql_name_text() + " ap ON "@ + qualified("rt"@, "oidcomptePrivilegie"@) + " = "@ + qualified("ap"@, "oid"@) + "
            WHERE TRY_CAST("@ + qualified("e"@, "eDate"@) + " AS DATE) BETWEEN "@ + sql_literal_seq(date_from) + " AND "@ + sql_literal_seq(date_to)) + sage1000_auxiliary_keeps_the_requested_kind_piece58() + (sage1000_role_filter_text(kind)) + sage1000_auxiliary_keeps_the_requested_kind_piece60()) by {
        assert(t.subrange(0, (("
        WITH base AS (
            SELECT
                parsed_date = TRY_CAST("@ + qualified("e"@, "eDate"@) + " AS DATE),
                account_no = "@ + sage1000_account_no_text() + ",
                account_label = "@ + sage1000_account_label_text() + ",
                tiers_code = "@ + text_or_empty_text(qualified("t"@, "code"@), 64) + ",
                tiers_name = "@ + sage1000_tiers_name_text() + ",
                journal = "@ + journal_expr_text(c) + ",
                description = "@ + sage1000_description_text() + ",
                ref_piece = "@ + ref_piece_expr_text(c) + ",
                lettrage = "@ + text_or_empty_text(qualified("e"@, "CodeLettrageExterne"@), 64) + ",
                debit = "@ + decimal_or_zero_text(qualified("e"@, "debit"@)) + ",
                credit = "@ + decimal_or_zero_text(qualified("e"@, "credit"@)) + ",
                entry_number = COALESCE(TRY_CAST("@ + qualified("e"@, "numero"@) + " AS BIGINT), 0)
            FROM "@ + c.entries.sql_name_text() + " e
            LEFT JOIN "@ + c.accounts.sql_name_text() + " cg ON "@ + qualified("e"@, "oidcompteGeneral"@) + " = "@ + qualified("cg"@, "oid"@) + "
            LEFT JOIN "@ + rt.sql_name_text() + " rt ON "@ + qualified("e"@, "oidroleTiers"@) + " = "@ + qualified("rt"@, "oid"@) + "
            "@ + document_joins_text(c) + "
            LEFT JOIN "@ + tt.sql_name_text() + " t ON "@ + sage1000_tier_oid_text(c) + " = "@ + qualified("t"@, "oid"@) + "
            LEFT JOIN "@ + c.accounts.sql_name_text() + " ap ON "@ + qualified("rt"@, "oidcomptePrivilegie"@) + " = "@ + qualified("ap"@, "oid"@) + "
            WHERE TRY_CAST("@ + qualified("e"@, "eDate"@) + " AS DATE) BETWEEN "@ + sql_literal_seq(date_from) + " AND "@ + sql_literal_seq(date_to)) + sage1000_auxiliary_keeps_the_requested_kind_piece58() + (sage1000_role_filter_text(kind)) + sage1000_auxiliary_keeps_the_requested_kind_piece60()).len() as int) =~= ("
        WITH base AS (
            SELECT
                parsed_date = TRY_CAST("@ + qualified("e"@, "eDate"@) + " AS DATE),
                account_no = "@ + sage1000_account_no_text() + ",
                account_label = "@ + sage1000_account_label_text() + ",
                tiers_code = "@ + text_or_empty_text(qualified("t"@, "code"@), 64) + ",
                tiers_name = "@ + sage1000_tiers_name_text() + ",
                journal = "@ + journal_expr_text(c) + ",
                description = "@ + sage1000_description_text() + ",
                ref_piece = "@ + ref_piece_expr_text(c) + ",
                lettrage = "@ + text_or_empty_text(qualified("e"@, "CodeLettrageExterne"@), 64) + ",
                debit = "@ + decimal_or_zero_text(qualified("e"@, "debit"@)) + ",
                credit = "@ + decimal_or_zero_text(qualified("e"@, "credit"@)) + ",
                entry_number = COALESCE(TRY_CAST("@ + qualified("e"@, "numero"@) + " AS BIGINT), 0)
            FROM "@ + c.entries.sql_name_text() + " e
            LEFT JOIN "@ + c.accounts.sql_name_text() + " cg ON "@ + qualified("e"@, "oidcompteGeneral"@) + " = "@ + qualified("cg"@, "oid"@) + "
            LEFT JOIN "@ + rt.sql_name_text() + " rt ON "@ + qualified("e"@, "oidroleTiers"@) + " = "@ + qualified("rt"@, "oid"@) + "
            "@ + document_joins_text(c) + "
            LEFT JOIN "@ + tt.sql_name_text() + " t ON "@ + sage1000_tier_oid_text(c) + " = "@ + qualified("t"@, "oid"@) + "
            LEFT JOIN "@ + c.accounts.sql_name_text() + " ap ON "@ + qualified("rt"@, "oidcomptePrivilegie"@) + " = "@ + qualified("ap"@, "oid"@) + "
            WHERE TRY_CAST("@ + qualified("e"@, "eDate"@) + " AS DATE) BETWEEN "@ + sql_literal_seq(date_from) + " AND "@ + sql_literal_seq(date_to)) + sage1000_auxiliary_keeps_the_requested_kind_piece58() + (sage1000_role_filter_text(kind)) + sage1000_auxiliary_keeps_the_requested_kind_piece60());
    }
    lemma_occurs_around(t, "
        WITH base AS (
            SELECT
                parsed_date = TRY_CAST("@ + qualified("e"@, "eDate"@) + " AS DATE),
                account_no = "@ + sage1000_account_no_text() + ",
                account_label = "@ + sage1000_account_label_text() + ",
                tiers_code = "@ + text_or_empty_text(qualified("t"@, "code"@), 64) + ",
                tiers_name = "@ + sage1000_tiers_name_text() + ",
                journal = "@ + journal_expr_text(c) + ",
                description = "@ + sage1000_description_text() + ",
                ref_piece = "@ + ref_piece_expr_text(c) + ",
                lettrage = "@ + text_or_empty_text(qualified("e"@, "CodeLettrageExterne"@), 64) + ",
                debit = "@ + decimal_or_zero_text(qualified("e"@, "debit"@)) + ",
                credit = "@ + decimal_or_zero_text(qualified("e"@, "credit"@)) + ",
                entry_number = COALESCE(TRY_CAST("@ + qualified("e"@, "numero"@) + " AS BIGINT), 0)
            FROM "@ + c.entries.sql_name_text() + " e
            LEFT JOIN "@ + c.accounts.sql_name_text() + " cg ON "@ + qualified("e"@, "oidcompteGeneral"@) + " = "@ + qualified("cg"@, "oid"@) + "
            LEFT JOIN "@ + rt.sql_name_text() + " rt ON "@ + qualified("e"@, "oidroleTiers"@) + " = "@ + qualified("rt"@, "oid"@) + "
            "@ + document_joins_text(c) + "
            LEFT JOIN "@ + tt.sql_name_text() + " t ON "@ + sage1000_tier_oid_text(c) + " = "@ + qualified("t"@, "oid"@) + "
            LEFT JOIN "@ + c.accounts.sql_name_text() + " ap ON "@ + qualified("rt"@, "oidcomptePrivilegie"@) + " = "@ + qualified("ap"@, "oid"@) + "
            WHERE TRY_CAST("@ + qualified("e"@, "eDate"@) + " AS DATE) BETWEEN "@ + sql_literal_seq(date_from) + " AND "@ + sql_literal_seq(date_to), sage1000_auxiliary_keeps_the_requested_kind_piece58(), sage1000_role_filter_text(kind), sage1000_auxiliary_keeps_the_requested_kind_piece60(), "AND "@, ""@);
    assert("AND "@ + (sage1000_role_filter_text(kind)) + ""@ =~= "AND "@ + sage1000_role_filter_text(kind));
}

/// The role filter of a kind compares the first two digits of the role's
/// account (or the entry's own) with that kind's digits: 41 for customers,
/// 40 for suppliers.
pub proof fn lemma_role_filter_keeps_its_kind(kind: TiersKind)
    ensures
        occurs_in(
            sage1000_role_filter_text(kind),
            ", 2) = "@ + sql_literal_seq(
                match kind {
                    TiersKind::Customers => "41"@,
                    TiersKind::Suppliers => "40"@,
                },
            ),
        ),
{
    let digits = match kind {
        TiersKind::Customers => "41"@,
        TiersKind::Suppliers => "40"@,
    };
    let t = sage1000_role_filter_text(kind);
    let head = "(LEFT("@ + text_or_empty_text(qualified("ap"@, "codeCompte"@), 64);
    let f = ", 2) = "@ + sql_literal_seq(digits);
    let rest = " OR LEFT("@ + sage1000_account_no_text() + ", 2) = "@ + sql_literal_seq(role_prefix_text(kind)) + ")"@;
    assert(role_prefix_text(kind) == digits);
    assert(t =~= head + f + rest);
    lemma_occurs_between(t, head, f, rest);
}

/// The Sage 1000 auxiliary ledger of a kind keeps the entries whose role
/// account starts with that kind's digits: 41 for customers, 40 for
/// suppliers.
pub proof fn lemma_sage1000_auxiliary_keeps_the_kind_digits(
    c: Sage1000Context,
    rt: DetectedTable,
    t: DetectedTable,
    kind: TiersKind,
    date_from: Seq<char>,
    date_to: Seq<char>,
    prefix: Option<Seq<char>>,
)
    ensures
        occurs_in(
            sage1000_auxiliary_query_text(c, rt, t, kind, date_from, date_to, prefix),
            ", 2) = "@ + sql_literal_seq(
                match kind {
                    TiersKind::Customers => "41"@,
                    TiersKind::Suppliers => "40"@,
                },
            ),
        ),
{
    let q = sage1000_auxiliary_query_text(c, rt, t, kind, date_from, date_to, prefix);
    let rf = sage1000_role_filter_text(kind);
    let f = ", 2) = "@ + sql_literal_seq(
        match kind {
            TiersKind::Customers => "41"@,
            TiersKind::Suppliers => "40"@,
        },
    );
    lemma_sage1000_auxiliary_keeps_the_requested_kind(c, rt, t, kind, date_from, date_to, prefix);
    lemma_role_filter_keeps_its_kind(kind);
    let i = choose|i: int| occurs_at(q, "AND "@ + rf, i);
    let j = choose|j: int| occurs_at(rf, f, j);
    assert("AND "@ + rf =~= "AND "@ + rf + seq![]);
    lemma_occurs_between("AND "@ + rf, "AND "@, rf, seq![]);
    lemma_occurs_within("AND "@ + rf, rf, f, "AND "@.len() as int, j);
    lemma_occurs_within(q, "AND "@ + rf, f, i, "AND "@.len() + j);
}

pub open spec fn sage1000_ledger_stream_reads_the_date_range_piece28() -> Seq<char> {
    " WHERE TRY_CAST("@
}

pub open spec fn sage1000_ledger_stream_reads_the_date_range_piece34() -> Seq<char> {
    " AND "@
}

proof fn lemma_sage1000_ledger_stream_reads_the_date_range_literals()
    ensures
        ends_with(sage1000_ledger_stream_reads_the_date_range_piece28(), "WHERE TRY_CAST("@),
        begins_with(sage1000_ledger_stream_reads_the_date_range_piece34(), ""@),
{
    reveal_strlit(" AND ");
    reveal_strlit(" WHERE TRY_CAST(");
    reveal_strlit("");
    reveal_strlit("WHERE TRY_CAST(");
    assert(sage1000_ledger_stream_reads_the_date_range_piece28().subrange(sage1000_ledger_stream_reads_the_date_range_piece28().len() - "WHERE TRY_CAST("@.len(), sage1000_ledger_stream_reads_the_date_range_piece28().len() as int) =~= "WHERE TRY_CAST("@);
    assert(sage1000_ledger_stream_reads_the_date_range_piece34().subrange(0, ""@.len() as int) =~= ""@);
}

/// The streamed Sage 1000 General Ledger reads exactly the entries dated in
/// the requested range.
#[verifier::rlimit(100)]
#[verifier::spinoff_prover]
pub proof fn lemma_sage1000_ledger_stream_reads_the_date_range(c: Sage1000Context, date_from: Seq<char>, date_to: Seq<char>, prefix: Option<Seq<char>>)
    ensures
        occurs_in(
            sage1000_ledger_stream_base_text(c, date_from, date_to, prefix),
            "WHERE TRY_CAST("@ + qualified("e"@, "eDate"@) + " AS DATE) BETWEEN "@ + sql_literal_seq(date_from) + " AND "@ + sql_literal_seq(date_to),
        ),
{
    reveal_strlit("");
    let t = sage1000_ledger_stream_base_text(c, date_from, date_to, prefix);
    lemma_sage1000_ledger_stream_reads_the_date_range_literals();
    assert(t.subrange(0, (("WITH base AS (SELECT parsed_date = TRY_CAST("@ + qualified("e"@, "eDate"@) + " AS DATE), journal = "@ + journal_expr_text(c) + ", account_no = "@ + sage1000_account_no_text() + ", account_label = "@ + sage1000_account_label_text() + ", ref_piece = "@ + ref_piece_expr_text(c) + ", lettrage = "@ + text_or_empty_text(qualified("e"@, "CodeLettrageExterne"@), 64) + ", debit = "@ + decimal_or_zero_text(qualified("e"@, "debit"@)) + ", credit = "@ + decimal_or_zero_text(qualified("e"@, "credit"@)) + ", entry_number = COALESCE(TRY_CAST("@ + qualified("e"@, "numero"@) + " AS BIGINT), 0) FROM "@ + c.entries.sql_name_text() + " e LEFT JOIN "@ + c.accounts.sql_name_text() + " cg ON "@ + qualified("e"@, "oidcompteGeneral"@) + " = "@ + qualified("cg"@, "oid"@) + " "@ + document_joins_text(c)) + sage1000_ledger_stream_reads_the_date_range_piece28() + (qualified("e"@, "eDate"@) + " AS DATE) BETWEEN "@ + sql_literal_seq(date_from) + " AND "@ + sql_literal_seq(date_to)) + sage1000_ledger_stream_reads_the_date_range_piece34()).len() as int) == ("WITH base AS (SELECT parsed_date = TRY_CAST("@ + qualified("e"@, "eDate"@) + " AS DATE), journal = "@ + journal_expr_text(c) + ", account_no = "@ + sage1000_account_no_text() + ", account_label = "@ + sage1000_account_label_text() + ", ref_piece = "@ + ref_piece_expr_text(c) + ", lettrage = "@ + text_or_empty_text(qualified("e"@, "CodeLettrageExterne"@), 64) + ", debit = "@ + decimal_or_zero_text(qualified("e"@, "debit"@)) + ", credit = "@ + decimal_or_zero_text(qualified("e"@, "credit"@)) + ", entry_number = COALESCE(TRY_CAST("@ + qualified("e"@, "numero"@) + " AS BIGINT), 0) FROM "@ + c.entries.sql_name_text() + " e LEFT JOIN "@ + c.accounts.sql_name_text() + " cg ON "@ + qualified("e"@, "oidcompteGeneral"@) + " = "@ + qualified("cg"@, "oid"@) + " "@ + document_joins_text(c)) + sage1000_ledger_stream_reads_the_date_range_piece28() + (qualified("e"@, "eDate"@) + " AS DATE) BETWEEN "@ + sql_literal_seq(date_from) + " AND "@ + sql_literal_seq(date_to)) + sage1000_ledger_stream_reads_the_date_range_piece34()) by {
        assert(t.subrange(0, (("WITH base AS (SELECT parsed_date = TRY_CAST("@ + qualified("e"@, "eDate"@) + " AS DATE), journal = "@ + journal_expr_text(c) + ", account_no = "@ + sage1000_account_no_text() + ", account_label = "@ + sage1000_account_label_text() + ", ref_piece = "@ + ref_piece_expr_text(c) + ", lettrage = "@ + text_or_empty_text(qualified("e"@, "CodeLettrageExterne"@), 64) + ", debit = "@ + decimal_or_zero_text(qualified("e"@, "debit"@)) + ", credit = "@ + decimal_or_zero_text(qualified("e"@, "credit"@)) + ", entry_number = COALESCE(TRY_CAST("@ + qualified("e"@, "numero"@) + " AS BIGINT), 0) FROM "@ + c.entries.sql_name_text() + " e LEFT JOIN "@ + c.accounts.sql_name_text() + " cg ON "@ + qualified("e"@, "oidcompteGeneral"@) + " = "@ + qualified("cg"@, "oid"@) + " "@ + document_joins_text(c)) + sage1000_ledger_stream_reads_the_date_range_piece28() + (qualified("e"@, "eDate"@) + " AS DATE) BETWEEN "@ + sql_literal_seq(date_from) + " AND "@ + sql_literal_seq(date_to)) + sage1000_ledger_stream_reads_the_date_range_piece34()).len() as int) =~= ("WITH base AS (SELECT parsed_date = TRY_CAST("@ + qualified("e"@, "eDate"@) + " AS DATE), journal = "@ + journal_expr_text(c) + ", account_no = "@ + sage1000_account_no_text() + ", account_label = "@ + sage1000_account_label_text() + ", ref_piece = "@ + ref_piece_expr_text(c) + ", lettrage = "@ + text_or_empty_text(qualified("e"@, "CodeLettrageExterne"@), 64) + ", debit = "@ + decimal_or_zero_text(qualified("e"@, "debit"@)) + ", credit = "@ + decimal_or_zero_text(qualified("e"@, "credit"@)) + ", entry_number = COALESCE(TRY_CAST("@ + qualified("e"@, "numero"@) + " AS BIGINT), 0) FROM "@ + c.entries.sql_name_text() + " e LEFT JOIN "@ + c.accounts.sql_name_text() + " cg ON "@ + qualified("e"@, "oidcompteGeneral"@) + " = "@ + qualified("cg"@, "oid"@) + " "@ + document_joins_text(c)) + sage1000_ledger_stream_reads_the_date_range_piece28() + (qualified("e"@, "eDate"@) + " AS DATE) BETWEEN "@ + sql_literal_seq(date_from) + " AND "@ + sql_literal_seq(date_to)) + sage1000_ledger_stream_reads_the_date_range_piece34());
    }
    lemma_occurs_around(t, "WITH base AS (SELECT parsed_date = TRY_CAST("@ + qualified("e"@, "eDate"@) + " AS DATE), journal = "@ + journal_expr_text(c) + ", account_no = "@ + sage1000_account_no_text() + ", account_label = "@ + sage1000_account_label_text() + ", ref_piece = "@ + ref_piece_expr_text(c) + ", lettrage = "@ + text_or_empty_text(qualified("e"@, "CodeLettrageExterne"@), 64) + ", debit = "@ + decimal_or_zero_text(qualified("e"@, "debit"@)) + ", credit = "@ + decimal_or_zero_text(qualified("e"@, "credit"@)) + ", entry_number = COALESCE(TRY_CAST("@ + qualified("e"@, "numero"@) + " AS BIGINT), 0) FROM "@ + c.entries.sql_name_text() + " e LEFT JOIN "@ + c.accounts.sql_name_text() + " cg ON "@ + qualified("e"@, "oidcompteGeneral"@) + " = "@ + qualified("cg"@, "oid"@) + " "@ + document_joins_text(c), sage1000_ledger_stream_reads_the_date_range_piece28(), qualified("e"@, "eDate"@) + " AS DATE) BETWEEN "@ + sql_literal_seq(date_from) + " AND "@ + sql_literal_seq(date_to), sage1000_ledger_stream_reads_the_date_range_piece34(), "WHERE TRY_CAST("@, ""@);
    assert("WHERE TRY_CAST("@ + (qualified("e"@, "eDate"@) + " AS DATE) BETWEEN "@ + sql_literal_seq(date_from) + " AND "@ + sql_literal_seq(date_to)) + ""@ =~= "WHERE TRY_CAST("@ + qualified("e"@, "eDate"@) + " AS DATE) BETWEEN "@ + sql_literal_seq(date_from) + " AND "@ + sql_literal_seq(date_to));
}

pub open spec fn sage1000_auxiliary_stream_keeps_the_requested_kind_piece36() -> Seq<char> {
    " WHERE TRY_CAST("@
}

pub open spec fn sage1000_auxiliary_stream_keeps_the_requested_kind_piece42() -> Seq<char> {
    " AND "@
}

pub open spec fn sage1000_auxiliary_stream_keeps_the_requested_kind_piece44() -> Seq<char> {
    " AND "@
}

proof fn lemma_sage1000_auxiliary_stream_keeps_the_requested_kind_literals()
    ensures
        ends_with(sage1000_auxiliary_stream_keeps_the_requested_kind_piece36(), "WHERE TRY_CAST("@),
        begins_with(sage1000_auxiliary_stream_keeps_the_requested_kind_piece42(), ""@),
        ends_with(sage1000_auxiliary_stream_keeps_the_requested_kind_piece42(), "AND "@),
        begins_with(sage1000_auxiliary_stream_keeps_the_requested_kind_piece44(), ""@),
{
    reveal_strlit(" AND ");
    reveal_strlit(" WHERE TRY_CAST(");
    reveal_strlit("");
    reveal_strlit("AND ");
    reveal_strlit("WHERE TRY_CAST(");
    assert(sage1000_auxiliary_stream_keeps_the_requested_kind_piece36().subrange(sage1000_auxiliary_stream_keeps_the_requested_kind_piece36().len() - "WHERE TRY_CAST("@.len(), sage1000_auxiliary_stream_keeps_the_requested_kind_piece36().len() as int) =~= "WHERE TRY_CAST("@);
    assert(sage1000_auxiliary_stream_keeps_the_requested_kind_piece42().subrange(0, ""@.len() as int) =~= ""@);
    assert(sage1000_auxiliary_stream_keeps_the_requested_kind_piece42().subrange(sage1000_auxiliary_stream_keeps_the_requested_kind_piece42().len() - "AND "@.len(), sage1000_auxiliary_stream_keeps_the_requested_kind_piece42().len() as int) =~= "AND "@);
    assert(sage1000_auxiliary_stream_keeps_the_requested_kind_piece44().subrange(0, ""@.len() as int) =~= ""@);
}

/// The streamed Sage 1000 auxiliary ledger reads the entries dated in the
/// requested range and requires the filter of the requested kind.
#[verifier::rlimit(100)]
#[verifier::spinoff_prover]
pub proof fn lemma_sage1000_auxiliary_stream_keeps_the_requested_kind(c: Sage1000Context, kind: TiersKind, date_from: Seq<char>, date_to: Seq<char>, prefix: Option<Seq<char>>)
    ensures
        occurs_in(
            sage1000_auxiliary_stream_base_text(c, kind, date_from, date_to, prefix),
            "WHERE TRY_CAST("@ + qualified("e"@, "eDate"@) + " AS DATE) BETWEEN "@ + sql_literal_seq(date_from) + " AND "@ + sql_literal_seq(date_to),
        ),
        occurs_in(
            sage1000_auxiliary_stream_base_text(c, kind, date_from, date_to, prefix),
            "AND "@ + sage1000_stream_kind_filter_text(c, kind),
        ),
{
    reveal_strlit("");
    let t = sage1000_auxiliary_stream_base_text(c, kind, date_from, date_to, prefix);
    lemma_sage1000_auxiliary_stream_keeps_the_requested_kind_literals();
    assert(t.subrange(0, (("WITH base AS (SELECT parsed_date = TRY_CAST("@ + qualified("e"@, "eDate"@) + " AS DATE), account_no = "@ + sage1000_account_no_text() + ", account_label = "@ + sage1000_account_label_text() + ", tiers_code = "@ + sage1000_tiers_code_text(c) + ", tiers_name = "@ + sage1000_stream_tiers_name_text(c) + ", journal = "@ + journal_expr_text(c) + ", description = CAST('' AS NVARCHAR(255)), ref_piece = "@ + ref_piece_expr_text(c) + ", lettrage = "@ + text_or_empty_text(qualified("e"@, "CodeLettrageExterne"@), 64) + ", debit = "@ + decimal_or_zero_text(qualified("e"@, "debit"@)) + ", credit = "@ + decimal_or_zero_text(qualified("e"@, "credit"@)) + ", entry_number = COALESCE(TRY_CAST("@ + qualified("e"@, "numero"@) + " AS BIGINT), 0) FROM "@ + c.entries.sql_name_text() + " e LEFT JOIN "@ + c.accounts.sql_name_text() + " cg ON "@ + qualified("e"@, "oidcompteGeneral"@) + " = "@ + qualified("cg"@, "oid"@) + " "@ + document_joins_text(c) + " "@ + sage1000_stream_tiers_join_text(c) + " "@ + sage1000_role_account_join_text(c)) + sage1000_auxiliary_stream_keeps_the_requested_kind_piece36() + (qualified("e"@, "eDate"@) + " AS DATE) BETWEEN "@ + sql_literal_seq(date_from) + " AND "@ + sql_literal_seq(date_to)) + sage1000_auxiliary_stream_keeps_the_requested_kind_piece42()).len() as int) == ("WITH base AS (SELECT parsed_date = TRY_CAST("@ + qualified("e"@, "eDate"@) + " AS DATE), account_no = "@ + sage1000_account_no_text() + ", account_label = "@ + sage1000_account_label_text() + ", tiers_code = "@ + sage1000_tiers_code_text(c) + ", tiers_name = "@ + sage1000_stream_tiers_name_text(c) + ", journal = "@ + journal_expr_text(c) + ", description = CAST('' AS NVARCHAR(255)), ref_piece = "@ + ref_piece_expr_text(c) + ", lettrage = "@ + text_or_empty_text(qualified("e"@, "CodeLettrageExterne"@), 64) + ", debit = "@ + decimal_or_zero_text(qualified("e"@, "debit"@)) + ", credit = "@ + decimal_or_zero_text(qualified("e"@, "credit"@)) + ", entry_number = COALESCE(TRY_CAST("@ + qualified("e"@, "numero"@) + " AS BIGINT), 0) FROM "@ + c.entries.sql_name_text() + " e LEFT JOIN "@ + c.accounts.sql_name_text() + " cg ON "@ + qualified("e"@, "oidcompteGeneral"@) + " = "@ + qualified("cg"@, "oid"@) + " "@ + document_joins_text(c) + " "@ + sage1000_stream_tiers_join_text(c) + " "@ + sage1000_role_account_join_text(c)) + sage1000_auxiliary_stream_keeps_the_requested_kind_piece36() + (qualified("e"@, "eDate"@) + " AS DATE) BETWEEN "@ + sql_literal_seq(date_from) + " AND "@ + sql_literal_seq(date_to)) + sage1000_auxiliary_stream_keeps_the_requested_kind_piece42()) by {
        assert(t.subrange(0, (("WITH base AS (SELECT parsed_date = TRY_CAST("@ + qualified("e"@, "eDate"@) + " AS DATE), account_no = "@ + sage1000_account_no_text() + ", account_label = "@ + sage1000_account_label_text() + ", tiers_code = "@ + sage1000_tiers_code_text(c) + ", tiers_name = "@ + sage1000_stream_tiers_name_text(c) + ", journal = "@ + journal_expr_text(c) + ", description = CAST('' AS NVARCHAR(255)), ref_piece = "@ + ref_piece_expr_text(c) + ", lettrage = "@ + text_or_empty_text(qualified("e"@, "CodeLettrageExterne"@), 64) + ", debit = "@ + decimal_or_zero_text(qualified("e"@, "debit"@)) + ", credit = "@ + decimal_or_zero_text(qualified("e"@, "credit"@)) + ", entry_number = COALESCE(TRY_CAST("@ + qualified("e"@, "numero"@) + " AS BIGINT), 0) FROM "@ + c.entries.sql_name_text() + " e LEFT JOIN "@ + c.accounts.sql_name_text() + " cg ON "@ + qualified("e"@, "oidcompteGeneral"@) + " = "@ + qualified("cg"@, "oid"@) + " "@ + document_joins_text(c) + " "@ + sage1000_stream_tiers_join_text(c) + " "@ + sage1000_role_account_join_text(c)) + sage1000_auxiliary_stream_keeps_the_requested_kind_piece36() + (qualified("e"@, "eDate"@) + " AS DATE) BETWEEN "@ + sql_literal_seq(date_from) + " AND "@ + sql_literal_seq(date_to)) + sage1000_auxiliary_stream_keeps_the_requested_kind_piece42()).len() as int) =~= ("WITH base AS (SELECT parsed_date = TRY_CAST("@ + qualified("e"@, "eDate"@) + " AS DATE), account_no = "@ + sage1000_account_no_text() + ", account_label = "@ + sage1000_account_label_text() + ", tiers_code = "@ + sage1000_tiers_code_text(c) + ", tiers_name = "@ + sage1000_stream_tiers_name_text(c) + ", journal = "@ + journal_expr_text(c) + ", description = CAST('' AS NVARCHAR(255)), ref_piece = "@ + ref_piece_expr_text(c) + ", lettrage = "@ + text_or_empty_text(qualified("e"@, "CodeLettrageExterne"@), 64) + ", debit = "@ + decimal_or_zero_text(qualified("e"@, "debit"@)) + ", credit = "@ + decimal_or_zero_text(qualified("e"@, "credit"@)) + ", entry_number = COALESCE(TRY_CAST("@ + qualified("e"@, "numero"@) + " AS BIGINT), 0) FROM "@ + c.entries.sql_name_text() + " e LEFT JOIN "@ + c.accounts.sql_name_text() + " cg ON "@ + qualified("e"@, "oidcompteGeneral"@) + " = "@ + qualified("cg"@, "oid"@) + " "@ + document_joins_text(c) + " "@ + sage1000_stream_tiers_join_text(c) + " "@ + sage1000_role_account_join_text(c)) + sage1000_auxiliary_stream_keeps_the_requested_kind_piece36() + (qualified("e"@, "eDate"@) + " AS DATE) BETWEEN "@ + sql_literal_seq(date_from) + " AND "@ + sql_literal_seq(date_to)) + sage1000_auxiliary_stream_keeps_the_requested_kind_piece42());
    }
    lemma_occurs_around(t, "WITH base AS (SELECT parsed_date = TRY_CAST("@ + qualified("e"@, "eDate"@) + " AS DATE), account_no = "@ + sage1000_account_no_text() + ", account_label = "@ + sage1000_account_label_text() + ", tiers_code = "@ + sage1000_tiers_code_text(c) + ", tiers_name = "@ + sage1000_stream_tiers_name_text(c) + ", journal = "@ + journal_expr_text(c) + ", description = CAST('' AS NVARCHAR(255)), ref_piece = "@ + ref_piece_expr_text(c) + ", lettrage = "@ + text_or_empty_text(qualified("e"@, "CodeLettrageExterne"@), 64) + ", debit = "@ + decimal_or_zero_text(qualified("e"@, "debit"@)) + ", credit = "@ + decimal_or_zero_text(qualified("e"@, "credit"@)) + ", entry_number = COALESCE(TRY_CAST("@ + qualified("e"@, "numero"@) + " AS BIGINT), 0) FROM "@ + c.entries.sql_name_text() + " e LEFT JOIN "@ + c.accounts.sql_name_text() + " cg ON "@ + qualified("e"@, "oidcompteGeneral"@) + " = "@ + qualified("cg"@, "oid"@) + " "@ + document_joins_text(c) + " "@ + sage1000_stream_tiers_join_text(c) + " "@ + sage1000_role_account_join_text(c), sage1000_auxiliary_stream_keeps_the_requested_kind_piece36(), qualified("e"@, "eDate"@) + " AS DATE) BETWEEN "@ + sql_literal_seq(date_from) + " AND "@ + sql_literal_seq(date_to), sage1000_auxiliary_stream_keeps_the_requested_kind_piece42(), "WHERE TRY_CAST("@, ""@);
    assert("WHERE TRY_CAST("@ + (qualified("e"@, "eDate"@) + " AS DATE) BETWEEN "@ + sql_literal_seq(date_from) + " AND "@ + sql_literal_seq(date_to)) + ""@ =~= "WHERE TRY_CAST("@ + qualified("e"@, "eDate"@) + " AS DATE) BETWEEN "@ + sql_literal_seq(date_from) + " AND "@ + sql_literal_seq(date_to));
    assert(t.subrange(0, (("WITH base AS (SELECT parsed_date = TRY_CAST("@ + qualified("e"@, "eDate"@) + " AS DATE), account_no = "@ + sage1000_account_no_text() + ", account_label = "@ + sage1000_account_label_text() + ", tiers_code = "@ + sage1000_tiers_code_text(c) + ", tiers_name = "@ + sage1000_stream_tiers_name_text(c) + ", journal = "@ + journal_expr_text(c) + ", description = CAST('' AS NVARCHAR(255)), ref_piece = "@ + ref_piece_expr_text(c) + ", lettrage = "@ + text_or_empty_text(qualified("e"@, "CodeLettrageExterne"@), 64) + ", debit = "@ + decimal_or_zero_text(qualified("e"@, "debit"@)) + ", credit = "@ + decimal_or_zero_text(qualified("e"@, "credit"@)) + ", entry_number = COALESCE(TRY_CAST("@ + qualified("e"@, "numero"@) + " AS BIGINT), 0) FROM "@ + c.entries.sql_name_text() + " e LEFT JOIN "@ + c.accounts.sql_name_text() + " cg ON "@ + qualified("e"@, "oidcompteGeneral"@) + " = "@ + qualified("cg"@, "oid"@) + " "@ + document_joins_text(c) + " "@ + sage1000_stream_tiers_join_text(c) + " "@ + sage1000_role_account_join_text(c) + " WHERE TRY_CAST("@ + qualified("e"@, "eDate"@) + " AS DATE) BETWEEN "@ + sql_literal_seq(date_from) + " AND "@ + sql_literal_seq(date_to)) + sage1000_auxiliary_stream_keeps_the_requested_kind_piece42() + (sage1000_stream_kind_filter_text(c, kind)) + sage1000_auxiliary_stream_keeps_the_requested_kind_piece44()).len() as int) == ("WITH base AS (SELECT parsed_date = TRY_CAST("@ + qualified("e"@, "eDate"@) + " AS DATE), account_no = "@ + sage1000_account_no_text() + ", account_label = "@ + sage1000_account_label_text() + ", tiers_code = "@ + sage1000_tiers_code_text(c) + ", tiers_name = "@ + sage1000_stream_tiers_name_text(c) + ", journal = "@ + journal_expr_text(c) + ", description = CAST('' AS NVARCHAR(255)), ref_piece = "@ + ref_piece_expr_text(c) + ", lettrage = "@ + text_or_empty_text(qualified("e"@, "CodeLettrageExterne"@), 64) + ", debit = "@ + decimal_or_zero_text(qualified("e"@, "debit"@)) + ", credit = "@ + decimal_or_zero_text(qualified("e"@, "credit"@)) + ", entry_number = COALESCE(TRY_CAST("@ + qualified("e"@, "numero"@) + " AS BIGINT), 0) FROM "@ + c.entries.sql_name_text() + " e LEFT JOIN "@ + c.accounts.sql_name_text() + " cg ON "@ + qualified("e"@, "oidcompteGeneral"@) + " = "@ + qualified("cg"@, "oid"@) + " "@ + document_joins_text(c) + " "@ + sage1000_stream_tiers_join_text(c) + " "@ + sage1000_role_account_join_text(c) + " WHERE TRY_CAST("@ + qualified("e"@, "eDate"@) + " AS DATE) BETWEEN "@ + sql_literal_seq(date_from) + " AND "@ + sql_literal_seq(date_to)) + sage1000_auxiliary_stream_keeps_the_requested_kind_piece42() + (sage1000_stream_kind_filter_text(c, kind)) + sage1000_auxiliary_stream_keeps_the_requested_kind_piece44()) by {
        assert(t.subrange(0, (("WITH base AS (SELECT parsed_date = TRY_CAST("@ + qualified("e"@, "eDate"@) + " AS DATE), account_no = "@ + sage1000_account_no_text() + ", account_label = "@ + sage1000_account_label_text() + ", tiers_code = "@ + sage1000_tiers_code_text(c) + ", tiers_name = "@ + sage1000_stream_tiers_name_text(c) + ", journal = "@ + journal_expr_text(c) + ", description = CAST('' AS NVARCHAR(255)), ref_piece = "@ + ref_piece_expr_text(c) + ", lettrage = "@ + text_or_empty_text(qualified("e"@, "CodeLettrageExterne"@), 64) + ", debit = "@ + decimal_or_zero_text(qualified("e"@, "debit"@)) + ", credit = "@ + decimal_or_zero_text(qualified("e"@, "credit"@)) + ", entry_number = COALESCE(TRY_CAST("@ + qualified("e"@, "numero"@) + " AS BIGINT), 0) FROM "@ + c.entries.sql_name_text() + " e LEFT JOIN "@ + c.accounts.sql_name_text() + " cg ON "@ + qualified("e"@, "oidcompteGeneral"@) + " = "@ + qualified("cg"@, "oid"@) + " "@ + document_joins_text(c) + " "@ + sage1000_stream_tiers_join_text(c) + " "@ + sage1000_role_account_join_text(c) + " WHERE TRY_CAST("@ + qualified("e"@, "eDate"@) + " AS DATE) BETWEEN "@ + sql_literal_seq(date_from) + " AND "@ + sql_literal_seq(date_to)) + sage1000_auxiliary_stream_keeps_the_requested_kind_piece42() + (sage1000_stream_kind_filter_text(c, kind)) + sage1000_auxiliary_stream_keeps_the_requested_kind_piece44()).len() as int) =~= ("WITH base AS (SELECT parsed_date = TRY_CAST("@ + qualified("e"@, "eDate"@) + " AS DATE), account_no = "@ + sage1000_account_no_text() + ", account_label = "@ + sage1000_account_label_text() + ", tiers_code = "@ + sage1000_tiers_code_text(c) + ", tiers_name = "@ + sage1000_stream_tiers_name_text(c) + ", journal = "@ + journal_expr_text(c) + ", description = CAST('' AS NVARCHAR(255)), ref_piece = "@ + ref_piece_expr_text(c) + ", lettrage = "@ + text_or_empty_text(qualified("e"@, "CodeLettrageExterne"@), 64) + ", debit = "@ + decimal_or_zero_text(qualified("e"@, "debit"@)) + ", credit = "@ + decimal_or_zero_text(qualified("e"@, "credit"@)) + ", entry_number = COALESCE(TRY_CAST("@ + qualified("e"@, "numero"@) + " AS BIGINT), 0) FROM "@ + c.entries.sql_name_text() + " e LEFT JOIN "@ + c.accounts.sql_name_text() + " cg ON "@ + qualified("e"@, "oidcompteGeneral"@) + " = "@ + qualified("cg"@, "oid"@) + " "@ + document_joins_text(c) + " "@ + sage1000_stream_tiers_join_text(c) + " "@ + sage1000_role_account_join_text(c) + " WHERE TRY_CAST("@ + qualified("e"@, "eDate"@) + " AS DATE) BETWEEN "@ + sql_literal_seq(date_from) + " AND "@ + sql_literal_seq(date_to)) + sage1000_auxiliary_stream_keeps_the_requested_kind_piece42() + (sage1000_stream_kind_filter_text(c, kind)) + sage1000_auxiliary_stream_keeps_the_requested_kind_piece44());
    }
    lemma_occurs_around(t, "WITH base AS (SELECT parsed_date = TRY_CAST("@ + qualified("e"@, "eDate"@) + " AS DATE), account_no = "@ + sage1000_account_no_text() + ", account_label = "@ + sage1000_account_label_text() + ", tiers_code = "@ + sage1000_tiers_code_text(c) + ", tiers_name = "@ + sage1000_stream_tiers_name_text(c) + ", journal = "@ + journal_expr_text(c) + ", description = CAST('' AS NVARCHAR(255)), ref_piece = "@ + ref_piece_expr_text(c) + ", lettrage = "@ + text_or_empty_text(qualified("e"@, "CodeLettrageExterne"@), 64) + ", debit = "@ + decimal_or_zero_text(qualified("e"@, "debit"@)) + ", credit = "@ + decimal_or_zero_text(qualified("e"@, "credit"@)) + ", entry_number = COALESCE(TRY_CAST("@ + qualified("e"@, "numero"@) + " AS BIGINT), 0) FROM "@ + c.entries.sql_name_text() + " e LEFT JOIN "@ + c.accounts.sql_name_text() + " cg ON "@ + qualified("e"@, "oidcompteGeneral"@) + " = "@ + qualified("cg"@, "oid"@) + " "@ + document_joins_text(c) + " "@ + sage1000_stream_tiers_join_text(c) + " "@ + sage1000_role_account_join_text(c) + " WHERE TRY_CAST("@ + qualified("e"@, "eDate"@) + " AS DATE) BETWEEN "@ + sql_literal_seq(date_from) + " AND "@ + sql_literal_seq(date_to), sage1000_auxiliary_stream_keeps_the_requested_kind_piece42(), sage1000_stream_kind_filter_text(c, kind), sage1000_auxiliary_stream_keeps_the_requested_kind_piece44(), "AND "@, ""@);
    assert("AND "@ + (sage1000_stream_kind_filter_text(c, kind)) + ""@ =~= "AND "@ + sage1000_stream_kind_filter_text(c, kind));
}

/// The streamed Sage 1000 auxiliary ledger of a kind keeps that kind: by the
/// role's account digits (41 for customers, 40 for suppliers) when roles and
/// third parties are found, else by the kind's collective accounts.
pub proof fn lemma_sage1000_auxiliary_stream_keeps_the_kind(
    c: Sage1000Context,
    kind: TiersKind,
    date_from: Seq<char>,
    date_to: Seq<char>,
    prefix: Option<Seq<char>>,
)
    ensures
        (c.role_tiers is Some && c.tiers is Some) ==> occurs_in(
            sage1000_auxiliary_stream_base_text(c, kind, date_from, date_to, prefix),
            ", 2) = "@ + sql_literal_seq(
                match kind {
                    TiersKind::Customers => "41"@,
                    TiersKind::Suppliers => "40"@,
                },
            ),
        ),
        !(c.role_tiers is Some && c.tiers is Some) && kind == TiersKind::Customers ==> occurs_in(
            sage1000_auxiliary_stream_base_text(c, kind, date_from, date_to, prefix),
            customer_accounts(sage1000_account_no_text()),
        ),
        !(c.role_tiers is Some && c.tiers is Some) && kind == TiersKind::Suppliers ==> occurs_in(
            sage1000_auxiliary_stream_base_text(c, kind, date_from, date_to, prefix),
            supplier_accounts(sage1000_account_no_text()),
        ),
{
    let q = sage1000_auxiliary_stream_base_text(c, kind, date_from, date_to, prefix);
    let skf = sage1000_stream_kind_filter_text(c, kind);
    lemma_sage1000_auxiliary_stream_keeps_the_requested_kind(c, kind, date_from, date_to, prefix);
    if c.role_tiers is Some && c.tiers is Some {
        let rf = sage1000_role_filter_text(kind);
        assert(skf == rf);
        let f = ", 2) = "@ + sql_literal_seq(
            match kind {
                TiersKind::Customers => "41"@,
                TiersKind::Suppliers => "40"@,
            },
        );
        lemma_role_filter_keeps_its_kind(kind);
        let i = choose|i: int| occurs_at(q, "AND "@ + rf, i);
        let j = choose|j: int| occurs_at(rf, f, j);
        assert("AND "@ + rf =~= "AND "@ + rf + seq![]);
        lemma_occurs_between("AND "@ + rf, "AND "@, rf, seq![]);
        lemma_occurs_within("AND "@ + rf, rf, f, "AND "@.len() as int, j);
        lemma_occurs_within(q, "AND "@ + rf, f, i, "AND "@.len() + j);
    } else {
        assert(skf == kind_filter_text(sage1000_account_no_text(), None, kind));
        lemma_kind_clause_keeps_its_accounts(q, sage1000_account_no_text(), None, kind);
    }
}

} // verus!
