//! The SQL of the third-party dashboard: what each third party owes or is
//! owed, read from the entries of its collective accounts, and the query
//! that lists the third parties with it.
use vstd::prelude::*;
use crate::ledger::{decimal_or_zero_text, qualified, text_or_empty_text, DetectedTable, EntryContext, Sage1000Context};
use crate::sql::{decimal_or_zero, qualify, text_or_empty};
use crate::text::eq_ignore_case;

verus! {

/// The finance of no third party, when the roles table is missing on Sage 1000.
pub const EMPTY_SAGE1000_FINANCE_CTE: &'static str = "
                tier_finance AS (
                    SELECT
                        tier_id = CAST(NULL AS BIGINT),
                        client_account = CAST(NULL AS NVARCHAR(64)),
                        supplier_account = CAST(NULL AS NVARCHAR(64)),
                        has_client = 0, has_supplier = 0,
                        debit = CAST(NULL AS DECIMAL(38, 6)),
                        credit = CAST(NULL AS DECIMAL(38, 6)),
                        last_movement_date = CAST(NULL AS DATE)
                    WHERE 1 = 0
                )
                ";

/// The finance of no third party, when the entries name none.
pub const EMPTY_ENTRIES_FINANCE_CTE: &'static str = "
                tier_finance AS (
                    SELECT
                        tier_id = CAST(NULL AS NVARCHAR(100)),
                        client_account = CAST(NULL AS NVARCHAR(64)),
                        supplier_account = CAST(NULL AS NVARCHAR(64)),
                        has_client = 0, has_supplier = 0,
                        debit = CAST(NULL AS DECIMAL(38, 6)),
                        credit = CAST(NULL AS DECIMAL(38, 6)),
                        last_movement_date = CAST(NULL AS DATE)
                    WHERE 1 = 0
                )
                ";

/// How a third party meets its finance.
pub const TIER_JOIN: &'static str = "TRY_CAST(tf.tier_id AS NVARCHAR(100)) = TRY_CAST(ts.source_id AS NVARCHAR(100))";

pub open spec fn tier_join_text() -> Seq<char> {
    "TRY_CAST(tf.tier_id AS NVARCHAR(100)) = TRY_CAST(ts.source_id AS NVARCHAR(100))"@
}

/// The account of a Sage 1000 entry for a third party: its role's
/// privileged account, else the entry's own.
pub open spec fn effective_account_text() -> Seq<char> {
    "COALESCE(NULLIF("@ + text_or_empty_text(qualified("ap"@, "codeCompte"@), 64) + ", ''), "@
        + text_or_empty_text(qualified("cg"@, "codeCompte"@), 64) + ")"@
}

fn effective_account() -> (r: String)
    ensures
        r@ == effective_account_text(),
{
    let mut r = String::from_str("COALESCE(NULLIF(");
    r.append(text_or_empty(qualify("ap", "codeCompte").as_str(), 64).as_str());
    r.append(", ''), ");
    r.append(text_or_empty(qualify("cg", "codeCompte").as_str(), 64).as_str());
    r.append(")");
    r
}

/// Each Sage 1000 third party's customer and supplier accounts, totals and
/// last movement, through its roles.
pub open spec fn sage1000_roles_finance_cte_text(c: Sage1000Context, roles: DetectedTable) -> Seq<char> {
    "
                tier_finance AS (
                    SELECT
                        tier_id = "@
        + qualified("rt"@, "oidTiers"@)
        + ",
                        client_account = MAX(CASE WHEN LEFT("@
        + effective_account_text()
        + ", 2) = '41' THEN "@
        + effective_account_text()
        + " END),
                        supplier_account = MAX(CASE WHEN LEFT("@
        + effective_account_text()
        + ", 2) = '40' THEN "@
        + effective_account_text()
        + " END),
                        has_client = MAX(CASE WHEN LEFT("@
        + effective_account_text()
        + ", 2) = '41' THEN 1 ELSE 0 END),
                        has_supplier = MAX(CASE WHEN LEFT("@
        + effective_account_text()
        + ", 2) = '40' THEN 1 ELSE 0 END),
                        debit = SUM(CASE WHEN LEFT("@
        + effective_account_text()
        + ", 2) IN ('40', '41') THEN "@
        + decimal_or_zero_text(qualified("e"@, "debit"@))
        + " ELSE CAST(0 AS DECIMAL(38, 6)) END),
                        credit = SUM(CASE WHEN LEFT("@
        + effective_account_text()
        + ", 2) IN ('40', '41') THEN "@
        + decimal_or_zero_text(qualified("e"@, "credit"@))
        + " ELSE CAST(0 AS DECIMAL(38, 6)) END),
                        last_movement_date = MAX(CASE WHEN LEFT("@
        + effective_account_text()
        + ", 2) IN ('40', '41') THEN TRY_CAST("@
        + qualified("e"@, "eDate"@)
        + " AS DATE) END)
                    FROM "@
        + roles.sql_name_text()
        + " rt
                    LEFT JOIN "@
        + c.accounts.sql_name_text()
        + " ap ON "@
        + qualified("rt"@, "oidcomptePrivilegie"@)
        + " = "@
        + qualified("ap"@, "oid"@)
        + "
                    LEFT JOIN "@
        + c.entries.sql_name_text()
        + " e ON "@
        + qualified("e"@, "oidroleTiers"@)
        + " = "@
        + qualified("rt"@, "oid"@)
        + "
                    LEFT JOIN "@
        + c.accounts.sql_name_text()
        + " cg ON "@
        + qualified("e"@, "oidcompteGeneral"@)
        + " = "@
        + qualified("cg"@, "oid"@)
        + "
                    GROUP BY "@
        + qualified("rt"@, "oidTiers"@)
        + "
                )
                "@
}

/// The finance of the third parties on Sage 1000: through the roles table
/// when it is found, else none, with the warning that says so.
pub open spec fn sage1000_finance_text(c: Sage1000Context) -> (Seq<char>, Option<Seq<char>>) {
    match c.role_tiers {
        Some(roles) => (sage1000_roles_finance_cte_text(c, roles), None),
        None => (
            EMPTY_SAGE1000_FINANCE_CTE@,
            Some("TROLETIERS was not detected; customer/supplier roles and balances are unavailable"@),
        ),
    }
}

pub fn sage1000_finance_cte(c: &Sage1000Context) -> (r: (String, Option<String>))
    ensures
        r.0@ == sage1000_finance_text(*c).0,
        match sage1000_finance_text(*c).1 {
            Some(w) => (r.1 matches Some(s) && s@ == w),
            None => r.1 is None,
        },
{
    match &c.role_tiers {
        Some(roles) => {
            let role_tier_fk = qualify("rt", "oidTiers");
            let effective_account = effective_account();
            let debit = decimal_or_zero(qualify("e", "debit").as_str());
            let credit = decimal_or_zero(qualify("e", "credit").as_str());
            let entry_date = qualify("e", "eDate");
            let roles_table = roles.sql_name();
            let accounts_table = c.accounts.sql_name();
            let entries_table = c.entries.sql_name();
            let role_account_fk = qualify("rt", "oidcomptePrivilegie");
            let account_pk_ap = qualify("ap", "oid");
            let entry_role_fk = qualify("e", "oidroleTiers");
            let role_pk = qualify("rt", "oid");
            let entry_account_fk = qualify("e", "oidcompteGeneral");
            let account_pk_cg = qualify("cg", "oid");
    let mut r = String::new();
    r.append("
                tier_finance AS (
                    SELECT
                        tier_id = ");
    r.append(role_tier_fk.as_str());
    r.append(",
                        client_account = MAX(CASE WHEN LEFT(");
    r.append(effective_account.as_str());
    r.append(", 2) = '41' THEN ");
    r.append(effective_account.as_str());
    r.append(" END),
                        supplier_account = MAX(CASE WHEN LEFT(");
    r.append(effective_account.as_str());
    r.append(", 2) = '40' THEN ");
    r.append(effective_account.as_str());
    r.append(" END),
                        has_client = MAX(CASE WHEN LEFT(");
    r.append(effective_account.as_str());
    r.append(", 2) = '41' THEN 1 ELSE 0 END),
                        has_supplier = MAX(CASE WHEN LEFT(");
    r.append(effective_account.as_str());
    r.append(", 2) = '40' THEN 1 ELSE 0 END),
                        debit = SUM(CASE WHEN LEFT(");
    r.append(effective_account.as_str());
    r.append(", 2) IN ('40', '41') THEN ");
    r.append(debit.as_str());
    r.append(" ELSE CAST(0 AS DECIMAL(38, 6)) END),
                        credit = SUM(CASE WHEN LEFT(");
    r.append(effective_account.as_str());
    r.append(", 2) IN ('40', '41') THEN ");
    r.append(credit.as_str());
    r.append(" ELSE CAST(0 AS DECIMAL(38, 6)) END),
                        last_movement_date = MAX(CASE WHEN LEFT(");
    r.append(effective_account.as_str());
    r.append(", 2) IN ('40', '41') THEN TRY_CAST(");
    r.append(entry_date.as_str());
    r.append(" AS DATE) END)
                    FROM ");
    r.append(roles_table.as_str());
    r.append(" rt
                    LEFT JOIN ");
    r.append(accounts_table.as_str());
    r.append(" ap ON ");
    r.append(role_account_fk.as_str());
    r.append(" = ");
    r.append(account_pk_ap.as_str());
    r.append("
                    LEFT JOIN ");
    r.append(entries_table.as_str());
    r.append(" e ON ");
    r.append(entry_role_fk.as_str());
    r.append(" = ");
    r.append(role_pk.as_str());
    r.append("
                    LEFT JOIN ");
    r.append(accounts_table.as_str());
    r.append(" cg ON ");
    r.append(entry_account_fk.as_str());
    r.append(" = ");
    r.append(account_pk_cg.as_str());
    r.append("
                    GROUP BY ");
    r.append(role_tier_fk.as_str());
    r.append("
                )
                ");
    (r, None)
        },
        None => {
            proof {
                reveal_strlit("TROLETIERS was not detected; customer/supplier roles and balances are unavailable");
            }
            (
                String::from_str(EMPTY_SAGE1000_FINANCE_CTE),
                Some(String::from_str("TROLETIERS was not detected; customer/supplier roles and balances are unavailable")),
            )
        },
    }
}

/// Each third party's customer and supplier accounts, totals and last
/// movement, from the entries of the collective accounts.
pub open spec fn entries_finance_cte_text(e: EntryContext, tiers_col: Seq<char>) -> Seq<char> {
    "
                    movement_base AS (
                        SELECT
                            tiers_code = "@
        + text_or_empty_text(qualified("e"@, tiers_col), 100)
        + ",
                            account_no = "@
        + text_or_empty_text(qualified("e"@, e.account_col@), 64)
        + ",
                            parsed_date = TRY_CAST("@
        + qualified("e"@, e.date_col@)
        + " AS DATE),
                            debit = "@
        + e.debit_expr@
        + ",
                            credit = "@
        + e.credit_expr@
        + "
                        FROM "@
        + e.table.sql_name_text()
        + " e
                        WHERE LEFT("@
        + text_or_empty_text(qualified("e"@, e.account_col@), 64)
        + ", 2) IN ('40', '41')
                    ),
                    tier_finance AS (
                        SELECT
                            tier_id = tiers_code,
                            client_account = MAX(CASE WHEN LEFT(account_no, 2) = '41' THEN account_no END),
                            supplier_account = MAX(CASE WHEN LEFT(account_no, 2) = '40' THEN account_no END),
                            has_client = MAX(CASE WHEN LEFT(account_no, 2) = '41' THEN 1 ELSE 0 END),
                            has_supplier = MAX(CASE WHEN LEFT(account_no, 2) = '40' THEN 1 ELSE 0 END),
                            debit = SUM(debit),
                            credit = SUM(credit),
                            last_movement_date = MAX(parsed_date)
                        FROM movement_base
                        WHERE tiers_code <> ''
                        GROUP BY tiers_code
                    )
                    "@
}

/// The finance of the third parties from detected entries: when the
/// entries carry a third-party code, else none, with the warning that says so.
pub open spec fn entries_finance_text(e: Option<EntryContext>) -> (Seq<char>, Option<Seq<char>>) {
    match e {
        Some(e) => match e.tiers_code_col {
            Some(col) => (entries_finance_cte_text(e, col@), None),
            None => (
                EMPTY_ENTRIES_FINANCE_CTE@,
                Some("No compatible tier code was detected on accounting entries; movement balances are unavailable"@),
            ),
        },
        None => (
            EMPTY_ENTRIES_FINANCE_CTE@,
            Some("No compatible tier code was detected on accounting entries; movement balances are unavailable"@),
        ),
    }
}

pub fn entries_finance_cte(e: &Option<EntryContext>) -> (r: (String, Option<String>))
    ensures
        r.0@ == entries_finance_text(*e).0,
        match entries_finance_text(*e).1 {
            Some(w) => (r.1 matches Some(s) && s@ == w),
            None => r.1 is None,
        },
{
    proof {
        reveal_strlit("No compatible tier code was detected on accounting entries; movement balances are unavailable");
    }
    match e {
        Some(e) => match &e.tiers_code_col {
            Some(col) => {
                let tiers_code = text_or_empty(qualify("e", col.as_str()).as_str(), 100);
                let account = text_or_empty(qualify("e", e.account_col.as_str()).as_str(), 64);
                let entry_date = qualify("e", e.date_col.as_str());
                let entries_table = e.table.sql_name();
    let mut r = String::new();
    r.append("
                    movement_base AS (
                        SELECT
                            tiers_code = ");
    r.append(tiers_code.as_str());
    r.append(",
                            account_no = ");
    r.append(account.as_str());
    r.append(",
                            parsed_date = TRY_CAST(");
    r.append(entry_date.as_str());
    r.append(" AS DATE),
                            debit = ");
    r.append(e.debit_expr.as_str());
    r.append(",
                            credit = ");
    r.append(e.credit_expr.as_str());
    r.append("
                        FROM ");
    r.append(entries_table.as_str());
    r.append(" e
                        WHERE LEFT(");
    r.append(account.as_str());
    r.append(", 2) IN ('40', '41')
                    ),
                    tier_finance AS (
                        SELECT
                            tier_id = tiers_code,
                            client_account = MAX(CASE WHEN LEFT(account_no, 2) = '41' THEN account_no END),
                            supplier_account = MAX(CASE WHEN LEFT(account_no, 2) = '40' THEN account_no END),
                            has_client = MAX(CASE WHEN LEFT(account_no, 2) = '41' THEN 1 ELSE 0 END),
                            has_supplier = MAX(CASE WHEN LEFT(account_no, 2) = '40' THEN 1 ELSE 0 END),
                            debit = SUM(debit),
                            credit = SUM(credit),
                            last_movement_date = MAX(parsed_date)
                        FROM movement_base
                        WHERE tiers_code <> ''
                        GROUP BY tiers_code
                    )
                    ");
    (r, None)
            },
            None => (
                String::from_str(EMPTY_ENTRIES_FINANCE_CTE),
                Some(String::from_str("No compatible tier code was detected on accounting entries; movement balances are unavailable")),
            ),
        },
        None => (
            String::from_str(EMPTY_ENTRIES_FINANCE_CTE),
            Some(String::from_str("No compatible tier code was detected on accounting entries; movement balances are unavailable")),
        ),
    }
}

/// What kind of third party a source row is, from its type column: the
/// numbers of `CT_Type` and the usual words, else unknown. On Sage 1000 the
/// type column describes the legal person, so every row reads unknown.
pub open spec fn source_type_text(sage1000: bool, type_column: Option<Seq<char>>, value: Seq<char>) -> Seq<char> {
    if sage1000 {
        "N'unknown'"@
    } else {
        match type_column {
            Some(col) => {
                let numeric = if eq_ignore_case(col, "CT_Type"@) {
                    "WHEN TRY_CAST("@ + value + " AS INT) = 0 THEN N'client' WHEN TRY_CAST("@ + value + " AS INT) = 1 THEN N'fournisseur' WHEN TRY_CAST("@ + value + " AS INT) = 2 THEN N'les_deux'"@
                } else {
                    Seq::<char>::empty()
                };
                "CASE "@ + numeric + " WHEN UPPER(LTRIM(RTRIM(CAST("@ + value + " AS NVARCHAR(64))))) IN (N'CLIENT', N'CUSTOMER', N'CLIENTS', N'C') THEN N'client' WHEN UPPER(LTRIM(RTRIM(CAST("@ + value + " AS NVARCHAR(64))))) IN (N'FOURNISSEUR', N'SUPPLIER', N'VENDOR', N'FOURNISSEURS', N'F') THEN N'fournisseur' WHEN UPPER(LTRIM(RTRIM(CAST("@ + value + " AS NVARCHAR(64))))) IN (N'LES_DEUX', N'BOTH', N'MIXTE') THEN N'les_deux' ELSE N'unknown' END"@
            },
            None => "N'unknown'"@,
        }
    }
}

/// `source_type_expr`, given the type column's name and its qualified
/// expression.
pub fn source_type_expr(sage1000: bool, type_column: Option<&str>, value: &str) -> (r: String)
    ensures
        r@ == source_type_text(sage1000, match type_column {
            Some(c) => Some(c@),
            None => None,
        }, value@),
{
    if sage1000 {
        return String::from_str("N'unknown'");
    }
    match type_column {
        Some(col) => {
            let mut numeric = String::new();
            if crate::text::eq_ignore_ascii_case(col, "CT_Type") {
    numeric.append("WHEN TRY_CAST(");
    numeric.append(value);
    numeric.append(" AS INT) = 0 THEN N'client' WHEN TRY_CAST(");
    numeric.append(value);
    numeric.append(" AS INT) = 1 THEN N'fournisseur' WHEN TRY_CAST(");
    numeric.append(value);
    numeric.append(" AS INT) = 2 THEN N'les_deux'");
            }
            let mut r = String::from_str("CASE ");
            r.append(numeric.as_str());
    r.append(" WHEN UPPER(LTRIM(RTRIM(CAST(");
    r.append(value);
    r.append(" AS NVARCHAR(64))))) IN (N'CLIENT', N'CUSTOMER', N'CLIENTS', N'C') THEN N'client' WHEN UPPER(LTRIM(RTRIM(CAST(");
    r.append(value);
    r.append(" AS NVARCHAR(64))))) IN (N'FOURNISSEUR', N'SUPPLIER', N'VENDOR', N'FOURNISSEURS', N'F') THEN N'fournisseur' WHEN UPPER(LTRIM(RTRIM(CAST(");
    r.append(value);
    r.append(" AS NVARCHAR(64))))) IN (N'LES_DEUX', N'BOTH', N'MIXTE') THEN N'les_deux' ELSE N'unknown' END");
            r
        },
        None => String::from_str("N'unknown'"),
    }
}

/// The third parties with their finance, at most a hundred by name.
pub open spec fn dashboard_tiers_query_text(source_id: Seq<char>, code_expr: Seq<char>, name_expr: Seq<char>, source_type_expr: Seq<char>, table: Seq<char>, finance_cte: Seq<char>, type_filter: Seq<char>, search_filter: Seq<char>) -> Seq<char> {
    "
        WITH tiers_source AS (
            SELECT
                source_id = "@
        + source_id
        + ",
                code = "@
        + code_expr
        + ",
                name = "@
        + name_expr
        + ",
                source_type = "@
        + source_type_expr
        + "
            FROM "@
        + table
        + " t
        ),
        "@
        + finance_cte
        + ",
        enriched AS (
            SELECT
                ts.code,
                ts.name,
                tiers_type = CASE
                    WHEN COALESCE(tf.has_client, 0) = 1 AND COALESCE(tf.has_supplier, 0) = 1 THEN N'les_deux'
                    WHEN ts.source_type <> N'unknown' THEN ts.source_type
                    WHEN COALESCE(tf.has_client, 0) = 1 THEN N'client'
                    WHEN COALESCE(tf.has_supplier, 0) = 1 THEN N'fournisseur'
                    ELSE N'unknown'
                END,
                account_no = CASE
                    WHEN tf.client_account IS NOT NULL AND tf.supplier_account IS NOT NULL
                        THEN CONCAT(tf.client_account, N' / ', tf.supplier_account)
                    ELSE COALESCE(tf.client_account, tf.supplier_account)
                END,
                tf.debit,
                tf.credit,
                balance = CASE WHEN tf.debit IS NULL AND tf.credit IS NULL THEN NULL ELSE COALESCE(tf.debit, 0) - COALESCE(tf.credit, 0) END,
                tf.last_movement_date
            FROM tiers_source ts
            LEFT JOIN tier_finance tf ON "@
        + tier_join_text()
        + "
        )
        SELECT TOP (100)
            code,
            name,
            tiers_type,
            account_no,
            debit,
            credit,
            balance,
            CONVERT(char(10), last_movement_date, 23) AS last_movement_date
        FROM enriched
        WHERE code <> ''
          "@
        + type_filter
        + "
          "@
        + search_filter
        + "
        ORDER BY name, code
        "@
}

/// The query of the third-party dashboard, from the expressions of the third
/// parties' table and the filters.
pub fn dashboard_tiers_query(
    source_id: &str,
    code_expr: &str,
    name_expr: &str,
    source_type_expr: &str,
    table: &str,
    finance_cte: &str,
    type_filter: &str,
    search_filter: &str,
) -> (r: String)
    ensures
        r@ == dashboard_tiers_query_text(source_id@, code_expr@, name_expr@, source_type_expr@, table@, finance_cte@, type_filter@, search_filter@),
{
    proof {
        reveal_strlit("TRY_CAST(tf.tier_id AS NVARCHAR(100)) = TRY_CAST(ts.source_id AS NVARCHAR(100))");
    }
    let mut r = String::new();
    r.append("
        WITH tiers_source AS (
            SELECT
                source_id = ");
    r.append(source_id);
    r.append(",
                code = ");
    r.append(code_expr);
    r.append(",
                name = ");
    r.append(name_expr);
    r.append(",
                source_type = ");
    r.append(source_type_expr);
    r.append("
            FROM ");
    r.append(table);
    r.append(" t
        ),
        ");
    r.append(finance_cte);
    r.append(",
        enriched AS (
            SELECT
                ts.code,
                ts.name,
                tiers_type = CASE
                    WHEN COALESCE(tf.has_client, 0) = 1 AND COALESCE(tf.has_supplier, 0) = 1 THEN N'les_deux'
                    WHEN ts.source_type <> N'unknown' THEN ts.source_type
                    WHEN COALESCE(tf.has_client, 0) = 1 THEN N'client'
                    WHEN COALESCE(tf.has_supplier, 0) = 1 THEN N'fournisseur'
                    ELSE N'unknown'
                END,
                account_no = CASE
                    WHEN tf.client_account IS NOT NULL AND tf.supplier_account IS NOT NULL
                        THEN CONCAT(tf.client_account, N' / ', tf.supplier_account)
                    ELSE COALESCE(tf.client_account, tf.supplier_account)
                END,
                tf.debit,
                tf.credit,
                balance = CASE WHEN tf.debit IS NULL AND tf.credit IS NULL THEN NULL ELSE COALESCE(tf.debit, 0) - COALESCE(tf.credit, 0) END,
                tf.last_movement_date
            FROM tiers_source ts
            LEFT JOIN tier_finance tf ON ");
    r.append(TIER_JOIN);
    r.append("
        )
        SELECT TOP (100)
            code,
            name,
            tiers_type,
            account_no,
            debit,
            credit,
            balance,
            CONVERT(char(10), last_movement_date, 23) AS last_movement_date
        FROM enriched
        WHERE code <> ''
          ");
    r.append(type_filter);
    r.append("
          ");
    r.append(search_filter);
    r.append("
        ORDER BY name, code
        ");
    r
}

} // verus!
