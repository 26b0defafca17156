//! The rows of the accounting reports (trial balance, subsidiary ledger,
//! dashboard) built from the rows the report queries return.
use vstd::prelude::*;
use crate::cells::{
    cell_decimal, cell_i64, cell_text, named_cell, row_bool, row_decimal, row_i64, row_optional_decimal,
    row_string, CellValue, NameIndex,
};
use crate::decimal::{zero_bytes, Amount, RunningBalances};
use crate::ledger_xlsx::{balance_before, opt_view, text_or_empty};

verus! {

/// A column of a row read as text, empty when it reads as nothing.
pub open spec fn named_text(row: Seq<CellValue>, idx: NameIndex, name: Seq<char>) -> Seq<char> {
    text_or_empty(cell_text(named_cell(row, idx, name)))
}

/// A column of a row read as an amount.
pub open spec fn named_amount(row: Seq<CellValue>, idx: NameIndex, name: Seq<char>) -> Seq<u8> {
    cell_decimal(named_cell(row, idx, name))
}

/// A column of a row read as text, if it reads as some.
pub open spec fn named_opt_text(row: Seq<CellValue>, idx: NameIndex, name: Seq<char>) -> Option<Seq<char>> {
    cell_text(named_cell(row, idx, name))
}

pub open spec fn opt_amount(o: Option<Amount>) -> Option<Seq<u8>> {
    match o {
        Some(a) => Some(a.bytes@),
        None => None,
    }
}

/// A column read as an amount that may be absent: nothing for a missing
/// column or a null.
pub open spec fn named_opt_amount(row: Seq<CellValue>, idx: NameIndex, name: Seq<char>) -> Option<Seq<u8>> {
    match named_cell(row, idx, name) {
        None => None,
        Some(CellValue::Null) => None,
        Some(c) => Some(cell_decimal(Some(c))),
    }
}

/// `row_string(..).unwrap_or_default()`.
pub fn row_text(row: &[CellValue], indexes: &NameIndex, name: &str) -> (r: String)
    ensures
        r@ == named_text(row@, *indexes, name@),
{
    proof {
        reveal_strlit("");
    }
    match row_string(row, indexes, name) {
        Some(s) => s,
        None => String::new(),
    }
}

/// One account of the trial balance.
#[derive(Clone, Debug)]
pub struct BalanceRow {
    pub account_no: String,
    pub account_label: String,
    pub ouverture_debit: Amount,
    pub ouverture_credit: Amount,
    pub mvt_debit: Amount,
    pub mvt_credit: Amount,
    pub cloture_debit: Amount,
    pub cloture_credit: Amount,
}

pub open spec fn is_balance_row(b: BalanceRow, row: Seq<CellValue>, idx: NameIndex) -> bool {
    &&& b.account_no@ == named_text(row, idx, "account_no"@)
    &&& b.account_label@ == named_text(row, idx, "account_label"@)
    &&& b.ouverture_debit.bytes@ == named_amount(row, idx, "ouverture_debit"@)
    &&& b.ouverture_credit.bytes@ == named_amount(row, idx, "ouverture_credit"@)
    &&& b.mvt_debit.bytes@ == named_amount(row, idx, "mvt_debit"@)
    &&& b.mvt_credit.bytes@ == named_amount(row, idx, "mvt_credit"@)
    &&& b.cloture_debit.bytes@ == named_amount(row, idx, "cloture_debit"@)
    &&& b.cloture_credit.bytes@ == named_amount(row, idx, "cloture_credit"@)
}

/// The trial-balance row of a result row.
pub fn balance_row(row: &[CellValue], indexes: &NameIndex) -> (r: BalanceRow)
    ensures
        is_balance_row(r, row@, *indexes),
{
    BalanceRow {
        account_no: row_text(row, indexes, "account_no"),
        account_label: row_text(row, indexes, "account_label"),
        ouverture_debit: row_decimal(row, indexes, "ouverture_debit"),
        ouverture_credit: row_decimal(row, indexes, "ouverture_credit"),
        mvt_debit: row_decimal(row, indexes, "mvt_debit"),
        mvt_credit: row_decimal(row, indexes, "mvt_credit"),
        cloture_debit: row_decimal(row, indexes, "cloture_debit"),
        cloture_credit: row_decimal(row, indexes, "cloture_credit"),
    }
}

/// The trial-balance rows of a query result, in order.
pub fn balance_rows(rows: &Vec<Vec<CellValue>>, indexes: &NameIndex) -> (r: Vec<BalanceRow>)
    ensures
        r@.len() == rows@.len(),
        forall|k: int| 0 <= k < rows@.len() ==> is_balance_row(#[trigger] r@[k], rows@[k]@, *indexes),
{
    let mut out: Vec<BalanceRow> = Vec::new();
    let mut i: usize = 0;
    while i < rows.len()
        invariant
            i <= rows@.len(),
            out@.len() == i,
            forall|k: int| 0 <= k < i ==> is_balance_row(#[trigger] out@[k], rows@[k]@, *indexes),
        decreases rows@.len() - i,
    {
        out.push(balance_row(rows[i].as_slice(), indexes));
        i = i + 1;
    }
    out
}

/// One row of the subsidiary (third-party) ledger.
#[derive(Clone, Debug)]
pub struct AuxiliaireRow {
    pub account_no: String,
    pub account_label: String,
    pub tiers_code: String,
    pub tiers_name: String,
    pub date: Option<String>,
    pub journal: Option<String>,
    pub description: Option<String>,
    pub ref_piece: Option<String>,
    pub lettrage: Option<String>,
    pub debit: Amount,
    pub credit: Amount,
    pub running_balance: Amount,
    pub is_total_row: bool,
}

/// The columns of a subsidiary-ledger row other than its balance.
pub open spec fn auxiliaire_columns(a: AuxiliaireRow, row: Seq<CellValue>, idx: NameIndex) -> bool {
    &&& a.account_no@ == named_text(row, idx, "account_no"@)
    &&& a.account_label@ == named_text(row, idx, "account_label"@)
    &&& a.tiers_code@ == named_text(row, idx, "tiers_code"@)
    &&& a.tiers_name@ == named_text(row, idx, "tiers_name"@)
    &&& opt_view(a.date) == named_opt_text(row, idx, "date"@)
    &&& opt_view(a.journal) == named_opt_text(row, idx, "journal"@)
    &&& opt_view(a.description) == named_opt_text(row, idx, "description"@)
    &&& opt_view(a.ref_piece) == named_opt_text(row, idx, "ref_piece"@)
    &&& opt_view(a.lettrage) == named_opt_text(row, idx, "lettrage"@)
    &&& a.debit.bytes@ == named_amount(row, idx, "debit"@)
    &&& a.credit.bytes@ == named_amount(row, idx, "credit"@)
}

/// A subsidiary-ledger row read whole from a result row, its balance and
/// total flag included.
pub open spec fn is_auxiliaire_row(a: AuxiliaireRow, row: Seq<CellValue>, idx: NameIndex) -> bool {
    &&& auxiliaire_columns(a, row, idx)
    &&& a.running_balance.bytes@ == named_amount(row, idx, "running_balance"@)
    &&& a.is_total_row == crate::cells::cell_bool(named_cell(row, idx, "is_total_row"@))
}

/// The subsidiary-ledger row of a result row that carries its balance.
pub fn auxiliaire_row(row: &[CellValue], indexes: &NameIndex) -> (r: AuxiliaireRow)
    ensures
        is_auxiliaire_row(r, row@, *indexes),
{
    AuxiliaireRow {
        account_no: row_text(row, indexes, "account_no"),
        account_label: row_text(row, indexes, "account_label"),
        tiers_code: row_text(row, indexes, "tiers_code"),
        tiers_name: row_text(row, indexes, "tiers_name"),
        date: row_string(row, indexes, "date"),
        journal: row_string(row, indexes, "journal"),
        description: row_string(row, indexes, "description"),
        ref_piece: row_string(row, indexes, "ref_piece"),
        lettrage: row_string(row, indexes, "lettrage"),
        debit: row_decimal(row, indexes, "debit"),
        credit: row_decimal(row, indexes, "credit"),
        running_balance: row_decimal(row, indexes, "running_balance"),
        is_total_row: row_bool(row, indexes, "is_total_row"),
    }
}

/// The subsidiary-ledger rows of a query result, in order.
pub fn auxiliaire_rows(rows: &Vec<Vec<CellValue>>, indexes: &NameIndex) -> (r: Vec<AuxiliaireRow>)
    ensures
        r@.len() == rows@.len(),
        forall|k: int| 0 <= k < rows@.len() ==> is_auxiliaire_row(#[trigger] r@[k], rows@[k]@, *indexes),
{
    let mut out: Vec<AuxiliaireRow> = Vec::new();
    let mut i: usize = 0;
    while i < rows.len()
        invariant
            i <= rows@.len(),
            out@.len() == i,
            forall|k: int| 0 <= k < i ==> is_auxiliaire_row(#[trigger] out@[k], rows@[k]@, *indexes),
        decreases rows@.len() - i,
    {
        out.push(auxiliaire_row(rows[i].as_slice(), indexes));
        i = i + 1;
    }
    out
}

/// The running balance of the row's third party once the row is counted.
pub open spec fn tiers_balance(row: Seq<CellValue>, idx: NameIndex, balances: RunningBalances) -> Option<Seq<u8>> {
    crate::decimal::next_balance(
        balance_before(balances, named_text(row, idx, "tiers_code"@)),
        named_amount(row, idx, "debit"@),
        named_amount(row, idx, "credit"@),
    )
}

/// The subsidiary-ledger row of a streamed result row: the running balance
/// of its third party advanced by the row's debit minus its credit.
pub fn auxiliaire_stream_row(row: &[CellValue], indexes: &NameIndex, balances: &mut RunningBalances) -> (r: Result<
    AuxiliaireRow,
    String,
>)
    ensures
        tiers_balance(row@, *indexes, *old(balances)) is Some <==> r is Ok,
        r is Err ==> r->Err_0@ == "Subtraction overflowed"@ || r->Err_0@ == "Addition overflowed"@,
        r is Ok ==> {
            let a = r->Ok_0;
            let tiers = named_text(row@, *indexes, "tiers_code"@);
            &&& auxiliaire_columns(a, row@, *indexes)
            &&& Some(a.running_balance.bytes@) == tiers_balance(row@, *indexes, *old(balances))
            &&& !a.is_total_row
            &&& final(balances).balance(tiers) == Some(a.running_balance.bytes@)
            &&& forall|t: Seq<char>| t != tiers ==> #[trigger] final(balances).balance(t) == old(balances).balance(t)
        },
{
    let tiers_code = row_text(row, indexes, "tiers_code");
    let debit = row_decimal(row, indexes, "debit");
    let credit = row_decimal(row, indexes, "credit");
    let balance = match balances.advance(tiers_code.as_str(), &debit, &credit) {
        Ok(b) => b,
        Err(e) => {
            return Err(e);
        },
    };
    Ok(AuxiliaireRow {
        account_no: row_text(row, indexes, "account_no"),
        account_label: row_text(row, indexes, "account_label"),
        tiers_code,
        tiers_name: row_text(row, indexes, "tiers_name"),
        date: row_string(row, indexes, "date"),
        journal: row_string(row, indexes, "journal"),
        description: row_string(row, indexes, "description"),
        ref_piece: row_string(row, indexes, "ref_piece"),
        lettrage: row_string(row, indexes, "lettrage"),
        debit,
        credit,
        running_balance: balance,
        is_total_row: false,
    })
}

/// An account among the largest charges or revenues.
#[derive(Clone, Debug)]
pub struct DashboardTopItem {
    pub account: String,
    pub label: String,
    pub amount: Amount,
}

pub open spec fn is_top_item(t: DashboardTopItem, row: Seq<CellValue>, idx: NameIndex) -> bool {
    &&& t.account@ == named_text(row, idx, "account"@)
    &&& t.label@ == named_text(row, idx, "label"@)
    &&& t.amount.bytes@ == named_amount(row, idx, "amount"@)
}

/// One month of sales and purchases.
#[derive(Clone, Debug)]
pub struct MonthlyEvolutionPoint {
    pub month: String,
    pub ventes: Amount,
    pub achats: Amount,
}

pub open spec fn is_evolution_point(p: MonthlyEvolutionPoint, row: Seq<CellValue>, idx: NameIndex) -> bool {
    &&& p.month@ == named_text(row, idx, "month"@)
    &&& p.ventes.bytes@ == named_amount(row, idx, "ventes"@)
    &&& p.achats.bytes@ == named_amount(row, idx, "achats"@)
}

/// The figures of the dashboard.
#[derive(Clone, Debug)]
pub struct DashboardKpis {
    pub total_ventes: Amount,
    pub total_achats: Amount,
    pub solde_clients: Amount,
    pub solde_fournisseurs: Amount,
    pub nb_ecritures: i64,
    pub nb_tiers_actifs: i64,
    pub top_charges: Vec<DashboardTopItem>,
    pub top_produits: Vec<DashboardTopItem>,
    pub evolution_mensuelle: Vec<MonthlyEvolutionPoint>,
}

/// An amount of the summary row, zero without a summary row.
pub open spec fn summary_amount(summary: Option<Seq<CellValue>>, idx: NameIndex, name: Seq<char>) -> Seq<u8> {
    match summary {
        Some(row) => named_amount(row, idx, name),
        None => zero_bytes(),
    }
}

/// A count of the summary row, zero without a summary row.
pub open spec fn summary_count(summary: Option<Seq<CellValue>>, idx: NameIndex, name: Seq<char>) -> i64 {
    match summary {
        Some(row) => cell_i64(named_cell(row, idx, name)),
        None => 0,
    }
}

fn top_items(rows: &Vec<Vec<CellValue>>, indexes: &NameIndex) -> (r: Vec<DashboardTopItem>)
    ensures
        r@.len() == rows@.len(),
        forall|k: int| 0 <= k < rows@.len() ==> is_top_item(#[trigger] r@[k], rows@[k]@, *indexes),
{
    let mut out: Vec<DashboardTopItem> = Vec::new();
    let mut i: usize = 0;
    while i < rows.len()
        invariant
            i <= rows@.len(),
            out@.len() == i,
            forall|k: int| 0 <= k < i ==> is_top_item(#[trigger] out@[k], rows@[k]@, *indexes),
        decreases rows@.len() - i,
    {
        let row = rows[i].as_slice();
        out.push(
            DashboardTopItem {
                account: row_text(row, indexes, "account"),
                label: row_text(row, indexes, "label"),
                amount: row_decimal(row, indexes, "amount"),
            },
        );
        i = i + 1;
    }
    out
}

fn evolution_points(rows: &Vec<Vec<CellValue>>, indexes: &NameIndex) -> (r: Vec<MonthlyEvolutionPoint>)
    ensures
        r@.len() == rows@.len(),
        forall|k: int| 0 <= k < rows@.len() ==> is_evolution_point(#[trigger] r@[k], rows@[k]@, *indexes),
{
    let mut out: Vec<MonthlyEvolutionPoint> = Vec::new();
    let mut i: usize = 0;
    while i < rows.len()
        invariant
            i <= rows@.len(),
            out@.len() == i,
            forall|k: int| 0 <= k < i ==> is_evolution_point(#[trigger] out@[k], rows@[k]@, *indexes),
        decreases rows@.len() - i,
    {
        let row = rows[i].as_slice();
        out.push(
            MonthlyEvolutionPoint {
                month: row_text(row, indexes, "month"),
                ventes: row_decimal(row, indexes, "ventes"),
                achats: row_decimal(row, indexes, "achats"),
            },
        );
        i = i + 1;
    }
    out
}

fn summary_decimal(summary: Option<&Vec<CellValue>>, indexes: &NameIndex, name: &str) -> (r: Amount)
    ensures
        r.bytes@ == summary_amount(
            match summary {
                Some(v) => Some(v@),
                None => None,
            },
            *indexes,
            name@,
        ),
{
    match summary {
        Some(row) => row_decimal(row.as_slice(), indexes, name),
        None => Amount::zero(),
    }
}

fn summary_i64(summary: Option<&Vec<CellValue>>, indexes: &NameIndex, name: &str) -> (r: i64)
    ensures
        r == summary_count(
            match summary {
                Some(v) => Some(v@),
                None => None,
            },
            *indexes,
            name@,
        ),
{
    match summary {
        Some(row) => row_i64(row.as_slice(), indexes, name),
        None => 0,
    }
}

/// The dashboard figures from the results of its four queries: the totals
/// of the summary's first row (zero without one), the top charges and
/// revenues, and the monthly evolution.
pub fn dashboard_kpis(
    summary: &Vec<Vec<CellValue>>,
    summary_indexes: &NameIndex,
    top_charges: &Vec<Vec<CellValue>>,
    top_charges_indexes: &NameIndex,
    top_produits: &Vec<Vec<CellValue>>,
    top_produits_indexes: &NameIndex,
    evolution: &Vec<Vec<CellValue>>,
    evolution_indexes: &NameIndex,
) -> (r: DashboardKpis)
    ensures
        ({
            let first = if summary@.len() > 0 {
                Some(summary@[0]@)
            } else {
                None
            };
            &&& r.total_ventes.bytes@ == summary_amount(first, *summary_indexes, "total_ventes"@)
            &&& r.total_achats.bytes@ == summary_amount(first, *summary_indexes, "total_achats"@)
            &&& r.solde_clients.bytes@ == summary_amount(first, *summary_indexes, "solde_clients"@)
            &&& r.solde_fournisseurs.bytes@ == summary_amount(first, *summary_indexes, "solde_fournisseurs"@)
            &&& r.nb_ecritures == summary_count(first, *summary_indexes, "nb_ecritures"@)
            &&& r.nb_tiers_actifs == summary_count(first, *summary_indexes, "nb_tiers_actifs"@)
        }),
        r.top_charges@.len() == top_charges@.len(),
        forall|k: int|
            0 <= k < top_charges@.len() ==> is_top_item(#[trigger] r.top_charges@[k], top_charges@[k]@, *top_charges_indexes),
        r.top_produits@.len() == top_produits@.len(),
        forall|k: int|
            0 <= k < top_produits@.len() ==> is_top_item(
                #[trigger] r.top_produits@[k],
                top_produits@[k]@,
                *top_produits_indexes,
            ),
        r.evolution_mensuelle@.len() == evolution@.len(),
        forall|k: int|
            0 <= k < evolution@.len() ==> is_evolution_point(
                #[trigger] r.evolution_mensuelle@[k],
                evolution@[k]@,
                *evolution_indexes,
            ),
{
    let first = if summary.len() > 0 {
        Some(&summary[0])
    } else {
        None
    };
    DashboardKpis {
        total_ventes: summary_decimal(first, summary_indexes, "total_ventes"),
        total_achats: summary_decimal(first, summary_indexes, "total_achats"),
        solde_clients: summary_decimal(first, summary_indexes, "solde_clients"),
        solde_fournisseurs: summary_decimal(first, summary_indexes, "solde_fournisseurs"),
        nb_ecritures: summary_i64(first, summary_indexes, "nb_ecritures"),
        nb_tiers_actifs: summary_i64(first, summary_indexes, "nb_tiers_actifs"),
        top_charges: top_items(top_charges, top_charges_indexes),
        top_produits: top_items(top_produits, top_produits_indexes),
        evolution_mensuelle: evolution_points(evolution, evolution_indexes),
    }
}

/// A third party of the dashboard's list.
#[derive(Clone, Debug)]
pub struct DashboardTiersRow {
    pub code: String,
    pub name: String,
    pub tiers_type: String,
    pub account_no: Option<String>,
    pub debit: Option<Amount>,
    pub credit: Option<Amount>,
    pub balance: Option<Amount>,
    pub last_movement_date: Option<String>,
}

pub open spec fn is_tiers_row(t: DashboardTiersRow, row: Seq<CellValue>, idx: NameIndex) -> bool {
    &&& t.code@ == named_text(row, idx, "code"@)
    &&& t.name@ == named_text(row, idx, "name"@)
    &&& t.tiers_type@ == match named_opt_text(row, idx, "tiers_type"@) {
        Some(s) => s,
        None => "unknown"@,
    }
    &&& opt_view(t.account_no) == named_opt_text(row, idx, "account_no"@)
    &&& opt_amount(t.debit) == named_opt_amount(row, idx, "debit"@)
    &&& opt_amount(t.credit) == named_opt_amount(row, idx, "credit"@)
    &&& opt_amount(t.balance) == named_opt_amount(row, idx, "balance"@)
    &&& opt_view(t.last_movement_date) == named_opt_text(row, idx, "last_movement_date"@)
}

fn opt_amount_of(row: &[CellValue], indexes: &NameIndex, name: &str) -> (r: Option<Amount>)
    ensures
        opt_amount(r) == named_opt_amount(row@, *indexes, name@),
{
    row_optional_decimal(row, indexes, name)
}

/// The third-party row of a result row; its type reads `unknown` when the
/// column reads as nothing.
pub fn tiers_row(row: &[CellValue], indexes: &NameIndex) -> (r: DashboardTiersRow)
    ensures
        is_tiers_row(r, row@, *indexes),
{
    let tiers_type = match row_string(row, indexes, "tiers_type") {
        Some(s) => s,
        None => String::from_str("unknown"),
    };
    DashboardTiersRow {
        code: row_text(row, indexes, "code"),
        name: row_text(row, indexes, "name"),
        tiers_type,
        account_no: row_string(row, indexes, "account_no"),
        debit: opt_amount_of(row, indexes, "debit"),
        credit: opt_amount_of(row, indexes, "credit"),
        balance: opt_amount_of(row, indexes, "balance"),
        last_movement_date: row_string(row, indexes, "last_movement_date"),
    }
}

/// The third-party rows of a query result, in order.
pub fn tiers_rows(rows: &Vec<Vec<CellValue>>, indexes: &NameIndex) -> (r: Vec<DashboardTiersRow>)
    ensures
        r@.len() == rows@.len(),
        forall|k: int| 0 <= k < rows@.len() ==> is_tiers_row(#[trigger] r@[k], rows@[k]@, *indexes),
{
    let mut out: Vec<DashboardTiersRow> = Vec::new();
    let mut i: usize = 0;
    while i < rows.len()
        invariant
            i <= rows@.len(),
            out@.len() == i,
            forall|k: int| 0 <= k < i ==> is_tiers_row(#[trigger] out@[k], rows@[k]@, *indexes),
        decreases rows@.len() - i,
    {
        out.push(tiers_row(rows[i].as_slice(), indexes));
        i = i + 1;
    }
    out
}

/// One month of an operating account.
#[derive(Clone, Debug)]
pub struct ExploitationAccountMonthRow {
    pub account_no: String,
    pub account_label: String,
    pub month: u32,
    pub debit: Amount,
    pub credit: Amount,
}

/// A month number held between 1 and 12.
pub open spec fn clamp_month(m: int) -> int {
    if m < 1 {
        1
    } else if m > 12 {
        12
    } else {
        m
    }
}

pub open spec fn is_exploitation_row(e: ExploitationAccountMonthRow, row: Seq<CellValue>, idx: NameIndex) -> bool {
    &&& e.account_no@ == named_text(row, idx, "account_no"@)
    &&& e.account_label@ == named_text(row, idx, "account_label"@)
    &&& e.month == clamp_month(cell_i64(named_cell(row, idx, "month"@)) as int)
    &&& e.debit.bytes@ == named_amount(row, idx, "debit"@)
    &&& e.credit.bytes@ == named_amount(row, idx, "credit"@)
}

/// The monthly row of an operating account from a result row; the month
/// is held between 1 and 12.
pub fn exploitation_row(row: &[CellValue], indexes: &NameIndex) -> (r: ExploitationAccountMonthRow)
    ensures
        is_exploitation_row(r, row@, *indexes),
{
    let m = row_i64(row, indexes, "month");
    let month: u32 = if m < 1 {
        1
    } else if m > 12 {
        12
    } else {
        m as u32
    };
    ExploitationAccountMonthRow {
        account_no: row_text(row, indexes, "account_no"),
        account_label: row_text(row, indexes, "account_label"),
        month,
        debit: row_decimal(row, indexes, "debit"),
        credit: row_decimal(row, indexes, "credit"),
    }
}

/// The monthly rows of a query result, in order.
pub fn exploitation_rows(rows: &Vec<Vec<CellValue>>, indexes: &NameIndex) -> (r: Vec<ExploitationAccountMonthRow>)
    ensures
        r@.len() == rows@.len(),
        forall|k: int| 0 <= k < rows@.len() ==> is_exploitation_row(#[trigger] r@[k], rows@[k]@, *indexes),
{
    let mut out: Vec<ExploitationAccountMonthRow> = Vec::new();
    let mut i: usize = 0;
    while i < rows.len()
        invariant
            i <= rows@.len(),
            out@.len() == i,
            forall|k: int| 0 <= k < i ==> is_exploitation_row(#[trigger] out@[k], rows@[k]@, *indexes),
        decreases rows@.len() - i,
    {
        out.push(exploitation_row(rows[i].as_slice(), indexes));
        i = i + 1;
    }
    out
}

} // verus!
