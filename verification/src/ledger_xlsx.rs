//! The general ledger ("Grand Livre") as an XLSX workbook: entries grouped
//! by account, each account opened by a header row and closed by a total
//! row, spread over as many worksheets as the rows need.
use vstd::prelude::*;
use vstd::utf8::encode_utf8;
use crate::cells::{
    cell_bool, cell_decimal, cell_text, named_cell, row_bool, row_decimal, row_string, CellValue, NameIndex,
};
use crate::decimal::{
    decimal_is_zero, is_zero_amount, next_balance, RunningBalances, Amount, amount_text, balance_of, checked_add, checked_sub, credits_of, debits_of, decimal_difference, decimal_text,
    sum_amounts, zero_bytes,
};
use crate::text::{append_dec, dec, str_eq};
use crate::xlsx::{
    cells_view, content_types_head, content_types_xml, fits_zip32, relationships_head,
    root_rels_xml, row_bytes, sheet_close_xml, sheet_name, sheet_open_xml, sheet_path, content_type_overrides, sheet_relationships, workbook_rels_xml, write_xlsx_row, xml_escape, xml_escape_seq,
    EXCEL_MAX_ROWS, TableXlsxWriter,
};
use crate::zip::ZipStream;

verus! {

/// One row of the general ledger as the queries return it.
#[derive(Clone, Debug)]
pub struct GrandLivreRow {
    pub row_type: String,
    pub date: Option<String>,
    pub journal: Option<String>,
    pub account_no: String,
    pub account_label: String,
    pub ref_piece: Option<String>,
    pub lettrage: Option<String>,
    pub debit: Amount,
    pub credit: Amount,
    pub solde_cumule: Amount,
    pub total_debit: Option<Amount>,
    pub total_credit: Option<Amount>,
    pub solde: Option<Amount>,
}

/// What a worksheet row of the ledger stands for.
pub enum GlLine {
    /// The column titles, first row of every sheet.
    Header,
    /// "account - label", opening an account's rows.
    Account { no: Seq<char>, label: Seq<char> },
    /// One entry of the account.
    Entry { no: Seq<char>, label: Seq<char> },
    /// The account's totals, closing its rows.
    Total { no: Seq<char>, label: Seq<char> },
}

/// The cells of a row: text, and whether it is written as a number.
pub type GlCells = Seq<(Seq<char>, bool)>;

/// A worksheet row: what it stands for and its cells.
pub type GlRowLine = (GlLine, GlCells);

pub open spec fn gl_header_cells() -> GlCells {
    seq![
        ("Date"@, false),
        ("Journal"@, false),
        ("Compte"@, false),
        ("Libelle"@, false),
        ("Piece"@, false),
        ("Lettrage"@, false),
        ("Debit"@, false),
        ("Credit"@, false),
        ("Solde cumule"@, false),
    ]
}

pub open spec fn account_title(no: Seq<char>, label: Seq<char>) -> Seq<char> {
    no + " - "@ + label
}

pub open spec fn account_cells(no: Seq<char>, label: Seq<char>) -> GlCells {
    seq![
        (account_title(no, label), false),
        (""@, false),
        (""@, false),
        (""@, false),
        (""@, false),
        (""@, false),
        (""@, false),
        (""@, false),
        (""@, false),
    ]
}

pub open spec fn total_cells(no: Seq<char>, label: Seq<char>, debit: Seq<char>, credit: Seq<char>, solde: Seq<char>) -> GlCells {
    seq![
        ("Total"@, false),
        (""@, false),
        (no, false),
        (label, false),
        (""@, false),
        (""@, false),
        (debit, true),
        (credit, true),
        (solde, true),
    ]
}

/// The text of an optional column: empty when absent.
pub open spec fn opt_text(o: Option<String>) -> Seq<char> {
    match o {
        Some(s) => s@,
        None => ""@,
    }
}

pub open spec fn entry_cells(row: GrandLivreRow) -> GlCells {
    seq![
        (opt_text(row.date), false),
        (opt_text(row.journal), false),
        (row.account_no@, false),
        (row.account_label@, false),
        (opt_text(row.ref_piece), false),
        (opt_text(row.lettrage), false),
        (decimal_text(row.debit.bytes@), true),
        (decimal_text(row.credit.bytes@), true),
        (decimal_text(row.solde_cumule.bytes@), true),
    ]
}

pub open spec fn header_line() -> GlRowLine {
    (GlLine::Header, gl_header_cells())
}

pub open spec fn account_line(no: Seq<char>, label: Seq<char>) -> GlRowLine {
    (GlLine::Account { no, label }, account_cells(no, label))
}

pub open spec fn entry_line(row: GrandLivreRow) -> GlRowLine {
    (GlLine::Entry { no: row.account_no@, label: row.account_label@ }, entry_cells(row))
}

/// The total row of an account whose entries carried the given debit and
/// credit amounts: the sums of the debits and of the credits, and the
/// running balance of debit minus credit.
pub open spec fn total_line(no: Seq<char>, label: Seq<char>, entries: Seq<(Seq<u8>, Seq<u8>)>) -> GlRowLine {
    (
        GlLine::Total { no, label },
        total_cells(
            no,
            label,
            decimal_text(sum_amounts(debits_of(entries))->Some_0),
            decimal_text(sum_amounts(credits_of(entries))->Some_0),
            decimal_text(balance_of(entries)->Some_0),
        ),
    )
}

/// The account whose rows are open at the end of `lines`: an account row
/// followed only by entries of that account.
pub open spec fn open_account(lines: Seq<GlRowLine>) -> Option<(Seq<char>, Seq<char>)>
    decreases lines.len(),
{
    if lines.len() == 0 {
        None
    } else {
        match lines.last().0 {
            GlLine::Account { no, label } => Some((no, label)),
            GlLine::Entry { no, label } => if open_account(lines.drop_last()) == Some((no, label)) {
                Some((no, label))
            } else {
                None
            },
            _ => None,
        }
    }
}

/// A row may follow `before` on a sheet: never a second header; an account
/// row with its title; an entry or a total only inside its account's rows.
pub open spec fn line_follows(before: Seq<GlRowLine>, l: GlRowLine) -> bool {
    match l.0 {
        GlLine::Header => false,
        GlLine::Account { no, label } => l.1 == account_cells(no, label),
        GlLine::Entry { no, label } => {
            &&& open_account(before) == Some((no, label))
            &&& l.1.len() == 9
            &&& l.1[2] == (no, false)
            &&& l.1[3] == (label, false)
        },
        GlLine::Total { no, label } => {
            &&& open_account(before) == Some((no, label))
            &&& l.1.len() == 9
            &&& l.1[0] == ("Total"@, false)
            &&& l.1[2] == (no, false)
            &&& l.1[3] == (label, false)
        },
    }
}

/// The layout of one worksheet: the header row first, at most 1,048,576
/// rows, and every later row allowed where it stands.
pub open spec fn sheet_layout_ok(lines: Seq<GlRowLine>) -> bool {
    &&& 1 <= lines.len() <= EXCEL_MAX_ROWS
    &&& lines[0] == header_line()
    &&& forall|i: int| 1 <= i < lines.len() ==> line_follows(lines.take(i), #[trigger] lines[i])
}

/// The bytes of rows numbered from 1.
pub open spec fn numbered_rows(rows: Seq<GlCells>) -> Seq<u8>
    decreases rows.len(),
{
    if rows.len() == 0 {
        seq![]
    } else {
        numbered_rows(rows.drop_last()) + row_bytes(rows.len() as nat, rows.last())
    }
}

pub open spec fn lines_cells(lines: Seq<GlRowLine>) -> Seq<GlCells> {
    lines.map_values(|l: GlRowLine| l.1)
}

/// The data of a worksheet entry holding `lines`, before its closing tags.
pub open spec fn gl_sheet_bytes(lines: Seq<GlRowLine>) -> Seq<u8> {
    encode_utf8(sheet_open_xml()) + numbered_rows(lines_cells(lines))
}

/// `sheets` with `l` added to the last sheet.
pub open spec fn append_line(sheets: Seq<Seq<GlRowLine>>, l: GlRowLine) -> Seq<Seq<GlRowLine>> {
    sheets.update(sheets.len() - 1, sheets.last().push(l))
}

/// `sheets` followed by a new sheet: the header row, then `lines`.
pub open spec fn new_sheet(sheets: Seq<Seq<GlRowLine>>, lines: Seq<GlRowLine>) -> Seq<Seq<GlRowLine>> {
    sheets.push(seq![header_line()] + lines)
}

/// The last sheet has room for `n` more rows.
pub open spec fn has_room(sheets: Seq<Seq<GlRowLine>>, n: nat) -> bool {
    sheets.last().len() + n <= EXCEL_MAX_ROWS
}

/// The account rows repeated at the top of a new sheet.
pub open spec fn repeated_lines(account: Option<(Seq<char>, Seq<char>)>) -> Seq<GlRowLine> {
    match account {
        Some(a) => seq![account_line(a.0, a.1)],
        None => seq![],
    }
}

/// The sheets after the open account, if any, is closed by its total row.
pub open spec fn subtotal_layout(
    sheets: Seq<Seq<GlRowLine>>,
    account: Option<(Seq<char>, Seq<char>)>,
    entries: Seq<(Seq<u8>, Seq<u8>)>,
) -> Seq<Seq<GlRowLine>> {
    match account {
        None => sheets,
        Some(a) => if has_room(sheets, 1) {
            append_line(sheets, total_line(a.0, a.1, entries))
        } else {
            new_sheet(sheets, seq![account_line(a.0, a.1), total_line(a.0, a.1, entries)])
        },
    }
}

/// The sheets after an account is opened: its row goes on the last sheet
/// when two more rows fit there, else on a new sheet.
pub open spec fn opening_layout(sheets: Seq<Seq<GlRowLine>>, no: Seq<char>, label: Seq<char>) -> Seq<Seq<GlRowLine>> {
    if has_room(sheets, 2) {
        append_line(sheets, account_line(no, label))
    } else {
        new_sheet(sheets, seq![account_line(no, label)])
    }
}

/// The sheets after an entry of the open account is written.
pub open spec fn entry_layout(sheets: Seq<Seq<GlRowLine>>, row: GrandLivreRow) -> Seq<Seq<GlRowLine>> {
    if has_room(sheets, 1) {
        append_line(sheets, entry_line(row))
    } else {
        new_sheet(sheets, seq![account_line(row.account_no@, row.account_label@), entry_line(row)])
    }
}

/// Bytes of one row whose cell texts have at most `l` characters.
pub open spec fn line_budget(l: nat) -> nat {
    100 + 26 * (250 + 24 * l)
}

/// Bytes of closing a sheet and beginning the next with at most two rows.
pub open spec fn switch_budget(l: nat) -> nat {
    4000 + 2 * line_budget(l)
}

/// Every cell text has at most `l` characters.
pub open spec fn cells_within(cells: GlCells, l: nat) -> bool {
    forall|i: int| 0 <= i < cells.len() ==> (#[trigger] cells[i]).0.len() <= l
}

proof fn lemma_numbered_rows_push(rows: Seq<GlCells>, c: GlCells)
    ensures
        numbered_rows(rows.push(c)) == numbered_rows(rows) + row_bytes((rows.len() + 1) as nat, c),
{
    assert(rows.push(c).drop_last() =~= rows);
}

proof fn lemma_sheet_bytes_push(lines: Seq<GlRowLine>, l: GlRowLine)
    ensures
        gl_sheet_bytes(lines.push(l)) == gl_sheet_bytes(lines) + row_bytes((lines.len() + 1) as nat, l.1),
{
    assert(lines_cells(lines.push(l)) =~= lines_cells(lines).push(l.1));
    lemma_numbered_rows_push(lines_cells(lines), l.1);
}

/// Pushing an allowed row keeps a sheet's layout.
proof fn lemma_layout_push(lines: Seq<GlRowLine>, l: GlRowLine)
    requires
        sheet_layout_ok(lines),
        lines.len() < EXCEL_MAX_ROWS,
        line_follows(lines, l),
    ensures
        sheet_layout_ok(lines.push(l)),
{
    let n = lines.push(l);
    assert forall|i: int| 1 <= i < n.len() implies line_follows(n.take(i), #[trigger] n[i]) by {
        if i < lines.len() {
            assert(n.take(i) =~= lines.take(i));
            assert(n[i] == lines[i]);
        } else {
            assert(n.take(i) =~= lines);
        }
    }
}

proof fn lemma_header_within(l: nat)
    requires
        l >= 12,
    ensures
        cells_within(gl_header_cells(), l),
        gl_header_cells().len() == 9,
{
    reveal_strlit("Date");
    reveal_strlit("Journal");
    reveal_strlit("Compte");
    reveal_strlit("Libelle");
    reveal_strlit("Piece");
    reveal_strlit("Lettrage");
    reveal_strlit("Debit");
    reveal_strlit("Credit");
    reveal_strlit("Solde cumule");
}

proof fn lemma_account_within(no: Seq<char>, label: Seq<char>, l: nat)
    requires
        no.len() + label.len() + 3 <= l,
    ensures
        cells_within(account_cells(no, label), l),
        account_cells(no, label).len() == 9,
{
    reveal_strlit(" - ");
    reveal_strlit("");
}

/// The account of `row` is not the open one.
pub open spec fn account_changes(account: Option<(Seq<char>, Seq<char>)>, row: GrandLivreRow) -> bool {
    account != Some((row.account_no@, row.account_label@))
}

/// The sheets once `row` is written: when its account is not the open one,
/// the open account is closed by its total row and the new account's row
/// opens its rows; the entry row follows.
pub open spec fn write_entry_layout(
    sheets: Seq<Seq<GlRowLine>>,
    account: Option<(Seq<char>, Seq<char>)>,
    entries: Seq<(Seq<u8>, Seq<u8>)>,
    row: GrandLivreRow,
) -> Seq<Seq<GlRowLine>> {
    if account_changes(account, row) {
        entry_layout(
            opening_layout(subtotal_layout(sheets, account, entries), row.account_no@, row.account_label@),
            row,
        )
    } else {
        entry_layout(sheets, row)
    }
}

/// Debit and credit of the open account's entries once `row` is written.
pub open spec fn entries_after(
    account: Option<(Seq<char>, Seq<char>)>,
    entries: Seq<(Seq<u8>, Seq<u8>)>,
    row: GrandLivreRow,
) -> Seq<(Seq<u8>, Seq<u8>)> {
    (if account_changes(account, row) {
        Seq::empty()
    } else {
        entries
    }).push((row.debit.bytes@, row.credit.bytes@))
}

/// Bytes of an optional text.
pub open spec fn opt_bytes_len(o: Option<String>) -> nat {
    match o {
        Some(s) => encode_utf8(s@).len(),
        None => 0,
    }
}

/// The limits checked before a row is written.
pub open spec fn entry_size_ok(archive_len: nat, sheet_count: nat, row: GrandLivreRow) -> bool {
    &&& archive_len <= GL_POSITION_LIMIT
    &&& sheet_count < GL_MAX_SHEETS
    &&& encode_utf8(row.account_no@).len() <= GL_TEXT_LIMIT
    &&& encode_utf8(row.account_label@).len() <= GL_TEXT_LIMIT
    &&& opt_bytes_len(row.date) <= GL_TEXT_LIMIT
    &&& opt_bytes_len(row.journal) <= GL_TEXT_LIMIT
    &&& opt_bytes_len(row.ref_piece) <= GL_TEXT_LIMIT
    &&& opt_bytes_len(row.lettrage) <= GL_TEXT_LIMIT
}

/// A bound on every cell text written for `row`.
pub open spec fn gl_text_bound(row: GrandLivreRow, account: Option<(Seq<char>, Seq<char>)>) -> nat {
    row.account_no@.len() + row.account_label@.len() + opt_text(row.date).len() + opt_text(row.journal).len()
        + opt_text(row.ref_piece).len() + opt_text(row.lettrage).len() + match account {
        Some(a) => a.0.len() + a.1.len(),
        None => 0,
    } + 120
}

/// Bytes written for one row: at most one new sheet and four rows.
pub open spec fn entry_budget(l: nat) -> nat {
    3 * switch_budget(l) + 3 * line_budget(l) + 100
}

/// Name of the i-th sheet of the ledger workbook.
pub open spec fn gl_sheet_name(i: nat) -> Seq<char> {
    if i == 1 {
        "Grand Livre"@
    } else {
        "Grand Livre "@ + dec(i)
    }
}

pub open spec fn gl_sheet_entry(i: nat) -> Seq<char> {
    "<sheet name=\""@ + xml_escape_seq(gl_sheet_name(i)) + "\" sheetId=\""@ + dec(i) + "\" r:id=\"rId"@ + dec(i)
        + "\"/>"@
}

pub open spec fn gl_sheet_entries(n: nat) -> Seq<char>
    decreases n,
{
    if n == 0 {
        seq![]
    } else {
        gl_sheet_entries((n - 1) as nat) + gl_sheet_entry(n)
    }
}

/// `xl/workbook.xml` of a ledger workbook with `n` sheets.
pub open spec fn gl_workbook_xml(n: nat) -> Seq<char> {
    "<?xml version=\"1.0\" encoding=\"UTF-8\" standalone=\"yes\"?><workbook xmlns=\"http://schemas.openxmlformats.org/spreadsheetml/2006/main\" xmlns:r=\"http://schemas.openxmlformats.org/officeDocument/2006/relationships\"><sheets>"@
        + gl_sheet_entries(n) + "</sheets></workbook>"@
}

/// The sheets of the finished workbook: those written, the open account
/// closed by its total row.
pub open spec fn final_sheets(
    sheets: Seq<Seq<GlRowLine>>,
    account: Option<(Seq<char>, Seq<char>)>,
    entries: Seq<(Seq<u8>, Seq<u8>)>,
) -> Seq<Seq<GlRowLine>> {
    subtotal_layout(sheets, account, entries)
}

/// The archive `z` is the archive `a` with the workbook closed: every sheet
/// of `sheets` a finished entry holding its rows, then the four package parts.
pub open spec fn gl_workbook_closed(a: ZipStream, sheets: Seq<Seq<GlRowLine>>, z: ZipStream) -> bool {
    let n = sheets.len() as int;
    &&& z.wf()
    &&& !z.is_open()
    &&& zip_extends(a, z)
    &&& z.entries().len() == n + 4
    &&& z.entry_data().len() == n + 4
    &&& forall|k: int|
        0 <= k < n ==> (#[trigger] z.entries()[k]).name@ == sheet_path((k + 1) as nat) && z.entry_data()[k]
            == gl_sheet_bytes(sheets[k]) + encode_utf8(sheet_close_xml())
    &&& z.entries()[n].name@ == "[Content_Types].xml"@
    &&& z.entries()[n + 1].name@ == "_rels/.rels"@
    &&& z.entries()[n + 2].name@ == "xl/workbook.xml"@
    &&& z.entries()[n + 3].name@ == "xl/_rels/workbook.xml.rels"@
    &&& z.entry_data()[n] == encode_utf8(content_types_xml(n as nat))
    &&& z.entry_data()[n + 1] == encode_utf8(root_rels_xml())
    &&& z.entry_data()[n + 2] == encode_utf8(gl_workbook_xml(n as nat))
    &&& z.entry_data()[n + 3] == encode_utf8(workbook_rels_xml(n as nat))
}

/// A bound on every cell text of the total row written by `finish`.
pub open spec fn finish_text_bound(account: Option<(Seq<char>, Seq<char>)>) -> nat {
    match account {
        Some(a) => a.0.len() + a.1.len() + 120,
        None => 120,
    }
}

/// A column read as text, empty when it reads as nothing.
pub open spec fn text_or_empty(t: Option<Seq<char>>) -> Seq<char> {
    match t {
        Some(s) => s,
        None => ""@,
    }
}

pub open spec fn opt_view(o: Option<String>) -> Option<Seq<char>> {
    match o {
        Some(s) => Some(s@),
        None => None,
    }
}

/// The account number of a result row of the ledger query.
pub open spec fn row_account(row: Seq<CellValue>, idx: NameIndex) -> Seq<char> {
    text_or_empty(cell_text(named_cell(row, idx, "account_no"@)))
}

/// The balance an account had before the row: zero before its first entry.
pub open spec fn balance_before(balances: RunningBalances, account: Seq<char>) -> Seq<u8> {
    match balances.balance(account) {
        Some(b) => b,
        None => zero_bytes(),
    }
}

/// The running balance of the row's account once the row is counted.
pub open spec fn row_balance(row: Seq<CellValue>, idx: NameIndex, balances: RunningBalances) -> Option<Seq<u8>> {
    next_balance(
        balance_before(balances, row_account(row, idx)),
        cell_decimal(named_cell(row, idx, "debit"@)),
        cell_decimal(named_cell(row, idx, "credit"@)),
    )
}

/// Builds the ledger entry of a result row of the ledger query, bringing
/// the running balance of its account up to date.
pub fn ledger_entry_from_row(row: &[CellValue], indexes: &NameIndex, balances: &mut RunningBalances) -> (r: Result<GrandLivreRow, String>)
    ensures
        row_balance(row@, *indexes, *old(balances)) is Some <==> r is Ok,
        r is Err ==> r->Err_0@ == "Subtraction overflowed"@ || r->Err_0@ == "Addition overflowed"@,
        r is Ok ==> {
            let e = r->Ok_0;
            let account = row_account(row@, *indexes);
            &&& e.row_type@ == "entry"@
            &&& opt_view(e.date) == cell_text(named_cell(row@, *indexes, "date"@))
            &&& opt_view(e.journal) == cell_text(named_cell(row@, *indexes, "journal"@))
            &&& e.account_no@ == account
            &&& e.account_label@ == text_or_empty(cell_text(named_cell(row@, *indexes, "account_label"@)))
            &&& opt_view(e.ref_piece) == cell_text(named_cell(row@, *indexes, "ref_piece"@))
            &&& opt_view(e.lettrage) == cell_text(named_cell(row@, *indexes, "lettrage"@))
            &&& e.debit.bytes@ == cell_decimal(named_cell(row@, *indexes, "debit"@))
            &&& e.credit.bytes@ == cell_decimal(named_cell(row@, *indexes, "credit"@))
            &&& Some(e.solde_cumule.bytes@) == row_balance(row@, *indexes, *old(balances))
            &&& e.total_debit is None
            &&& e.total_credit is None
            &&& e.solde is None
            &&& final(balances).balance(account) == Some(e.solde_cumule.bytes@)
            &&& forall|a: Seq<char>| a != account ==> #[trigger] final(balances).balance(a) == old(balances).balance(a)
        },
{
    proof {
        reveal_strlit("");
    }
    let account_no = match row_string(row, indexes, "account_no") {
        Some(s) => s,
        None => String::new(),
    };
    let debit = row_decimal(row, indexes, "debit");
    let credit = row_decimal(row, indexes, "credit");
    assert(account_no@ == row_account(row@, *indexes));
    assert(balance_before(*balances, account_no@) == match balances.balance(account_no@) {
        Some(b) => b,
        None => zero_bytes(),
    });
    let balance = match balances.advance(account_no.as_str(), &debit, &credit) {
        Ok(b) => b,
        Err(e) => {
            return Err(e);
        },
    };
    let account_label = match row_string(row, indexes, "account_label") {
        Some(s) => s,
        None => String::new(),
    };
    Ok(GrandLivreRow {
        row_type: String::from_str("entry"),
        date: row_string(row, indexes, "date"),
        journal: row_string(row, indexes, "journal"),
        account_no,
        account_label,
        ref_piece: row_string(row, indexes, "ref_piece"),
        lettrage: row_string(row, indexes, "lettrage"),
        debit,
        credit,
        solde_cumule: balance,
        total_debit: None,
        total_credit: None,
        solde: None,
    })
}

/// A total column of a ledger row: present when the query has the column
/// and the row is a subtotal or the amount is not zero.
pub open spec fn ledger_total(row: Seq<CellValue>, idx: NameIndex, name: Seq<char>, subtotal: bool) -> Option<Seq<u8>> {
    if idx.lookup(name) is Some {
        let v = cell_decimal(named_cell(row, idx, name));
        if subtotal || !decimal_is_zero(v) {
            Some(v)
        } else {
            None
        }
    } else {
        None
    }
}

pub open spec fn opt_amount_view(o: Option<Amount>) -> Option<Seq<u8>> {
    match o {
        Some(a) => Some(a.bytes@),
        None => None,
    }
}

/// The columns shared by every ledger row read from a query.
pub open spec fn ledger_columns(e: GrandLivreRow, row: Seq<CellValue>, idx: NameIndex) -> bool {
    &&& opt_view(e.date) == cell_text(named_cell(row, idx, "date"@))
    &&& opt_view(e.journal) == cell_text(named_cell(row, idx, "journal"@))
    &&& e.account_no@ == text_or_empty(cell_text(named_cell(row, idx, "account_no"@)))
    &&& e.account_label@ == text_or_empty(cell_text(named_cell(row, idx, "account_label"@)))
    &&& opt_view(e.ref_piece) == cell_text(named_cell(row, idx, "ref_piece"@))
    &&& opt_view(e.lettrage) == cell_text(named_cell(row, idx, "lettrage"@))
    &&& e.debit.bytes@ == cell_decimal(named_cell(row, idx, "debit"@))
    &&& e.credit.bytes@ == cell_decimal(named_cell(row, idx, "credit"@))
    &&& e.solde_cumule.bytes@ == cell_decimal(named_cell(row, idx, "solde_cumule"@))
}

/// A ledger row of the ledger report: an entry or an account subtotal.
pub open spec fn is_report_ledger_row(e: GrandLivreRow, row: Seq<CellValue>, idx: NameIndex) -> bool {
    let subtotal = cell_bool(named_cell(row, idx, "is_subtotal_row"@));
    &&& ledger_columns(e, row, idx)
    &&& e.row_type@ == if subtotal {
        "subtotal"@
    } else {
        "entry"@
    }
    &&& opt_amount_view(e.total_debit) == ledger_total(row, idx, "total_debit"@, subtotal)
    &&& opt_amount_view(e.total_credit) == ledger_total(row, idx, "total_credit"@, subtotal)
    &&& opt_amount_view(e.solde) == ledger_total(row, idx, "solde"@, subtotal)
}

fn ledger_total_of(row: &[CellValue], indexes: &NameIndex, name: &str, subtotal: bool) -> (r: Option<Amount>)
    ensures
        opt_amount_view(r) == ledger_total(row@, *indexes, name@, subtotal),
{
    match indexes.get(name) {
        Some(_) => {
            let v = row_decimal(row, indexes, name);
            if subtotal || !is_zero_amount(&v) {
                Some(v)
            } else {
                None
            }
        },
        None => None,
    }
}

/// The ledger row of a row of the ledger report query.
pub fn report_ledger_row(row: &[CellValue], indexes: &NameIndex) -> (r: GrandLivreRow)
    ensures
        is_report_ledger_row(r, row@, *indexes),
{
    proof {
        reveal_strlit("");
    }
    assert(""@ == Seq::<char>::empty());
    let is_subtotal = row_bool(row, indexes, "is_subtotal_row");
    let account_no = crate::rows::row_text(row, indexes, "account_no");
    let account_label = crate::rows::row_text(row, indexes, "account_label");
    let r = GrandLivreRow {
        row_type: if is_subtotal {
            String::from_str("subtotal")
        } else {
            String::from_str("entry")
        },
        date: row_string(row, indexes, "date"),
        journal: row_string(row, indexes, "journal"),
        account_no,
        account_label,
        ref_piece: row_string(row, indexes, "ref_piece"),
        lettrage: row_string(row, indexes, "lettrage"),
        debit: row_decimal(row, indexes, "debit"),
        credit: row_decimal(row, indexes, "credit"),
        solde_cumule: row_decimal(row, indexes, "solde_cumule"),
        total_debit: ledger_total_of(row, indexes, "total_debit", is_subtotal),
        total_credit: ledger_total_of(row, indexes, "total_credit", is_subtotal),
        solde: ledger_total_of(row, indexes, "solde", is_subtotal),
    };
    r
}

/// The ledger rows of the ledger report query, in order.
pub fn report_ledger_rows(rows: &Vec<Vec<CellValue>>, indexes: &NameIndex) -> (r: Vec<GrandLivreRow>)
    ensures
        r@.len() == rows@.len(),
        forall|k: int| 0 <= k < rows@.len() ==> is_report_ledger_row(#[trigger] r@[k], rows@[k]@, *indexes),
{
    let mut out: Vec<GrandLivreRow> = Vec::new();
    let mut i: usize = 0;
    while i < rows.len()
        invariant
            i <= rows@.len(),
            out@.len() == i,
            forall|k: int| 0 <= k < i ==> is_report_ledger_row(#[trigger] out@[k], rows@[k]@, *indexes),
        decreases rows@.len() - i,
    {
        out.push(report_ledger_row(rows[i].as_slice(), indexes));
        i = i + 1;
    }
    out
}

/// An entry row of a page of the ledger, its balance read from the query.
pub open spec fn is_page_ledger_row(e: GrandLivreRow, row: Seq<CellValue>, idx: NameIndex) -> bool {
    &&& ledger_columns(e, row, idx)
    &&& e.row_type@ == "entry"@
    &&& e.total_debit is None
    &&& e.total_credit is None
    &&& e.solde is None
}

/// The ledger rows of a page query, in order.
pub fn page_ledger_rows(rows: &Vec<Vec<CellValue>>, indexes: &NameIndex) -> (r: Vec<GrandLivreRow>)
    ensures
        r@.len() == rows@.len(),
        forall|k: int| 0 <= k < rows@.len() ==> is_page_ledger_row(#[trigger] r@[k], rows@[k]@, *indexes),
{
    proof {
        reveal_strlit("");
    }
    let mut out: Vec<GrandLivreRow> = Vec::new();
    let mut i: usize = 0;
    while i < rows.len()
        invariant
            i <= rows@.len(),
            out@.len() == i,
            ""@ == Seq::<char>::empty(),
            forall|k: int| 0 <= k < i ==> is_page_ledger_row(#[trigger] out@[k], rows@[k]@, *indexes),
        decreases rows@.len() - i,
    {
        let row = rows[i].as_slice();
        let account_no = match row_string(row, indexes, "account_no") {
            Some(s) => s,
            None => String::new(),
        };
        let account_label = match row_string(row, indexes, "account_label") {
            Some(s) => s,
            None => String::new(),
        };
        out.push(
            GrandLivreRow {
                row_type: String::from_str("entry"),
                date: row_string(row, indexes, "date"),
                journal: row_string(row, indexes, "journal"),
                account_no,
                account_label,
                ref_piece: row_string(row, indexes, "ref_piece"),
                lettrage: row_string(row, indexes, "lettrage"),
                debit: row_decimal(row, indexes, "debit"),
                credit: row_decimal(row, indexes, "credit"),
                solde_cumule: row_decimal(row, indexes, "solde_cumule"),
                total_debit: None,
                total_credit: None,
                solde: None,
            },
        );
        i = i + 1;
    }
    out
}

/// `b` continues the archive `a`: its bytes start with those of `a`, and what
/// it has not handed out yet is what `a` had not, followed by the new bytes.
pub open spec fn zip_extends(a: ZipStream, b: ZipStream) -> bool {
    &&& a.bytes().len() <= b.bytes().len()
    &&& b.bytes().take(a.bytes().len() as int) == a.bytes()
    &&& b.pending() == a.pending() + b.bytes().skip(a.bytes().len() as int)
}

proof fn lemma_extends_trans(a: ZipStream, b: ZipStream, c: ZipStream)
    requires
        zip_extends(a, b),
        zip_extends(b, c),
    ensures
        zip_extends(a, c),
{
    assert(c.bytes().take(a.bytes().len() as int) =~= b.bytes().take(a.bytes().len() as int));
    assert(c.bytes().skip(a.bytes().len() as int) =~= b.bytes().skip(a.bytes().len() as int) + c.bytes().skip(
        b.bytes().len() as int,
    ));
    assert(c.pending() =~= a.pending() + c.bytes().skip(a.bytes().len() as int));
}

proof fn lemma_extends_refl(a: ZipStream)
    ensures
        zip_extends(a, a),
{
    assert(a.bytes().take(a.bytes().len() as int) =~= a.bytes());
    assert(a.bytes().skip(a.bytes().len() as int) =~= Seq::<u8>::empty());
    assert(a.pending() + Seq::<u8>::empty() =~= a.pending());
}

proof fn lemma_extends_append(a: ZipStream, b: ZipStream, x: Seq<u8>)
    requires
        b.bytes() == a.bytes() + x,
        b.pending() == a.pending() + x,
    ensures
        zip_extends(a, b),
{
    assert(b.bytes().take(a.bytes().len() as int) =~= a.bytes());
    assert(b.bytes().skip(a.bytes().len() as int) =~= x);
}

/// Sizes of the fixed parts written when a sheet begins or ends.
proof fn lemma_sheet_parts_len(k: nat)
    requires
        1 <= k <= GL_MAX_SHEETS + 1,
    ensures
        crate::zip::local_header(encode_utf8(sheet_path(k))).len() <= 200,
        encode_utf8(sheet_open_xml()).len() <= 800,
        encode_utf8(sheet_close_xml()).len() <= 100,
{
    assert(crate::xlsx::ten_pow(5) == 100_000) by {
        reveal_with_fuel(crate::xlsx::ten_pow, 6);
    }
    crate::xlsx::lemma_dec_len_le(k, 5);
    reveal_strlit("xl/worksheets/sheet");
    reveal_strlit(".xml");
    reveal_strlit("<?xml version=\"1.0\" encoding=\"UTF-8\" standalone=\"yes\"?><worksheet xmlns=\"http://schemas.openxmlformats.org/spreadsheetml/2006/main\"><sheetData>");
    reveal_strlit("</sheetData></worksheet>");
    crate::text::lemma_encode_utf8_len(sheet_path(k));
    crate::text::lemma_encode_utf8_len(sheet_open_xml());
    crate::text::lemma_encode_utf8_len(sheet_close_xml());
}

/// Writes the ledger of an export into an XLSX package, a new worksheet
/// beginning whenever one is full; an account cut by a new sheet has its
/// header row repeated there.
pub struct GrandLivreXlsxWriter {
    zip: ZipStream,
    sheet_index: u32,
    current_row: u32,
    current_account: Option<GrandLivreTotals>,
    sheets: Ghost<Seq<Seq<GlRowLine>>>,
    entries: Ghost<Seq<(Seq<u8>, Seq<u8>)>>,
}

/// The open account and its running totals.
pub struct GrandLivreTotals {
    account_no: String,
    account_label: String,
    total_debit: Amount,
    total_credit: Amount,
    solde: Amount,
}

/// The most sheets a ZIP32 archive can hold beside the package parts.
pub const GL_MAX_SHEETS: u32 = 65_000;

/// Writing stops with an error past this archive size.
pub const GL_POSITION_LIMIT: u64 = 0x4000_0000_0000_0000;

/// Writing stops with an error for a text longer than this many bytes.
pub const GL_TEXT_LIMIT: u64 = 0x1_0000_0000;

impl GrandLivreXlsxWriter {
    /// Everything but the tie between the open account and the rows.
    pub closed spec fn inv(&self) -> bool {
        &&& self.zip.wf()
        &&& self.zip.is_open()
        &&& 1 <= self.sheet_index <= GL_MAX_SHEETS
        &&& self.sheets@.len() == self.sheet_index
        &&& forall|k: int| 0 <= k < self.sheets@.len() ==> sheet_layout_ok(#[trigger] self.sheets@[k])
        &&& self.zip.entries().len() == self.sheet_index - 1
        &&& forall|k: int|
            0 <= k < self.zip.entries().len() ==> (#[trigger] self.zip.entries()[k]).name@ == sheet_path(
                (k + 1) as nat,
            ) && self.zip.entry_data()[k] == gl_sheet_bytes(self.sheets@[k]) + encode_utf8(sheet_close_xml())
        &&& self.zip.current_name() == sheet_path(self.sheet_index as nat)
        &&& self.zip.current_data() == gl_sheet_bytes(self.sheets@.last())
        &&& self.current_row == self.sheets@.last().len()
    }

    /// The open account, if any, is the one whose rows are open on the last
    /// sheet, and its totals are those of the entries written for it.
    pub closed spec fn account_ok(&self) -> bool {
        match self.current_account {
            None => open_account(self.sheets@.last()) is None && self.entries@.len() == 0,
            Some(t) => {
                &&& open_account(self.sheets@.last()) == Some((t.account_no@, t.account_label@))
                &&& t.account_no@.len() <= GL_TEXT_LIMIT
                &&& t.account_label@.len() <= GL_TEXT_LIMIT
                &&& sum_amounts(debits_of(self.entries@)) == Some(t.total_debit.bytes@)
                &&& sum_amounts(credits_of(self.entries@)) == Some(t.total_credit.bytes@)
                &&& balance_of(self.entries@) == Some(t.solde.bytes@)
            },
        }
    }

    pub open spec fn wf(&self) -> bool {
        self.inv() && self.account_ok()
    }

    /// The archive being written.
    pub closed spec fn archive(&self) -> ZipStream {
        self.zip
    }

    /// The rows of every sheet so far, the last sheet being open.
    pub closed spec fn sheets(&self) -> Seq<Seq<GlRowLine>> {
        self.sheets@
    }

    /// The account whose rows are open: number and label.
    pub closed spec fn account(&self) -> Option<(Seq<char>, Seq<char>)> {
        match self.current_account {
            Some(t) => Some((t.account_no@, t.account_label@)),
            None => None,
        }
    }

    /// Debit and credit of each entry written for the open account.
    pub closed spec fn account_entries(&self) -> Seq<(Seq<u8>, Seq<u8>)> {
        self.entries@
    }

    /// Law: every worksheet starts with the header row, holds at most
    /// 1,048,576 rows, and has entries and totals only inside the rows of
    /// their account; each finished sheet is a ZIP entry of the archive
    /// holding exactly its rows.
    pub proof fn lemma_layout(&self)
        requires
            self.wf(),
        ensures
            self.sheets().len() >= 1,
            forall|k: int| 0 <= k < self.sheets().len() ==> sheet_layout_ok(#[trigger] self.sheets()[k]),
            self.archive().entries().len() == self.sheets().len() - 1,
            forall|k: int|
                0 <= k < self.archive().entries().len() ==> (#[trigger] self.archive().entries()[k]).name@
                    == sheet_path((k + 1) as nat) && self.archive().entry_data()[k] == gl_sheet_bytes(
                    self.sheets()[k],
                ) + encode_utf8(sheet_close_xml()),
            self.archive().current_data() == gl_sheet_bytes(self.sheets().last()),
            self.account() == open_account(self.sheets().last()),
    {
    }

    fn header_refs() -> (v: Vec<(&'static str, bool)>)
        ensures
            cells_view(v@) == gl_header_cells(),
            v@.len() == 9,
    {
        let mut v: Vec<(&'static str, bool)> = Vec::new();
        v.push(("Date", false));
        v.push(("Journal", false));
        v.push(("Compte", false));
        v.push(("Libelle", false));
        v.push(("Piece", false));
        v.push(("Lettrage", false));
        v.push(("Debit", false));
        v.push(("Credit", false));
        v.push(("Solde cumule", false));
        assert(cells_view(v@) =~= gl_header_cells());
        v
    }

    /// Begins a workbook whose first sheet holds the header row.
    pub fn new() -> (r: Result<Self, String>)
        ensures
            r is Ok,
            r->Ok_0.wf(),
            r->Ok_0.sheets() == seq![seq![header_line()]],
            r->Ok_0.account() is None,
            r->Ok_0.archive().entries().len() == 0,
            r->Ok_0.archive().bytes() == crate::zip::local_header(encode_utf8(sheet_path(1))) + gl_sheet_bytes(
                seq![header_line()],
            ),
            r->Ok_0.archive().pending() == r->Ok_0.archive().bytes(),
    {
        proof {
            lemma_sheet_parts_len(1);
            lemma_header_within(12);
            crate::xlsx::lemma_row_bytes_bound(1, gl_header_cells(), 12);
        }
        let mut zip = ZipStream::new();
        let path = TableXlsxWriter::write_sheet_path(1);
        let _ = zip.start_entry(path.as_str());
        let _ = zip.write_entry_data(
            "<?xml version=\"1.0\" encoding=\"UTF-8\" standalone=\"yes\"?><worksheet xmlns=\"http://schemas.openxmlformats.org/spreadsheetml/2006/main\"><sheetData>".as_bytes(),
        );
        let header = Self::header_refs();
        let _ = write_xlsx_row(&mut zip, 1, header.as_slice());
        let w = GrandLivreXlsxWriter {
            zip,
            sheet_index: 1,
            current_row: 1,
            current_account: None,
            sheets: Ghost(Seq::empty().push(Seq::empty().push(header_line()))),
            entries: Ghost(Seq::empty()),
        };
        proof {
            let first = seq![header_line()];
            assert(lines_cells(first) =~= seq![gl_header_cells()]);
            assert(seq![gl_header_cells()].drop_last() =~= Seq::<GlCells>::empty());
            assert(numbered_rows(Seq::<GlCells>::empty()) =~= Seq::<u8>::empty());
            assert(w.zip.current_data() =~= gl_sheet_bytes(first));
            assert(w.zip.bytes() =~= crate::zip::local_header(encode_utf8(sheet_path(1))) + gl_sheet_bytes(first));
            assert(w.zip.pending() =~= w.zip.bytes());
            assert(sheet_layout_ok(w.sheets@[0]));
        }
        Ok(w)
    }

    /// Number of sheets begun so far.
    pub fn sheet_count(&self) -> (n: u32)
        requires
            self.wf(),
        ensures
            n == self.sheets().len(),
    {
        self.sheet_index
    }

    /// Hands out the bytes written since the last flush.
    pub fn flush(&mut self) -> (out: Result<Vec<u8>, String>)
        requires
            old(self).wf(),
        ensures
            out is Ok,
            final(self).wf(),
            out->Ok_0@ == old(self).archive().pending(),
            final(self).archive().pending() == Seq::<u8>::empty(),
            final(self).archive().bytes() == old(self).archive().bytes(),
            final(self).sheets() == old(self).sheets(),
            final(self).account() == old(self).account(),
            final(self).account_entries() == old(self).account_entries(),
    {
        Ok(self.zip.flush())
    }

    /// Closes the open sheet and begins the next with the header row.
    #[verifier::rlimit(30)]
    fn open_next_sheet(&mut self, l: Ghost<nat>) -> (r: Result<(), String>)
        requires
            old(self).inv(),
            old(self).sheet_index < GL_MAX_SHEETS,
            l@ >= 12,
            old(self).zip.bytes().len() + switch_budget(l@) <= u64::MAX,
        ensures
            old(self).zip.current_data().len() + encode_utf8(sheet_close_xml()).len() <= u32::MAX <==> r is Ok,
            r is Err ==> r->Err_0@ == "XLSX package is larger than ZIP32 supports"@,
            r is Ok ==> {
                &&& final(self).inv()
                &&& final(self).sheets@ == new_sheet(old(self).sheets@, seq![])
                &&& zip_extends(old(self).zip, final(self).zip)
                &&& final(self).zip.bytes().len() + line_budget(l@) <= old(self).zip.bytes().len() + switch_budget(l@)
                &&& final(self).zip.current_data().len() + line_budget(l@) <= switch_budget(l@)
                &&& final(self).sheet_index == old(self).sheet_index + 1
                &&& final(self).current_account == old(self).current_account
                &&& final(self).entries == old(self).entries
            },
    {
        proof {
            lemma_sheet_parts_len(self.sheet_index as nat);
            lemma_sheet_parts_len((self.sheet_index + 1) as nat);
            lemma_header_within(l@);
            crate::xlsx::lemma_row_bytes_bound(1, gl_header_cells(), l@);
            reveal_strlit("</sheetData></worksheet>");
        }
        let ghost z0 = self.zip;
        proof {
            z0.lemma_entries_placed();
        }
        let _ = self.zip.write_entry_data("</sheetData></worksheet>".as_bytes());
        let ghost z1 = self.zip;
        self.zip.finish_entry()?;
        let ghost z2 = self.zip;
        let ghost old_sheets = self.sheets@;
        self.sheet_index = self.sheet_index + 1;
        let path = TableXlsxWriter::write_sheet_path(self.sheet_index);
        let _ = self.zip.start_entry(path.as_str());
        let ghost z3 = self.zip;
        let _ = self.zip.write_entry_data(
            "<?xml version=\"1.0\" encoding=\"UTF-8\" standalone=\"yes\"?><worksheet xmlns=\"http://schemas.openxmlformats.org/spreadsheetml/2006/main\"><sheetData>".as_bytes(),
        );
        let ghost z4 = self.zip;
        let header = Self::header_refs();
        let _ = write_xlsx_row(&mut self.zip, 1, header.as_slice());
        self.current_row = 1;
        proof {
            self.zip.lemma_entries_placed();
            lemma_extends_append(z0, z1, encode_utf8(sheet_close_xml()));
            lemma_extends_append(
                z1,
                z2,
                crate::zip::data_descriptor(
                    crate::zip::crc32(z1.current_data()),
                    z1.current_data().len() as u32,
                    z1.current_data().len() as u32,
                ),
            );
            lemma_extends_append(z2, z3, crate::zip::local_header(encode_utf8(path@)));
            lemma_extends_append(z3, z4, encode_utf8(sheet_open_xml()));
            lemma_extends_append(z4, self.zip, row_bytes(1, gl_header_cells()));
            lemma_extends_trans(z0, z1, z2);
            lemma_extends_trans(z0, z2, z3);
            lemma_extends_trans(z0, z3, z4);
            lemma_extends_trans(z0, z4, self.zip);
            let first = seq![header_line()];
            assert(lines_cells(first) =~= seq![gl_header_cells()]);
            assert(seq![gl_header_cells()].drop_last() =~= Seq::<GlCells>::empty());
            assert(numbered_rows(Seq::<GlCells>::empty()) =~= Seq::<u8>::empty());
            assert(self.zip.current_data() =~= gl_sheet_bytes(first));
            self.sheets@ = old_sheets.push(first);
            assert(self.sheets@ =~= new_sheet(old_sheets, seq![]));
            assert(sheet_layout_ok(first));
            assert forall|k: int| 0 <= k < self.sheets@.len() implies sheet_layout_ok(#[trigger] self.sheets@[k]) by {
                if k < old_sheets.len() {
                    assert(self.sheets@[k] == old_sheets[k]);
                }
            }
            let es = self.zip.entries();
            assert(es == z2.entries());
            assert(self.zip.entry_data() == z1.entry_data().push(z1.current_data()));
            assert forall|k: int| 0 <= k < es.len() implies (#[trigger] es[k]).name@ == sheet_path((k + 1) as nat)
                && self.zip.entry_data()[k] == gl_sheet_bytes(self.sheets@[k]) + encode_utf8(sheet_close_xml()) by {
                assert(self.sheets@[k] == old_sheets[k]);
                if k < es.len() - 1 {
                    assert(es[k] == es.drop_last()[k]);
                    assert(self.zip.entry_data()[k] == z0.entry_data()[k]);
                } else {
                    assert(es[k] == es.last());
                }
            }
        }
        Ok(())
    }

    /// Closes the open sheet and begins the next with the header row, and,
    /// for `repeat`, the row of the account whose rows continue there.
    fn start_sheet(&mut self, repeat: Option<(String, String)>, l: Ghost<nat>) -> (r: Result<(), String>)
        requires
            old(self).wf(),
            old(self).sheet_index < GL_MAX_SHEETS,
            match repeat {
                Some(p) => old(self).account() == Some((p.0@, p.1@)),
                None => old(self).account() is None,
            },
            l@ >= 12,
            old(self).account() is Some ==> old(self).account()->Some_0.0.len()
                + old(self).account()->Some_0.1.len() + 3 <= l@,
            old(self).zip.bytes().len() + switch_budget(l@) <= u64::MAX,
        ensures
            old(self).zip.current_data().len() + encode_utf8(sheet_close_xml()).len() <= u32::MAX <==> r is Ok,
            r is Err ==> r->Err_0@ == "XLSX package is larger than ZIP32 supports"@,
            r is Ok ==> {
                &&& final(self).wf()
                &&& final(self).sheets@ == new_sheet(old(self).sheets@, repeated_lines(old(self).account()))
                &&& zip_extends(old(self).zip, final(self).zip)
                &&& final(self).zip.bytes().len() <= old(self).zip.bytes().len() + switch_budget(l@)
                &&& final(self).zip.current_data().len() <= switch_budget(l@)
                &&& final(self).sheet_index == old(self).sheet_index + 1
                &&& final(self).current_account == old(self).current_account
                &&& final(self).entries == old(self).entries
            },
    {
        let ghost old_sheets = self.sheets@;
        self.open_next_sheet(l)?;
        match repeat {
            Some(p) => {
                let title = Self::account_title_text(p.0.as_str(), p.1.as_str());
                let cells = Self::account_refs(title.as_str());
                let ghost line = account_line(p.0@, p.1@);
                proof {
                    lemma_account_within(p.0@, p.1@, l@);
                }
                let ghost z3 = self.zip;
                self.push_line(Ghost(line), cells.as_slice(), l);
                proof {
                    lemma_extends_append(z3, self.zip, row_bytes(2, line.1));
                    lemma_extends_trans(old(self).zip, z3, self.zip);
                    assert(self.sheets@ =~= new_sheet(old_sheets, repeated_lines(old(self).account())));
                    assert(self.sheets@.last() == seq![header_line(), line]);
                    assert(seq![header_line(), line].drop_last() =~= seq![header_line()]);
                }
            },
            None => {
                proof {
                    assert(self.sheets@ =~= new_sheet(old_sheets, repeated_lines(old(self).account())));
                }
            },
        }
        Ok(())
    }

    fn account_title_text(no: &str, label: &str) -> (r: String)
        ensures
            r@ == account_title(no@, label@),
    {
        let mut r = String::from_str(no);
        r.append(" - ");
        r.append(label);
        r
    }

    fn account_refs<'a>(title: &'a str) -> (v: Vec<(&'a str, bool)>)
        ensures
            v@.len() == 9,
            forall|no: Seq<char>, label: Seq<char>| title@ == account_title(no, label) ==> cells_view(v@)
                == #[trigger] account_cells(no, label),
    {
        let mut v: Vec<(&'a str, bool)> = Vec::new();
        v.push((title, false));
        let mut i: usize = 0;
        while i < 8
            invariant
                0 <= i <= 8,
                v@.len() == i + 1,
                v@[0] == (title, false),
                forall|k: int| 1 <= k <= i ==> (#[trigger] v@[k]) == ("", false),
            decreases 8 - i,
        {
            v.push(("", false));
            i = i + 1;
        }
        assert forall|no: Seq<char>, label: Seq<char>| title@ == account_title(no, label) implies cells_view(v@)
            == #[trigger] account_cells(no, label) by {
            assert(cells_view(v@) =~= account_cells(no, label));
        }
        v
    }

    /// Begins a new sheet unless `needed` more rows fit on the open one; the
    /// open account's row is repeated on the new sheet.
    fn ensure_space(&mut self, needed: u32, l: Ghost<nat>) -> (r: Result<(), String>)
        requires
            old(self).wf(),
            1 <= needed <= 2,
            old(self).sheet_index < GL_MAX_SHEETS || has_room(old(self).sheets@, needed as nat),
            l@ >= 12,
            old(self).account() is Some ==> old(self).account()->Some_0.0.len()
                + old(self).account()->Some_0.1.len() + 3 <= l@,
            old(self).zip.bytes().len() + switch_budget(l@) <= u64::MAX,
        ensures
            has_room(old(self).sheets@, needed as nat) ==> r is Ok && *final(self) == *old(self),
            !has_room(old(self).sheets@, needed as nat) ==> (old(self).zip.current_data().len() + encode_utf8(
                sheet_close_xml(),
            ).len() <= u32::MAX <==> r is Ok),
            r is Err ==> r->Err_0@ == "XLSX package is larger than ZIP32 supports"@,
            r is Ok ==> {
                &&& final(self).wf()
                &&& final(self).sheets@ == if has_room(old(self).sheets@, needed as nat) {
                    old(self).sheets@
                } else {
                    new_sheet(old(self).sheets@, repeated_lines(old(self).account()))
                }
                &&& has_room(final(self).sheets@, needed as nat)
                &&& zip_extends(old(self).zip, final(self).zip)
                &&& final(self).zip.bytes().len() <= old(self).zip.bytes().len() + switch_budget(l@)
                &&& final(self).zip.current_data().len() <= old(self).zip.current_data().len() + switch_budget(l@)
                &&& final(self).sheet_index <= old(self).sheet_index + 1
                &&& final(self).current_account == old(self).current_account
                &&& final(self).entries == old(self).entries
            },
    {
        if self.current_row + needed <= EXCEL_MAX_ROWS {
            proof {
                lemma_extends_append(self.zip, self.zip, seq![]);
                assert(self.zip.bytes() =~= self.zip.bytes() + seq![]);
            }
            return Ok(());
        }
        let repeat = match &self.current_account {
            Some(account) => Some((
                String::from_str(account.account_no.as_str()),
                String::from_str(account.account_label.as_str()),
            )),
            None => None,
        };
        self.start_sheet(repeat, l)?;
        proof {
            let last = self.sheets@.last();
            assert(last.len() <= 2);
        }
        Ok(())
    }

    /// Writes the row opening an account's rows.
    fn write_account_header(&mut self, account_no: &str, account_label: &str, l: Ghost<nat>) -> (r: Result<(), String>)
        requires
            old(self).wf(),
            has_room(old(self).sheets@, 1),
            l@ >= 12,
            account_no@.len() + account_label@.len() + 3 <= l@,
            old(self).account() is Some ==> old(self).account()->Some_0.0.len()
                + old(self).account()->Some_0.1.len() + 3 <= l@,
            old(self).zip.bytes().len() + switch_budget(l@) <= u64::MAX,
        ensures
            r is Ok,
            final(self).inv(),
            final(self).sheets@ == append_line(old(self).sheets@, account_line(account_no@, account_label@)),
            zip_extends(old(self).zip, final(self).zip),
            final(self).zip.bytes().len() <= old(self).zip.bytes().len() + line_budget(l@),
            final(self).zip.current_data().len() <= old(self).zip.current_data().len() + line_budget(l@),
            final(self).sheet_index == old(self).sheet_index,
            final(self).current_account == old(self).current_account,
            final(self).entries == old(self).entries,
    {
        self.ensure_space(1, l)?;
        let title = Self::account_title_text(account_no, account_label);
        let cells = Self::account_refs(title.as_str());
        let ghost line = account_line(account_no@, account_label@);
        proof {
            lemma_account_within(account_no@, account_label@, l@);
            assert(line_budget(l@) <= switch_budget(l@));
        }
        let ghost z0 = self.zip;
        self.push_line(Ghost(line), cells.as_slice(), l);
        proof {
            lemma_extends_append(z0, self.zip, row_bytes(old(self).current_row as nat + 1, line.1));
        }
        Ok(())
    }

    /// Closes the open account, if any, with its total row.
    #[verifier::rlimit(40)]
    #[verifier::spinoff_prover]
    fn flush_subtotal(&mut self, l: Ghost<nat>) -> (r: Result<(), String>)
        requires
            old(self).wf(),
            old(self).sheet_index < GL_MAX_SHEETS,
            l@ >= 40,
            old(self).account() is Some ==> old(self).account()->Some_0.0.len()
                + old(self).account()->Some_0.1.len() + 3 <= l@,
            old(self).zip.bytes().len() + switch_budget(l@) + line_budget(l@) <= u64::MAX,
        ensures
            old(self).account() is None ==> r is Ok && *final(self) == *old(self),
            has_room(old(self).sheets@, 1) || old(self).zip.current_data().len() + encode_utf8(
                sheet_close_xml(),
            ).len() <= u32::MAX ==> r is Ok,
            r is Err ==> r->Err_0@ == "XLSX package is larger than ZIP32 supports"@,
            r is Ok ==> {
                &&& final(self).wf()
                &&& final(self).sheets@ == subtotal_layout(old(self).sheets@, old(self).account(), old(self).entries@)
                &&& final(self).account() is None
                &&& zip_extends(old(self).zip, final(self).zip)
                &&& final(self).zip.bytes().len() <= old(self).zip.bytes().len() + switch_budget(l@) + line_budget(l@)
                &&& final(self).zip.current_data().len() <= old(self).zip.current_data().len() + switch_budget(l@)
                    + line_budget(l@)
                &&& final(self).sheet_index <= old(self).sheet_index + 1
            },
    {
        let repeat = match &self.current_account {
            Some(current) => (
                String::from_str(current.account_no.as_str()),
                String::from_str(current.account_label.as_str()),
            ),
            None => {
                proof {
                    lemma_extends_append(self.zip, self.zip, seq![]);
                    assert(self.zip.bytes() =~= self.zip.bytes() + seq![]);
                }
                return Ok(());
            },
        };
        let ghost z0 = self.zip;
        let ghost s0 = self.sheets@;
        self.ensure_space(1, l)?;
        let ghost z1 = self.zip;
        let ghost s1 = self.sheets@;
        proof {
            // The open account's rows follow the header row, so the sheet
            // holds at least two rows.
            let last = self.sheets@.last();
            if last.len() == 1 {
                assert(last.last() == last[0]);
            }
        }
        if self.current_row == 1 {
            self.write_account_header(repeat.0.as_str(), repeat.1.as_str(), l)?;
        }
        assert(self.inv());
        let totals = match self.current_account.take() {
            Some(t) => t,
            None => {
                return Ok(());
            },
        };
        assert(self.inv());
        let debit = amount_text(&totals.total_debit);
        let credit = amount_text(&totals.total_credit);
        let solde = amount_text(&totals.solde);
        let mut cells: Vec<(&str, bool)> = Vec::new();
        cells.push(("Total", false));
        cells.push(("", false));
        cells.push((totals.account_no.as_str(), false));
        cells.push((totals.account_label.as_str(), false));
        cells.push(("", false));
        cells.push(("", false));
        cells.push((debit.as_str(), true));
        cells.push((credit.as_str(), true));
        cells.push((solde.as_str(), true));
        let ghost line = total_line(totals.account_no@, totals.account_label@, self.entries@);
        proof {
            assert(cells_view(cells@) =~= line.1);
            reveal_strlit("Total");
            reveal_strlit("");
            assert(cells_within(line.1, l@));
            assert(line.1[0] == ("Total"@, false));
        }
        let ghost z2 = self.zip;
        let ghost row0 = self.current_row;
        self.push_line(Ghost(line), cells.as_slice(), l);
        proof {
            lemma_extends_append(z2, self.zip, row_bytes((row0 + 1) as nat, line.1));
            lemma_extends_trans(z0, z2, self.zip);
            self.entries@ = Seq::empty();
            let a = old(self).account()->Some_0;
            if has_room(s0, 1) {
                assert(s1 == s0);
            } else {
                assert(s1 == new_sheet(s0, seq![account_line(a.0, a.1)]));
                assert(s1.last().push(line) =~= seq![header_line()] + seq![account_line(a.0, a.1), line]);
                assert(append_line(s1, line) =~= new_sheet(s0, seq![account_line(a.0, a.1), line]));
            }
            assert(self.sheets@ == subtotal_layout(s0, old(self).account(), old(self).entries@));
            let last = self.sheets@.last();
            assert(last.drop_last() =~= s1.last());
        }
        Ok(())
    }

    fn text_too_long(s: &str) -> (b: bool)
        ensures
            b == (encode_utf8(s@).len() > GL_TEXT_LIMIT),
    {
        s.as_bytes().len() as u64 > GL_TEXT_LIMIT
    }

    fn opt_too_long(o: &Option<String>) -> (b: bool)
        ensures
            b == (opt_bytes_len(*o) > GL_TEXT_LIMIT),
    {
        match o {
            Some(s) => Self::text_too_long(s.as_str()),
            None => false,
        }
    }

    fn opt_str(o: &Option<String>) -> (r: &str)
        ensures
            r@ == opt_text(*o),
    {
        match o {
            Some(s) => s.as_str(),
            None => "",
        }
    }

    fn entry_refs<'a>(row: &'a GrandLivreRow, debit: &'a str, credit: &'a str, balance: &'a str) -> (v: Vec<(&'a str, bool)>)
        ensures
            cells_view(v@) == seq![
                (opt_text(row.date), false),
                (opt_text(row.journal), false),
                (row.account_no@, false),
                (row.account_label@, false),
                (opt_text(row.ref_piece), false),
                (opt_text(row.lettrage), false),
                (debit@, true),
                (credit@, true),
                (balance@, true),
            ],
            v@.len() == 9,
    {
        let mut v: Vec<(&'a str, bool)> = Vec::new();
        v.push((Self::opt_str(&row.date), false));
        v.push((Self::opt_str(&row.journal), false));
        v.push((row.account_no.as_str(), false));
        v.push((row.account_label.as_str(), false));
        v.push((Self::opt_str(&row.ref_piece), false));
        v.push((Self::opt_str(&row.lettrage), false));
        v.push((debit, true));
        v.push((credit, true));
        v.push((balance, true));
        proof {
            assert(cells_view(v@) =~= seq![
                (opt_text(row.date), false),
                (opt_text(row.journal), false),
                (row.account_no@, false),
                (row.account_label@, false),
                (opt_text(row.ref_piece), false),
                (opt_text(row.lettrage), false),
                (debit@, true),
                (credit@, true),
                (balance@, true),
            ]);
        }
        v
    }

    /// Writes one entry: when its account is not the open one, the open
    /// account is closed by its total row and the new account's header row
    /// is written; then the entry row, after the running totals of its
    /// account are brought up to date.
    #[verifier::rlimit(60)]
    pub fn write_entry(&mut self, row: &GrandLivreRow) -> (r: Result<(), String>)
        requires
            old(self).wf(),
        ensures
            r is Ok ==> {
                &&& final(self).wf()
                &&& final(self).sheets() == write_entry_layout(
                    old(self).sheets(),
                    old(self).account(),
                    old(self).account_entries(),
                    *row,
                )
                &&& final(self).account() == Some((row.account_no@, row.account_label@))
                &&& final(self).account_entries() == entries_after(old(self).account(), old(self).account_entries(), *row)
                &&& zip_extends(old(self).archive(), final(self).archive())
            },
            entry_size_ok(old(self).archive().bytes().len(), old(self).sheets().len(), *row)
                && old(self).archive().current_data().len() + entry_budget(gl_text_bound(*row, old(self).account()))
                <= u32::MAX && sum_amounts(debits_of(entries_after(old(self).account(), old(self).account_entries(), *row))) is Some
                && sum_amounts(credits_of(entries_after(old(self).account(), old(self).account_entries(), *row))) is Some
                && balance_of(entries_after(old(self).account(), old(self).account_entries(), *row)) is Some
                ==> r is Ok,
            r is Err && r->Err_0@ == "XLSX package is larger than ZIP32 supports"@ ==> !entry_size_ok(
                old(self).archive().bytes().len(),
                old(self).sheets().len(),
                *row,
            ) || old(self).archive().current_data().len() + entry_budget(gl_text_bound(*row, old(self).account()))
                > u32::MAX,
            r is Err && r->Err_0@ == "Addition overflowed"@ ==> {
                ||| sum_amounts(debits_of(entries_after(old(self).account(), old(self).account_entries(), *row))) is None
                ||| sum_amounts(credits_of(entries_after(old(self).account(), old(self).account_entries(), *row))) is None
                ||| balance_of(entries_after(old(self).account(), old(self).account_entries(), *row)) is None
            },
            r is Err && r->Err_0@ == "Subtraction overflowed"@ ==> decimal_difference(
                row.debit.bytes@,
                row.credit.bytes@,
            ) is None,
            r is Err ==> {
                ||| r->Err_0@ == "XLSX package is larger than ZIP32 supports"@
                ||| r->Err_0@ == "Addition overflowed"@
                ||| r->Err_0@ == "Subtraction overflowed"@
            },
    {
        proof {
            reveal_strlit("XLSX package is larger than ZIP32 supports");
            reveal_strlit("Addition overflowed");
            reveal_strlit("Subtraction overflowed");
            assert("XLSX package is larger than ZIP32 supports"@.len() != "Addition overflowed"@.len());
            assert("XLSX package is larger than ZIP32 supports"@.len() != "Subtraction overflowed"@.len());
            assert("Addition overflowed"@ != "Subtraction overflowed"@) by {
                assert("Addition overflowed"@[0] != "Subtraction overflowed"@[0]);
            }
        }
        if self.zip.position() > GL_POSITION_LIMIT || self.sheet_index >= GL_MAX_SHEETS || Self::text_too_long(
            row.account_no.as_str(),
        ) || Self::text_too_long(row.account_label.as_str()) || Self::opt_too_long(&row.date) || Self::opt_too_long(
            &row.journal,
        ) || Self::opt_too_long(&row.ref_piece) || Self::opt_too_long(&row.lettrage) {
            return Err(String::from_str("XLSX package is larger than ZIP32 supports"));
        }
        let ghost l = gl_text_bound(*row, self.account());
        let ghost acct0 = self.account();
        let ghost entries0 = self.entries@;
        let ghost s0 = self.sheets@;
        let ghost z0 = self.zip;
        let ghost es = entries_after(acct0, entries0, *row);
        proof {
            crate::text::lemma_encode_utf8_len(row.account_no@);
            crate::text::lemma_encode_utf8_len(row.account_label@);
            crate::text::lemma_encode_utf8_len(opt_text(row.date));
            crate::text::lemma_encode_utf8_len(opt_text(row.journal));
            crate::text::lemma_encode_utf8_len(opt_text(row.ref_piece));
            crate::text::lemma_encode_utf8_len(opt_text(row.lettrage));
            reveal_strlit("");
            assert(l <= 0x10_0000_0000);
            lemma_sheet_parts_len(self.sheet_index as nat);
        }
        let changed = match &self.current_account {
            Some(account) => !(str_eq(account.account_no.as_str(), row.account_no.as_str()) && str_eq(
                account.account_label.as_str(),
                row.account_label.as_str(),
            )),
            None => true,
        };
        assert(changed == account_changes(acct0, *row));
        if changed {
            self.switch_account(row, Ghost(l))?;
        } else {
            proof {
                lemma_extends_refl(z0);
            }
        }
        let ghost s3 = self.sheets@;
        let ghost z3 = self.zip;
        self.ensure_space(1, Ghost(l))?;
        let ghost s4 = self.sheets@;
        proof {
            lemma_extends_trans(z0, z3, self.zip);
        }
        self.add_entry_totals(row)?;
        proof {
            assert(self.entries@ == es);
        }
        let debit = amount_text(&row.debit);
        let credit = amount_text(&row.credit);
        let balance = amount_text(&row.solde_cumule);
        let cells = Self::entry_refs(row, debit.as_str(), credit.as_str(), balance.as_str());
        let ghost line = entry_line(*row);
        proof {
            assert(cells_view(cells@) =~= line.1);
            assert(cells_within(line.1, l));
        }
        let ghost z4 = self.zip;
        let ghost row0 = self.current_row;
        self.push_line(Ghost(line), cells.as_slice(), Ghost(l));
        proof {
            lemma_extends_append(z4, self.zip, row_bytes((row0 + 1) as nat, line.1));
            lemma_extends_trans(z0, z4, self.zip);
            if !has_room(s3, 1) {
                let a = account_line(row.account_no@, row.account_label@);
                assert(s4.last().push(line) =~= seq![header_line()] + seq![a, line]);
                assert(append_line(s4, line) =~= new_sheet(s3, seq![a, line]));
            }
            assert(self.sheets@ == entry_layout(s3, *row));
            let last = self.sheets@.last();
            assert(last.drop_last() =~= s4.last());
        }
        Ok(())
    }

    /// Closes the open account with its total row and opens the account of
    /// `row` with its header row.
    #[verifier::rlimit(40)]
    fn switch_account(&mut self, row: &GrandLivreRow, l: Ghost<nat>) -> (r: Result<(), String>)
        requires
            old(self).wf(),
            account_changes(old(self).account(), *row),
            old(self).sheet_index < GL_MAX_SHEETS,
            l@ >= 40,
            row.account_no@.len() + row.account_label@.len() + 3 <= l@,
            row.account_no@.len() <= GL_TEXT_LIMIT,
            row.account_label@.len() <= GL_TEXT_LIMIT,
            old(self).account() is Some ==> old(self).account()->Some_0.0.len()
                + old(self).account()->Some_0.1.len() + 3 <= l@,
            old(self).zip.bytes().len() + 3 * switch_budget(l@) + 3 * line_budget(l@) <= u64::MAX,
        ensures
            old(self).zip.current_data().len() + 2 * switch_budget(l@) + 2 * line_budget(l@) + 100 <= u32::MAX
                ==> r is Ok,
            r is Err ==> r->Err_0@ == "XLSX package is larger than ZIP32 supports"@,
            r is Ok ==> {
                &&& final(self).wf()
                &&& final(self).sheets@ == opening_layout(
                    subtotal_layout(old(self).sheets@, old(self).account(), old(self).entries@),
                    row.account_no@,
                    row.account_label@,
                )
                &&& final(self).account() == Some((row.account_no@, row.account_label@))
                &&& final(self).entries@ == Seq::<(Seq<u8>, Seq<u8>)>::empty()
                &&& zip_extends(old(self).zip, final(self).zip)
                &&& final(self).zip.bytes().len() <= old(self).zip.bytes().len() + 2 * switch_budget(l@) + 2
                    * line_budget(l@)
                &&& final(self).zip.current_data().len() <= old(self).zip.current_data().len() + 2 * switch_budget(
                    l@,
                ) + 2 * line_budget(l@)
                &&& has_room(final(self).sheets@, 1)
            },
    {
        proof {
            lemma_sheet_parts_len(self.sheet_index as nat);
        }
        let ghost z0 = self.zip;
        self.flush_subtotal(l)?;
        let ghost s1 = self.sheets@;
        let ghost z1 = self.zip;
        proof {
            lemma_sheet_parts_len(self.sheet_index as nat);
        }
        self.ensure_space(2, l)?;
        let ghost s2 = self.sheets@;
        let ghost z2 = self.zip;
        self.write_account_header(row.account_no.as_str(), row.account_label.as_str(), l)?;
        self.current_account = Some(
            GrandLivreTotals {
                account_no: String::from_str(row.account_no.as_str()),
                account_label: String::from_str(row.account_label.as_str()),
                total_debit: Amount::zero(),
                total_credit: Amount::zero(),
                solde: Amount::zero(),
            },
        );
        proof {
            lemma_extends_trans(z0, z1, z2);
            lemma_extends_trans(z0, z2, self.zip);
            self.entries@ = Seq::empty();
            let a = account_line(row.account_no@, row.account_label@);
            if !has_room(s1, 2) {
                assert(s2.last().push(a) =~= seq![header_line()] + seq![a]);
                assert(append_line(s2, a) =~= new_sheet(s1, seq![a]));
            }
            assert(self.sheets@ == opening_layout(s1, row.account_no@, row.account_label@));
            let last = self.sheets@.last();
            assert(last.last() == a);
            assert(debits_of(Seq::<(Seq<u8>, Seq<u8>)>::empty()) =~= Seq::<Seq<u8>>::empty());
            assert(credits_of(Seq::<(Seq<u8>, Seq<u8>)>::empty()) =~= Seq::<Seq<u8>>::empty());
        }
        Ok(())
    }

    /// Adds the entry's debit and credit to the open account's totals and
    /// its balance.
    fn add_entry_totals(&mut self, row: &GrandLivreRow) -> (r: Result<(), String>)
        requires
            old(self).wf(),
            old(self).account() is Some,
        ensures
            sum_amounts(debits_of(old(self).entries@.push((row.debit.bytes@, row.credit.bytes@)))) is Some
                && sum_amounts(credits_of(old(self).entries@.push((row.debit.bytes@, row.credit.bytes@)))) is Some
                && balance_of(old(self).entries@.push((row.debit.bytes@, row.credit.bytes@))) is Some <==> r is Ok,
            r is Err && r->Err_0@ == "Subtraction overflowed"@ ==> decimal_difference(
                row.debit.bytes@,
                row.credit.bytes@,
            ) is None,
            r is Err ==> r->Err_0@ == "Addition overflowed"@ || r->Err_0@ == "Subtraction overflowed"@,
            r is Ok ==> {
                &&& final(self).wf()
                &&& final(self).entries@ == old(self).entries@.push((row.debit.bytes@, row.credit.bytes@))
                &&& final(self).sheets@ == old(self).sheets@
                &&& final(self).zip == old(self).zip
                &&& final(self).sheet_index == old(self).sheet_index
                &&& final(self).current_row == old(self).current_row
                &&& final(self).account() == old(self).account()
            },
    {
        let ghost es = old(self).entries@.push((row.debit.bytes@, row.credit.bytes@));
        proof {
            reveal_strlit("Addition overflowed");
            reveal_strlit("Subtraction overflowed");
            assert("Addition overflowed"@ != "Subtraction overflowed"@) by {
                assert("Addition overflowed"@[0] != "Subtraction overflowed"@[0]);
            }
            assert(debits_of(es).drop_last() =~= debits_of(old(self).entries@));
            assert(credits_of(es).drop_last() =~= credits_of(old(self).entries@));
            assert(es.drop_last() =~= old(self).entries@);
        }
        let mut account = match self.current_account.take() {
            Some(a) => a,
            None => {
                return Ok(());
            },
        };
        let total_debit = match checked_add(&account.total_debit, &row.debit) {
            Some(v) => v,
            None => {
                return Err(String::from_str("Addition overflowed"));
            },
        };
        let total_credit = match checked_add(&account.total_credit, &row.credit) {
            Some(v) => v,
            None => {
                return Err(String::from_str("Addition overflowed"));
            },
        };
        let net = match checked_sub(&row.debit, &row.credit) {
            Some(v) => v,
            None => {
                return Err(String::from_str("Subtraction overflowed"));
            },
        };
        let solde = match checked_add(&account.solde, &net) {
            Some(v) => v,
            None => {
                return Err(String::from_str("Addition overflowed"));
            },
        };
        account.total_debit = total_debit;
        account.total_credit = total_credit;
        account.solde = solde;
        self.current_account = Some(account);
        proof {
            self.entries@ = es;
        }
        Ok(())
    }

    fn build_workbook_parts(n: u32) -> (r: (String, String, String))
        ensures
            r.0@ == content_types_xml(n as nat),
            r.1@ == gl_workbook_xml(n as nat),
            r.2@ == workbook_rels_xml(n as nat),
    {
        let mut content_types = String::from_str(
            "<?xml version=\"1.0\" encoding=\"UTF-8\" standalone=\"yes\"?><Types xmlns=\"http://schemas.openxmlformats.org/package/2006/content-types\"><Default Extension=\"rels\" ContentType=\"application/vnd.openxmlformats-package.relationships+xml\"/><Default Extension=\"xml\" ContentType=\"application/xml\"/><Override PartName=\"/xl/workbook.xml\" ContentType=\"application/vnd.openxmlformats-officedocument.spreadsheetml.sheet.main+xml\"/>",
        );
        let mut sheets = String::new();
        let mut rels = String::from_str(
            "<?xml version=\"1.0\" encoding=\"UTF-8\" standalone=\"yes\"?><Relationships xmlns=\"http://schemas.openxmlformats.org/package/2006/relationships\">",
        );
        let mut index: u64 = 1;
        while index <= n as u64
            invariant
                1 <= index <= n as u64 + 1,
                content_types@ == content_types_head() + content_type_overrides((index - 1) as nat),
                sheets@ == gl_sheet_entries((index - 1) as nat),
                rels@ == relationships_head() + sheet_relationships((index - 1) as nat),
            decreases n as u64 + 1 - index,
        {
            content_types.append("<Override PartName=\"/xl/worksheets/sheet");
            append_dec(&mut content_types, index);
            content_types.append(".xml\" ContentType=\"application/vnd.openxmlformats-officedocument.spreadsheetml.worksheet+xml\"/>");
            let name = sheet_name(index as u32);
            let escaped = xml_escape(name.as_str());
            sheets.append("<sheet name=\"");
            sheets.append(escaped.as_str());
            sheets.append("\" sheetId=\"");
            append_dec(&mut sheets, index);
            sheets.append("\" r:id=\"rId");
            append_dec(&mut sheets, index);
            sheets.append("\"/>");
            rels.append("<Relationship Id=\"rId");
            append_dec(&mut rels, index);
            rels.append("\" Type=\"http://schemas.openxmlformats.org/officeDocument/2006/relationships/worksheet\" Target=\"worksheets/sheet");
            append_dec(&mut rels, index);
            rels.append(".xml\"/>");
            proof {
                assert(name@ == gl_sheet_name(index as nat));
                assert(content_types@ =~= content_types_head() + content_type_overrides(index as nat));
                assert(sheets@ =~= gl_sheet_entries(index as nat));
                assert(rels@ =~= relationships_head() + sheet_relationships(index as nat));
            }
            index = index + 1;
        }
        content_types.append("</Types>");
        rels.append("</Relationships>");
        let mut workbook = String::from_str(
            "<?xml version=\"1.0\" encoding=\"UTF-8\" standalone=\"yes\"?><workbook xmlns=\"http://schemas.openxmlformats.org/spreadsheetml/2006/main\" xmlns:r=\"http://schemas.openxmlformats.org/officeDocument/2006/relationships\"><sheets>",
        );
        workbook.append(sheets.as_str());
        workbook.append("</sheets></workbook>");
        (content_types, workbook, rels)
    }

    /// Closes the open account with its total row, closes the last sheet,
    /// adds the package parts and the central directory, and returns the
    /// number of sheets with the bytes not yet handed out.
    #[verifier::rlimit(80)]
    pub fn finish(self) -> (r: Result<(u32, Vec<u8>), String>)
        requires
            self.wf(),
        ensures
            r is Ok ==> {
                &&& r->Ok_0.0 == final_sheets(self.sheets(), self.account(), self.account_entries()).len()
                &&& exists|z: ZipStream|
                    {
                        &&& #[trigger] gl_workbook_closed(
                            self.archive(),
                            final_sheets(self.sheets(), self.account(), self.account_entries()),
                            z,
                        )
                        &&& fits_zip32(z)
                        &&& r->Ok_0.1@ == z.pending() + crate::zip::central_directory(z.entries())
                            + crate::zip::end_record(
                            z.entries().len() as u16,
                            crate::zip::central_directory(z.entries()).len() as u32,
                            z.bytes().len() as u32,
                        )
                    }
            },
            r is Err ==> r->Err_0@ == "XLSX package is larger than ZIP32 supports"@,
            r is Err ==> {
                ||| self.archive().bytes().len() > GL_POSITION_LIMIT
                ||| self.sheets().len() >= GL_MAX_SHEETS
                ||| self.archive().current_data().len() + switch_budget(finish_text_bound(self.account()))
                    + line_budget(finish_text_bound(self.account())) + 100 > u32::MAX
                ||| encode_utf8(content_types_xml(final_sheets(self.sheets(), self.account(), self.account_entries()).len())).len() > u32::MAX
                ||| encode_utf8(gl_workbook_xml(final_sheets(self.sheets(), self.account(), self.account_entries()).len())).len() > u32::MAX
                ||| encode_utf8(workbook_rels_xml(final_sheets(self.sheets(), self.account(), self.account_entries()).len())).len() > u32::MAX
                ||| exists|z: ZipStream|
                    #[trigger] gl_workbook_closed(
                        self.archive(),
                        final_sheets(self.sheets(), self.account(), self.account_entries()),
                        z,
                    ) && !fits_zip32(z)
            },
    {
        if self.zip.position() > GL_POSITION_LIMIT || self.sheet_index >= GL_MAX_SHEETS {
            return Err(String::from_str("XLSX package is larger than ZIP32 supports"));
        }
        let ghost target = final_sheets(self.sheets(), self.account(), self.account_entries());
        let ghost a0 = self.zip;
        let mut w = self;
        w.close_sheets()?;
        let ghost z3 = w.zip;
        let count = w.sheet_index;
        let (content_types, workbook, rels) = Self::build_workbook_parts(count);
        if content_types.as_str().as_bytes().len() > 0xffff_ffffusize
            || workbook.as_str().as_bytes().len() > 0xffff_ffffusize
            || rels.as_str().as_bytes().len() > 0xffff_ffffusize {
            // A part this large could not be recorded in a 32-bit ZIP field.
            return Err(String::from_str("XLSX package is larger than ZIP32 supports"));
        }
        TableXlsxWriter::add_package_parts(
            &mut w.zip,
            count,
            content_types.as_str(),
            workbook.as_str(),
            rels.as_str(),
        );
        let ghost z = w.zip;
        proof {
            let n = count as int;
            lemma_extends_trans(a0, z3, z);
            z.lemma_entries_placed();
            assert forall|k: int| 0 <= k < n implies (#[trigger] z.entries()[k]).name@ == sheet_path((k + 1) as nat)
                && z.entry_data()[k] == gl_sheet_bytes(target[k]) + encode_utf8(sheet_close_xml()) by {
                assert(z.entries()[k] == z3.entries()[k]);
                assert(z.entry_data()[k] == z3.entry_data()[k]);
            }
            assert(gl_workbook_closed(a0, target, z));
        }
        let bytes = w.zip.finish()?;
        proof {
            assert(fits_zip32(z));
            assert(gl_workbook_closed(self.archive(), final_sheets(self.sheets(), self.account(), self.account_entries()), z));
        }
        Ok((count, bytes))
    }

    /// Closes the open account with its total row, then the last sheet.
    #[verifier::rlimit(60)]
    fn close_sheets(&mut self) -> (r: Result<(), String>)
        requires
            old(self).wf(),
            old(self).zip.bytes().len() <= GL_POSITION_LIMIT,
            old(self).sheet_index < GL_MAX_SHEETS,
        ensures
            old(self).zip.current_data().len() + switch_budget(finish_text_bound(old(self).account())) + line_budget(
                finish_text_bound(old(self).account()),
            ) + 100 <= u32::MAX ==> r is Ok,
            r is Err ==> r->Err_0@ == "XLSX package is larger than ZIP32 supports"@,
            r is Ok ==> {
                let target = final_sheets(old(self).sheets(), old(self).account(), old(self).account_entries());
                &&& final(self).zip.wf()
                &&& !final(self).zip.is_open()
                &&& zip_extends(old(self).zip, final(self).zip)
                &&& final(self).zip.bytes().len() <= 0x4400_0000_0000_0000u64
                &&& final(self).sheet_index == target.len()
                &&& final(self).zip.entries().len() == target.len()
                &&& final(self).zip.entry_data().len() == target.len()
                &&& forall|k: int|
                    0 <= k < target.len() ==> (#[trigger] final(self).zip.entries()[k]).name@ == sheet_path(
                        (k + 1) as nat,
                    ) && final(self).zip.entry_data()[k] == gl_sheet_bytes(target[k]) + encode_utf8(sheet_close_xml())
            },
    {
        let ghost l = finish_text_bound(self.account());
        let ghost target = final_sheets(self.sheets(), self.account(), self.account_entries());
        let ghost a0 = self.zip;
        proof {
            lemma_sheet_parts_len(self.sheet_index as nat);
        }
        self.flush_subtotal(Ghost(l))?;
        let ghost z1 = self.zip;
        proof {
            lemma_sheet_parts_len(self.sheet_index as nat);
            reveal_strlit("</sheetData></worksheet>");
            z1.lemma_entries_placed();
        }
        let _ = self.zip.write_entry_data("</sheetData></worksheet>".as_bytes());
        let ghost z2 = self.zip;
        self.zip.finish_entry()?;
        let ghost z3 = self.zip;
        proof {
            let n = self.sheet_index as int;
            assert(target == self.sheets@);
            lemma_extends_append(z1, z2, encode_utf8(sheet_close_xml()));
            lemma_extends_append(
                z2,
                z3,
                crate::zip::data_descriptor(
                    crate::zip::crc32(z2.current_data()),
                    z2.current_data().len() as u32,
                    z2.current_data().len() as u32,
                ),
            );
            lemma_extends_trans(a0, z1, z2);
            lemma_extends_trans(a0, z2, z3);
            z3.lemma_entries_placed();
            assert forall|k: int| 0 <= k < n implies (#[trigger] z3.entries()[k]).name@ == sheet_path((k + 1) as nat)
                && z3.entry_data()[k] == gl_sheet_bytes(target[k]) + encode_utf8(sheet_close_xml()) by {
                if k < n - 1 {
                    assert(z3.entries()[k] == z3.entries().drop_last()[k]);
                    assert(z3.entry_data()[k] == z1.entry_data()[k]);
                } else {
                    assert(z3.entries()[k] == z3.entries().last());
                }
            }
        }
        Ok(())
    }

    /// Writes one row on the open sheet.
    fn push_line(&mut self, line: Ghost<GlRowLine>, cells: &[(&str, bool)], l: Ghost<nat>)
        requires
            old(self).inv(),
            old(self).current_row < EXCEL_MAX_ROWS,
            cells_view(cells@) == line@.1,
            line_follows(old(self).sheets@.last(), line@),
            cells@.len() <= 26,
            cells_within(line@.1, l@),
            old(self).zip.bytes().len() + line_budget(l@) <= u64::MAX,
        ensures
            final(self).inv(),
            final(self).sheets@ == append_line(old(self).sheets@, line@),
            final(self).zip.bytes() == old(self).zip.bytes() + row_bytes(
                (old(self).current_row + 1) as nat,
                line@.1,
            ),
            final(self).zip.pending() == old(self).zip.pending() + row_bytes(
                (old(self).current_row + 1) as nat,
                line@.1,
            ),
            row_bytes((old(self).current_row + 1) as nat, line@.1).len() <= line_budget(l@),
            final(self).zip.current_data().len() == old(self).zip.current_data().len() + row_bytes(
                (old(self).current_row + 1) as nat,
                line@.1,
            ).len(),
            final(self).sheet_index == old(self).sheet_index,
            final(self).current_account == old(self).current_account,
            final(self).entries == old(self).entries,
            final(self).zip.entries() == old(self).zip.entries(),
            final(self).zip.entry_data() == old(self).zip.entry_data(),
    {
        let row = self.current_row + 1;
        proof {
            crate::xlsx::lemma_row_bytes_bound(row as nat, line@.1, l@);
        }
        let _ = write_xlsx_row(&mut self.zip, row, cells);
        self.current_row = row;
        proof {
            let old_sheets = self.sheets@;
            let last = old_sheets.last();
            lemma_layout_push(last, line@);
            lemma_sheet_bytes_push(last, line@);
            self.sheets@ = append_line(old_sheets, line@);
            assert(self.sheets@.last() == last.push(line@));
            assert forall|k: int| 0 <= k < self.sheets@.len() implies sheet_layout_ok(#[trigger] self.sheets@[k]) by {
                if k < self.sheets@.len() - 1 {
                    assert(self.sheets@[k] == old_sheets[k]);
                }
            }
            assert forall|k: int| 0 <= k < self.zip.entries().len() implies (#[trigger] self.zip.entries()[k]).name@
                == sheet_path((k + 1) as nat) && self.zip.entry_data()[k] == gl_sheet_bytes(self.sheets@[k])
                + encode_utf8(sheet_close_xml()) by {
                assert(self.sheets@[k] == old_sheets[k]);
            }
        }
    }
}

} // verus!
