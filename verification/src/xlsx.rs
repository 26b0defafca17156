//! Writing worksheets of an XLSX package into a `ZipStream`.
use vstd::prelude::*;
use vstd::utf8::encode_utf8;
use crate::text::{dec, push_char, replace_char_seq, append_dec};
use crate::zip::ZipStream;

verus! {

// ---------------------------------------------------------------------------
// XML escaping
// ---------------------------------------------------------------------------

/// The escape of one character in XML text and attribute values.
pub open spec fn xml_escape_char(c: char) -> Seq<char> {
    if c == '&' {
        seq!['&', 'a', 'm', 'p', ';']
    } else if c == '<' {
        seq!['&', 'l', 't', ';']
    } else if c == '>' {
        seq!['&', 'g', 't', ';']
    } else if c == '"' {
        seq!['&', 'q', 'u', 'o', 't', ';']
    } else if c == '\'' {
        seq!['&', 'a', 'p', 'o', 's', ';']
    } else {
        seq![c]
    }
}

/// Every character replaced by its XML escape.
pub open spec fn xml_escape_seq(s: Seq<char>) -> Seq<char>
    decreases s.len(),
{
    if s.len() == 0 {
        seq![]
    } else {
        xml_escape_seq(s.drop_last()) + xml_escape_char(s.last())
    }
}

/// The escape applied as five successive replacements, `&` first.
pub open spec fn xml_escape_by_replacements(s: Seq<char>) -> Seq<char> {
    replace_char_seq(
        replace_char_seq(
            replace_char_seq(
                replace_char_seq(
                    replace_char_seq(s, '&', seq!['&', 'a', 'm', 'p', ';']),
                    '<',
                    seq!['&', 'l', 't', ';'],
                ),
                '>',
                seq!['&', 'g', 't', ';'],
            ),
            '"',
            seq!['&', 'q', 'u', 'o', 't', ';'],
        ),
        '\'',
        seq!['&', 'a', 'p', 'o', 's', ';'],
    )
}

proof fn lemma_replace_single(c: char, target: char, repl: Seq<char>)
    ensures
        replace_char_seq(seq![c], target, repl) == (if c == target { repl } else { seq![c] }),
{
    assert(seq![c].drop_last() =~= Seq::<char>::empty());
    assert(seq![c].last() == c);
    assert(replace_char_seq(Seq::<char>::empty(), target, repl) =~= Seq::<char>::empty());
    assert(Seq::<char>::empty() + (if c == target { repl } else { seq![c] }) =~= (if c == target { repl } else { seq![c] }));
}

proof fn lemma_escape_char_by_replacements(c: char)
    ensures
        xml_escape_by_replacements(seq![c]) == xml_escape_char(c),
{
    let amp = seq!['&', 'a', 'm', 'p', ';'];
    let lt = seq!['&', 'l', 't', ';'];
    let gt = seq!['&', 'g', 't', ';'];
    let quot = seq!['&', 'q', 'u', 'o', 't', ';'];
    let apos = seq!['&', 'a', 'p', 'o', 's', ';'];
    lemma_replace_single(c, '&', amp);
    let s1 = replace_char_seq(seq![c], '&', amp);
    if c == '&' {
        crate::text::lemma_replace_char_absent(amp, '<', lt);
        crate::text::lemma_replace_char_absent(amp, '>', gt);
        crate::text::lemma_replace_char_absent(amp, '"', quot);
        crate::text::lemma_replace_char_absent(amp, '\'', apos);
    } else {
        lemma_replace_single(c, '<', lt);
        if c == '<' {
            crate::text::lemma_replace_char_absent(lt, '>', gt);
            crate::text::lemma_replace_char_absent(lt, '"', quot);
            crate::text::lemma_replace_char_absent(lt, '\'', apos);
        } else {
            lemma_replace_single(c, '>', gt);
            if c == '>' {
                crate::text::lemma_replace_char_absent(gt, '"', quot);
                crate::text::lemma_replace_char_absent(gt, '\'', apos);
            } else {
                lemma_replace_single(c, '"', quot);
                if c == '"' {
                    crate::text::lemma_replace_char_absent(quot, '\'', apos);
                } else {
                    lemma_replace_single(c, '\'', apos);
                }
            }
        }
    }
}

/// Law: escaping character by character is the same as the five successive
/// whole-string replacements (`&` first), so no escape is escaped twice.
pub proof fn lemma_xml_escape_matches_replacements(s: Seq<char>)
    ensures
        xml_escape_seq(s) == xml_escape_by_replacements(s),
    decreases s.len(),
{
    if s.len() > 0 {
        let a = s.drop_last();
        let c = s.last();
        lemma_xml_escape_matches_replacements(a);
        assert(s =~= a + seq![c]);
        let amp = seq!['&', 'a', 'm', 'p', ';'];
        let lt = seq!['&', 'l', 't', ';'];
        let gt = seq!['&', 'g', 't', ';'];
        let quot = seq!['&', 'q', 'u', 'o', 't', ';'];
        let apos = seq!['&', 'a', 'p', 'o', 's', ';'];
        let r1a = replace_char_seq(a, '&', amp);
        let r1c = replace_char_seq(seq![c], '&', amp);
        crate::text::lemma_replace_char_append(a, seq![c], '&', amp);
        let r2a = replace_char_seq(r1a, '<', lt);
        let r2c = replace_char_seq(r1c, '<', lt);
        crate::text::lemma_replace_char_append(r1a, r1c, '<', lt);
        let r3a = replace_char_seq(r2a, '>', gt);
        let r3c = replace_char_seq(r2c, '>', gt);
        crate::text::lemma_replace_char_append(r2a, r2c, '>', gt);
        let r4a = replace_char_seq(r3a, '"', quot);
        let r4c = replace_char_seq(r3c, '"', quot);
        crate::text::lemma_replace_char_append(r3a, r3c, '"', quot);
        crate::text::lemma_replace_char_append(r4a, r4c, '\'', apos);
        lemma_escape_char_by_replacements(c);
    }
}

/// `xml_escape`: escapes `& < > " '` for XML text.
pub fn xml_escape(value: &str) -> (r: String)
    ensures
        r@ == xml_escape_seq(value@),
{
    let mut out = String::new();
    for c in it: value.chars()
        invariant
            it.seq() == value@,
            out@ == xml_escape_seq(it.seq().take(it.index() as int)),
    {
        assert(it.seq().take(it.index() + 1).drop_last() == it.seq().take(it.index() as int));
        if c == '&' {
            out.append("&amp;");
            proof { reveal_strlit("&amp;"); }
        } else if c == '<' {
            out.append("&lt;");
            proof { reveal_strlit("&lt;"); }
        } else if c == '>' {
            out.append("&gt;");
            proof { reveal_strlit("&gt;"); }
        } else if c == '"' {
            out.append("&quot;");
            proof { reveal_strlit("&quot;"); }
        } else if c == '\'' {
            out.append("&apos;");
            proof { reveal_strlit("&apos;"); }
        } else {
            push_char(&mut out, c);
        }
        assert(out@ =~= xml_escape_seq(it.seq().take(it.index() + 1)));
    }
    assert(value@.take(value@.len() as int) == value@);
    out
}

// ---------------------------------------------------------------------------
// Spreadsheet column names
// ---------------------------------------------------------------------------

pub open spec fn letter(i: nat) -> char {
    (i + 65) as char
}

/// Spreadsheet column name of a zero-based index: A..Z, AA..AZ, BA, ...
pub open spec fn col_name(i: nat) -> Seq<char>
    decreases i,
{
    if i < 26 {
        seq![letter(i)]
    } else {
        col_name((i / 26 - 1) as nat).push(letter(i % 26))
    }
}

/// The zero-based index a column name stands for (bijective base 26).
pub open spec fn col_index(s: Seq<char>) -> int
    decreases s.len(),
{
    if s.len() == 0 {
        -1
    } else {
        (col_index(s.drop_last()) + 1) * 26 + ((s.last() as int) - 65)
    }
}

/// Law: a column name reads back as the index it was made from, so two
/// different columns never share a name.
pub proof fn lemma_col_name_roundtrip(i: nat)
    ensures
        col_index(col_name(i)) == i,
        col_name(i).len() >= 1,
    decreases i,
{
    if i < 26 {
        let s = col_name(i);
        assert(s == seq![letter(i)]);
        assert(s.drop_last() =~= Seq::<char>::empty());
        assert(col_index(s.drop_last()) == -1);
        assert(s.last() == letter(i));
        assert(letter(i) as int == i + 65);
        assert(col_index(s) == (col_index(s.drop_last()) + 1) * 26 + ((s.last() as int) - 65));
    } else {
        let q = (i / 26 - 1) as nat;
        lemma_col_name_roundtrip(q);
        let s = col_name(i);
        assert(s.drop_last() =~= col_name(q));
        assert(s.last() == letter(i % 26));
        assert(letter(i % 26) as int == (i % 26) + 65);
        assert(col_index(s) == (col_index(s.drop_last()) + 1) * 26 + ((s.last() as int) - 65));
        assert((q + 1) * 26 + (i % 26) == i) by (nonlinear_arith)
            requires
                q == i / 26 - 1,
                i >= 26,
        ;
    }
}

fn append_col_name(out: &mut String, index: usize)
    ensures
        final(out)@ == old(out)@ + col_name(index as nat),
    decreases index,
{
    if index >= 26 {
        append_col_name(out, index / 26 - 1);
    }
    push_char(out, crate::text::char_from_ascii_u32((index % 26) as u32 + 65));
    assert(old(out)@ + col_name(index as nat) =~= (if index >= 26 {
        old(out)@ + col_name((index / 26 - 1) as nat)
    } else {
        old(out)@
    }).push(letter((index % 26) as nat)));
}

/// `xlsx_col_name`: the column name of a zero-based column index.
pub fn xlsx_col_name(index: usize) -> (r: String)
    ensures
        r@ == col_name(index as nat),
{
    let mut r = String::new();
    append_col_name(&mut r, index);
    assert(r@ =~= col_name(index as nat));
    r
}

/// `sheet_name`: the display name of the n-th Grand Livre sheet.
pub fn sheet_name(index: u32) -> (r: String)
    ensures
        index == 1 ==> r@ == "Grand Livre"@,
        index != 1 ==> r@ == "Grand Livre "@ + dec(index as nat),
{
    if index == 1 {
        String::from_str("Grand Livre")
    } else {
        let mut r = String::from_str("Grand Livre ");
        append_dec(&mut r, index as u64);
        r
    }
}

// ---------------------------------------------------------------------------
// Cells and rows
// ---------------------------------------------------------------------------

/// The XML of one cell at `row` (1-based) and `col` (0-based). Numbers are
/// written as values; text as an inline string.
pub open spec fn cell_xml(row: nat, col: nat, value: Seq<char>, numeric: bool) -> Seq<char> {
    if numeric {
        "<c r=\""@ + col_name(col) + dec(row) + "\"><v>"@ + value + "</v></c>"@
    } else {
        "<c r=\""@ + col_name(col) + dec(row) + "\" t=\"inlineStr\"><is><t>"@ + xml_escape_seq(value)
            + "</t></is></c>"@
    }
}

/// The bytes of the cells `cells[0..]` of row `row`, numbered from column A.
pub open spec fn cells_bytes(row: nat, cells: Seq<(Seq<char>, bool)>) -> Seq<u8>
    decreases cells.len(),
{
    if cells.len() == 0 {
        seq![]
    } else {
        cells_bytes(row, cells.drop_last()) + encode_utf8(
            cell_xml(row, (cells.len() - 1) as nat, cells.last().0, cells.last().1),
        )
    }
}

/// The bytes of a whole `<row>` element.
pub open spec fn row_bytes(row: nat, cells: Seq<(Seq<char>, bool)>) -> Seq<u8> {
    encode_utf8("<row r=\""@ + dec(row) + "\">"@) + cells_bytes(row, cells) + encode_utf8("</row>"@)
}

pub open spec fn cells_view(cells: Seq<(&str, bool)>) -> Seq<(Seq<char>, bool)> {
    cells.map_values(|p: (&str, bool)| (p.0@, p.1))
}

/// `write_xlsx_cell`: writes one cell into the open zip entry.
pub fn write_xlsx_cell(zip: &mut ZipStream, row_index: u32, col_index: usize, value: &str, numeric: bool) -> (r: Result<(), String>)
    requires
        old(zip).wf(),
        old(zip).is_open(),
        old(zip).bytes().len() + encode_utf8(cell_xml(row_index as nat, col_index as nat, value@, numeric)).len() <= u64::MAX,
    ensures
        final(zip).wf(),
        r is Ok,
        final(zip).is_open(),
        final(zip).bytes() == old(zip).bytes() + encode_utf8(cell_xml(row_index as nat, col_index as nat, value@, numeric)),
        final(zip).pending() == old(zip).pending() + encode_utf8(cell_xml(row_index as nat, col_index as nat, value@, numeric)),
        final(zip).current_data() == old(zip).current_data() + encode_utf8(cell_xml(row_index as nat, col_index as nat, value@, numeric)),
        final(zip).current_name() == old(zip).current_name(),
        final(zip).current_offset() == old(zip).current_offset(),
        final(zip).entries() == old(zip).entries(),
        final(zip).entry_data() == old(zip).entry_data(),
{
    let mut xml = String::from_str("<c r=\"");
    append_col_name(&mut xml, col_index);
    append_dec(&mut xml, row_index as u64);
    if numeric {
        xml.append("\"><v>");
        xml.append(value);
        xml.append("</v></c>");
    } else {
        xml.append("\" t=\"inlineStr\"><is><t>");
        let escaped = xml_escape(value);
        xml.append(escaped.as_str());
        xml.append("</t></is></c>");
    }
    assert(xml@ =~= cell_xml(row_index as nat, col_index as nat, value@, numeric));
    zip.write_entry_data(xml.as_str().as_bytes())
}

/// `write_xlsx_row`: writes a `<row>` element with the given cells.
pub fn write_xlsx_row(zip: &mut ZipStream, row_index: u32, cells: &[(&str, bool)]) -> (r: Result<(), String>)
    requires
        old(zip).wf(),
        old(zip).is_open(),
        old(zip).bytes().len() + row_bytes(row_index as nat, cells_view(cells@)).len() <= u64::MAX,
    ensures
        final(zip).wf(),
        r is Ok,
        final(zip).is_open(),
        final(zip).bytes() == old(zip).bytes() + row_bytes(row_index as nat, cells_view(cells@)),
        final(zip).pending() == old(zip).pending() + row_bytes(row_index as nat, cells_view(cells@)),
        final(zip).current_data() == old(zip).current_data() + row_bytes(row_index as nat, cells_view(cells@)),
        final(zip).current_name() == old(zip).current_name(),
        final(zip).current_offset() == old(zip).current_offset(),
        final(zip).entries() == old(zip).entries(),
        final(zip).entry_data() == old(zip).entry_data(),
{
    let ghost cv = cells_view(cells@);
    let ghost total = row_bytes(row_index as nat, cv);
    let mut open = String::from_str("<row r=\"");
    append_dec(&mut open, row_index as u64);
    open.append("\">");
    let ghost open_bytes = encode_utf8("<row r=\""@ + dec(row_index as nat) + "\">"@);
    assert(open@ =~= "<row r=\""@ + dec(row_index as nat) + "\">"@);
    proof {
        lemma_cells_bytes_prefix_len(row_index as nat, cv, cv.len() as int);
    }
    let _ = zip.write_entry_data(open.as_str().as_bytes());
    let mut i: usize = 0;
    while i < cells.len()
        invariant
            i <= cells.len(),
            cv == cells_view(cells@),
            total == row_bytes(row_index as nat, cv),
            zip.wf(),
            zip.is_open(),
            zip.bytes() == old(zip).bytes() + open_bytes + cells_bytes(row_index as nat, cv.take(i as int)),
            zip.pending() == old(zip).pending() + open_bytes + cells_bytes(row_index as nat, cv.take(i as int)),
            zip.current_data() == old(zip).current_data() + open_bytes + cells_bytes(row_index as nat, cv.take(i as int)),
            zip.current_name() == old(zip).current_name(),
            zip.current_offset() == old(zip).current_offset(),
            zip.entries() == old(zip).entries(),
            zip.entry_data() == old(zip).entry_data(),
            old(zip).bytes().len() + total.len() <= u64::MAX,
            open_bytes == encode_utf8("<row r=\""@ + dec(row_index as nat) + "\">"@),
        decreases cells.len() - i,
    {
        proof {
            assert(cv.take(i + 1).drop_last() =~= cv.take(i as int));
            assert(cv.take(i + 1).last() == (cells@[i as int].0@, cells@[i as int].1));
            lemma_cells_bytes_prefix_len(row_index as nat, cv, i + 1);
        }
        let (value, numeric) = cells[i];
        let _ = write_xlsx_cell(zip, row_index, i, value, numeric);
        proof {
            assert(zip.bytes() =~= old(zip).bytes() + open_bytes + cells_bytes(row_index as nat, cv.take(i + 1)));
            assert(zip.pending() =~= old(zip).pending() + open_bytes + cells_bytes(row_index as nat, cv.take(i + 1)));
            assert(zip.current_data() =~= old(zip).current_data() + open_bytes + cells_bytes(row_index as nat, cv.take(i + 1)));
        }
        i = i + 1;
    }
    assert(cv.take(cells.len() as int) =~= cv);
    let r = zip.write_entry_data("</row>".as_bytes());
    assert(zip.bytes() =~= old(zip).bytes() + total);
    assert(zip.pending() =~= old(zip).pending() + total);
    assert(zip.current_data() =~= old(zip).current_data() + total);
    r
}

proof fn lemma_cells_bytes_prefix_len(row: nat, cells: Seq<(Seq<char>, bool)>, i: int)
    requires
        0 <= i <= cells.len(),
    ensures
        cells_bytes(row, cells.take(i)).len() <= cells_bytes(row, cells).len(),
    decreases cells.len() - i,
{
    if i < cells.len() {
        lemma_cells_bytes_prefix_len(row, cells, i + 1);
        assert(cells.take(i + 1).drop_last() =~= cells.take(i));
    } else {
        assert(cells.take(i) =~= cells);
    }
}

/// Powers of ten.
pub open spec fn ten_pow(k: nat) -> nat
    decreases k,
{
    if k == 0 {
        1
    } else {
        10 * ten_pow((k - 1) as nat)
    }
}

/// A number below `10^k` has at most `k` decimal digits.
pub proof fn lemma_dec_len_le(n: nat, k: nat)
    requires
        k >= 1,
        n < ten_pow(k),
    ensures
        dec(n).len() <= k,
    decreases k,
{
    if n >= 10 {
        assert(k >= 2) by {
            if k == 1 {
                assert(ten_pow(1) == 10) by {
                    reveal_with_fuel(ten_pow, 2);
                }
            }
        }
        assert(n / 10 < ten_pow((k - 1) as nat));
        lemma_dec_len_le(n / 10, (k - 1) as nat);
    }
}

/// Escaping at most multiplies the length by six.
pub proof fn lemma_xml_escape_len(s: Seq<char>)
    ensures
        xml_escape_seq(s).len() <= 6 * s.len(),
    decreases s.len(),
{
    if s.len() > 0 {
        lemma_xml_escape_len(s.drop_last());
    }
}

/// Bytes of one cell whose text has at most `l` characters, in one of the
/// first 26 columns of a row numbered below 10^7.
pub proof fn lemma_cell_bytes_bound(row: nat, col: nat, value: Seq<char>, numeric: bool, l: nat)
    requires
        row < 10_000_000,
        col < 26,
        value.len() <= l,
    ensures
        encode_utf8(cell_xml(row, col, value, numeric)).len() <= 250 + 24 * l,
{
    assert(ten_pow(7) == 10_000_000) by {
        reveal_with_fuel(ten_pow, 8);
    }
    lemma_dec_len_le(row, 7);
    lemma_xml_escape_len(value);
    reveal_strlit("<c r=\"");
    reveal_strlit("\"><v>");
    reveal_strlit("</v></c>");
    reveal_strlit("\" t=\"inlineStr\"><is><t>");
    reveal_strlit("</t></is></c>");
    assert(col_name(col).len() == 1);
    crate::text::lemma_encode_utf8_len(cell_xml(row, col, value, numeric));
}

/// Bytes of a row of at most 26 cells whose texts have at most `l`
/// characters, numbered below 10^7.
pub proof fn lemma_row_bytes_bound(row: nat, cells: Seq<(Seq<char>, bool)>, l: nat)
    requires
        row < 10_000_000,
        cells.len() <= 26,
        forall|i: int| 0 <= i < cells.len() ==> (#[trigger] cells[i]).0.len() <= l,
    ensures
        row_bytes(row, cells).len() <= 100 + 26 * (250 + 24 * l),
{
    lemma_cells_bytes_bound(row, cells, l);
    assert(ten_pow(7) == 10_000_000) by {
        reveal_with_fuel(ten_pow, 8);
    }
    lemma_dec_len_le(row, 7);
    reveal_strlit("<row r=\"");
    reveal_strlit("\">");
    reveal_strlit("</row>");
    crate::text::lemma_encode_utf8_len("<row r=\""@ + dec(row) + "\">"@);
    crate::text::lemma_encode_utf8_len("</row>"@);
    let k = 250 + 24 * l;
    assert(cells.len() * k <= 26 * k) by (nonlinear_arith)
        requires
            cells.len() <= 26,
            k >= 0,
    ;
}

proof fn lemma_cells_bytes_bound(row: nat, cells: Seq<(Seq<char>, bool)>, l: nat)
    requires
        row < 10_000_000,
        cells.len() <= 26,
        forall|i: int| 0 <= i < cells.len() ==> (#[trigger] cells[i]).0.len() <= l,
    ensures
        cells_bytes(row, cells).len() <= cells.len() * (250 + 24 * l),
    decreases cells.len(),
{
    if cells.len() > 0 {
        let init = cells.drop_last();
        assert forall|i: int| 0 <= i < init.len() implies (#[trigger] init[i]).0.len() <= l by {
            assert(init[i] == cells[i]);
        }
        lemma_cells_bytes_bound(row, init, l);
        assert(cells[cells.len() - 1] == cells.last());
        lemma_cell_bytes_bound(row, (cells.len() - 1) as nat, cells.last().0, cells.last().1, l);
        let k = 250 + 24 * l;
        let n = cells.len();
        assert((n - 1) * k + k == n * k) by (nonlinear_arith);
    }
}

// ---------------------------------------------------------------------------
// Table export workbook
// ---------------------------------------------------------------------------

/// Rows per worksheet allowed by Excel (header row included).
pub const EXCEL_MAX_ROWS: u32 = 1_048_576;

pub open spec fn sheet_open_xml() -> Seq<char> {
    "<?xml version=\"1.0\" encoding=\"UTF-8\" standalone=\"yes\"?><worksheet xmlns=\"http://schemas.openxmlformats.org/spreadsheetml/2006/main\"><sheetData>"@
}

pub open spec fn sheet_close_xml() -> Seq<char> {
    "</sheetData></worksheet>"@
}

/// Zip entry name of the k-th worksheet.
pub open spec fn sheet_path(k: nat) -> Seq<char> {
    "xl/worksheets/sheet"@ + dec(k) + ".xml"@
}

/// The header row: every header as text.
pub open spec fn header_cells(headers: Seq<String>) -> Seq<(Seq<char>, bool)> {
    headers.map_values(|h: String| (h@, false))
}

/// A data row: value `i` is numeric when `numeric[i]` is true, text otherwise
/// (also when `numeric` is shorter than `values`).
pub open spec fn data_cells(values: Seq<String>, numeric: Seq<bool>) -> Seq<(Seq<char>, bool)> {
    Seq::new(values.len(), |i: int| (values[i]@, if i < numeric.len() { numeric[i] } else { false }))
}

/// Data rows of one sheet, the first at spreadsheet row 2.
pub open spec fn data_rows_bytes(rows: Seq<Seq<(Seq<char>, bool)>>) -> Seq<u8>
    decreases rows.len(),
{
    if rows.len() == 0 {
        seq![]
    } else {
        data_rows_bytes(rows.drop_last()) + row_bytes((rows.len() + 1) as nat, rows.last())
    }
}

/// The data of an open worksheet entry: XML prologue, header row, data rows.
pub open spec fn sheet_data(headers: Seq<String>, rows: Seq<Seq<(Seq<char>, bool)>>) -> Seq<u8> {
    encode_utf8(sheet_open_xml()) + row_bytes(1, header_cells(headers)) + data_rows_bytes(rows)
}

/// Data rows a worksheet holds below its header.
pub open spec fn rows_per_sheet() -> nat {
    (EXCEL_MAX_ROWS - 1) as nat
}

/// Number of worksheets used after `n` data rows.
pub open spec fn sheets_needed(n: nat) -> nat {
    if n == 0 {
        1
    } else {
        ((n - 1) as nat / rows_per_sheet() + 1) as nat
    }
}


// ---------------------------------------------------------------------------
// Workbook parts
// ---------------------------------------------------------------------------

pub open spec fn content_types_head() -> Seq<char> {
    "<?xml version=\"1.0\" encoding=\"UTF-8\" standalone=\"yes\"?><Types xmlns=\"http://schemas.openxmlformats.org/package/2006/content-types\"><Default Extension=\"rels\" ContentType=\"application/vnd.openxmlformats-package.relationships+xml\"/><Default Extension=\"xml\" ContentType=\"application/xml\"/><Override PartName=\"/xl/workbook.xml\" ContentType=\"application/vnd.openxmlformats-officedocument.spreadsheetml.sheet.main+xml\"/>"@
}

pub open spec fn content_type_override(i: nat) -> Seq<char> {
    "<Override PartName=\"/xl/worksheets/sheet"@ + dec(i)
        + ".xml\" ContentType=\"application/vnd.openxmlformats-officedocument.spreadsheetml.worksheet+xml\"/>"@
}

pub open spec fn table_sheet_entry(i: nat) -> Seq<char> {
    "<sheet name=\"Export "@ + dec(i) + "\" sheetId=\""@ + dec(i) + "\" r:id=\"rId"@ + dec(i) + "\"/>"@
}

pub open spec fn sheet_relationship(i: nat) -> Seq<char> {
    "<Relationship Id=\"rId"@ + dec(i)
        + "\" Type=\"http://schemas.openxmlformats.org/officeDocument/2006/relationships/worksheet\" Target=\"worksheets/sheet"@
        + dec(i) + ".xml\"/>"@
}

pub open spec fn content_type_overrides(n: nat) -> Seq<char>
    decreases n,
{
    if n == 0 {
        seq![]
    } else {
        content_type_overrides((n - 1) as nat) + content_type_override(n)
    }
}

pub open spec fn table_sheet_entries(n: nat) -> Seq<char>
    decreases n,
{
    if n == 0 {
        seq![]
    } else {
        table_sheet_entries((n - 1) as nat) + table_sheet_entry(n)
    }
}

pub open spec fn sheet_relationships(n: nat) -> Seq<char>
    decreases n,
{
    if n == 0 {
        seq![]
    } else {
        sheet_relationships((n - 1) as nat) + sheet_relationship(n)
    }
}

pub open spec fn relationships_head() -> Seq<char> {
    "<?xml version=\"1.0\" encoding=\"UTF-8\" standalone=\"yes\"?><Relationships xmlns=\"http://schemas.openxmlformats.org/package/2006/relationships\">"@
}

/// `[Content_Types].xml` of a workbook with `n` worksheets.
pub open spec fn content_types_xml(n: nat) -> Seq<char> {
    content_types_head() + content_type_overrides(n) + "</Types>"@
}

/// `_rels/.rels`.
pub open spec fn root_rels_xml() -> Seq<char> {
    "<?xml version=\"1.0\" encoding=\"UTF-8\" standalone=\"yes\"?><Relationships xmlns=\"http://schemas.openxmlformats.org/package/2006/relationships\"><Relationship Id=\"rId1\" Type=\"http://schemas.openxmlformats.org/officeDocument/2006/relationships/officeDocument\" Target=\"xl/workbook.xml\"/></Relationships>"@
}

/// `xl/workbook.xml` of a table export with `n` worksheets named "Export i".
pub open spec fn table_workbook_xml(n: nat) -> Seq<char> {
    "<?xml version=\"1.0\" encoding=\"UTF-8\" standalone=\"yes\"?><workbook xmlns=\"http://schemas.openxmlformats.org/spreadsheetml/2006/main\" xmlns:r=\"http://schemas.openxmlformats.org/officeDocument/2006/relationships\"><sheets>"@
        + table_sheet_entries(n) + "</sheets></workbook>"@
}

/// `xl/_rels/workbook.xml.rels` of a workbook with `n` worksheets.
pub open spec fn workbook_rels_xml(n: nat) -> Seq<char> {
    relationships_head() + sheet_relationships(n) + "</Relationships>"@
}

/// The archive `z` is `w`'s workbook closed: the open sheet finished, then
/// the four package parts added, each at the position it was written at.
pub open spec fn workbook_closed(w: TableXlsxWriter, z: ZipStream) -> bool {
    let old_entries = w.archive().entries();
    let m = old_entries.len() as int;
    let n = w.sheet_index();
    let sheet = w.archive().current_data() + encode_utf8(sheet_close_xml());
    &&& z.wf()
    &&& !z.is_open()
    &&& z.bytes().len() >= w.archive().bytes().len()
    &&& z.bytes().take(w.archive().bytes().len() as int) == w.archive().bytes()
    &&& z.pending() == w.archive().pending() + z.bytes().skip(w.archive().bytes().len() as int)
    &&& z.entries().len() == m + 5
    &&& z.entries().take(m as int) == old_entries
    &&& z.entry_data() == w.archive().entry_data() + seq![
        sheet,
        encode_utf8(content_types_xml(n)),
        encode_utf8(root_rels_xml()),
        encode_utf8(table_workbook_xml(n)),
        encode_utf8(workbook_rels_xml(n)),
    ]
    &&& z.entries()[m].name@ == sheet_path(n)
    &&& z.entries()[m].local_header_offset == w.archive().current_offset()
    &&& z.entries()[m + 1].name@ == "[Content_Types].xml"@
    &&& z.entries()[m + 2].name@ == "_rels/.rels"@
    &&& z.entries()[m + 3].name@ == "xl/workbook.xml"@
    &&& z.entries()[m + 4].name@ == "xl/_rels/workbook.xml.rels"@
}

/// The archive fits the 32-bit ZIP fields.
pub open spec fn fits_zip32(z: ZipStream) -> bool {
    &&& crate::zip::entries_fit_zip32(z.entries())
    &&& crate::zip::central_directory(z.entries()).len() <= u32::MAX
    &&& z.bytes().len() <= u32::MAX
}


/// Composes two "extends, with pending growing by the same suffix" steps.
proof fn lemma_prefix_chain(a: Seq<u8>, b: Seq<u8>, c: Seq<u8>, pa: Seq<u8>, pb: Seq<u8>, pc: Seq<u8>)
    requires
        a.len() <= b.len(),
        b.take(a.len() as int) == a,
        pb == pa + b.skip(a.len() as int),
        b.len() <= c.len(),
        c.take(b.len() as int) == b,
        pc == pb + c.skip(b.len() as int),
    ensures
        a.len() <= c.len(),
        c.take(a.len() as int) == a,
        pc == pa + c.skip(a.len() as int),
{
    assert(c.take(a.len() as int) =~= b.take(a.len() as int));
    assert(c.skip(a.len() as int) =~= b.skip(a.len() as int) + c.skip(b.len() as int));
}

/// Streams a table into an XLSX package, one worksheet per 1,048,576 rows,
/// each worksheet starting with the header row.
pub struct TableXlsxWriter {
    zip: ZipStream,
    sheet_index: u32,
    current_row: u32,
    headers: Vec<String>,
    sheet_rows: Ghost<Seq<Seq<(Seq<char>, bool)>>>,
    rows_written: Ghost<nat>,
}

impl TableXlsxWriter {
    pub closed spec fn wf(&self) -> bool {
        &&& self.zip.wf()
        &&& self.zip.is_open()
        &&& self.sheet_index >= 1
        &&& self.zip.current_name() == sheet_path(self.sheet_index as nat)
        &&& self.zip.current_data() == sheet_data(self.headers@, self.sheet_rows@)
        &&& self.current_row == 1 + self.sheet_rows@.len()
        &&& self.current_row <= EXCEL_MAX_ROWS
        &&& self.zip.entries().len() == self.sheet_index - 1
        &&& forall|k: int| 0 <= k < self.zip.entries().len() ==> (#[trigger] self.zip.entries()[k]).name@ == sheet_path((k + 1) as nat)
        &&& self.sheet_index > 1 ==> self.sheet_rows@.len() >= 1
        &&& self.rows_written@ == (self.sheet_index - 1) * rows_per_sheet() + self.sheet_rows@.len()
    }

    /// The archive being written.
    pub closed spec fn archive(&self) -> ZipStream {
        self.zip
    }

    pub closed spec fn headers(&self) -> Seq<String> {
        self.headers@
    }

    /// One-based number of the worksheet being written.
    pub closed spec fn sheet_index(&self) -> nat {
        self.sheet_index as nat
    }

    /// Spreadsheet row of the last row written on the current sheet.
    pub closed spec fn current_row(&self) -> nat {
        self.current_row as nat
    }

    /// Data rows written on the current sheet, in order.
    pub closed spec fn sheet_rows(&self) -> Seq<Seq<(Seq<char>, bool)>> {
        self.sheet_rows@
    }

    /// Data rows written since creation.
    pub closed spec fn rows_written(&self) -> nat {
        self.rows_written@
    }

    /// Law: the number of worksheets is determined by the number of data
    /// rows: one sheet holds 1,048,575 rows under its header, and a new sheet
    /// is begun only for a row that does not fit.
    pub proof fn lemma_sheet_count(&self)
        requires
            self.wf(),
        ensures
            self.sheet_index() == sheets_needed(self.rows_written()),
            1 <= self.current_row() <= EXCEL_MAX_ROWS,
    {
        let s = (self.sheet_index - 1) as nat;
        let r = self.sheet_rows@.len();
        let cap = rows_per_sheet();
        let n = self.rows_written@;
        assert(n == s * cap + r);
        if n > 0 {
            if s == 0 {
                assert((n - 1) as nat / cap == 0);
            } else {
                assert(r >= 1);
                assert(((n - 1) as nat) / cap == s) by (nonlinear_arith)
                    requires
                        n == s * cap + r,
                        1 <= r <= cap,
                        cap > 0,
                ;
            }
        }
    }

    /// Bytes the next `write_row` appends when no new sheet is needed.
    pub open spec fn plain_row_len(&self, cells: Seq<(Seq<char>, bool)>) -> nat {
        row_bytes((self.current_row() + 1) as nat, cells).len()
    }

    /// Bytes the next `write_row` appends when it must begin a new sheet.
    pub open spec fn new_sheet_row_len(&self, cells: Seq<(Seq<char>, bool)>) -> nat {
        encode_utf8(sheet_close_xml()).len() + 16 + crate::zip::local_header(
            encode_utf8(sheet_path((self.sheet_index() + 1) as nat)),
        ).len() + encode_utf8(sheet_open_xml()).len() + row_bytes(1, header_cells(self.headers())).len()
            + row_bytes(2, cells).len()
    }

    pub(crate) fn write_sheet_path(k: u32) -> (r: String)
        ensures
            r@ == sheet_path(k as nat),
    {
        let mut r = String::from_str("xl/worksheets/sheet");
        append_dec(&mut r, k as u64);
        r.append(".xml");
        r
    }

    fn header_refs(headers: &Vec<String>) -> (cells: Vec<(&str, bool)>)
        ensures
            cells_view(cells@) == header_cells(headers@),
    {
        let mut cells: Vec<(&str, bool)> = Vec::new();
        let mut i: usize = 0;
        while i < headers.len()
            invariant
                i <= headers.len(),
                cells@.len() == i,
                forall|k: int| 0 <= k < i ==> (#[trigger] cells@[k]).0@ == headers@[k]@ && !cells@[k].1,
            decreases headers.len() - i,
        {
            cells.push((headers[i].as_str(), false));
            i = i + 1;
        }
        assert(cells_view(cells@) =~= header_cells(headers@));
        cells
    }

    fn value_refs<'a>(values: &'a [String], numeric: &[bool]) -> (cells: Vec<(&'a str, bool)>)
        ensures
            cells_view(cells@) == data_cells(values@, numeric@),
    {
        let mut cells: Vec<(&str, bool)> = Vec::new();
        let mut i: usize = 0;
        while i < values.len()
            invariant
                i <= values.len(),
                cells@.len() == i,
                forall|k: int|
                    0 <= k < i ==> (#[trigger] cells@[k]).0@ == values@[k]@ && cells@[k].1 == (if k
                        < numeric@.len() {
                        numeric@[k]
                    } else {
                        false
                    }),
            decreases values.len() - i,
        {
            let flag = if i < numeric.len() {
                numeric[i]
            } else {
                false
            };
            cells.push((values[i].as_str(), flag));
            i = i + 1;
        }
        assert(cells_view(cells@) =~= data_cells(values@, numeric@));
        cells
    }

    /// Begins a workbook and writes the header row of the first sheet.
    pub fn new(headers: Vec<String>) -> (r: Result<Self, String>)
        requires
            crate::zip::local_header(encode_utf8(sheet_path(1))).len() + encode_utf8(sheet_open_xml()).len()
                + row_bytes(1, header_cells(headers@)).len() <= u64::MAX,
        ensures
            r is Ok,
            r->Ok_0.wf(),
            r->Ok_0.headers() == headers@,
            r->Ok_0.sheet_index() == 1,
            r->Ok_0.rows_written() == 0,
            r->Ok_0.archive().entries().len() == 0,
            r->Ok_0.archive().bytes() == crate::zip::local_header(encode_utf8(sheet_path(1)))
                + sheet_data(headers@, Seq::empty()),
            r->Ok_0.archive().pending() == r->Ok_0.archive().bytes(),
    {
        let mut zip = ZipStream::new();
        let path = Self::write_sheet_path(1);
        let _ = zip.start_entry(path.as_str());
        let _ = zip.write_entry_data(
            "<?xml version=\"1.0\" encoding=\"UTF-8\" standalone=\"yes\"?><worksheet xmlns=\"http://schemas.openxmlformats.org/spreadsheetml/2006/main\"><sheetData>".as_bytes(),
        );
        {
            let cells = Self::header_refs(&headers);
            let _ = write_xlsx_row(&mut zip, 1, cells.as_slice());
        }
        let w = TableXlsxWriter {
            zip,
            sheet_index: 1,
            current_row: 1,
            headers,
            sheet_rows: Ghost(Seq::empty()),
            rows_written: Ghost(0),
        };
        assert(data_rows_bytes(Seq::<Seq<(Seq<char>, bool)>>::empty()) =~= Seq::<u8>::empty());
        assert(w.zip.current_data() =~= sheet_data(w.headers@, Seq::empty()));
        assert(w.zip.bytes() =~= crate::zip::local_header(encode_utf8(sheet_path(1))) + sheet_data(w.headers@, Seq::empty()));
        assert(w.zip.pending() =~= w.zip.bytes());
        Ok(w)
    }

    /// Writes one data row, beginning a new sheet (with the header row)
    /// when the current one is full.
    pub fn write_row(&mut self, values: &[String], numeric: &[bool]) -> (r: Result<(), String>)
        requires
            old(self).wf(),
            old(self).sheet_index() < u32::MAX,
            old(self).archive().bytes().len() + old(self).new_sheet_row_len(data_cells(values@, numeric@)) <= u64::MAX,
            old(self).archive().bytes().len() + old(self).plain_row_len(data_cells(values@, numeric@)) <= u64::MAX,
        ensures
            old(self).current_row() < EXCEL_MAX_ROWS ==> {
                &&& r is Ok
                &&& final(self).wf()
                &&& final(self).archive().bytes() == old(self).archive().bytes() + row_bytes(
                    (old(self).current_row() + 1) as nat,
                    data_cells(values@, numeric@),
                )
                &&& final(self).archive().pending() == old(self).archive().pending() + row_bytes(
                    (old(self).current_row() + 1) as nat,
                    data_cells(values@, numeric@),
                )
                &&& final(self).archive().entries() == old(self).archive().entries()
                &&& final(self).archive().entry_data() == old(self).archive().entry_data()
                &&& final(self).sheet_index() == old(self).sheet_index()
                &&& final(self).sheet_rows() == old(self).sheet_rows().push(data_cells(values@, numeric@))
            },
            old(self).current_row() >= EXCEL_MAX_ROWS && old(self).archive().current_data().len()
                + encode_utf8(sheet_close_xml()).len() <= u32::MAX ==> {
                &&& r is Ok
                &&& final(self).wf()
                &&& final(self).sheet_index() == old(self).sheet_index() + 1
                &&& final(self).sheet_rows() == seq![data_cells(values@, numeric@)]
                &&& final(self).archive().entries().drop_last() == old(self).archive().entries()
                &&& final(self).archive().entry_data() == old(self).archive().entry_data().push(
                    old(self).archive().current_data() + encode_utf8(sheet_close_xml()),
                )
            },
            old(self).current_row() >= EXCEL_MAX_ROWS && old(self).archive().current_data().len()
                + encode_utf8(sheet_close_xml()).len() > u32::MAX ==> r is Err,
            r is Ok ==> final(self).headers() == old(self).headers() && final(self).rows_written()
                == old(self).rows_written() + 1,
    {
        let ghost cells = data_cells(values@, numeric@);
        if self.current_row >= EXCEL_MAX_ROWS {
            self.start_next_sheet()?;
            proof {
                let es = self.zip.entries();
                assert forall|k: int| 0 <= k < es.len() implies (#[trigger] es[k]).name@ == sheet_path(
                    (k + 1) as nat,
                ) by {
                    if k < es.len() - 1 {
                        assert(es[k] == es.drop_last()[k]);
                        assert(old(self).zip.entries()[k] == es[k]);
                    }
                }
                let s = old(self).sheet_index as int;
                let cap = rows_per_sheet() as int;
                assert(old(self).sheet_rows@.len() == cap);
                assert((s - 1) * cap + cap == s * cap) by (nonlinear_arith);
            }
        }
        let row = self.current_row + 1;
        {
            let refs = Self::value_refs(values, numeric);
            proof {
                assert(self.zip.bytes().len() + row_bytes(row as nat, cells).len() <= u64::MAX);
            }
            let _ = write_xlsx_row(&mut self.zip, row, refs.as_slice());
        }
        self.current_row = row;
        proof {
            let old_rows = self.sheet_rows@;
            self.sheet_rows@ = self.sheet_rows@.push(cells);
            assert(self.sheet_rows@.drop_last() =~= old_rows);
            self.rows_written@ = self.rows_written@ + 1;
            assert(self.zip.current_data() =~= sheet_data(self.headers@, self.sheet_rows@));
        }
        Ok(())
    }

    /// Closes the full sheet and begins the next one with its header row.
    fn start_next_sheet(&mut self) -> (r: Result<(), String>)
        requires
            old(self).wf(),
            old(self).current_row() >= EXCEL_MAX_ROWS,
            old(self).sheet_index() < u32::MAX,
            old(self).archive().bytes().len() + encode_utf8(sheet_close_xml()).len() + 16
                + crate::zip::local_header(encode_utf8(sheet_path((old(self).sheet_index() + 1) as nat))).len()
                + encode_utf8(sheet_open_xml()).len() + row_bytes(1, header_cells(old(self).headers())).len()
                <= u64::MAX,
        ensures
            old(self).archive().current_data().len() + encode_utf8(sheet_close_xml()).len() <= u32::MAX ==> {
                &&& r is Ok
                &&& final(self).zip.wf()
                &&& final(self).zip.is_open()
                &&& final(self).sheet_index == old(self).sheet_index + 1
                &&& final(self).current_row == 1
                &&& final(self).headers == old(self).headers
                &&& final(self).sheet_rows@ == Seq::<Seq<(Seq<char>, bool)>>::empty()
                &&& final(self).rows_written == old(self).rows_written
                &&& final(self).zip.current_name() == sheet_path(final(self).sheet_index as nat)
                &&& final(self).zip.current_data() == sheet_data(old(self).headers@, Seq::empty())
                &&& final(self).zip.entries().len() == old(self).zip.entries().len() + 1
                &&& final(self).zip.entries().drop_last() == old(self).zip.entries()
                &&& final(self).zip.entries().last().name@ == sheet_path(old(self).sheet_index as nat)
                &&& final(self).zip.entry_data() == old(self).zip.entry_data().push(
                    old(self).zip.current_data() + encode_utf8(sheet_close_xml()),
                )
                &&& final(self).zip.bytes() == old(self).zip.bytes() + encode_utf8(sheet_close_xml())
                    + crate::zip::data_descriptor(
                    crate::zip::crc32(old(self).zip.current_data() + encode_utf8(sheet_close_xml())),
                    (old(self).zip.current_data() + encode_utf8(sheet_close_xml())).len() as u32,
                    (old(self).zip.current_data() + encode_utf8(sheet_close_xml())).len() as u32,
                ) + crate::zip::local_header(encode_utf8(sheet_path(final(self).sheet_index as nat)))
                    + sheet_data(old(self).headers@, Seq::empty())
            },
            old(self).archive().current_data().len() + encode_utf8(sheet_close_xml()).len() > u32::MAX ==> r is Err,
    {
        let _ = self.zip.write_entry_data("</sheetData></worksheet>".as_bytes());
        self.zip.finish_entry()?;
        self.sheet_index = self.sheet_index + 1;
        self.current_row = 0;
        let path = Self::write_sheet_path(self.sheet_index);
        let _ = self.zip.start_entry(path.as_str());
        let _ = self.zip.write_entry_data(
            "<?xml version=\"1.0\" encoding=\"UTF-8\" standalone=\"yes\"?><worksheet xmlns=\"http://schemas.openxmlformats.org/spreadsheetml/2006/main\"><sheetData>".as_bytes(),
        );
        {
            let cells = Self::header_refs(&self.headers);
            let _ = write_xlsx_row(&mut self.zip, 1, cells.as_slice());
        }
        self.current_row = 1;
        proof {
            self.sheet_rows@ = Seq::empty();
            assert(data_rows_bytes(Seq::<Seq<(Seq<char>, bool)>>::empty()) =~= Seq::<u8>::empty());
            assert(self.zip.current_data() =~= sheet_data(self.headers@, Seq::empty()));
        }
        Ok(())
    }


    fn build_workbook_parts(n: u32) -> (r: (String, String, String))
        ensures
            r.0@ == content_types_xml(n as nat),
            r.1@ == table_workbook_xml(n as nat),
            r.2@ == workbook_rels_xml(n as nat),
    {
        let mut content_types = String::from_str(
            "<?xml version=\"1.0\" encoding=\"UTF-8\" standalone=\"yes\"?><Types xmlns=\"http://schemas.openxmlformats.org/package/2006/content-types\"><Default Extension=\"rels\" ContentType=\"application/vnd.openxmlformats-package.relationships+xml\"/><Default Extension=\"xml\" ContentType=\"application/xml\"/><Override PartName=\"/xl/workbook.xml\" ContentType=\"application/vnd.openxmlformats-officedocument.spreadsheetml.sheet.main+xml\"/>",
        );
        let mut sheets = String::new();
        let mut rels = String::from_str(
            "<?xml version=\"1.0\" encoding=\"UTF-8\" standalone=\"yes\"?><Relationships xmlns=\"http://schemas.openxmlformats.org/package/2006/relationships\">",
        );
        let mut index: u64 = 1;
        while index <= n as u64
            invariant
                1 <= index <= n as u64 + 1,
                content_types@ == content_types_head() + content_type_overrides((index - 1) as nat),
                sheets@ == table_sheet_entries((index - 1) as nat),
                rels@ == relationships_head() + sheet_relationships((index - 1) as nat),
            decreases n as u64 + 1 - index,
        {
            content_types.append("<Override PartName=\"/xl/worksheets/sheet");
            append_dec(&mut content_types, index);
            content_types.append(".xml\" ContentType=\"application/vnd.openxmlformats-officedocument.spreadsheetml.worksheet+xml\"/>");
            sheets.append("<sheet name=\"Export ");
            append_dec(&mut sheets, index);
            sheets.append("\" sheetId=\"");
            append_dec(&mut sheets, index);
            sheets.append("\" r:id=\"rId");
            append_dec(&mut sheets, index);
            sheets.append("\"/>");
            rels.append("<Relationship Id=\"rId");
            append_dec(&mut rels, index);
            rels.append("\" Type=\"http://schemas.openxmlformats.org/officeDocument/2006/relationships/worksheet\" Target=\"worksheets/sheet");
            append_dec(&mut rels, index);
            rels.append(".xml\"/>");
            proof {
                assert(content_types@ =~= content_types_head() + content_type_overrides(index as nat));
                assert(sheets@ =~= table_sheet_entries(index as nat));
                assert(rels@ =~= relationships_head() + sheet_relationships(index as nat));
            }
            index = index + 1;
        }
        content_types.append("</Types>");
        rels.append("</Relationships>");
        let mut workbook = String::from_str(
            "<?xml version=\"1.0\" encoding=\"UTF-8\" standalone=\"yes\"?><workbook xmlns=\"http://schemas.openxmlformats.org/spreadsheetml/2006/main\" xmlns:r=\"http://schemas.openxmlformats.org/officeDocument/2006/relationships\"><sheets>",
        );
        workbook.append(sheets.as_str());
        workbook.append("</sheets></workbook>");
        (content_types, workbook, rels)
    }

    /// Adds one complete entry to an archive with no open entry.
    pub(crate) fn add_part(zip: &mut ZipStream, name: &str, data: &str)
        requires
            old(zip).wf(),
            !old(zip).is_open(),
            old(zip).bytes().len() <= 0x4800_0000_0000_0000u64,
            name@.len() <= 64,
            encode_utf8(data@).len() <= u32::MAX,
        ensures
            final(zip).wf(),
            !final(zip).is_open(),
            old(zip).bytes().len() <= final(zip).bytes().len() <= old(zip).bytes().len() + 0x2_0000_0000u64,
            final(zip).bytes().take(old(zip).bytes().len() as int) == old(zip).bytes(),
            final(zip).pending() == old(zip).pending() + final(zip).bytes().skip(old(zip).bytes().len() as int),
            final(zip).entries().len() == old(zip).entries().len() + 1,
            final(zip).entries().drop_last() == old(zip).entries(),
            final(zip).entries().last().name@ == name@,
            final(zip).entry_data() == old(zip).entry_data().push(encode_utf8(data@)),
    {
        proof {
            crate::text::lemma_encode_utf8_len(name@);
        }
        let _ = zip.add_entry(name, data);
        proof {
            let x = crate::zip::local_header(encode_utf8(name@)) + encode_utf8(data@) + crate::zip::data_descriptor(
                crate::zip::crc32(encode_utf8(data@)),
                encode_utf8(data@).len() as u32,
                encode_utf8(data@).len() as u32,
            );
            assert(zip.bytes() == old(zip).bytes() + x);
            assert(zip.bytes().take(old(zip).bytes().len() as int) =~= old(zip).bytes());
            assert(zip.bytes().skip(old(zip).bytes().len() as int) =~= x);
        }
    }

    /// Adds the four package parts to an archive whose sheets are closed.
    pub(crate) fn add_package_parts(zip: &mut ZipStream, n: u32, content_types: &str, workbook: &str, rels: &str)
        requires
            old(zip).wf(),
            !old(zip).is_open(),
            old(zip).bytes().len() <= 0x4400_0000_0000_0000u64,
            content_types@ == content_types_xml(n as nat),
            rels@ == workbook_rels_xml(n as nat),
            encode_utf8(content_types@).len() <= u32::MAX,
            encode_utf8(workbook@).len() <= u32::MAX,
            encode_utf8(rels@).len() <= u32::MAX,
        ensures
            final(zip).wf(),
            !final(zip).is_open(),
            final(zip).bytes().len() >= old(zip).bytes().len(),
            final(zip).bytes().take(old(zip).bytes().len() as int) == old(zip).bytes(),
            final(zip).pending() == old(zip).pending() + final(zip).bytes().skip(old(zip).bytes().len() as int),
            final(zip).entries().len() == old(zip).entries().len() + 4,
            final(zip).entries().take(old(zip).entries().len() as int) == old(zip).entries(),
            final(zip).entry_data() == old(zip).entry_data() + seq![
                encode_utf8(content_types_xml(n as nat)),
                encode_utf8(root_rels_xml()),
                encode_utf8(workbook@),
                encode_utf8(workbook_rels_xml(n as nat)),
            ],
            final(zip).entries()[old(zip).entries().len() as int].name@ == "[Content_Types].xml"@,
            final(zip).entries()[old(zip).entries().len() as int + 1].name@ == "_rels/.rels"@,
            final(zip).entries()[old(zip).entries().len() as int + 2].name@ == "xl/workbook.xml"@,
            final(zip).entries()[old(zip).entries().len() as int + 3].name@ == "xl/_rels/workbook.xml.rels"@,
    {
        let root_rels = "<?xml version=\"1.0\" encoding=\"UTF-8\" standalone=\"yes\"?><Relationships xmlns=\"http://schemas.openxmlformats.org/package/2006/relationships\"><Relationship Id=\"rId1\" Type=\"http://schemas.openxmlformats.org/officeDocument/2006/relationships/officeDocument\" Target=\"xl/workbook.xml\"/></Relationships>";
        proof {
            reveal_strlit("[Content_Types].xml");
            reveal_strlit("_rels/.rels");
            reveal_strlit("xl/workbook.xml");
            reveal_strlit("xl/_rels/workbook.xml.rels");
            reveal_strlit("<?xml version=\"1.0\" encoding=\"UTF-8\" standalone=\"yes\"?><Relationships xmlns=\"http://schemas.openxmlformats.org/package/2006/relationships\"><Relationship Id=\"rId1\" Type=\"http://schemas.openxmlformats.org/officeDocument/2006/relationships/officeDocument\" Target=\"xl/workbook.xml\"/></Relationships>");
            crate::text::lemma_encode_utf8_len(root_rels@);
        }
        let ghost z0 = *zip;
        Self::add_part(zip, "[Content_Types].xml", content_types);
        let ghost z1 = *zip;
        Self::add_part(zip, "_rels/.rels", root_rels);
        let ghost z2 = *zip;
        Self::add_part(zip, "xl/workbook.xml", workbook);
        let ghost z3 = *zip;
        Self::add_part(zip, "xl/_rels/workbook.xml.rels", rels);
        proof {
            let m = z0.entries().len() as int;
            let e = zip.entries();
            assert(e.drop_last() == z3.entries());
            assert(z3.entries().drop_last() == z2.entries());
            assert(z2.entries().drop_last() == z1.entries());
            assert(z1.entries().drop_last() == z0.entries());
            assert(e.take(m) =~= z0.entries());
            assert(e[m] == z1.entries().last());
            assert(e[m + 1] == z2.entries().last());
            assert(e[m + 2] == z3.entries().last());
            assert(zip.entry_data() =~= z0.entry_data() + seq![
                encode_utf8(content_types_xml(n as nat)),
                encode_utf8(root_rels_xml()),
                encode_utf8(workbook@),
                encode_utf8(workbook_rels_xml(n as nat)),
            ]);
            lemma_prefix_chain(z2.bytes(), z3.bytes(), zip.bytes(), z2.pending(), z3.pending(), zip.pending());
            lemma_prefix_chain(z1.bytes(), z2.bytes(), zip.bytes(), z1.pending(), z2.pending(), zip.pending());
            lemma_prefix_chain(z0.bytes(), z1.bytes(), zip.bytes(), z0.pending(), z1.pending(), zip.pending());
        }
    }

    /// Closes the last sheet, adds the package parts and the central
    /// directory, and returns the number of sheets with the remaining bytes.
    #[verifier::rlimit(60)]
    pub fn finish(self) -> (r: Result<(u32, Vec<u8>), String>)
        requires
            self.wf(),
        ensures
            r is Ok ==> {
                &&& r->Ok_0.0 == self.sheet_index()
                &&& exists|z: ZipStream|
                    {
                        &&& #[trigger] workbook_closed(self, z)
                        &&& fits_zip32(z)
                        &&& r->Ok_0.1@ == z.pending() + crate::zip::central_directory(z.entries())
                            + crate::zip::end_record(
                            z.entries().len() as u16,
                            crate::zip::central_directory(z.entries()).len() as u32,
                            z.bytes().len() as u32,
                        )
                    }
            },
            r is Err ==> r->Err_0@ == "XLSX package is larger than ZIP32 supports"@,
            r is Err ==> {
                ||| self.archive().bytes().len() > u32::MAX
                ||| self.archive().current_data().len() + encode_utf8(sheet_close_xml()).len() > u32::MAX
                ||| encode_utf8(content_types_xml(self.sheet_index())).len() > u32::MAX
                ||| encode_utf8(table_workbook_xml(self.sheet_index())).len() > u32::MAX
                ||| encode_utf8(workbook_rels_xml(self.sheet_index())).len() > u32::MAX
                ||| exists|z: ZipStream| #[trigger] workbook_closed(self, z) && !fits_zip32(z)
            },
    {
        let mut w = self;
        let position = w.zip.position();
        if position > 0xffff_ffffu64 {
            return Err(String::from_str("XLSX package is larger than ZIP32 supports"));
        }
        proof {
            reveal_strlit("</sheetData></worksheet>");
            crate::text::lemma_encode_utf8_len(sheet_close_xml());
        }
        let ghost z0 = w.zip;
        let _ = w.zip.write_entry_data("</sheetData></worksheet>".as_bytes());
        w.zip.finish_entry()?;
        let ghost z1 = w.zip;
        let count = w.sheet_index;
        let (content_types, workbook, rels) = Self::build_workbook_parts(count);
        if content_types.as_str().as_bytes().len() > 0xffff_ffffusize
            || workbook.as_str().as_bytes().len() > 0xffff_ffffusize
            || rels.as_str().as_bytes().len() > 0xffff_ffffusize {
            // A part this large could not be recorded in a 32-bit ZIP field.
            return Err(String::from_str("XLSX package is larger than ZIP32 supports"));
        }
        Self::add_package_parts(&mut w.zip, count, content_types.as_str(), workbook.as_str(), rels.as_str());
        let ghost z = w.zip;
        proof {
            let m = z0.entries().len() as int;
            assert(z1.entries()[m] == z1.entries().last());
            assert(z.entries()[m] == z1.entries()[m]) by {
                assert(z.entries().take(z1.entries().len() as int) == z1.entries());
            }
            assert(z.entries().take(m) =~= z0.entries()) by {
                assert(z.entries().take(z1.entries().len() as int) == z1.entries());
                assert(z1.entries().drop_last() == z0.entries());
            }
            assert(z.entry_data() =~= z0.entry_data() + seq![
                z0.current_data() + encode_utf8(sheet_close_xml()),
                encode_utf8(content_types_xml(count as nat)),
                encode_utf8(root_rels_xml()),
                encode_utf8(table_workbook_xml(count as nat)),
                encode_utf8(workbook_rels_xml(count as nat)),
            ]);
            assert(z1.bytes().take(z0.bytes().len() as int) =~= z0.bytes());
            assert(z1.pending() =~= z0.pending() + z1.bytes().skip(z0.bytes().len() as int));
            lemma_prefix_chain(z0.bytes(), z1.bytes(), z.bytes(), z0.pending(), z1.pending(), z.pending());
            assert(workbook_closed(self, z));
        }
        let bytes = w.zip.finish()?;
        Ok((count, bytes))
    }

    /// Hands out the bytes written since the last flush.
    pub fn flush(&mut self) -> (out: Vec<u8>)
        requires
            old(self).wf(),
        ensures
            final(self).wf(),
            out@ == old(self).archive().pending(),
            final(self).archive().pending() == Seq::<u8>::empty(),
            final(self).archive().bytes() == old(self).archive().bytes(),
            final(self).sheet_index() == old(self).sheet_index(),
            final(self).current_row() == old(self).current_row(),
            final(self).sheet_rows() == old(self).sheet_rows(),
            final(self).rows_written() == old(self).rows_written(),
            final(self).headers() == old(self).headers(),
    {
        self.zip.flush()
    }
}

} // verus!
