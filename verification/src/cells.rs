//! Values read from result rows: their text, integer and flag readings,
//! their CSV and SQL renderings, and lookup of a row's cells by column name.
use vstd::prelude::*;
use crate::decimal::{decimal_parse, one_bytes, parse_decimal, zero_bytes, Amount};
use crate::ledger::latest_value;
use crate::text::{
    ascii_lower, chars_of, contains_char, push_char, replace_char,
    replace_char_seq, str_eq, to_ascii_lowercase, trim, trim_str,
};

verus! {

/// A value of a result row, as JSON carries it. Numbers keep the text JSON
/// writes for them; arrays and objects keep their JSON text.
#[derive(Clone, Debug)]
pub enum CellValue {
    Null,
    Bool(bool),
    Number(String),
    Text(String),
    Other(String),
}

// ---------------------------------------------------------------------------
// Integers
// ---------------------------------------------------------------------------

pub open spec fn is_digit(c: char) -> bool {
    '0' <= c && c <= '9'
}

pub open spec fn all_digits(s: Seq<char>) -> bool {
    s.len() > 0 && forall|i: int| 0 <= i < s.len() ==> is_digit(#[trigger] s[i])
}

/// The value of a run of decimal digits.
pub open spec fn digits_value(s: Seq<char>) -> nat
    decreases s.len(),
{
    if s.len() == 0 {
        0
    } else {
        digits_value(s.drop_last()) * 10 + ((s.last() as int - '0' as int) as nat)
    }
}

/// What `str::parse::<i64>` accepts: an optional sign, then one or more
/// digits, with a value that fits.
/// The text carries a leading minus sign.
pub open spec fn has_minus(s: Seq<char>) -> bool {
    s.len() > 0 && s[0] == '-'
}

/// The text after an optional leading sign.
pub open spec fn unsigned_part(s: Seq<char>) -> Seq<char> {
    if s.len() > 0 && (s[0] == '-' || s[0] == '+') {
        s.drop_first()
    } else {
        s
    }
}

/// What `str::parse::<i64>` accepts: an optional sign, then one or more
/// digits, with a value that fits.
pub open spec fn parse_i64_text(s: Seq<char>) -> Option<i64> {
    let body = unsigned_part(s);
    if !all_digits(body) {
        None
    } else {
        let v: int = if has_minus(s) {
            -(digits_value(body) as int)
        } else {
            digits_value(body) as int
        };
        if i64::MIN <= v && v <= i64::MAX {
            Some(v as i64)
        } else {
            None
        }
    }
}

proof fn lemma_digits_value_prefix(s: Seq<char>, k: int)
    requires
        0 <= k <= s.len(),
        forall|i: int| 0 <= i < s.len() ==> is_digit(#[trigger] s[i]),
    ensures
        digits_value(s.take(k)) <= digits_value(s),
    decreases s.len() - k,
{
    if k < s.len() {
        lemma_digits_value_prefix(s, k + 1);
        assert(s.take(k + 1).drop_last() =~= s.take(k));
    } else {
        assert(s.take(k) =~= s);
    }
}

/// `str::parse::<i64>().ok()`.
pub fn parse_i64(s: &str) -> (r: Option<i64>)
    ensures
        r == parse_i64_text(s@),
{
    let v = chars_of(s);
    let n = v.len();
    let mut start: usize = 0;
    let mut neg = false;
    if n > 0 && v[0] == '-' {
        neg = true;
        start = 1;
    } else if n > 0 && v[0] == '+' {
        start = 1;
    }
    let ghost body = s@.skip(start as int);
    assert(start == 1 ==> body =~= s@.drop_first());
    assert(start == 0 ==> body =~= s@);
    if start == n {
        return None;
    }
    let limit: u64 = if neg {
        9223372036854775808
    } else {
        9223372036854775807
    };
    let mut acc: u64 = 0;
    let mut i: usize = start;
    while i < n
        invariant
            start <= i <= n == v.len(),
            v@ == s@,
            body == s@.skip(start as int),
            forall|k: int| start <= k < i ==> is_digit(#[trigger] v@[k]),
            acc as nat == digits_value(body.take(i - start)),
            acc <= limit,
            9223372036854775807 <= limit <= 9223372036854775808,
            limit == 9223372036854775808 <==> neg,
            neg == has_minus(s@),
            body == unsigned_part(s@),
        decreases n - i,
    {
        let c = v[i];
        if !('0' <= c && c <= '9') {
            assert(body[i - start] == c);
            assert(!all_digits(body));
            return None;
        }
        let d = (c as u32 - '0' as u32) as u64;
        assert(body.take(i + 1 - start).drop_last() =~= body.take(i - start));
        assert(body.take(i + 1 - start).last() == c);
        if acc > (limit - d) / 10 {
            proof {
                assert(digits_value(body.take(i + 1 - start)) == acc * 10 + d);
                assert(acc * 10 + d > limit) by (nonlinear_arith)
                    requires
                        acc > (limit - d) / 10,
                        d <= 9,
                        limit >= 9,
                ;
                if all_digits(body) {
                    lemma_digits_value_prefix(body, i + 1 - start);
                }
            }
            return None;
        }
        acc = acc * 10 + d;
        i = i + 1;
    }
    assert(body.take(n - start) =~= body);
    assert forall|k: int| 0 <= k < body.len() implies is_digit(#[trigger] body[k]) by {
        assert(body[k] == v@[start + k]);
    }
    if neg {
        if acc == 9223372036854775808 {
            Some(i64::MIN)
        } else {
            Some(-(acc as i64))
        }
    } else {
        Some(acc as i64)
    }
}

// ---------------------------------------------------------------------------
// Readings of a cell
// ---------------------------------------------------------------------------

/// A cell read as text: blank text and nulls read as nothing, text is
/// trimmed, flags read as `1` and `0`.
pub open spec fn cell_text(v: Option<CellValue>) -> Option<Seq<char>> {
    match v {
        None => None,
        Some(CellValue::Null) => None,
        Some(CellValue::Text(t)) => if trim(t@).len() == 0 {
            None
        } else {
            Some(trim(t@))
        },
        Some(CellValue::Number(n)) => Some(n@),
        Some(CellValue::Bool(b)) => Some(if b {
            "1"@
        } else {
            "0"@
        }),
        Some(CellValue::Other(t)) => Some(t@),
    }
}

/// `value_as_string`.
pub fn value_as_string(value: Option<&CellValue>) -> (r: Option<String>)
    ensures
        match r {
            Some(s) => cell_text(match value { Some(c) => Some(*c), None => None }) == Some(s@),
            None => cell_text(match value { Some(c) => Some(*c), None => None }) is None,
        },
{
    match value {
        None => None,
        Some(CellValue::Null) => None,
        Some(CellValue::Text(text)) => {
            let trimmed = trim_str(text.as_str());
            if trimmed.as_str().is_empty() {
                None
            } else {
                Some(trimmed)
            }
        },
        Some(CellValue::Number(n)) => Some(String::from_str(n.as_str())),
        Some(CellValue::Bool(flag)) => Some(String::from_str(if *flag {
            "1"
        } else {
            "0"
        })),
        Some(CellValue::Other(t)) => Some(String::from_str(t.as_str())),
    }
}

/// A cell read as a signed integer, 0 when it is none.
pub open spec fn cell_i64(v: Option<CellValue>) -> i64 {
    match v {
        Some(CellValue::Number(n)) => match parse_i64_text(n@) {
            Some(x) => x,
            None => 0,
        },
        Some(CellValue::Text(t)) => match parse_i64_text(trim(t@)) {
            Some(x) => x,
            None => 0,
        },
        Some(CellValue::Bool(b)) => if b {
            1
        } else {
            0
        },
        _ => 0,
    }
}

/// `value_as_i64`.
pub fn value_as_i64(value: Option<&CellValue>) -> (r: i64)
    ensures
        r == cell_i64(match value { Some(c) => Some(*c), None => None }),
{
    match value {
        Some(CellValue::Number(n)) => match parse_i64(n.as_str()) {
            Some(x) => x,
            None => 0,
        },
        Some(CellValue::Text(t)) => {
            let trimmed = trim_str(t.as_str());
            match parse_i64(trimmed.as_str()) {
                Some(x) => x,
                None => 0,
            }
        },
        Some(CellValue::Bool(b)) => if *b {
            1
        } else {
            0
        },
        _ => 0,
    }
}

/// A cell read as a flag: numbers other than 0, and the texts `1`, `true`
/// and `yes` in any ASCII case.
pub open spec fn cell_bool(v: Option<CellValue>) -> bool {
    match v {
        Some(CellValue::Bool(b)) => b,
        Some(CellValue::Number(n)) => match parse_i64_text(n@) {
            Some(x) => x != 0,
            None => false,
        },
        Some(CellValue::Text(t)) => {
            let l = ascii_lower(trim(t@));
            l == "1"@ || l == "true"@ || l == "yes"@
        },
        _ => false,
    }
}

/// `value_as_bool`.
pub fn value_as_bool(value: Option<&CellValue>) -> (r: bool)
    ensures
        r == cell_bool(match value { Some(c) => Some(*c), None => None }),
{
    match value {
        Some(CellValue::Bool(b)) => *b,
        Some(CellValue::Number(n)) => match parse_i64(n.as_str()) {
            Some(x) => x != 0,
            None => false,
        },
        Some(CellValue::Text(t)) => {
            let trimmed = trim_str(t.as_str());
            let l = to_ascii_lowercase(trimmed.as_str());
            str_eq(l.as_str(), "1") || str_eq(l.as_str(), "true") || str_eq(l.as_str(), "yes")
        },
        _ => false,
    }
}

/// A cell read as a decimal amount: numbers and trimmed texts as
/// rust_decimal parses them (zero when they do not parse), flags as one and
/// zero, anything else zero.
pub open spec fn cell_decimal(v: Option<CellValue>) -> Seq<u8> {
    match v {
        Some(CellValue::Number(n)) => match decimal_parse(n@) {
            Some(d) => d,
            None => zero_bytes(),
        },
        Some(CellValue::Text(t)) => match decimal_parse(trim(t@)) {
            Some(d) => d,
            None => zero_bytes(),
        },
        Some(CellValue::Bool(b)) => if b {
            one_bytes()
        } else {
            zero_bytes()
        },
        _ => zero_bytes(),
    }
}

/// `value_as_decimal`.
pub fn value_as_decimal(value: Option<&CellValue>) -> (r: Amount)
    ensures
        r.bytes@ == cell_decimal(match value { Some(c) => Some(*c), None => None }),
{
    match value {
        Some(CellValue::Number(n)) => match parse_decimal(n.as_str()) {
            Some(d) => d,
            None => Amount::zero(),
        },
        Some(CellValue::Text(t)) => {
            let trimmed = trim_str(t.as_str());
            match parse_decimal(trimmed.as_str()) {
                Some(d) => d,
                None => Amount::zero(),
            }
        },
        Some(CellValue::Bool(b)) => if *b {
            Amount::one()
        } else {
            Amount::zero()
        },
        _ => Amount::zero(),
    }
}

// ---------------------------------------------------------------------------
// CSV and SQL renderings
// ---------------------------------------------------------------------------

/// The text a cell is written as (JSON's `to_string` for numbers, flags and
/// composite values).
pub open spec fn cell_plain_text(v: CellValue) -> Seq<char> {
    match v {
        CellValue::Null => seq![],
        CellValue::Text(t) => t@,
        CellValue::Number(n) => n@,
        CellValue::Bool(b) => if b {
            "true"@
        } else {
            "false"@
        },
        CellValue::Other(t) => t@,
    }
}

pub open spec fn needs_csv_quotes(t: Seq<char>) -> bool {
    t.contains(',') || t.contains('"') || t.contains('\n') || t.contains('\r')
}

/// A CSV field: quoted, with quotes doubled, when it holds a comma, a quote
/// or a line break.
pub open spec fn csv_field(t: Seq<char>) -> Seq<char> {
    if needs_csv_quotes(t) {
        seq!['"'] + replace_char_seq(t, '"', seq!['"', '"']) + seq!['"']
    } else {
        t
    }
}

/// `csv_value`.
pub fn csv_value(value: &CellValue) -> (r: String)
    ensures
        r@ == csv_field(cell_plain_text(*value)),
{
    let text = match value {
        CellValue::Null => String::new(),
        CellValue::Text(t) => String::from_str(t.as_str()),
        CellValue::Number(n) => String::from_str(n.as_str()),
        CellValue::Bool(b) => String::from_str(if *b {
            "true"
        } else {
            "false"
        }),
        CellValue::Other(t) => String::from_str(t.as_str()),
    };
    if contains_char(text.as_str(), ',') || contains_char(text.as_str(), '"') || contains_char(
        text.as_str(),
        '\n',
    ) || contains_char(text.as_str(), '\r') {
        proof {
            reveal_strlit("\"\"");
        }
        let mut r = String::new();
        push_char(&mut r, '"');
        r.append(replace_char(text.as_str(), '"', "\"\"").as_str());
        push_char(&mut r, '"');
        assert("\"\""@ =~= seq!['"', '"']);
        r
    } else {
        text
    }
}

/// An `N'...'` literal with quotes doubled.
pub open spec fn n_literal(t: Seq<char>) -> Seq<char> {
    seq!['N', '\''] + replace_char_seq(t, '\'', seq!['\'', '\'']) + seq!['\'']
}

/// A cell as a T-SQL value.
pub open spec fn sql_value_text(v: CellValue) -> Seq<char> {
    match v {
        CellValue::Null => "NULL"@,
        CellValue::Bool(b) => if b {
            "1"@
        } else {
            "0"@
        },
        CellValue::Number(n) => n@,
        CellValue::Text(t) => n_literal(t@),
        CellValue::Other(t) => n_literal(t@),
    }
}

fn n_quoted(t: &str) -> (r: String)
    ensures
        r@ == n_literal(t@),
{
    proof {
        reveal_strlit("''");
    }
    let mut r = String::new();
    push_char(&mut r, 'N');
    push_char(&mut r, '\'');
    r.append(replace_char(t, '\'', "''").as_str());
    push_char(&mut r, '\'');
    assert("''"@ =~= seq!['\'', '\'']);
    assert(r@ =~= n_literal(t@));
    r
}

/// `sql_value`.
pub fn sql_value(value: &CellValue) -> (r: String)
    ensures
        r@ == sql_value_text(*value),
{
    match value {
        CellValue::Null => String::from_str("NULL"),
        CellValue::Bool(b) => String::from_str(if *b {
            "1"
        } else {
            "0"
        }),
        CellValue::Number(n) => String::from_str(n.as_str()),
        CellValue::Text(t) => n_quoted(t.as_str()),
        CellValue::Other(t) => n_quoted(t.as_str()),
    }
}

// ---------------------------------------------------------------------------
// Rows by column name
// ---------------------------------------------------------------------------

/// The position of each column by lower-cased name; a later column of the
/// same name wins.
pub struct NameIndex {
    pub entries: Vec<(String, usize)>,
}

pub open spec fn index_pairs(v: Seq<(String, usize)>) -> Seq<(Seq<char>, usize)> {
    v.map_values(|p: (String, usize)| (p.0@, p.1))
}

impl NameIndex {
    pub open spec fn lookup(&self, key: Seq<char>) -> Option<usize> {
        latest_value(index_pairs(self.entries@), key)
    }

    /// `HashMap::get(..).copied()`.
    pub fn get(&self, key: &str) -> (r: Option<usize>)
        ensures
            r == self.lookup(key@),
    {
        let mut i = self.entries.len();
        assert(index_pairs(self.entries@).take(i as int) =~= index_pairs(self.entries@));
        while i > 0
            invariant
                i <= self.entries.len(),
                self.lookup(key@) == latest_value(index_pairs(self.entries@).take(i as int), key@),
            decreases i,
        {
            let ghost t = index_pairs(self.entries@).take(i as int);
            assert(t.drop_last() =~= index_pairs(self.entries@).take(i - 1));
            if str_eq(self.entries[i - 1].0.as_str(), key) {
                return Some(self.entries[i - 1].1);
            }
            i = i - 1;
        }
        None
    }
}

/// `column_index_map`: each column's position under its lower-cased name.
pub fn column_index_map(columns: &Vec<String>) -> (r: NameIndex)
    ensures
        index_pairs(r.entries@) == Seq::new(
            columns@.len(),
            |i: int| (ascii_lower(columns@[i]@), i as usize),
        ),
{
    let mut entries: Vec<(String, usize)> = Vec::new();
    let mut i: usize = 0;
    while i < columns.len()
        invariant
            i <= columns.len(),
            index_pairs(entries@) == Seq::new(i as nat, |k: int| (ascii_lower(columns@[k]@), k as usize)),
        decreases columns.len() - i,
    {
        let ghost prev = entries@;
        let key = to_ascii_lowercase(columns[i].as_str());
        let ghost kv = (key@, i);
        entries.push((key, i));
        assert(index_pairs(entries@) =~= index_pairs(prev).push(kv));
        assert(index_pairs(entries@) =~= Seq::new((i + 1) as nat, |k: int| (ascii_lower(columns@[k]@), k as usize)));
        i = i + 1;
    }
    NameIndex { entries }
}

/// The cell of a row under a column name, if the row has it.
pub open spec fn named_cell(row: Seq<CellValue>, idx: NameIndex, name: Seq<char>) -> Option<CellValue> {
    match idx.lookup(ascii_lower(name)) {
        Some(i) => if i < row.len() {
            Some(row[i as int])
        } else {
            None
        },
        None => None,
    }
}

fn cell_at<'a>(row: &'a [CellValue], indexes: &NameIndex, name: &str) -> (r: Option<&'a CellValue>)
    ensures
        match r { Some(c) => Some(*c), None => None } == named_cell(row@, *indexes, name@),
{
    let key = to_ascii_lowercase(name);
    match indexes.get(key.as_str()) {
        Some(i) => if i < row.len() {
            Some(&row[i])
        } else {
            None
        },
        None => None,
    }
}

/// `row_string`.
pub fn row_string(row: &[CellValue], indexes: &NameIndex, name: &str) -> (r: Option<String>)
    ensures
        match r {
            Some(s) => cell_text(named_cell(row@, *indexes, name@)) == Some(s@),
            None => cell_text(named_cell(row@, *indexes, name@)) is None,
        },
{
    let key = to_ascii_lowercase(name);
    match indexes.get(key.as_str()) {
        Some(_) => value_as_string(cell_at(row, indexes, name)),
        None => None,
    }
}

/// `row_i64`.
pub fn row_i64(row: &[CellValue], indexes: &NameIndex, name: &str) -> (r: i64)
    ensures
        r == cell_i64(named_cell(row@, *indexes, name@)),
{
    value_as_i64(cell_at(row, indexes, name))
}

/// `row_decimal`: zero when the row has no such column.
pub fn row_decimal(row: &[CellValue], indexes: &NameIndex, name: &str) -> (r: Amount)
    ensures
        r.bytes@ == cell_decimal(named_cell(row@, *indexes, name@)),
{
    value_as_decimal(cell_at(row, indexes, name))
}

/// `row_optional_decimal`: nothing for a missing column or a null.
pub fn row_optional_decimal(row: &[CellValue], indexes: &NameIndex, name: &str) -> (r: Option<Amount>)
    ensures
        match named_cell(row@, *indexes, name@) {
            None => r is None,
            Some(CellValue::Null) => r is None,
            Some(c) => r is Some && r->Some_0.bytes@ == cell_decimal(Some(c)),
        },
{
    match cell_at(row, indexes, name) {
        None => None,
        Some(CellValue::Null) => None,
        Some(value) => Some(value_as_decimal(Some(value))),
    }
}

/// `row_bool`.
pub fn row_bool(row: &[CellValue], indexes: &NameIndex, name: &str) -> (r: bool)
    ensures
        r == cell_bool(named_cell(row@, *indexes, name@)),
{
    value_as_bool(cell_at(row, indexes, name))
}

} // verus!
