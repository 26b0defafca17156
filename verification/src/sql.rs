//! Building SQL Server text: quoting, filters and the accounting conditions.
use vstd::prelude::*;
use crate::text::{append_dec, chars_of, dec, push_char, replace_char, replace_char_seq, str_eq, trim, trim_str};

verus! {

// ---------------------------------------------------------------------------
// Quoting
// ---------------------------------------------------------------------------

/// `[name]` with every `]` doubled.
pub open spec fn bracket_ident_seq(s: Seq<char>) -> Seq<char> {
    seq!['['] + replace_char_seq(s, ']', seq![']', ']']) + seq![']']
}

/// `'value'` with every `'` doubled.
pub open spec fn sql_literal_seq(s: Seq<char>) -> Seq<char> {
    seq!['\''] + replace_char_seq(s, '\'', seq!['\'', '\'']) + seq!['\'']
}

/// `[name]` with `]` escaped: a SQL Server delimited identifier.
pub fn bracket_ident(name: &str) -> (r: String)
    ensures
        r@ == bracket_ident_seq(name@),
{
    proof {
        reveal_strlit("]]");
    }
    let mut r = String::new();
    push_char(&mut r, '[');
    let escaped = replace_char(name, ']', "]]");
    r.append(escaped.as_str());
    push_char(&mut r, ']');
    assert("]]"@ =~= seq![']', ']']);
    r
}

/// `sql_literal`: a single-quoted SQL string literal.
pub fn sql_literal(value: &str) -> (r: String)
    ensures
        r@ == sql_literal_seq(value@),
{
    proof {
        reveal_strlit("''");
    }
    let mut r = String::new();
    push_char(&mut r, '\'');
    let escaped = replace_char(value, '\'', "''");
    r.append(escaped.as_str());
    push_char(&mut r, '\'');
    assert("''"@ =~= seq!['\'', '\'']);
    r
}

/// `qualify`: `alias.[column]`.
pub fn qualify(alias: &str, column: &str) -> (r: String)
    ensures
        r@ == alias@ + seq!['.'] + bracket_ident_seq(column@),
{
    let mut r = String::from_str(alias);
    push_char(&mut r, '.');
    let b = bracket_ident(column);
    r.append(b.as_str());
    r
}

/// `[schema].[table]`.
pub fn table_name(schema: &str, table: &str) -> (r: String)
    ensures
        r@ == bracket_ident_seq(schema@) + seq!['.'] + bracket_ident_seq(table@),
{
    let mut r = bracket_ident(schema);
    push_char(&mut r, '.');
    let t = bracket_ident(table);
    r.append(t.as_str());
    r
}

/// `decimal_or_zero`: the expression as a DECIMAL(38, 6), 0 when it does not convert.
pub fn decimal_or_zero(expr: &str) -> (r: String)
    ensures
        r@ == "COALESCE(TRY_CAST("@ + expr@ + " AS DECIMAL(38, 6)), CAST(0 AS DECIMAL(38, 6)))"@,
{
    let mut r = String::from_str("COALESCE(TRY_CAST(");
    r.append(expr);
    r.append(" AS DECIMAL(38, 6)), CAST(0 AS DECIMAL(38, 6)))");
    r
}

/// `text_or_empty`: the expression as an NVARCHAR(len), '' when NULL.
pub fn text_or_empty(expr: &str, len: usize) -> (r: String)
    ensures
        r@ == "COALESCE(CAST("@ + expr@ + " AS NVARCHAR("@ + dec(len as nat) + ")), CAST('' AS NVARCHAR("@
            + dec(len as nat) + ")))"@,
{
    let mut r = String::from_str("COALESCE(CAST(");
    r.append(expr);
    r.append(" AS NVARCHAR(");
    append_dec(&mut r, len as u64);
    r.append(")), CAST('' AS NVARCHAR(");
    append_dec(&mut r, len as u64);
    r.append(")))");
    r
}

/// `odbc_escape`: an ODBC connection-string value in braces, `}` doubled.
pub fn odbc_escape(value: &str) -> (r: String)
    ensures
        r@ == seq!['{'] + replace_char_seq(value@, '}', seq!['}', '}']) + seq!['}'],
{
    proof {
        reveal_strlit("}}");
    }
    let mut r = String::new();
    push_char(&mut r, '{');
    let escaped = replace_char(value, '}', "}}");
    r.append(escaped.as_str());
    push_char(&mut r, '}');
    assert("}}"@ =~= seq!['}', '}']);
    r
}

// ---------------------------------------------------------------------------
// Joining and splitting
// ---------------------------------------------------------------------------

/// `parts.join(sep)`.
pub open spec fn join_seq(parts: Seq<Seq<char>>, sep: Seq<char>) -> Seq<char>
    decreases parts.len(),
{
    if parts.len() == 0 {
        seq![]
    } else if parts.len() == 1 {
        parts[0]
    } else {
        join_seq(parts.drop_last(), sep) + sep + parts.last()
    }
}

pub open spec fn strings_view(v: Seq<String>) -> Seq<Seq<char>> {
    v.map_values(|s: String| s@)
}

/// `[String]::join`.
pub fn join_strings(parts: &Vec<String>, sep: &str) -> (r: String)
    ensures
        r@ == join_seq(strings_view(parts@), sep@),
{
    let mut r = String::new();
    let mut i: usize = 0;
    while i < parts.len()
        invariant
            i <= parts.len(),
            r@ == join_seq(strings_view(parts@).take(i as int), sep@),
        decreases parts.len() - i,
    {
        let ghost prefix = strings_view(parts@).take(i + 1);
        assert(prefix.drop_last() =~= strings_view(parts@).take(i as int));
        if i > 0 {
            r.append(sep);
        } else {
            assert(prefix.len() == 1);
        }
        r.append(parts[i].as_str());
        i = i + 1;
    }
    assert(strings_view(parts@).take(parts.len() as int) =~= strings_view(parts@));
    r
}

/// `str::split` on a character: the pieces between separators (an empty
/// string gives one empty piece).
pub open spec fn split_seq(s: Seq<char>, sep: char) -> Seq<Seq<char>>
    decreases s.len(),
{
    if s.len() == 0 {
        seq![seq![]]
    } else {
        let rest = split_seq(s.drop_last(), sep);
        if s.last() == sep {
            rest.push(seq![])
        } else {
            rest.update(rest.len() - 1, rest.last().push(s.last()))
        }
    }
}

proof fn lemma_split_nonempty(s: Seq<char>, sep: char)
    ensures
        split_seq(s, sep).len() >= 1,
    decreases s.len(),
{
    if s.len() > 0 {
        lemma_split_nonempty(s.drop_last(), sep);
    }
}

/// The pieces of `s` between occurrences of `sep`.
pub fn split_char(s: &str, sep: char) -> (r: Vec<String>)
    ensures
        strings_view(r@) == split_seq(s@, sep),
{
    let mut done: Vec<String> = Vec::new();
    let mut current = String::new();
    for c in it: s.chars()
        invariant
            it.seq() == s@,
            strings_view(done@).push(current@) == split_seq(it.seq().take(it.index() as int), sep),
    {
        let ghost prefix = it.seq().take(it.index() + 1);
        proof {
            assert(prefix.drop_last() =~= it.seq().take(it.index() as int));
            lemma_split_nonempty(prefix.drop_last(), sep);
        }
        if c == sep {
            let piece = current;
            done.push(piece);
            current = String::new();
            assert(strings_view(done@).push(current@) =~= split_seq(prefix, sep));
        } else {
            push_char(&mut current, c);
            assert(strings_view(done@).push(current@) =~= split_seq(prefix, sep));
        }
    }
    assert(s@.take(s@.len() as int) =~= s@);
    done.push(current);
    assert(strings_view(done@) =~= split_seq(s@, sep));
    done
}

// ---------------------------------------------------------------------------
// Filters
// ---------------------------------------------------------------------------

/// A column filter chosen in the data grid.
pub struct Filter {
    pub column: String,
    pub operator: String,
    pub value: Option<String>,
    pub value2: Option<String>,
    pub data_type: Option<String>,
}

pub open spec fn opt_text(o: Option<String>) -> Seq<char> {
    match o {
        Some(s) => s@,
        None => Seq::empty(),
    }
}

/// SQL Server types whose values are written without quotes.
pub open spec fn is_numeric_type(t: Seq<char>) -> bool {
    t == "int"@ || t == "bigint"@ || t == "smallint"@ || t == "tinyint"@ || t == "float"@ || t == "real"@
        || t == "decimal"@ || t == "numeric"@ || t == "money"@ || t == "smallmoney"@ || t == "bit"@
}

pub open spec fn is_decimal_digit(c: char) -> bool {
    '0' <= c && c <= '9'
}

/// Digits with at most one decimal point, starting and ending with a digit.
pub open spec fn is_unsigned_number(b: Seq<char>) -> bool {
    &&& b.len() > 0
    &&& is_decimal_digit(b[0])
    &&& is_decimal_digit(b.last())
    &&& forall|i: int| 0 <= i < b.len() ==> is_decimal_digit(#[trigger] b[i]) || b[i] == '.'
    &&& forall|i: int, j: int| 0 <= i < b.len() && 0 <= j < b.len() && b[i] == '.' && b[j] == '.' ==> i == j
}

/// A number literal: an optional minus sign, then an unsigned number.
pub open spec fn is_number_literal(v: Seq<char>) -> bool {
    if v.len() > 0 && v[0] == '-' {
        is_unsigned_number(v.drop_first())
    } else {
        is_unsigned_number(v)
    }
}

/// A filter value: bare when the column is numeric and the value is a number
/// literal, as a string literal otherwise, so a value never becomes SQL.
pub open spec fn quote_value_seq(v: Seq<char>, numeric: bool) -> Seq<char> {
    if numeric && is_number_literal(v) {
        v
    } else {
        sql_literal_seq(v)
    }
}

pub open spec fn quote_all(parts: Seq<Seq<char>>, numeric: bool) -> Seq<Seq<char>> {
    parts.map_values(|p: Seq<char>| quote_value_seq(trim(p), numeric))
}

/// The condition one filter contributes to the WHERE clause.
pub open spec fn filter_condition(f: Filter) -> Seq<char> {
    let col = bracket_ident_seq(f.column@);
    let numeric = is_numeric_type(opt_text(f.data_type));
    let v = opt_text(f.value);
    let op = f.operator@;
    if op == "IS NULL"@ {
        col + " IS NULL"@
    } else if op == "IS NOT NULL"@ {
        col + " IS NOT NULL"@
    } else if op == "BETWEEN"@ {
        col + " BETWEEN "@ + quote_value_seq(v, numeric) + " AND "@ + quote_value_seq(opt_text(f.value2), numeric)
    } else if op == "LIKE"@ {
        col + " LIKE "@ + sql_literal_seq(v)
    } else if op == "NOT LIKE"@ {
        col + " NOT LIKE "@ + sql_literal_seq(v)
    } else if op == "IN"@ {
        col + " IN ("@ + join_seq(quote_all(split_seq(v, ','), numeric), ", "@) + ")"@
    } else {
        col + " "@ + op + " "@ + quote_value_seq(v, numeric)
    }
}

/// The comparison operators a filter may use besides the named forms.
pub open spec fn is_comparison_operator(op: Seq<char>) -> bool {
    op == "="@ || op == "<>"@ || op == "!="@ || op == "<"@ || op == "<="@ || op == ">"@ || op == ">="@
}

/// The operators a filter may use.
pub open spec fn is_known_operator(op: Seq<char>) -> bool {
    op == "IS NULL"@ || op == "IS NOT NULL"@ || op == "BETWEEN"@ || op == "LIKE"@ || op == "NOT LIKE"@
        || op == "IN"@ || is_comparison_operator(op)
}

/// The first operator, among the filters that name a column, that is not a
/// known one.
pub open spec fn first_unknown_operator(fs: Seq<Filter>) -> Option<Seq<char>>
    decreases fs.len(),
{
    if fs.len() == 0 {
        None
    } else {
        match first_unknown_operator(fs.drop_last()) {
            Some(op) => Some(op),
            None => if fs.last().column@.len() != 0 && !is_known_operator(fs.last().operator@) {
                Some(fs.last().operator@)
            } else {
                None
            },
        }
    }
}

pub open spec fn unsupported_operator_text(op: Seq<char>) -> Seq<char> {
    "Unsupported filter operator: "@ + op
}

/// The conditions of the filters that name a column, in order.
pub open spec fn filter_conditions(fs: Seq<Filter>) -> Seq<Seq<char>>
    decreases fs.len(),
{
    if fs.len() == 0 {
        seq![]
    } else if fs.last().column@.len() == 0 {
        filter_conditions(fs.drop_last())
    } else {
        filter_conditions(fs.drop_last()).push(filter_condition(fs.last()))
    }
}

/// `WHERE c1 AND c2 ...`, or nothing when no filter names a column.
pub open spec fn where_clause(fs: Seq<Filter>) -> Seq<char> {
    let conds = filter_conditions(fs);
    if conds.len() == 0 {
        seq![]
    } else {
        "WHERE "@ + join_seq(conds, " AND "@)
    }
}

fn opt_str(o: &Option<String>) -> (r: &str)
    ensures
        r@ == opt_text(*o),
{
    proof {
        reveal_strlit("");
    }
    match o {
        Some(s) => s.as_str(),
        None => {
            assert(""@ =~= Seq::<char>::empty());
            ""
        },
    }
}

fn numeric_type(t: &str) -> (r: bool)
    ensures
        r == is_numeric_type(t@),
{
    str_eq(t, "int") || str_eq(t, "bigint") || str_eq(t, "smallint") || str_eq(t, "tinyint")
        || str_eq(t, "float") || str_eq(t, "real") || str_eq(t, "decimal") || str_eq(t, "numeric")
        || str_eq(t, "money") || str_eq(t, "smallmoney") || str_eq(t, "bit")
}

fn unsigned_number(v: &Vec<char>, from: usize) -> (r: bool)
    requires
        from <= v.len(),
    ensures
        r == is_unsigned_number(v@.subrange(from as int, v@.len() as int)),
{
    let ghost b = v@.subrange(from as int, v@.len() as int);
    let n = v.len();
    if n == from {
        return false;
    }
    let mut dots: usize = 0;
    let mut i: usize = from;
    while i < n
        invariant
            n == v@.len(),
            from < n,
            b == v@.subrange(from as int, n as int),
            from <= i <= n,
            dots <= 1,
            forall|k: int| 0 <= k < i - from ==> is_decimal_digit(#[trigger] b[k]) || b[k] == '.',
            dots == 0 ==> forall|k: int| 0 <= k < i - from ==> b[k] != '.',
            dots == 1 ==> exists|k: int| 0 <= k < i - from && b[k] == '.',
            dots == 1 ==> forall|k: int, m: int| 0 <= k < i - from && 0 <= m < i - from && b[k] == '.' && b[m] == '.' ==> k == m,
        decreases n - i,
    {
        let c = v[i];
        assert(b[i - from] == c);
        if c == '.' {
            if dots == 1 {
                let ghost k = choose|k: int| 0 <= k < i - from && b[k] == '.';
                assert(b[k] == '.' && b[i - from] == '.' && k != i - from);
                return false;
            }
            dots = 1;
        } else if !('0' <= c && c <= '9') {
            assert(!(is_decimal_digit(b[i - from]) || b[i - from] == '.'));
            return false;
        }
        i = i + 1;
    }
    let first = v[from];
    let last = v[n - 1];
    assert(b[0] == first && b.last() == last);
    ('0' <= first && first <= '9') && ('0' <= last && last <= '9')
}

fn number_literal(v: &str) -> (r: bool)
    ensures
        r == is_number_literal(v@),
{
    let cs = chars_of(v);
    if cs.len() > 0 && cs[0] == '-' {
        assert(cs@.subrange(1, cs@.len() as int) =~= v@.drop_first());
        unsigned_number(&cs, 1)
    } else {
        assert(cs@.subrange(0, cs@.len() as int) =~= v@);
        unsigned_number(&cs, 0)
    }
}

fn quote_value(v: &str, numeric: bool) -> (r: String)
    ensures
        r@ == quote_value_seq(v@, numeric),
{
    if numeric && number_literal(v) {
        String::from_str(v)
    } else {
        sql_literal(v)
    }
}

fn comparison_operator(op: &str) -> (r: bool)
    ensures
        r == is_comparison_operator(op@),
{
    str_eq(op, "=") || str_eq(op, "<>") || str_eq(op, "!=") || str_eq(op, "<") || str_eq(op, "<=")
        || str_eq(op, ">") || str_eq(op, ">=")
}

fn known_operator(op: &str) -> (r: bool)
    ensures
        r == is_known_operator(op@),
{
    str_eq(op, "IS NULL") || str_eq(op, "IS NOT NULL") || str_eq(op, "BETWEEN") || str_eq(op, "LIKE")
        || str_eq(op, "NOT LIKE") || str_eq(op, "IN") || comparison_operator(op)
}

fn condition_for(f: &Filter) -> (r: String)
    ensures
        r@ == filter_condition(*f),
{
    let mut r = bracket_ident(f.column.as_str());
    let numeric = numeric_type(opt_str(&f.data_type));
    let v = opt_str(&f.value);
    let op = f.operator.as_str();
    if str_eq(op, "IS NULL") {
        r.append(" IS NULL");
    } else if str_eq(op, "IS NOT NULL") {
        r.append(" IS NOT NULL");
    } else if str_eq(op, "BETWEEN") {
        r.append(" BETWEEN ");
        let a = quote_value(v, numeric);
        r.append(a.as_str());
        r.append(" AND ");
        let b = quote_value(opt_str(&f.value2), numeric);
        r.append(b.as_str());
    } else if str_eq(op, "LIKE") {
        r.append(" LIKE ");
        let a = sql_literal(v);
        r.append(a.as_str());
    } else if str_eq(op, "NOT LIKE") {
        r.append(" NOT LIKE ");
        let a = sql_literal(v);
        r.append(a.as_str());
    } else if str_eq(op, "IN") {
        r.append(" IN (");
        let parts = split_char(v, ',');
        let mut quoted: Vec<String> = Vec::new();
        let mut i: usize = 0;
        while i < parts.len()
            invariant
                i <= parts.len(),
                quoted@.len() == i,
                forall|k: int|
                    0 <= k < i ==> (#[trigger] quoted@[k])@ == quote_value_seq(trim(parts@[k]@), numeric),
            decreases parts.len() - i,
        {
            let t = trim_str(parts[i].as_str());
            quoted.push(quote_value(t.as_str(), numeric));
            i = i + 1;
        }
        assert(strings_view(quoted@) =~= quote_all(strings_view(parts@), numeric));
        let joined = join_strings(&quoted, ", ");
        r.append(joined.as_str());
        r.append(")");
    } else {
        r.append(" ");
        r.append(op);
        r.append(" ");
        let a = quote_value(v, numeric);
        r.append(a.as_str());
    }
    r
}

/// `build_where_clause`: the WHERE clause of the filters that name a
/// column, joined with AND; empty when there is none. A filter whose operator
/// is not a known one is refused, and no clause is built.
pub fn build_where_clause(filters: &[Filter]) -> (r: Result<String, String>)
    ensures
        match first_unknown_operator(filters@) {
            Some(op) => r matches Err(e) && e@ == unsupported_operator_text(op),
            None => r matches Ok(w) && w@ == where_clause(filters@),
        },
{
    let mut conditions: Vec<String> = Vec::new();
    let mut i: usize = 0;
    while i < filters.len()
        invariant
            i <= filters.len(),
            first_unknown_operator(filters@.take(i as int)) is None,
            strings_view(conditions@) == filter_conditions(filters@.take(i as int)),
        decreases filters.len() - i,
    {
        let ghost prefix = filters@.take(i + 1);
        assert(prefix.drop_last() =~= filters@.take(i as int));
        let f = &filters[i];
        if f.column.as_str().is_empty() {
        } else {
            if !known_operator(f.operator.as_str()) {
                proof {
                    lemma_unknown_operator_kept(filters@, i as int + 1);
                }
                let mut e = String::from_str("Unsupported filter operator: ");
                e.append(f.operator.as_str());
                proof {
                    reveal_strlit("Unsupported filter operator: ");
                }
                return Err(e);
            }
            let c = condition_for(f);
            conditions.push(c);
            assert(strings_view(conditions@) =~= filter_conditions(prefix));
        }
        i = i + 1;
    }
    assert(filters@.take(filters.len() as int) =~= filters@);
    if conditions.len() == 0 {
        Ok(String::new())
    } else {
        let mut r = String::from_str("WHERE ");
        let joined = join_strings(&conditions, " AND ");
        r.append(joined.as_str());
        Ok(r)
    }
}

/// An unknown operator found in a prefix stays the first one of the whole
/// list.
proof fn lemma_unknown_operator_kept(fs: Seq<Filter>, n: int)
    requires
        0 <= n <= fs.len(),
        first_unknown_operator(fs.take(n)) is Some,
    ensures
        first_unknown_operator(fs) == first_unknown_operator(fs.take(n)),
    decreases fs.len() - n,
{
    if n < fs.len() {
        assert(fs.take(n + 1).drop_last() =~= fs.take(n));
        lemma_unknown_operator_kept(fs, n + 1);
    } else {
        assert(fs.take(n) =~= fs);
    }
}

} // verus!
