//! The connections opened during a session: how a connection moves from
//! connecting to connected or failed, how the database of a connection is
//! switched, and the probes that detect the Sage edition behind it.
use vstd::prelude::*;
use crate::cells::CellValue;
use crate::config::{conn_view, connection_deleted, copy_connection, delete_connection, schema_view, AppConfig, ConnView, SchemaView};
use crate::connection::ConnectionConfig;
use crate::ledger::{decimal_or_zero_text, qualified, DetectedTable, EntryContext, LookupContext};
use crate::schema::{same_schema, SageSchema};
use crate::sql::{bracket_ident, bracket_ident_seq, join_seq, join_strings, sql_literal, sql_literal_seq, strings_view};
use crate::text::{is_ws, push_char, starts_with, starts_with_str, str_eq, to_uppercase, trim, trim_str, unicode_uppercase};

verus! {

// ---------------------------------------------------------------------------
// Probing for the tables of an edition
// ---------------------------------------------------------------------------

/// The tables that reveal each edition.
pub const SAGE100_PROBE_TABLES: [&'static str; 4] = ["F_ECRITUREC", "F_COMPTET", "F_TIERS", "F_JOURNAL"];
pub const SAGEX3_PROBE_TABLES: [&'static str; 4] = ["GACCENTRY", "GACCOUNT", "BPARTNER", "GJOURNAL"];
pub const SAGE1000_PROBE_TABLES: [&'static str; 5] = ["TECRITURE", "TCOMPTEGENERAL", "TTIERS", "TROLETIERS", "TPIECE"];

pub open spec fn quoted_names(names: Seq<Seq<char>>) -> Seq<Seq<char>> {
    names.map_values(|n: Seq<char>| "'"@ + n + "'"@)
}

/// The query that lists which of the candidate tables exist.
pub open spec fn probe_tables_text(candidates: Seq<Seq<char>>) -> Seq<char> {
    "SELECT TABLE_NAME FROM INFORMATION_SCHEMA.TABLES WHERE TABLE_TYPE = 'BASE TABLE' AND TABLE_NAME IN ("@
        + join_seq(quoted_names(candidates), ", "@) + ")"@
}

pub open spec fn str_views(v: Seq<&str>) -> Seq<Seq<char>> {
    v.map_values(|s: &str| s@)
}

pub fn probe_tables_query(candidates: &[&str]) -> (r: String)
    ensures
        r@ == probe_tables_text(str_views(candidates@)),
{
    let mut quoted: Vec<String> = Vec::new();
    let mut i: usize = 0;
    proof {
        reveal_strlit("'");
    }
    while i < candidates.len()
        invariant
            i <= candidates@.len(),
            strings_view(quoted@) == quoted_names(str_views(candidates@)).take(i as int),
        decreases candidates@.len() - i,
    {
        let mut q = String::from_str("'");
        q.append(candidates[i]);
        push_char(&mut q, '\'');
        proof {
            reveal_strlit("'");
        }
        assert(q@ =~= "'"@ + candidates@[i as int]@ + "'"@);
        let ghost before = quoted@;
        quoted.push(q);
        assert(strings_view(quoted@) =~= strings_view(before).push("'"@ + candidates@[i as int]@ + "'"@));
        assert(quoted_names(str_views(candidates@)).take(i + 1) =~= quoted_names(str_views(candidates@)).take(i as int).push(
            "'"@ + candidates@[i as int]@ + "'"@,
        ));
        i = i + 1;
    }
    assert(quoted_names(str_views(candidates@)).take(candidates@.len() as int) =~= quoted_names(str_views(candidates@)));
    let mut r = String::from_str("SELECT TABLE_NAME FROM INFORMATION_SCHEMA.TABLES WHERE TABLE_TYPE = 'BASE TABLE' AND TABLE_NAME IN (");
    r.append(join_strings(&quoted, ", ").as_str());
    push_char(&mut r, ')');
    proof {
        reveal_strlit("SELECT TABLE_NAME FROM INFORMATION_SCHEMA.TABLES WHERE TABLE_TYPE = 'BASE TABLE' AND TABLE_NAME IN (");
        reveal_strlit(")");
    }
    r
}

/// The names a probe found: the first cell of each row, when it is text.
pub open spec fn found_names(rows: Seq<Vec<CellValue>>) -> Seq<Seq<char>>
    decreases rows.len(),
{
    if rows.len() == 0 {
        Seq::<Seq<char>>::empty()
    } else {
        let rest = found_names(rows.drop_last());
        let row = rows.last()@;
        if row.len() > 0 && row[0] is Text {
            rest.push(row[0]->Text_0@)
        } else {
            rest
        }
    }
}

pub fn found_tables(rows: &Vec<Vec<CellValue>>) -> (r: Vec<String>)
    ensures
        strings_view(r@) == found_names(rows@),
{
    let mut out: Vec<String> = Vec::new();
    let mut i: usize = 0;
    while i < rows.len()
        invariant
            i <= rows.len(),
            strings_view(out@) == found_names(rows@.take(i as int)),
        decreases rows.len() - i,
    {
        assert(rows@.take(i + 1).drop_last() =~= rows@.take(i as int));
        assert(rows@.take(i + 1).last() == rows@[i as int]);
        if rows[i].len() > 0 {
            match &rows[i][0] {
                CellValue::Text(s) => {
                    let ghost before = out@;
                    out.push(s.clone());
                    assert(strings_view(out@) =~= strings_view(before).push(s@));
                },
                _ => {},
            }
        }
        i = i + 1;
    }
    assert(rows@.take(rows.len() as int) =~= rows@);
    out
}

/// The query that tells whether a table has a column.
pub open spec fn probe_column_text(table: Seq<char>, column: Seq<char>) -> Seq<char> {
    "SELECT 1 FROM INFORMATION_SCHEMA.COLUMNS WHERE TABLE_NAME = "@ + sql_literal_seq(table) + " AND COLUMN_NAME = "@
        + sql_literal_seq(column)
}

pub fn probe_column_query(table: &str, column: &str) -> (r: String)
    ensures
        r@ == probe_column_text(table@, column@),
{
    let mut r = String::from_str("SELECT 1 FROM INFORMATION_SCHEMA.COLUMNS WHERE TABLE_NAME = ");
    r.append(sql_literal(table).as_str());
    r.append(" AND COLUMN_NAME = ");
    r.append(sql_literal(column).as_str());
    proof {
        reveal_strlit("SELECT 1 FROM INFORMATION_SCHEMA.COLUMNS WHERE TABLE_NAME = ");
        reveal_strlit(" AND COLUMN_NAME = ");
    }
    r
}

pub open spec fn ascii_upper_char(c: char) -> char {
    if 'a' <= c && c <= 'z' {
        ((c as u32) - 32) as char
    } else {
        c
    }
}

pub open spec fn names_entries_table(found: Seq<Seq<char>>) -> bool {
    exists|k: int| 0 <= k < found.len() && crate::text::eq_ignore_case(#[trigger] found[k], "TECRITURE"@)
}

/// Whether the entry date column must be probed: the Sage 1000 entries
/// table was found (its name in any ASCII case).
pub fn needs_entry_date_probe(found1000: &Vec<String>) -> (b: bool)
    ensures
        b == names_entries_table(strings_view(found1000@)),
{
    let mut i: usize = 0;
    while i < found1000.len()
        invariant
            i <= found1000.len(),
            forall|k: int| 0 <= k < i ==> !crate::text::eq_ignore_case(#[trigger] strings_view(found1000@)[k], "TECRITURE"@),
        decreases found1000.len() - i,
    {
        assert(strings_view(found1000@)[i as int] == found1000@[i as int]@);
        if crate::text::eq_ignore_ascii_case(found1000[i].as_str(), "TECRITURE") {
            return true;
        }
        i = i + 1;
    }
    false
}

// ---------------------------------------------------------------------------
// Trying a custom mapping
// ---------------------------------------------------------------------------

/// Leading whitespace removed.
pub open spec fn trimmed_start(s: Seq<char>) -> Seq<char> {
    crate::text::trim_start(s)
}

fn trim_start_str(s: &str) -> (r: String)
    ensures
        r@ == trimmed_start(s@),
{
    let v = crate::text::chars_of(s);
    let mut i: usize = 0;
    while i < v.len() && crate::text::is_whitespace(v[i])
        invariant
            i <= v.len(),
            v@ == s@,
            forall|k: int| 0 <= k < i ==> is_ws(#[trigger] v@[k]),
        decreases v.len() - i,
    {
        i = i + 1;
    }
    proof {
        crate::text::lemma_trim_start_subrange(s@, i as int);
        let t = s@.subrange(i as int, v.len() as int);
        if i < v.len() {
            assert(!is_ws(t[0]));
        }
    }
    crate::text::string_from_chars(&v, i, v.len())
}

/// A mapping names a `CASE` expression rather than a column: its text,
/// leading spaces aside and in upper case, starts with `CASE`.
pub open spec fn is_case_expression(col: Seq<char>) -> bool {
    starts_with(unicode_uppercase(trimmed_start(col)), "CASE"@)
}

fn case_expression(col: &str) -> (b: bool)
    ensures
        b == is_case_expression(col@),
{
    let upper = to_uppercase(trim_start_str(col).as_str());
    proof {
        reveal_strlit("CASE");
    }
    starts_with_str(upper.as_str(), "CASE")
}

/// A mapped column as the preview reads it: a `CASE` expression as
/// written, a column name bracketed.
pub open spec fn mapped_column_text(col: Seq<char>) -> Seq<char> {
    if is_case_expression(col) {
        col
    } else {
        bracket_ident_seq(col)
    }
}

fn mapped_column(col: &str) -> (r: String)
    ensures
        r@ == mapped_column_text(col@),
{
    if case_expression(col) {
        String::from_str(col)
    } else {
        bracket_ident(col)
    }
}

pub open spec fn preview_part(col: Seq<char>, alias: Seq<char>) -> Seq<Seq<char>> {
    if col.len() == 0 {
        Seq::<Seq<char>>::empty()
    } else {
        seq![mapped_column_text(col) + " AS ["@ + alias + "]"@]
    }
}

/// The columns a mapping preview shows, those the mapping names.
pub open spec fn preview_parts(s: SageSchema) -> Seq<Seq<char>> {
    preview_part(s.col_date@, "Date"@) + preview_part(s.col_journal@, "Journal"@) + preview_part(s.col_compte@, "Compte"@)
        + preview_part(s.col_libelle@, "Libelle"@) + preview_part(s.col_debit@, "Debit"@) + preview_part(
        s.col_credit@,
        "Credit"@,
    )
}

/// The preview of a mapping: five entries read through it, or the error
/// of a mapping without an entries table.
pub open spec fn mapping_preview_text(s: SageSchema) -> Result<Seq<char>, Seq<char>> {
    if s.table_ecritures@.len() == 0 {
        Err("Table des écritures non spécifiée"@)
    } else {
        Ok("SELECT TOP 5 "@ + (if preview_parts(s).len() == 0 {
            "*"@
        } else {
            join_seq(preview_parts(s), ", "@)
        }) + " FROM "@ + bracket_ident_seq(s.table_ecritures@))
    }
}

fn push_part(parts: &mut Vec<String>, col: &String, alias: &str)
    ensures
        strings_view(final(parts)@) == strings_view(old(parts)@) + preview_part(col@, alias@),
{
    if col.as_str().is_empty() {
        assert(strings_view(parts@) =~= strings_view(old(parts)@) + Seq::<Seq<char>>::empty());
    } else {
        let mut p = mapped_column(col.as_str());
        p.append(" AS [");
        p.append(alias);
        push_char(&mut p, ']');
        proof {
            reveal_strlit(" AS [");
            reveal_strlit("]");
        }
        assert(p@ =~= mapped_column_text(col@) + " AS ["@ + alias@ + "]"@);
        let ghost before = parts@;
        parts.push(p);
        assert(strings_view(parts@) =~= strings_view(before) + preview_part(col@, alias@));
    }
}

/// The query of `test_mapping`.
pub fn mapping_preview_query(schema: &SageSchema) -> (r: Result<String, String>)
    ensures
        match mapping_preview_text(*schema) {
            Ok(q) => (r matches Ok(s) && s@ == q),
            Err(m) => (r matches Err(e) && e@ == m),
        },
{
    if schema.table_ecritures.as_str().is_empty() {
        proof {
            reveal_strlit("Table des écritures non spécifiée");
        }
        return Err(String::from_str("Table des écritures non spécifiée"));
    }
    let mut parts: Vec<String> = Vec::new();
    assert(strings_view(parts@) =~= Seq::<Seq<char>>::empty());
    push_part(&mut parts, &schema.col_date, "Date");
    push_part(&mut parts, &schema.col_journal, "Journal");
    push_part(&mut parts, &schema.col_compte, "Compte");
    push_part(&mut parts, &schema.col_libelle, "Libelle");
    push_part(&mut parts, &schema.col_debit, "Debit");
    push_part(&mut parts, &schema.col_credit, "Credit");
    assert(strings_view(parts@) =~= preview_parts(*schema));
    let clause = if parts.len() == 0 {
        proof {
            reveal_strlit("*");
        }
        String::from_str("*")
    } else {
        join_strings(&parts, ", ")
    };
    let mut r = String::from_str("SELECT TOP 5 ");
    r.append(clause.as_str());
    r.append(" FROM ");
    r.append(bracket_ident(schema.table_ecritures.as_str()).as_str());
    proof {
        reveal_strlit("SELECT TOP 5 ");
        reveal_strlit(" FROM ");
    }
    Ok(r)
}

// ---------------------------------------------------------------------------
// Keyed entries
// ---------------------------------------------------------------------------

/// Where a key's entry is (its last one).
pub open spec fn key_index<V>(s: Seq<(String, V)>, key: Seq<char>) -> Option<int>
    decreases s.len(),
{
    if s.len() == 0 {
        None
    } else if s.last().0@ == key {
        Some(s.len() - 1)
    } else {
        key_index(s.drop_last(), key)
    }
}

pub open spec fn lookup<V>(s: Seq<(String, V)>, key: Seq<char>) -> Option<V> {
    match key_index(s, key) {
        Some(k) => Some(s[k].1),
        None => None,
    }
}

/// The entries with a key's value set.
pub open spec fn stored<V>(s: Seq<(String, V)>, key: String, v: V) -> Seq<(String, V)> {
    match key_index(s, key@) {
        Some(k) => s.update(k, (key, v)),
        None => s.push((key, v)),
    }
}

/// The entries without a key.
pub open spec fn removed<V>(s: Seq<(String, V)>, key: Seq<char>) -> Seq<(String, V)>
    decreases s.len(),
{
    if s.len() == 0 {
        s
    } else if s.last().0@ == key {
        removed(s.drop_last(), key)
    } else {
        removed(s.drop_last(), key).push(s.last())
    }
}

pub open spec fn keys_unique<V>(s: Seq<(String, V)>) -> bool {
    forall|i: int, j: int| 0 <= i < j < s.len() ==> (#[trigger] s[i]).0@ != (#[trigger] s[j]).0@
}

pub proof fn lemma_key_index<V>(s: Seq<(String, V)>, key: Seq<char>)
    ensures
        match key_index(s, key) {
            Some(k) => 0 <= k < s.len() && s[k].0@ == key && forall|j: int| k < j < s.len() ==> (#[trigger] s[j]).0@ != key,
            None => forall|j: int| 0 <= j < s.len() ==> (#[trigger] s[j]).0@ != key,
        },
    decreases s.len(),
{
    if s.len() > 0 {
        lemma_key_index(s.drop_last(), key);
        if s.last().0@ != key {
            assert forall|j: int| 0 <= j < s.len() - 1 implies (#[trigger] s[j]) == s.drop_last()[j] by {}
        }
    }
}

proof fn lemma_key_index_at<V>(s: Seq<(String, V)>, key: Seq<char>, k: int)
    requires
        0 <= k < s.len(),
        s[k].0@ == key,
        forall|j: int| k < j < s.len() ==> (#[trigger] s[j]).0@ != key,
    ensures
        key_index(s, key) == Some(k),
    decreases s.len(),
{
    if k < s.len() - 1 {
        assert(s[s.len() - 1].0@ != key);
        assert forall|j: int| k < j < s.drop_last().len() implies (#[trigger] s.drop_last()[j]).0@ != key by {
            assert(s.drop_last()[j] == s[j]);
        }
        lemma_key_index_at(s.drop_last(), key, k);
    }
}

proof fn lemma_key_absent<V>(s: Seq<(String, V)>, key: Seq<char>)
    requires
        forall|j: int| 0 <= j < s.len() ==> (#[trigger] s[j]).0@ != key,
    ensures
        key_index(s, key) is None,
    decreases s.len(),
{
    if s.len() > 0 {
        assert(s[s.len() - 1].0@ != key);
        assert forall|j: int| 0 <= j < s.drop_last().len() implies (#[trigger] s.drop_last()[j]).0@ != key by {
            assert(s.drop_last()[j] == s[j]);
        }
        lemma_key_absent(s.drop_last(), key);
    }
}

/// A value set under a key is what the key holds; other keys keep theirs.
pub proof fn lemma_stored_lookup<V>(s: Seq<(String, V)>, key: String, v: V, other: Seq<char>)
    ensures
        lookup(stored(s, key, v), key@) == Some(v),
        other != key@ ==> lookup(stored(s, key, v), other) == lookup(s, other),
{
    lemma_key_index(s, key@);
    lemma_key_index(s, other);
    let t = stored(s, key, v);
    match key_index(s, key@) {
        Some(k) => {
            assert forall|j: int| k < j < t.len() implies (#[trigger] t[j]).0@ != key@ by {
                assert(t[j] == s[j]);
            }
            lemma_key_index_at(t, key@, k);
            if other != key@ {
                match key_index(s, other) {
                    Some(m) => {
                        assert(m != k);
                        assert forall|j: int| m < j < t.len() implies (#[trigger] t[j]).0@ != other by {
                            if j != k {
                                assert(t[j] == s[j]);
                            }
                        }
                        assert(t[m] == s[m]);
                        lemma_key_index_at(t, other, m);
                    },
                    None => {
                        assert forall|j: int| 0 <= j < t.len() implies (#[trigger] t[j]).0@ != other by {
                            if j != k {
                                assert(t[j] == s[j]);
                            }
                        }
                        lemma_key_absent(t, other);
                    },
                }
            }
        },
        None => {
            lemma_key_index_at(t, key@, s.len() as int);
            if other != key@ {
                match key_index(s, other) {
                    Some(m) => {
                        assert forall|j: int| m < j < t.len() implies (#[trigger] t[j]).0@ != other by {
                            if j < s.len() {
                                assert(t[j] == s[j]);
                            }
                        }
                        assert(t[m] == s[m]);
                        lemma_key_index_at(t, other, m);
                    },
                    None => {
                        assert forall|j: int| 0 <= j < t.len() implies (#[trigger] t[j]).0@ != other by {
                            if j < s.len() {
                                assert(t[j] == s[j]);
                            }
                        }
                        lemma_key_absent(t, other);
                    },
                }
            }
        },
    }
}

proof fn lemma_removed_lookup<V>(s: Seq<(String, V)>, key: Seq<char>, other: Seq<char>)
    ensures
        lookup(removed(s, key), key) is None,
        other != key ==> lookup(removed(s, key), other) == lookup(s, other),
    decreases s.len(),
{
    if s.len() > 0 {
        let d = s.drop_last();
        lemma_removed_lookup(d, key, other);
        lemma_key_index(d, other);
        lemma_key_index(removed(d, key), other);
        assert(s.drop_last() == d);
        match key_index(d, other) {
            Some(k) => {
                assert(s[k] == d[k]);
            },
            None => {},
        }
        if s.last().0@ != key {
            let r = removed(d, key);
            assert(r.push(s.last()).drop_last() =~= r);
            match key_index(r, other) {
                Some(k) => {
                    assert(r.push(s.last())[k] == r[k]);
                },
                None => {},
            }
        }
    }
}

proof fn lemma_stored_unique<V>(s: Seq<(String, V)>, key: String, v: V)
    requires
        keys_unique(s),
    ensures
        keys_unique(stored(s, key, v)),
{
    lemma_key_index(s, key@);
    let t = stored(s, key, v);
    assert forall|i: int, j: int| 0 <= i < j < t.len() implies (#[trigger] t[i]).0@ != (#[trigger] t[j]).0@ by {
        match key_index(s, key@) {
            Some(k) => {
                if i != k && j != k {
                    assert(t[i] == s[i] && t[j] == s[j]);
                } else if i == k {
                    assert(t[j] == s[j]);
                } else {
                    assert(t[i] == s[i]);
                }
            },
            None => {
                if j < s.len() {
                    assert(t[i] == s[i] && t[j] == s[j]);
                } else {
                    assert(t[i] == s[i]);
                }
            },
        }
    }
}

proof fn lemma_removed_unique<V>(s: Seq<(String, V)>, key: Seq<char>)
    requires
        keys_unique(s),
    ensures
        keys_unique(removed(s, key)),
        forall|j: int| 0 <= j < removed(s, key).len() ==> s.contains(#[trigger] removed(s, key)[j]),
    decreases s.len(),
{
    if s.len() > 0 {
        let d = s.drop_last();
        assert(keys_unique(d));
        lemma_removed_unique(d, key);
        let r = removed(d, key);
        assert forall|j: int| 0 <= j < r.len() implies s.contains(#[trigger] r[j]) by {
            let w = choose|w: int| 0 <= w < d.len() && d[w] == r[j];
            assert(s[w] == r[j]);
        }
        if s.last().0@ != key {
            let t = r.push(s.last());
            assert forall|i: int, j: int| 0 <= i < j < t.len() implies (#[trigger] t[i]).0@ != (#[trigger] t[j]).0@ by {
                if j == t.len() - 1 {
                    let w = choose|w: int| 0 <= w < d.len() && d[w] == r[i];
                    assert(s[w] == t[i]);
                    assert(s[s.len() - 1] == t[j]);
                } else {
                    assert(t[i] == r[i] && t[j] == r[j]);
                }
            }
            assert forall|j: int| 0 <= j < t.len() implies s.contains(#[trigger] t[j]) by {
                if j == t.len() - 1 {
                    assert(s[s.len() - 1] == t[j]);
                } else {
                    assert(t[j] == r[j]);
                }
            }
        }
    }
}

fn key_position<V>(s: &Vec<(String, V)>, key: &str) -> (r: Option<usize>)
    ensures
        match r {
            Some(k) => k < s@.len() && key_index(s@, key@) == Some(k as int),
            None => key_index(s@, key@) is None,
        },
{
    let mut i: usize = s.len();
    assert(s@.take(i as int) =~= s@);
    while i > 0
        invariant
            i <= s.len(),
            key_index(s@, key@) == key_index(s@.take(i as int), key@),
        decreases i,
    {
        let ghost t = s@.take(i as int);
        assert(t.last() == s@[i - 1]);
        if str_eq(s[i - 1].0.as_str(), key) {
            return Some(i - 1);
        }
        assert(t.drop_last() =~= s@.take(i - 1));
        i = i - 1;
    }
    None
}

fn store<V>(s: &mut Vec<(String, V)>, key: String, v: V)
    ensures
        final(s)@ == stored(old(s)@, key, v),
{
    match key_position(s, key.as_str()) {
        Some(k) => {
            s.set(k, (key, v));
        },
        None => {
            s.push((key, v));
        },
    }
}

fn remove_key<V>(s: &mut Vec<(String, V)>, key: &str)
    ensures
        final(s)@ == removed(old(s)@, key@),
{
    let mut kept: Vec<(String, V)> = Vec::new();
    let mut old_entries: Vec<(String, V)> = Vec::new();
    core::mem::swap(&mut old_entries, s);
    let ghost all = old_entries@;
    let ghost mut done: Seq<(String, V)> = Seq::empty();
    // Entries are moved out from the front, one by one.
    while old_entries.len() > 0
        invariant
            done + old_entries@ == all,
            kept@ == removed(done, key@),
        decreases old_entries.len(),
    {
        let ghost before = old_entries@;
        let e = old_entries.remove(0);
        proof {
            assert(before =~= seq![e] + old_entries@);
            assert(done.push(e) + old_entries@ =~= all);
            assert(done.push(e).drop_last() =~= done);
        }
        if !str_eq(e.0.as_str(), key) {
            kept.push(e);
        }
        proof {
            done = done.push(e);
        }
    }
    assert(done =~= all);
    *s = kept;
}

// ---------------------------------------------------------------------------
// The connections of the session
// ---------------------------------------------------------------------------

/// Where a connection stands.
pub enum ConnectionStatus {
    Disconnected,
    Connecting,
    Connected,
    Error(String),
}

pub enum StatusView {
    Disconnected,
    Connecting,
    Connected,
    Error(Seq<char>),
}

pub open spec fn status_view(s: ConnectionStatus) -> StatusView {
    match s {
        ConnectionStatus::Disconnected => StatusView::Disconnected,
        ConnectionStatus::Connecting => StatusView::Connecting,
        ConnectionStatus::Connected => StatusView::Connected,
        ConnectionStatus::Error(e) => StatusView::Error(e@),
    }
}

/// The name a status is reported under.
pub open spec fn status_name(s: StatusView) -> Seq<char> {
    match s {
        StatusView::Disconnected => "disconnected"@,
        StatusView::Connecting => "connecting"@,
        StatusView::Connected => "connected"@,
        StatusView::Error(_) => "error"@,
    }
}

/// A connection opened in the session, with the profile it uses.
pub struct ActiveConnection {
    pub config: ConnectionConfig,
    pub status: ConnectionStatus,
}

pub struct SessionView {
    pub config: ConnView,
    pub status: StatusView,
}

pub open spec fn session_view(a: ActiveConnection) -> SessionView {
    SessionView { config: conn_view(a.config), status: status_view(a.status) }
}

/// The connections of the session and the schema resolved for each.
pub struct Sessions {
    active: Vec<(String, ActiveConnection)>,
    schemas: Vec<(String, SageSchema)>,
}

impl Sessions {
    pub closed spec fn entries(&self) -> Seq<(String, ActiveConnection)> {
        self.active@
    }

    pub closed spec fn schema_entries(&self) -> Seq<(String, SageSchema)> {
        self.schemas@
    }

    pub open spec fn wf(&self) -> bool {
        keys_unique(self.entries()) && keys_unique(self.schema_entries())
    }

    /// The connection of an id, if it is open.
    pub open spec fn session(&self, id: Seq<char>) -> Option<SessionView> {
        match lookup(self.entries(), id) {
            Some(a) => Some(session_view(a)),
            None => None,
        }
    }

    /// The schema resolved for a connection, if any.
    pub open spec fn schema(&self, id: Seq<char>) -> Option<SchemaView> {
        match lookup(self.schema_entries(), id) {
            Some(s) => Some(schema_view(s)),
            None => None,
        }
    }

    pub fn new() -> (r: Self)
        ensures
            r.wf(),
            forall|id: Seq<char>| r.session(id) is None && r.schema(id) is None,
    {
        let r = Sessions { active: Vec::new(), schemas: Vec::new() };
        assert forall|id: Seq<char>| r.session(id) is None && r.schema(id) is None by {
            lemma_key_absent(r.entries(), id);
            lemma_key_absent(r.schema_entries(), id);
        }
        r
    }

    fn set_session(&mut self, id: String, a: ActiveConnection)
        requires
            old(self).wf(),
        ensures
            final(self).wf(),
            final(self).session(id@) == Some(session_view(a)),
            forall|other: Seq<char>| other != id@ ==> final(self).session(other) == old(self).session(other),
            forall|other: Seq<char>| final(self).schema(other) == old(self).schema(other),
    {
        let ghost key = id;
        let ghost before = self.active@;
        store(&mut self.active, id, a);
        proof {
            lemma_stored_unique(before, key, a);
            lemma_stored_lookup(before, key, a, key@);
            assert forall|other: Seq<char>| other != key@ implies self.session(other) == old(self).session(other) by {
                lemma_stored_lookup(before, key, a, other);
            }
        }
    }

    fn set_status(&mut self, id: &str, status: ConnectionStatus)
        requires
            old(self).wf(),
        ensures
            final(self).wf(),
            final(self).session(id@) == match old(self).session(id@) {
                Some(v) => Some(SessionView { status: status_view(status), ..v }),
                None => None::<SessionView>,
            },
            forall|other: Seq<char>| other != id@ ==> final(self).session(other) == old(self).session(other),
            forall|other: Seq<char>| final(self).schema(other) == old(self).schema(other),
    {
        match key_position(&self.active, id) {
            Some(k) => {
                let ghost before = self.active@;
                proof {
                    lemma_key_index(before, id@);
                }
                let (key, entry) = self.active.remove(k);
                let updated = ActiveConnection { config: entry.config, status };
                let ghost u = updated;
                self.active.insert(k, (key, updated));
                assert(self.active@ =~= before.update(k as int, (before[k as int].0, u)));
                proof {
                    let t = self.active@;
                    assert forall|j: int| k < j < t.len() implies (#[trigger] t[j]).0@ != id@ by {
                        assert(t[j] == before[j]);
                    }
                    lemma_key_index_at(t, id@, k as int);
                    assert forall|i: int, j: int| 0 <= i < j < t.len() implies (#[trigger] t[i]).0@ != (#[trigger] t[j]).0@ by {
                        assert(t[i].0 == before[i].0 && t[j].0 == before[j].0);
                    }
                    assert forall|other: Seq<char>| other != id@ implies self.session(other) == old(self).session(other) by {
                        lemma_key_index(before, other);
                        match key_index(before, other) {
                            Some(m) => {
                                assert(m != k);
                                assert forall|j: int| m < j < t.len() implies (#[trigger] t[j]).0@ != other by {
                                    assert(t[j].0 == before[j].0);
                                }
                                assert(t[m] == before[m]);
                                lemma_key_index_at(t, other, m);
                            },
                            None => {
                                assert forall|j: int| 0 <= j < t.len() implies (#[trigger] t[j]).0@ != other by {
                                    assert(t[j].0 == before[j].0);
                                }
                                lemma_key_absent(t, other);
                            },
                        }
                    }
                }
            },
            None => {},
        }
    }

    fn set_schema(&mut self, id: String, schema: SageSchema)
        requires
            old(self).wf(),
        ensures
            final(self).wf(),
            final(self).schema(id@) == Some(schema_view(schema)),
            forall|other: Seq<char>| other != id@ ==> final(self).schema(other) == old(self).schema(other),
            forall|other: Seq<char>| final(self).session(other) == old(self).session(other),
    {
        let ghost key = id;
        let ghost before = self.schemas@;
        store(&mut self.schemas, id, schema);
        proof {
            lemma_stored_unique(before, key, schema);
            lemma_stored_lookup(before, key, schema, key@);
            assert forall|other: Seq<char>| other != key@ implies self.schema(other) == old(self).schema(other) by {
                lemma_stored_lookup(before, key, schema, other);
            }
        }
    }

    /// `connect_db`, before the attempt: the connection is connecting with
    /// its profile.
    pub fn connect_db(&mut self, id: String, config: ConnectionConfig)
        requires
            old(self).wf(),
        ensures
            final(self).wf(),
            final(self).session(id@) == Some(SessionView { config: conn_view(config), status: StatusView::Connecting }),
            forall|other: Seq<char>| other != id@ ==> final(self).session(other) == old(self).session(other),
            forall|other: Seq<char>| final(self).schema(other) == old(self).schema(other),
    {
        self.set_session(id, ActiveConnection { config, status: ConnectionStatus::Connecting });
    }

    /// `connect_db`, once connected: the connection is connected and the
    /// schema resolved for it is kept.
    pub fn connect_succeeded(&mut self, id: String, schema: SageSchema)
        requires
            old(self).wf(),
        ensures
            final(self).wf(),
            final(self).session(id@) == match old(self).session(id@) {
                Some(v) => Some(SessionView { status: StatusView::Connected, ..v }),
                None => None::<SessionView>,
            },
            final(self).schema(id@) == Some(schema_view(schema)),
            forall|other: Seq<char>| other != id@ ==> final(self).session(other) == old(self).session(other)
                && final(self).schema(other) == old(self).schema(other),
    {
        self.set_status(id.as_str(), ConnectionStatus::Connected);
        self.set_schema(id, schema);
    }

    /// `connect_db`, when the attempt failed: the connection records the
    /// error.
    pub fn connect_failed(&mut self, id: &str, error: String)
        requires
            old(self).wf(),
        ensures
            final(self).wf(),
            final(self).session(id@) == match old(self).session(id@) {
                Some(v) => Some(SessionView { status: StatusView::Error(error@), ..v }),
                None => None::<SessionView>,
            },
            forall|other: Seq<char>| other != id@ ==> final(self).session(other) == old(self).session(other),
            forall|other: Seq<char>| final(self).schema(other) == old(self).schema(other),
    {
        self.set_status(id, ConnectionStatus::Error(error));
    }

    /// Closes a connection and forgets its schema.
    pub fn disconnect_db(&mut self, id: &str)
        requires
            old(self).wf(),
        ensures
            final(self).wf(),
            final(self).session(id@) is None,
            final(self).schema(id@) is None,
            forall|other: Seq<char>| other != id@ ==> final(self).session(other) == old(self).session(other)
                && final(self).schema(other) == old(self).schema(other),
    {
        let ghost a = self.active@;
        let ghost s = self.schemas@;
        remove_key(&mut self.active, id);
        remove_key(&mut self.schemas, id);
        proof {
            lemma_removed_unique(a, id@);
            lemma_removed_unique(s, id@);
            lemma_removed_lookup(a, id@, id@);
            lemma_removed_lookup(s, id@, id@);
            assert forall|other: Seq<char>| other != id@ implies self.session(other) == old(self).session(other)
                && self.schema(other) == old(self).schema(other) by {
                lemma_removed_lookup(a, id@, other);
                lemma_removed_lookup(s, id@, other);
            }
        }
    }

    /// Keeps the schema detected or resolved for a connection.
    pub fn store_schema(&mut self, id: String, schema: SageSchema)
        requires
            old(self).wf(),
        ensures
            final(self).wf(),
            final(self).schema(id@) == Some(schema_view(schema)),
            forall|other: Seq<char>| other != id@ ==> final(self).schema(other) == old(self).schema(other),
            forall|other: Seq<char>| final(self).session(other) == old(self).session(other),
    {
        self.set_schema(id, schema);
    }

    /// The schema resolved for a connection.
    pub fn get_active_schema(&self, id: &str) -> (r: Option<SageSchema>)
        ensures
            match self.schema(id@) {
                Some(v) => (r matches Some(s) && schema_view(s) == v),
                None => r is None,
            },
    {
        match key_position(&self.schemas, id) {
            Some(k) => {
                let s = self.schemas[k].1.duplicate();
                assert(same_schema(s, self.schemas@[k as int].1));
                Some(s)
            },
            None => None,
        }
    }

    /// `delete_connection`: the profile, its saved queries and its history
    /// leave the configuration, and its open session and resolved schema
    /// leave the register; every other connection's session and schema stay.
    pub fn delete_connection(&mut self, config: &mut AppConfig, id: &str)
        requires
            old(self).wf(),
        ensures
            final(self).wf(),
            connection_deleted(*final(config), *old(config), id@),
            final(self).session(id@) is None,
            final(self).schema(id@) is None,
            forall|other: Seq<char>| other != id@ ==> final(self).session(other) == old(self).session(other)
                && final(self).schema(other) == old(self).schema(other),
    {
        delete_connection(config, id);
        self.disconnect_db(id);
    }

    /// `get_active_schemas`: each connection that has a resolved schema, by
    /// id, with the name of its schema's edition, in the order the schemas
    /// were stored; no other ids.
    pub fn get_active_schemas(&self) -> (r: Vec<(String, String)>)
        ensures
            r@.len() == self.schema_entries().len(),
            forall|k: int| 0 <= k < r@.len() ==> (#[trigger] r@[k]).0@ == self.schema_entries()[k].0@
                && r@[k].1@ == self.schema_entries()[k].1.edition.name(),
    {
        let mut r: Vec<(String, String)> = Vec::new();
        let mut i: usize = 0;
        while i < self.schemas.len()
            invariant
                i <= self.schemas.len(),
                self.schema_entries() == self.schemas@,
                r@.len() == i,
                forall|k: int| 0 <= k < i ==> (#[trigger] r@[k]).0@ == self.schemas@[k].0@
                    && r@[k].1@ == self.schemas@[k].1.edition.name(),
            decreases self.schemas.len() - i,
        {
            let id = self.schemas[i].0.clone();
            let edition = String::from_str(self.schemas[i].1.edition.as_str());
            r.push((id, edition));
            i = i + 1;
        }
        r
    }

    /// Each open connection's id with the name of its status.
    pub fn get_connection_statuses(&self) -> (r: Vec<(String, String)>)
        requires
            self.wf(),
        ensures
            forall|k: int| 0 <= k < r@.len() ==> ((#[trigger] self.session(r@[k].0@)) matches Some(v)
                && r@[k].1@ == status_name(v.status)),
            forall|id: Seq<char>| (#[trigger] self.session(id)) is Some ==> exists|k: int| 0 <= k < r@.len() && r@[k].0@ == id,
            forall|i: int, j: int| 0 <= i < j < r@.len() ==> (#[trigger] r@[i]).0@ != (#[trigger] r@[j]).0@,
    {
        let mut out: Vec<(String, String)> = Vec::new();
        let mut i: usize = 0;
        let ghost e = self.active@;
        proof {
            reveal_strlit("disconnected");
            reveal_strlit("connecting");
            reveal_strlit("connected");
            reveal_strlit("error");
        }
        while i < self.active.len()
            invariant
                i <= self.active.len(),
                e == self.active@,
                keys_unique(e),
                out@.len() == i,
                forall|k: int| 0 <= k < i ==> (#[trigger] out@[k]).0@ == e[k].0@ && out@[k].1@ == status_name(status_view(e[k].1.status)),
            decreases self.active.len() - i,
        {
            let name: &str = match &self.active[i].1.status {
                ConnectionStatus::Disconnected => "disconnected",
                ConnectionStatus::Connecting => "connecting",
                ConnectionStatus::Connected => "connected",
                ConnectionStatus::Error(_) => "error",
            };
            out.push((self.active[i].0.clone(), String::from_str(name)));
            i = i + 1;
        }
        proof {
            assert forall|k: int| 0 <= k < out@.len() implies ((#[trigger] self.session(out@[k].0@)) matches Some(v)
                && out@[k].1@ == status_name(v.status)) by {
                assert forall|j: int| k < j < e.len() implies (#[trigger] e[j]).0@ != e[k].0@ by {}
                lemma_key_index_at(e, e[k].0@, k);
            }
            assert forall|id: Seq<char>| (#[trigger] self.session(id)) is Some implies exists|k: int| 0 <= k < out@.len() && out@[k].0@ == id by {
                lemma_key_index(e, id);
                let k = key_index(e, id).unwrap();
                assert(out@[k].0@ == id);
            }
        }
        out
    }
}

/// The profiles a database switch tries, and falls back on.
pub struct SwitchPlan {
    /// The profile on the new database.
    pub next: ConnectionConfig,
    /// The profile the connection returns to if the switch fails.
    pub fallback: ConnectionConfig,
}

impl Sessions {
    /// `switch_database`, before the attempt: a blank database name is
    /// refused; otherwise the connection is connecting on the new database,
    /// and the plan keeps the profile it had to fall back on.
    pub fn switch_database(&mut self, id: String, current: ConnectionConfig, database: &str) -> (r: Result<SwitchPlan, String>)
        requires
            old(self).wf(),
        ensures
            final(self).wf(),
            trim(database@).len() == 0 ==> (r matches Err(e) && e@ == "Database name is required"@
                && forall|other: Seq<char>| final(self).session(other) == old(self).session(other)),
            trim(database@).len() > 0 ==> (r matches Ok(plan)
                && conn_view(plan.next) == (ConnView { database: trim(database@), ..conn_view(current) })
                && conn_view(plan.fallback) == match old(self).session(id@) {
                    Some(v) => v.config,
                    None => conn_view(current),
                }
                && final(self).session(id@) == Some(SessionView { config: conn_view(plan.next), status: StatusView::Connecting })
                && forall|other: Seq<char>| other != id@ ==> final(self).session(other) == old(self).session(other)),
            forall|other: Seq<char>| final(self).schema(other) == old(self).schema(other),
    {
        let next_database = trim_str(database);
        if next_database.as_str().is_empty() {
            proof {
                reveal_strlit("Database name is required");
            }
            return Err(String::from_str("Database name is required"));
        }
        let fallback = match key_position(&self.active, id.as_str()) {
            Some(k) => copy_connection(&self.active[k].1.config),
            None => copy_connection(&current),
        };
        let next = ConnectionConfig { database: next_database, ..current };
        let attempt = copy_connection(&next);
        self.set_session(id, ActiveConnection { config: attempt, status: ConnectionStatus::Connecting });
        Ok(SwitchPlan { next, fallback })
    }

    /// `switch_database`, once connected: the connection is connected on
    /// the new database and its schema is resolved anew.
    pub fn switch_succeeded(&mut self, id: String, next: ConnectionConfig, schema: SageSchema)
        requires
            old(self).wf(),
        ensures
            final(self).wf(),
            final(self).session(id@) == Some(SessionView { config: conn_view(next), status: StatusView::Connected }),
            final(self).schema(id@) == Some(schema_view(schema)),
            forall|other: Seq<char>| other != id@ ==> final(self).session(other) == old(self).session(other)
                && final(self).schema(other) == old(self).schema(other),
    {
        let key = id.clone();
        self.set_session(id, ActiveConnection { config: next, status: ConnectionStatus::Connected });
        self.set_schema(key, schema);
    }

    /// `switch_database`, when the attempt failed: the connection returns to
    /// the profile it had, with the error.
    pub fn switch_failed(&mut self, id: String, fallback: ConnectionConfig, error: String)
        requires
            old(self).wf(),
        ensures
            final(self).wf(),
            final(self).session(id@) == Some(SessionView { config: conn_view(fallback), status: StatusView::Error(error@) }),
            forall|other: Seq<char>| other != id@ ==> final(self).session(other) == old(self).session(other),
            forall|other: Seq<char>| final(self).schema(other) == old(self).schema(other),
    {
        self.set_session(id, ActiveConnection { config: fallback, status: ConnectionStatus::Error(error) });
    }
}

// ---------------------------------------------------------------------------
// Reading entries through a stored mapping
// ---------------------------------------------------------------------------

/// A stored mapping is used for the entries only when it names their
/// table, date and account.
pub open spec fn names_entries(s: SageSchema) -> bool {
    s.table_ecritures@.len() > 0 && s.col_date@.len() > 0 && s.col_compte@.len() > 0
}

pub fn schema_names_entries(schema: &SageSchema) -> (b: bool)
    ensures
        b == names_entries(*schema),
{
    !schema.table_ecritures.as_str().is_empty() && !schema.col_date.as_str().is_empty()
        && !schema.col_compte.as_str().is_empty()
}

/// An amount of a mapping as a decimal: a `CASE` expression as written, a
/// column of the entry.
pub open spec fn mapped_amount_text(col: Seq<char>) -> Seq<char> {
    decimal_or_zero_text(if is_case_expression(col) {
        col
    } else {
        qualified("e"@, col)
    })
}

fn mapped_amount(col: &str) -> (r: String)
    ensures
        r@ == mapped_amount_text(col@),
{
    if case_expression(col) {
        crate::sql::decimal_or_zero(col)
    } else {
        crate::sql::decimal_or_zero(crate::sql::qualify("e", col).as_str())
    }
}

pub open spec fn given(s: Seq<char>) -> Option<Seq<char>> {
    if s.len() == 0 {
        None
    } else {
        Some(s)
    }
}

pub open spec fn opt_text(o: Option<String>) -> Option<Seq<char>> {
    match o {
        Some(s) => Some(s@),
        None => None,
    }
}

fn given_column(s: &String) -> (r: Option<String>)
    ensures
        opt_text(r) == given(s@),
{
    if s.as_str().is_empty() {
        None
    } else {
        Some(s.clone())
    }
}

/// `schema_entry_context`: the entries as a stored mapping reads them,
/// from the table found under the mapping's name.
pub fn schema_entry_context(schema: &SageSchema, table: DetectedTable) -> (r: EntryContext)
    ensures
        r.table == table,
        r.date_col@ == schema.col_date@,
        opt_text(r.journal_col) == given(schema.col_journal@),
        r.account_col@ == schema.col_compte@,
        opt_text(r.account_label_col) == given(schema.col_libelle@),
        opt_text(r.tiers_code_col) == given(schema.col_tiers@),
        opt_text(r.description_col) == given(schema.col_libelle@),
        opt_text(r.ref_piece_col) == given(schema.col_piece@),
        opt_text(r.lettrage_col) == given(schema.col_lettrage@),
        r.debit_expr@ == mapped_amount_text(schema.col_debit@),
        r.credit_expr@ == mapped_amount_text(schema.col_credit@),
{
    EntryContext {
        table,
        date_col: schema.col_date.clone(),
        journal_col: given_column(&schema.col_journal),
        account_col: schema.col_compte.clone(),
        account_label_col: given_column(&schema.col_libelle),
        tiers_code_col: given_column(&schema.col_tiers),
        description_col: given_column(&schema.col_libelle),
        ref_piece_col: given_column(&schema.col_piece),
        lettrage_col: given_column(&schema.col_lettrage),
        debit_expr: mapped_amount(schema.col_debit.as_str()),
        credit_expr: mapped_amount(schema.col_credit.as_str()),
    }
}

/// A stored lookup is used only when it names its table, code and label.
pub fn lookup_names_given(table_name: &str, code_col: &str, label_col: &str) -> (b: bool)
    ensures
        b == (table_name@.len() > 0 && code_col@.len() > 0 && label_col@.len() > 0),
{
    !table_name.is_empty() && !code_col.is_empty() && !label_col.is_empty()
}

/// `schema_lookup_context`: a lookup table as a stored mapping names it.
pub fn schema_lookup_context(table: DetectedTable, code_col: &str, label_col: &str, type_col: &str) -> (r: LookupContext)
    ensures
        r.table == table,
        r.code_col@ == code_col@,
        r.label_col@ == label_col@,
        opt_text(r.type_col) == given(type_col@),
{
    LookupContext {
        table,
        code_col: String::from_str(code_col),
        label_col: String::from_str(label_col),
        type_col: if type_col.is_empty() {
            None
        } else {
            Some(String::from_str(type_col))
        },
    }
}

/// The stored mapping is tried before detection when it is for a known
/// edition.
pub fn prefers_schema_hint(hint: Option<&SageSchema>) -> (b: bool)
    ensures
        b == (hint matches Some(s) && s.edition != crate::schema::SageEdition::Generic),
{
    match hint {
        Some(s) => !s.edition.is_generic(),
        None => false,
    }
}

} // verus!
