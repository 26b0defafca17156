//! The accounting side of the analytics queries: Balance periods, the
//! conditions that select movements, detected tables and the SQL fragments
//! built from them, and the warnings that go back with a response.
use vstd::prelude::*;
use chrono::Datelike;
use crate::sql::{bracket_ident, bracket_ident_seq, join_seq, join_strings, qualify, sql_literal, sql_literal_seq, strings_view, text_or_empty};
use crate::sql::decimal_or_zero;
use crate::text::{ascii_lower, dec, is_blank, is_blank_str, pad_left, push_char, str_eq, to_ascii_lowercase};

verus! {

// ---------------------------------------------------------------------------
// Calendar dates
// ---------------------------------------------------------------------------

/// A day of the proleptic Gregorian calendar, as its year, month and day.
#[derive(Clone, Copy, Debug, PartialEq, Eq, Structural)]
pub struct CalendarDate {
    pub year: i32,
    pub month: u32,
    pub day: u32,
}

pub open spec fn is_leap_year(y: int) -> bool {
    (y % 4 == 0 && y % 100 != 0) || y % 400 == 0
}

pub open spec fn days_in_month(y: int, m: int) -> int {
    if m == 2 {
        if is_leap_year(y) {
            29
        } else {
            28
        }
    } else if m == 4 || m == 6 || m == 9 || m == 11 {
        30
    } else {
        31
    }
}

/// The years chrono's `NaiveDate` can hold.
pub open spec fn date_year_in_range(y: int) -> bool {
    -262143 <= y <= 262142
}

/// A date that exists and that chrono can represent.
pub open spec fn valid_date(d: CalendarDate) -> bool {
    &&& date_year_in_range(d.year as int)
    &&& 1 <= d.month <= 12
    &&& 1 <= d.day <= days_in_month(d.year as int, d.month as int)
}

/// Calendar order.
pub open spec fn date_le(a: CalendarDate, b: CalendarDate) -> bool {
    a.year < b.year || (a.year == b.year && (a.month < b.month || (a.month == b.month && a.day
        <= b.day)))
}

/// What chrono's `NaiveDate::parse_from_str(s, "%Y-%m-%d")` gives: the date's
/// year, month and day, or nothing when the text is no such date.
pub uninterp spec fn parsed_iso_date(s: Seq<char>) -> Option<(i32, u32, u32)>;

/// `NaiveDate::parse_from_str(s, "%Y-%m-%d")`, read back as year, month and
/// day. The result is named by `parsed_iso_date`; chrono only ever yields
/// dates that exist, which is the one further fact claimed.
#[verifier::external_body]
fn parse_iso_date(s: &str) -> (r: Option<CalendarDate>)
    ensures
        match r {
            Some(d) => valid_date(d) && parsed_iso_date(s@) == Some((d.year, d.month, d.day)),
            None => parsed_iso_date(s@) is None,
        },
{
    match chrono::NaiveDate::parse_from_str(s, "%Y-%m-%d") {
        Ok(d) => Some(CalendarDate { year: d.year(), month: d.month(), day: d.day() }),
        Err(_) => None,
    }
}

/// chrono's `%Y`: four zero-padded digits for years 0 to 9999, otherwise a
/// sign and at least four digits.
pub open spec fn iso_year_text(y: int) -> Seq<char> {
    if 0 <= y <= 9999 {
        pad_left(dec(y as nat), 4, '0')
    } else if y > 9999 {
        seq!['+'] + pad_left(dec(y as nat), 4, '0')
    } else {
        seq!['-'] + pad_left(dec((-y) as nat), 4, '0')
    }
}

/// `%Y-%m-%d`.
pub open spec fn iso_date_text(d: CalendarDate) -> Seq<char> {
    iso_year_text(d.year as int) + seq!['-'] + pad_left(dec(d.month as nat), 2, '0') + seq!['-']
        + pad_left(dec(d.day as nat), 2, '0')
}

/// `NaiveDate::format("%Y-%m-%d").to_string()` of an existing date.
#[verifier::external_body]
fn format_iso_date(d: &CalendarDate) -> (r: String)
    requires
        valid_date(*d),
    ensures
        r@ == iso_date_text(*d),
{
    match chrono::NaiveDate::from_ymd_opt(d.year, d.month, d.day) {
        Some(date) => date.format("%Y-%m-%d").to_string(),
        None => String::new(),
    }
}

// ---------------------------------------------------------------------------
// Balance periods
// ---------------------------------------------------------------------------

/// The dates a Balance covers: the requested range for balance-sheet
/// accounts, and for income-statement accounts the part of it that lies in
/// the start date's calendar year.
#[derive(Debug)]
pub struct BalancePeriod {
    pub date_from: String,
    pub date_to: String,
    pub annual_from: String,
    pub annual_to: String,
}

pub open spec fn year_end(d: CalendarDate) -> CalendarDate {
    CalendarDate { year: d.year, month: 12, day: 31 }
}

pub open spec fn earlier(a: CalendarDate, b: CalendarDate) -> CalendarDate {
    if date_le(a, b) {
        a
    } else {
        b
    }
}

pub open spec fn bad_start_date() -> Seq<char> {
    "Invalid Balance start date; expected YYYY-MM-DD"@
}

pub open spec fn bad_end_date() -> Seq<char> {
    "Invalid Balance end date; expected YYYY-MM-DD"@
}

pub open spec fn reversed_dates() -> Seq<char> {
    "Balance start date must not be after end date"@
}

pub open spec fn as_date(t: (i32, u32, u32)) -> CalendarDate {
    CalendarDate { year: t.0, month: t.1, day: t.2 }
}

/// What `resolve_balance_period` returns for the two texts.
pub open spec fn balance_period_of(from_text: Seq<char>, to_text: Seq<char>, r: Result<BalancePeriod, String>) -> bool {
    match parsed_iso_date(from_text) {
        None => r matches Err(e) && e@ == bad_start_date(),
        Some(f) => match parsed_iso_date(to_text) {
            None => r matches Err(e) && e@ == bad_end_date(),
            Some(t) => {
                let from = as_date(f);
                let to = as_date(t);
                if !date_le(from, to) {
                    r matches Err(e) && e@ == reversed_dates()
                } else {
                    r matches Ok(p) && {
                        &&& p.date_from@ == iso_date_text(from)
                        &&& p.date_to@ == iso_date_text(to)
                        &&& p.annual_from@ == iso_date_text(from)
                        &&& p.annual_to@ == iso_date_text(earlier(to, year_end(from)))
                    }
                }
            },
        },
    }
}

fn date_before_or_on(a: &CalendarDate, b: &CalendarDate) -> (r: bool)
    ensures
        r == date_le(*a, *b),
{
    a.year < b.year || (a.year == b.year && (a.month < b.month || (a.month == b.month && a.day
        <= b.day)))
}

/// `resolve_balance_period`: both dates must read as `YYYY-MM-DD` and be in
/// order; the annual range starts with the period and ends at the earlier of
/// its end and the 31st of December of its start year.
pub fn resolve_balance_period(date_from: &str, date_to: &str) -> (r: Result<BalancePeriod, String>)
    ensures
        balance_period_of(date_from@, date_to@, r),
{
    let from = match parse_iso_date(date_from) {
        Some(d) => d,
        None => {
            return Err(String::from_str("Invalid Balance start date; expected YYYY-MM-DD"));
        },
    };
    let to = match parse_iso_date(date_to) {
        Some(d) => d,
        None => {
            return Err(String::from_str("Invalid Balance end date; expected YYYY-MM-DD"));
        },
    };
    if !date_before_or_on(&from, &to) {
        return Err(String::from_str("Balance start date must not be after end date"));
    }
    let end = CalendarDate { year: from.year, month: 12, day: 31 };
    let annual_end = if date_before_or_on(&to, &end) {
        to
    } else {
        end
    };
    Ok(
        BalancePeriod {
            date_from: format_iso_date(&from),
            date_to: format_iso_date(&to),
            annual_from: format_iso_date(&from),
            annual_to: format_iso_date(&annual_end),
        },
    )
}

/// A successful period's annual range lies within its own range and within
/// the calendar year of its start.
pub proof fn lemma_annual_range_within_period(from_text: Seq<char>, to_text: Seq<char>)
    requires
        parsed_iso_date(from_text) is Some,
        parsed_iso_date(to_text) is Some,
        valid_date(as_date(parsed_iso_date(from_text)->0)),
        valid_date(as_date(parsed_iso_date(to_text)->0)),
        date_le(as_date(parsed_iso_date(from_text)->0), as_date(parsed_iso_date(to_text)->0)),
    ensures
        ({
            let from = as_date(parsed_iso_date(from_text)->0);
            let to = as_date(parsed_iso_date(to_text)->0);
            let end = earlier(to, year_end(from));
            &&& date_le(from, end)
            &&& date_le(end, to)
            &&& end.year == from.year
            &&& valid_date(end)
        }),
{
}

// ---------------------------------------------------------------------------
// Movement conditions
// ---------------------------------------------------------------------------

/// Income-statement accounts: classes 6 and 7.
pub open spec fn annual_account_text(a: Seq<char>) -> Seq<char> {
    "("@ + a + " LIKE '6%' OR "@ + a + " LIKE '7%')"@
}

/// `annual_account_condition`: the account expression is a class 6 or class
/// 7 account.
pub fn annual_account_condition(account_expr: &str) -> (r: String)
    ensures
        r@ == annual_account_text(account_expr@),
{
    let mut r = String::from_str("(");
    r.append(account_expr);
    r.append(" LIKE '6%' OR ");
    r.append(account_expr);
    r.append(" LIKE '7%')");
    r
}

/// Opening journals (`RAN`, `AN`, `OUV`) excluded, or no condition when the
/// entries have no journal column.
pub open spec fn non_opening_text(j: Seq<char>, available: bool) -> Seq<char> {
    if available {
        "UPPER(LTRIM(RTRIM("@ + j + "))) NOT IN ('RAN', 'AN', 'OUV')"@
    } else {
        "1 = 1"@
    }
}

/// `non_opening_journal_condition`.
pub fn non_opening_journal_condition(journal_expr: &str, journal_available: bool) -> (r: String)
    ensures
        r@ == non_opening_text(journal_expr@, journal_available),
{
    if journal_available {
        let mut r = String::from_str("UPPER(LTRIM(RTRIM(");
        r.append(journal_expr);
        r.append("))) NOT IN ('RAN', 'AN', 'OUV')");
        r
    } else {
        String::from_str("1 = 1")
    }
}

/// The movements a Balance counts: balance-sheet accounts over the whole
/// period; income-statement accounts over the annual range, without the
/// opening journals.
pub open spec fn movement_text(
    account: Seq<char>,
    date: Seq<char>,
    journal: Seq<char>,
    available: bool,
    p: BalancePeriod,
) -> Seq<char> {
    let annual = annual_account_text(account);
    "((NOT "@ + annual + " AND "@ + date + " BETWEEN "@ + sql_literal_seq(p.date_from@) + " AND "@
        + sql_literal_seq(p.date_to@) + ") OR ("@ + annual + " AND "@ + date + " BETWEEN "@
        + sql_literal_seq(p.annual_from@) + " AND "@ + sql_literal_seq(p.annual_to@) + " AND "@
        + non_opening_text(journal, available) + "))"@
}

/// `balance_movement_condition`.
pub fn balance_movement_condition(
    account_expr: &str,
    date_expr: &str,
    journal_expr: &str,
    journal_available: bool,
    period: &BalancePeriod,
) -> (r: String)
    ensures
        r@ == movement_text(account_expr@, date_expr@, journal_expr@, journal_available, *period),
{
    let annual = annual_account_condition(account_expr);
    let non_opening = non_opening_journal_condition(journal_expr, journal_available);
    let mut r = String::from_str("((NOT ");
    r.append(annual.as_str());
    r.append(" AND ");
    r.append(date_expr);
    r.append(" BETWEEN ");
    r.append(sql_literal(period.date_from.as_str()).as_str());
    r.append(" AND ");
    r.append(sql_literal(period.date_to.as_str()).as_str());
    r.append(") OR (");
    r.append(annual.as_str());
    r.append(" AND ");
    r.append(date_expr);
    r.append(" BETWEEN ");
    r.append(sql_literal(period.annual_from.as_str()).as_str());
    r.append(" AND ");
    r.append(sql_literal(period.annual_to.as_str()).as_str());
    r.append(" AND ");
    r.append(non_opening.as_str());
    r.append("))");
    r
}

// ---------------------------------------------------------------------------
// Responses and warnings
// ---------------------------------------------------------------------------

/// Data sent back to the interface with the warnings met on the way.
pub struct DashboardResponse<T> {
    pub data: T,
    pub warning: Option<String>,
}

/// One page of rows with the total count and the page's position.
pub struct PagedDashboardResponse<T> {
    pub data: Vec<T>,
    pub total: i64,
    pub offset: i64,
    pub limit: i64,
    pub warning: Option<String>,
}

/// The warnings that are not blank, in order.
pub open spec fn kept_warnings(w: Seq<Seq<char>>) -> Seq<Seq<char>>
    decreases w.len(),
{
    if w.len() == 0 {
        seq![]
    } else if is_blank(w.last()) {
        kept_warnings(w.drop_last())
    } else {
        kept_warnings(w.drop_last()).push(w.last())
    }
}

/// The warnings joined with ` | `, or none when all are blank.
pub open spec fn joined_warnings(w: Seq<Seq<char>>) -> Option<Seq<char>> {
    let kept = kept_warnings(w);
    if kept.len() == 0 {
        None
    } else {
        Some(join_seq(kept, " | "@))
    }
}

/// `join_warnings`.
pub fn join_warnings(warnings: Vec<String>) -> (r: Option<String>)
    ensures
        match r {
            Some(s) => joined_warnings(strings_view(warnings@)) == Some(s@),
            None => joined_warnings(strings_view(warnings@)) is None,
        },
{
    let mut kept: Vec<String> = Vec::new();
    let mut i: usize = 0;
    while i < warnings.len()
        invariant
            i <= warnings.len(),
            strings_view(kept@) == kept_warnings(strings_view(warnings@).take(i as int)),
        decreases warnings.len() - i,
    {
        let ghost prefix = strings_view(warnings@).take(i + 1);
        assert(prefix.drop_last() =~= strings_view(warnings@).take(i as int));
        assert(prefix.last() == warnings@[i as int]@);
        if !is_blank_str(warnings[i].as_str()) {
            let ghost prev = kept@;
            kept.push(String::from_str(warnings[i].as_str()));
            assert(strings_view(kept@) =~= strings_view(prev).push(warnings@[i as int]@));
        }
        i = i + 1;
    }
    assert(strings_view(warnings@).take(warnings.len() as int) =~= strings_view(warnings@));
    if kept.len() == 0 {
        None
    } else {
        Some(join_strings(&kept, " | "))
    }
}

/// `empty_vec_response`: no rows, and the joined warnings.
pub fn empty_vec_response<T>(warning: Vec<String>) -> (r: DashboardResponse<Vec<T>>)
    ensures
        r.data@.len() == 0,
        match r.warning {
            Some(s) => joined_warnings(strings_view(warning@)) == Some(s@),
            None => joined_warnings(strings_view(warning@)) is None,
        },
{
    DashboardResponse { data: Vec::new(), warning: join_warnings(warning) }
}

// ---------------------------------------------------------------------------
// Detected tables and the Sage 1000 joins
// ---------------------------------------------------------------------------

/// A table found in `INFORMATION_SCHEMA`.
pub struct DetectedTable {
    pub schema: String,
    pub name: String,
}

impl DetectedTable {
    pub open spec fn sql_name_text(self) -> Seq<char> {
        bracket_ident_seq(self.schema@) + seq!['.'] + bracket_ident_seq(self.name@)
    }

    /// `[schema].[name]`, each part quoted.
    pub fn sql_name(&self) -> (r: String)
        ensures
            r@ == self.sql_name_text(),
    {
        let mut r = bracket_ident(self.schema.as_str());
        push_char(&mut r, '.');
        r.append(bracket_ident(self.name.as_str()).as_str());
        r
    }
}

/// The Sage 1000 tables found in a database.
pub struct Sage1000Context {
    pub entries: DetectedTable,
    pub accounts: DetectedTable,
    pub tiers: Option<DetectedTable>,
    pub role_tiers: Option<DetectedTable>,
    pub pieces: Option<DetectedTable>,
    pub journals: Option<DetectedTable>,
}

/// The joins and expressions that give entries their journal and piece.
pub struct Sage1000DocumentSql {
    pub join_sql: String,
    pub journal_expr: String,
    pub ref_piece_expr: String,
}

pub open spec fn qualified(alias: Seq<char>, column: Seq<char>) -> Seq<char> {
    alias + seq!['.'] + bracket_ident_seq(column)
}

pub open spec fn text_or_empty_text(expr: Seq<char>, len: nat) -> Seq<char> {
    "COALESCE(CAST("@ + expr + " AS NVARCHAR("@ + dec(len) + ")), CAST('' AS NVARCHAR("@ + dec(len)
        + ")))"@
}

/// The join of the piece table, when there is one.
pub open spec fn piece_join_text(c: Sage1000Context) -> Seq<char> {
    match c.pieces {
        Some(t) => "LEFT JOIN "@ + t.sql_name_text() + " p ON "@ + qualified("e"@, "oidpiece"@)
            + " = "@ + qualified("p"@, "oid"@),
        None => seq![],
    }
}

/// The join of the journal table, which goes through the piece table.
pub open spec fn journal_join_text(c: Sage1000Context) -> Seq<char> {
    match (c.pieces, c.journals) {
        (Some(_), Some(t)) => "LEFT JOIN "@ + t.sql_name_text() + " j ON "@ + qualified(
            "p"@,
            "oidjournal"@,
        ) + " = "@ + qualified("j"@, "oid"@),
        _ => seq![],
    }
}

pub open spec fn document_joins_text(c: Sage1000Context) -> Seq<char> {
    join_seq(kept_warnings(seq![piece_join_text(c), journal_join_text(c)]), "\n            "@)
}

pub open spec fn journal_expr_text(c: Sage1000Context) -> Seq<char> {
    match (c.pieces, c.journals) {
        (Some(_), Some(_)) => "COALESCE(CAST("@ + qualified("j"@, "code"@)
            + " AS NVARCHAR(64)), CAST("@ + qualified("j"@, "Caption"@) + " AS NVARCHAR(64)), CAST("@
            + qualified("p"@, "numero"@) + " AS NVARCHAR(64)), CAST('' AS NVARCHAR(64)))"@,
        (Some(_), None) => text_or_empty_text(qualified("p"@, "numero"@), 64),
        _ => "CAST('' AS NVARCHAR(64))"@,
    }
}

pub open spec fn ref_piece_expr_text(c: Sage1000Context) -> Seq<char> {
    if c.pieces is Some {
        text_or_empty_text(qualified("p"@, "numero"@), 128)
    } else {
        "CAST('' AS NVARCHAR(128))"@
    }
}

/// `sage1000_piece_join`.
pub fn sage1000_piece_join(context: &Sage1000Context) -> (r: String)
    ensures
        r@ == piece_join_text(*context),
{
    match &context.pieces {
        Some(table) => {
            let mut r = String::from_str("LEFT JOIN ");
            r.append(table.sql_name().as_str());
            r.append(" p ON ");
            r.append(qualify("e", "oidpiece").as_str());
            r.append(" = ");
            r.append(qualify("p", "oid").as_str());
            r
        },
        None => String::new(),
    }
}

/// `sage1000_document_sql`: the piece and journal joins (blank ones left
/// out), the journal expression (journal code, caption, then piece number)
/// and the piece reference expression.
pub fn sage1000_document_sql(context: &Sage1000Context) -> (r: Sage1000DocumentSql)
    ensures
        r.join_sql@ == document_joins_text(*context),
        r.journal_expr@ == journal_expr_text(*context),
        r.ref_piece_expr@ == ref_piece_expr_text(*context),
{
    let piece_join = sage1000_piece_join(context);
    let journal_join = match (&context.pieces, &context.journals) {
        (Some(_), Some(table)) => {
            let mut r = String::from_str("LEFT JOIN ");
            r.append(table.sql_name().as_str());
            r.append(" j ON ");
            r.append(qualify("p", "oidjournal").as_str());
            r.append(" = ");
            r.append(qualify("j", "oid").as_str());
            r
        },
        _ => String::new(),
    };
    let mut parts: Vec<String> = Vec::new();
    parts.push(piece_join);
    parts.push(journal_join);
    assert(strings_view(parts@) =~= seq![piece_join_text(*context), journal_join_text(*context)]);
    let mut kept: Vec<String> = Vec::new();
    let mut i: usize = 0;
    while i < parts.len()
        invariant
            i <= parts.len(),
            strings_view(kept@) == kept_warnings(strings_view(parts@).take(i as int)),
        decreases parts.len() - i,
    {
        let ghost prefix = strings_view(parts@).take(i + 1);
        assert(prefix.drop_last() =~= strings_view(parts@).take(i as int));
        assert(prefix.last() == parts@[i as int]@);
        if !is_blank_str(parts[i].as_str()) {
            let ghost prev = kept@;
            kept.push(String::from_str(parts[i].as_str()));
            assert(strings_view(kept@) =~= strings_view(prev).push(parts@[i as int]@));
        }
        i = i + 1;
    }
    assert(strings_view(parts@).take(2) =~= strings_view(parts@));
    let join_sql = join_strings(&kept, "\n            ");
    let journal_expr = match (&context.pieces, &context.journals) {
        (Some(_), Some(_)) => {
            let mut r = String::from_str("COALESCE(CAST(");
            r.append(qualify("j", "code").as_str());
            r.append(" AS NVARCHAR(64)), CAST(");
            r.append(qualify("j", "Caption").as_str());
            r.append(" AS NVARCHAR(64)), CAST(");
            r.append(qualify("p", "numero").as_str());
            r.append(" AS NVARCHAR(64)), CAST('' AS NVARCHAR(64)))");
            r
        },
        (Some(_), None) => text_or_empty(qualify("p", "numero").as_str(), 64),
        _ => String::from_str("CAST('' AS NVARCHAR(64))"),
    };
    let ref_piece_expr = if context.pieces.is_some() {
        text_or_empty(qualify("p", "numero").as_str(), 128)
    } else {
        String::from_str("CAST('' AS NVARCHAR(128))")
    };
    Sage1000DocumentSql { join_sql, journal_expr, ref_piece_expr }
}


// ---------------------------------------------------------------------------
// Column maps
// ---------------------------------------------------------------------------

/// The value of the latest pair whose key is `key`.
pub open spec fn latest_value<V>(pairs: Seq<(Seq<char>, V)>, key: Seq<char>) -> Option<V>
    decreases pairs.len(),
{
    if pairs.len() == 0 {
        None
    } else if pairs.last().0 == key {
        Some(pairs.last().1)
    } else {
        latest_value(pairs.drop_last(), key)
    }
}

/// The columns of a table by lower-cased name: each key maps to the column
/// name last inserted under it.
pub struct ColumnMap {
    pub entries: Vec<(String, String)>,
}

pub open spec fn pair_views(v: Seq<(String, String)>) -> Seq<(Seq<char>, Seq<char>)> {
    v.map_values(|p: (String, String)| (p.0@, p.1@))
}

pub open spec fn str_views(v: Seq<&str>) -> Seq<Seq<char>> {
    v.map_values(|s: &str| s@)
}

impl ColumnMap {
    pub open spec fn pairs(&self) -> Seq<(Seq<char>, Seq<char>)> {
        pair_views(self.entries@)
    }

    pub open spec fn lookup(&self, key: Seq<char>) -> Option<Seq<char>> {
        latest_value(self.pairs(), key)
    }

    pub fn new() -> (r: Self)
        ensures
            r.pairs().len() == 0,
    {
        ColumnMap { entries: Vec::new() }
    }

    /// `HashMap::insert`: `key` now maps to `value`.
    pub fn insert(&mut self, key: String, value: String)
        ensures
            final(self).pairs() == old(self).pairs().push((key@, value@)),
    {
        let ghost prev = self.entries@;
        let ghost kv = (key@, value@);
        self.entries.push((key, value));
        assert(pair_views(self.entries@) =~= pair_views(prev).push(kv));
    }

    /// `HashMap::get(..).cloned()`.
    pub fn get(&self, key: &str) -> (r: Option<String>)
        ensures
            match r {
                Some(v) => self.lookup(key@) == Some(v@),
                None => self.lookup(key@) is None,
            },
    {
        let mut i = self.entries.len();
        assert(self.pairs().take(i as int) =~= self.pairs());
        while i > 0
            invariant
                i <= self.entries.len(),
                latest_value(self.pairs(), key@) == latest_value(self.pairs().take(i as int), key@),
            decreases i,
        {
            let ghost t = self.pairs().take(i as int);
            assert(t.drop_last() =~= self.pairs().take(i - 1));
            assert(t.last() == (self.entries@[i - 1].0@, self.entries@[i - 1].1@));
            if str_eq(self.entries[i - 1].0.as_str(), key) {
                return Some(String::from_str(self.entries[i - 1].1.as_str()));
            }
            i = i - 1;
        }
        None
    }

    /// The columns of a table, each under its lower-cased name.
    pub fn from_column_names(names: &Vec<String>) -> (r: Self)
        ensures
            r.pairs() == strings_view(names@).map_values(|n: Seq<char>| (ascii_lower(n), n)),
    {
        let mut r = ColumnMap::new();
        let mut i: usize = 0;
        while i < names.len()
            invariant
                i <= names.len(),
                r.pairs() == strings_view(names@).take(i as int).map_values(
                    |n: Seq<char>| (ascii_lower(n), n),
                ),
            decreases names.len() - i,
        {
            let key = to_ascii_lowercase(names[i].as_str());
            r.insert(key, String::from_str(names[i].as_str()));
            assert(strings_view(names@).take(i + 1).map_values(|n: Seq<char>| (ascii_lower(n), n))
                =~= strings_view(names@).take(i as int).map_values(
                |n: Seq<char>| (ascii_lower(n), n),
            ).push((ascii_lower(names@[i as int]@), names@[i as int]@)));
            i = i + 1;
        }
        assert(strings_view(names@).take(names.len() as int) =~= strings_view(names@));
        r
    }
}

/// The column of the first candidate (matched without ASCII case) that the
/// table has.
pub open spec fn picked(m: ColumnMap, cands: Seq<Seq<char>>) -> Option<Seq<char>>
    decreases cands.len(),
{
    if cands.len() == 0 {
        None
    } else {
        match m.lookup(ascii_lower(cands[0])) {
            Some(v) => Some(v),
            None => picked(m, cands.drop_first()),
        }
    }
}

/// `pick_column`.
pub fn pick_column(columns: &ColumnMap, candidates: &[&str]) -> (r: Option<String>)
    ensures
        match r {
            Some(v) => picked(*columns, str_views(candidates@)) == Some(v@),
            None => picked(*columns, str_views(candidates@)) is None,
        },
{
    let mut i: usize = 0;
    assert(str_views(candidates@).skip(0) =~= str_views(candidates@));
    while i < candidates.len()
        invariant
            i <= candidates.len(),
            picked(*columns, str_views(candidates@)) == picked(*columns, str_views(candidates@).skip(i as int)),
        decreases candidates.len() - i,
    {
        let ghost rest = str_views(candidates@).skip(i as int);
        assert(rest.drop_first() =~= str_views(candidates@).skip(i + 1));
        assert(rest[0] == candidates@[i as int]@);
        let key = to_ascii_lowercase(candidates[i]);
        match columns.get(key.as_str()) {
            Some(v) => {
                return Some(v);
            },
            None => {},
        }
        i = i + 1;
    }
    None
}

/// `CASE WHEN COALESCE(TRY_CAST(side AS INT), 0) = k THEN amount ELSE 0 END`.
pub open spec fn side_case_text(side: Seq<char>, k: Seq<char>, amount: Seq<char>) -> Seq<char> {
    "CASE WHEN COALESCE(TRY_CAST("@ + side + " AS INT), 0) = "@ + k + " THEN "@ + amount
        + " ELSE CAST(0 AS DECIMAL(38, 6)) END"@
}

pub open spec fn decimal_or_zero_text(expr: Seq<char>) -> Seq<char> {
    "COALESCE(TRY_CAST("@ + expr + " AS DECIMAL(38, 6)), CAST(0 AS DECIMAL(38, 6)))"@
}

pub open spec fn amount_candidates() -> Seq<Seq<char>> {
    seq!["EC_Montant"@, "MONTANT"@, "AMOUNT"@]
}

pub open spec fn side_candidates() -> Seq<Seq<char>> {
    seq!["EC_Sens"@, "SENS"@, "ENTRY_SIDE"@]
}

pub open spec fn debit_candidates() -> Seq<Seq<char>> {
    seq!["DEBIT"@, "MVT_DEBIT"@, "MOUVEMENT_DEBIT"@]
}

pub open spec fn credit_candidates() -> Seq<Seq<char>> {
    seq!["CREDIT"@, "MVT_CREDIT"@, "MOUVEMENT_CREDIT"@]
}

/// The debit and credit expressions of an entries table: from an amount
/// and a side column (0 debit, 1 credit) when both exist, else from a debit
/// and a credit column.
pub open spec fn amount_exprs_text(alias: Seq<char>, m: ColumnMap) -> Option<(Seq<char>, Seq<char>)> {
    match (picked(m, amount_candidates()), picked(m, side_candidates())) {
        (Some(a), Some(s)) => {
            let amount = decimal_or_zero_text(qualified(alias, a));
            let side = qualified(alias, s);
            Some((side_case_text(side, "0"@, amount), side_case_text(side, "1"@, amount)))
        },
        _ => match (picked(m, debit_candidates()), picked(m, credit_candidates())) {
            (Some(d), Some(c)) => Some(
                (decimal_or_zero_text(qualified(alias, d)), decimal_or_zero_text(qualified(alias, c))),
            ),
            _ => None,
        },
    }
}

fn side_case(side: &str, k: &str, amount: &str) -> (r: String)
    ensures
        r@ == side_case_text(side@, k@, amount@),
{
    let mut r = String::from_str("CASE WHEN COALESCE(TRY_CAST(");
    r.append(side);
    r.append(" AS INT), 0) = ");
    r.append(k);
    r.append(" THEN ");
    r.append(amount);
    r.append(" ELSE CAST(0 AS DECIMAL(38, 6)) END");
    r
}

/// `resolve_amount_exprs`.
pub fn resolve_amount_exprs(alias: &str, columns: &ColumnMap) -> (r: Option<(String, String)>)
    ensures
        match r {
            Some((d, c)) => amount_exprs_text(alias@, *columns) == Some((d@, c@)),
            None => amount_exprs_text(alias@, *columns) is None,
        },
{
    let amount_names: [&str; 3] = ["EC_Montant", "MONTANT", "AMOUNT"];
    let side_names: [&str; 3] = ["EC_Sens", "SENS", "ENTRY_SIDE"];
    assert(str_views(amount_names@) =~= amount_candidates());
    assert(str_views(side_names@) =~= side_candidates());
    let amount_col = pick_column(columns, &amount_names);
    let sens_col = pick_column(columns, &side_names);
    match (&amount_col, &sens_col) {
        (Some(a), Some(s)) => {
            let amount_expr = decimal_or_zero(qualify(alias, a.as_str()).as_str());
            let sens_expr = qualify(alias, s.as_str());
            return Some(
                (
                    side_case(sens_expr.as_str(), "0", amount_expr.as_str()),
                    side_case(sens_expr.as_str(), "1", amount_expr.as_str()),
                ),
            );
        },
        _ => {},
    }
    let debit_names: [&str; 3] = ["DEBIT", "MVT_DEBIT", "MOUVEMENT_DEBIT"];
    let credit_names: [&str; 3] = ["CREDIT", "MVT_CREDIT", "MOUVEMENT_CREDIT"];
    assert(str_views(debit_names@) =~= debit_candidates());
    assert(str_views(credit_names@) =~= credit_candidates());
    let debit_col = pick_column(columns, &debit_names);
    let credit_col = pick_column(columns, &credit_names);
    match (debit_col, credit_col) {
        (Some(d), Some(c)) => Some(
            (
                decimal_or_zero(qualify(alias, d.as_str()).as_str()),
                decimal_or_zero(qualify(alias, c.as_str()).as_str()),
            ),
        ),
        _ => None,
    }
}

// ---------------------------------------------------------------------------
// Entry and lookup contexts
// ---------------------------------------------------------------------------

/// Where the entries of the general ledger are and how they are read.
pub struct EntryContext {
    pub table: DetectedTable,
    pub date_col: String,
    pub journal_col: Option<String>,
    pub account_col: String,
    pub account_label_col: Option<String>,
    pub tiers_code_col: Option<String>,
    pub description_col: Option<String>,
    pub ref_piece_col: Option<String>,
    pub lettrage_col: Option<String>,
    pub debit_expr: String,
    pub credit_expr: String,
}

/// A table of codes and labels (accounts, third parties).
pub struct LookupContext {
    pub table: DetectedTable,
    pub code_col: String,
    pub label_col: String,
    pub type_col: Option<String>,
}

pub open spec fn date_candidates() -> Seq<Seq<char>> {
    seq!["EC_Date"@, "DATE_ECR"@, "TRS_DATE"@, "ENTRY_DATE"@, "JM_Date"@, "DATE"@]
}

pub open spec fn account_candidates() -> Seq<Seq<char>> {
    seq!["CG_Num"@, "CT_Num"@, "COMPTE"@, "ACCOUNT_NO"@]
}

pub open spec fn journal_candidates() -> Seq<Seq<char>> {
    seq!["JO_Num"@, "CODE_JOURNAL"@, "JRN_CODE"@, "JOURNAL_CODE"@]
}

pub open spec fn account_label_candidates() -> Seq<Seq<char>> {
    seq!["CG_Intitule"@, "CT_Intitule"@, "LIBELLE_COMPTE"@, "ACCOUNT_LABEL"@, "ACCOUNT_NAME"@]
}

pub open spec fn tiers_code_candidates() -> Seq<Seq<char>> {
    seq![
        "CT_Num"@, "TIERS_CODE"@, "CODE_TIERS"@, "CUSTOMER_NO"@, "SUPPLIER_NO"@, "AUX_ACCOUNT"@,
        "THIRD_PARTY_CODE"@,
    ]
}

pub open spec fn description_candidates() -> Seq<Seq<char>> {
    seq!["EC_Intitule"@, "EC_Libelle"@, "LIBELLE"@, "DESCRIPTION"@, "ENTRY_LABEL"@, "NARRATION"@]
}

pub open spec fn ref_piece_candidates() -> Seq<Seq<char>> {
    seq!["EC_RefPiece"@, "EC_Piece"@, "REF_PIECE"@, "PIECE_NO"@, "REFERENCE"@]
}

pub open spec fn lettrage_candidates() -> Seq<Seq<char>> {
    seq!["EC_Lettrage"@, "LETTRAGE"@, "MATCHING_CODE"@]
}

pub open spec fn opt_text_view(o: Option<String>) -> Option<Seq<char>> {
    match o {
        Some(s) => Some(s@),
        None => None,
    }
}

/// The warnings for an entries table that lacks what the ledger needs.
pub open spec fn entry_warnings(t: DetectedTable, m: ColumnMap) -> Seq<Seq<char>> {
    (if picked(m, date_candidates()) is None {
        seq![t.sql_name_text() + " is missing a supported date column"@]
    } else {
        seq![]
    }) + (if picked(m, account_candidates()) is None {
        seq![t.sql_name_text() + " is missing a supported account column"@]
    } else {
        seq![]
    }) + (if amount_exprs_text("e"@, m) is None {
        seq![t.sql_name_text() + " is missing supported debit/credit columns"@]
    } else {
        seq![]
    })
}

/// The entry context read from an entries table's columns: present exactly
/// when a date, an account and amounts were found.
pub open spec fn entry_context_of(t: DetectedTable, m: ColumnMap, r: Option<EntryContext>) -> bool {
    match (picked(m, date_candidates()), picked(m, account_candidates()), amount_exprs_text("e"@, m)) {
        (Some(date), Some(account), Some(amounts)) => r matches Some(c) && {
            &&& c.table == t
            &&& c.date_col@ == date
            &&& c.account_col@ == account
            &&& opt_text_view(c.journal_col) == picked(m, journal_candidates())
            &&& opt_text_view(c.account_label_col) == picked(m, account_label_candidates())
            &&& opt_text_view(c.tiers_code_col) == picked(m, tiers_code_candidates())
            &&& opt_text_view(c.description_col) == picked(m, description_candidates())
            &&& opt_text_view(c.ref_piece_col) == picked(m, ref_piece_candidates())
            &&& opt_text_view(c.lettrage_col) == picked(m, lettrage_candidates())
            &&& c.debit_expr@ == amounts.0
            &&& c.credit_expr@ == amounts.1
        },
        _ => r is None,
    }
}

fn missing(t: &DetectedTable, what: &str) -> (r: String)
    ensures
        r@ == t.sql_name_text() + what@,
{
    let mut r = t.sql_name();
    r.append(what);
    r
}

/// The decisions of `resolve_entry_context` once the entries table and its
/// columns are known: which column plays which part, and a warning for each
/// part that is missing.
pub fn entry_context_from_columns(table: DetectedTable, columns: &ColumnMap) -> (r: (Option<EntryContext>, Vec<String>))
    ensures
        entry_context_of(table, *columns, r.0),
        strings_view(r.1@) == entry_warnings(table, *columns),
{
    let c_date: [&str; 6] = ["EC_Date", "DATE_ECR", "TRS_DATE", "ENTRY_DATE", "JM_Date", "DATE"];
    let c_account: [&str; 4] = ["CG_Num", "CT_Num", "COMPTE", "ACCOUNT_NO"];
    let c_journal: [&str; 4] = ["JO_Num", "CODE_JOURNAL", "JRN_CODE", "JOURNAL_CODE"];
    let c_label: [&str; 5] = ["CG_Intitule", "CT_Intitule", "LIBELLE_COMPTE", "ACCOUNT_LABEL", "ACCOUNT_NAME"];
    let c_tiers: [&str; 7] = [
        "CT_Num", "TIERS_CODE", "CODE_TIERS", "CUSTOMER_NO", "SUPPLIER_NO", "AUX_ACCOUNT",
        "THIRD_PARTY_CODE",
    ];
    let c_desc: [&str; 6] = ["EC_Intitule", "EC_Libelle", "LIBELLE", "DESCRIPTION", "ENTRY_LABEL", "NARRATION"];
    let c_piece: [&str; 5] = ["EC_RefPiece", "EC_Piece", "REF_PIECE", "PIECE_NO", "REFERENCE"];
    let c_lettrage: [&str; 3] = ["EC_Lettrage", "LETTRAGE", "MATCHING_CODE"];
    assert(str_views(c_date@) =~= date_candidates());
    assert(str_views(c_account@) =~= account_candidates());
    assert(str_views(c_journal@) =~= journal_candidates());
    assert(str_views(c_label@) =~= account_label_candidates());
    assert(str_views(c_tiers@) =~= tiers_code_candidates());
    assert(str_views(c_desc@) =~= description_candidates());
    assert(str_views(c_piece@) =~= ref_piece_candidates());
    assert(str_views(c_lettrage@) =~= lettrage_candidates());
    let date_col = pick_column(columns, &c_date);
    let account_col = pick_column(columns, &c_account);
    let journal_col = pick_column(columns, &c_journal);
    let account_label_col = pick_column(columns, &c_label);
    let tiers_code_col = pick_column(columns, &c_tiers);
    let description_col = pick_column(columns, &c_desc);
    let ref_piece_col = pick_column(columns, &c_piece);
    let lettrage_col = pick_column(columns, &c_lettrage);
    let amount_exprs = resolve_amount_exprs("e", columns);
    let mut warnings: Vec<String> = Vec::new();
    let ghost w0 = strings_view(warnings@);
    if date_col.is_none() {
        warnings.push(missing(&table, " is missing a supported date column"));
    }
    let ghost w1 = strings_view(warnings@);
    assert(w1 =~= w0 + (if picked(*columns, date_candidates()) is None {
        seq![table.sql_name_text() + " is missing a supported date column"@]
    } else {
        seq![]
    }));
    if account_col.is_none() {
        warnings.push(missing(&table, " is missing a supported account column"));
    }
    let ghost w2 = strings_view(warnings@);
    assert(w2 =~= w1 + (if picked(*columns, account_candidates()) is None {
        seq![table.sql_name_text() + " is missing a supported account column"@]
    } else {
        seq![]
    }));
    if amount_exprs.is_none() {
        warnings.push(missing(&table, " is missing supported debit/credit columns"));
    }
    assert(strings_view(warnings@) =~= w2 + (if amount_exprs_text("e"@, *columns) is None {
        seq![table.sql_name_text() + " is missing supported debit/credit columns"@]
    } else {
        seq![]
    }));
    let context = match (date_col, account_col, amount_exprs) {
        (Some(date_col), Some(account_col), Some((debit_expr, credit_expr))) => Some(
            EntryContext {
                table,
                date_col,
                journal_col,
                account_col,
                account_label_col,
                tiers_code_col,
                description_col,
                ref_piece_col,
                lettrage_col,
                debit_expr,
                credit_expr,
            },
        ),
        _ => None,
    };
    (context, warnings)
}

/// The lookup context of a code/label table: present exactly when both a
/// code and a label column were found.
pub open spec fn lookup_context_of(
    t: DetectedTable,
    m: ColumnMap,
    code: Seq<Seq<char>>,
    label: Seq<Seq<char>>,
    kind: Seq<Seq<char>>,
    r: Option<LookupContext>,
) -> bool {
    match (picked(m, code), picked(m, label)) {
        (Some(c), Some(l)) => r matches Some(x) && x.table == t && x.code_col@ == c && x.label_col@ == l
            && opt_text_view(x.type_col) == picked(m, kind),
        _ => r is None,
    }
}

/// The decisions of `resolve_lookup_context` once the table and its columns
/// are known.
pub fn lookup_context_from_columns(
    table: DetectedTable,
    columns: &ColumnMap,
    code_candidates: &[&str],
    label_candidates: &[&str],
    type_candidates: &[&str],
) -> (r: Option<LookupContext>)
    ensures
        lookup_context_of(
            table,
            *columns,
            str_views(code_candidates@),
            str_views(label_candidates@),
            str_views(type_candidates@),
            r,
        ),
{
    let code_col = match pick_column(columns, code_candidates) {
        Some(c) => c,
        None => {
            return None;
        },
    };
    let label_col = match pick_column(columns, label_candidates) {
        Some(c) => c,
        None => {
            return None;
        },
    };
    Some(LookupContext { table, code_col, label_col, type_col: pick_column(columns, type_candidates) })
}

} // verus!
