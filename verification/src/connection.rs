//! Saved SQL Server connection profiles and what is derived from them:
//! the server address, the login settings, query contexts and the text
//! decoding used on ODBC results.
use vstd::prelude::*;
use crate::schema::SageSchema;
use crate::sql::{join_seq, join_strings, strings_view};
use vstd::string::StringSliceAdditionalSpecFns;
use crate::text::{
    append_dec, contains_char, dec, eq_ignore_ascii_case, eq_ignore_case, is_blank, is_blank_str,
    is_whitespace, is_ws, lemma_encode_utf8_append, push_char, str_eq, trim, trim_str,
};

verus! {

/// A saved connection profile.
pub struct ConnectionConfig {
    pub id: String,
    pub name: String,
    pub host: String,
    pub instance_name: String,
    pub port: u16,
    pub database: String,
    pub username: String,
    pub password: String,
    pub use_windows_auth: bool,
    pub encrypt: bool,
    pub trust_cert: bool,
    pub sage_edition: String,
    pub custom_schema: Option<SageSchema>,
}

// ---------------------------------------------------------------------------
// Profile summary
// ---------------------------------------------------------------------------

/// `bool`'s `Display`.
pub open spec fn bool_text(b: bool) -> Seq<char> {
    if b {
        "true"@
    } else {
        "false"@
    }
}

/// `host` or `host\instance`, both trimmed.
pub open spec fn server_text(host: Seq<char>, instance: Seq<char>) -> Seq<char> {
    if trim(instance).len() == 0 {
        trim(host)
    } else {
        trim(host) + seq!['\\'] + trim(instance)
    }
}

/// The one-line description of a profile written to the diagnostics log.
pub open spec fn profile_summary(c: ConnectionConfig) -> Seq<char> {
    "server="@ + server_text(c.host@, c.instance_name@) + " database="@ + trim(c.database@)
        + " auth="@ + (if c.use_windows_auth {
        "windows"@
    } else {
        "sql"@
    }) + " encrypt="@ + bool_text(c.encrypt) + " trust_cert="@ + bool_text(c.trust_cert)
}

fn bool_str(b: bool) -> (r: &'static str)
    ensures
        r@ == bool_text(b),
{
    if b {
        "true"
    } else {
        "false"
    }
}

/// `connection_profile_summary`: server, database, authentication kind and
/// TLS flags of a profile; never the credentials.
pub fn connection_profile_summary(connection: &ConnectionConfig) -> (r: String)
    ensures
        r@ == profile_summary(*connection),
{
    let host = trim_str(connection.host.as_str());
    let instance = trim_str(connection.instance_name.as_str());
    let mut r = String::from_str("server=");
    r.append(host.as_str());
    if instance.as_str().is_empty() == false {
        push_char(&mut r, '\\');
        r.append(instance.as_str());
    }
    r.append(" database=");
    let database = trim_str(connection.database.as_str());
    r.append(database.as_str());
    r.append(" auth=");
    if connection.use_windows_auth {
        r.append("windows");
    } else {
        r.append("sql");
    }
    r.append(" encrypt=");
    r.append(bool_str(connection.encrypt));
    r.append(" trust_cert=");
    r.append(bool_str(connection.trust_cert));
    r
}

// ---------------------------------------------------------------------------
// Server addresses
// ---------------------------------------------------------------------------

/// The ODBC `Server=` value of a profile.
pub open spec fn odbc_server_text(c: ConnectionConfig) -> Seq<char> {
    let h = trim(c.host@);
    let i = trim(c.instance_name@);
    if i.len() > 0 {
        h + seq!['\\'] + i
    } else if eq_ignore_case(h, "SQLEXPRESS"@) {
        ".\\SQLEXPRESS"@
    } else if h.contains('\\') {
        h
    } else {
        (if h.len() == 0 || h == "."@ || eq_ignore_case(h, "(local)"@) {
            "localhost"@
        } else {
            h
        }) + seq![','] + dec(c.port as nat)
    }
}

/// `odbc_server`: `host\instance`, `.\SQLEXPRESS`, the host as written when it
/// names an instance, or `host,port` with the local aliases read as localhost.
pub fn odbc_server(conn: &ConnectionConfig) -> (r: String)
    ensures
        r@ == odbc_server_text(*conn),
{
    let host = trim_str(conn.host.as_str());
    let instance = trim_str(conn.instance_name.as_str());
    if instance.as_str().is_empty() == false {
        let mut r = host;
        push_char(&mut r, '\\');
        r.append(instance.as_str());
        return r;
    }
    if eq_ignore_ascii_case(host.as_str(), "SQLEXPRESS") {
        return String::from_str(".\\SQLEXPRESS");
    }
    if contains_char(host.as_str(), '\\') {
        return host;
    }
    let mut r = if host.as_str().is_empty() || str_eq(host.as_str(), ".") || eq_ignore_ascii_case(
        host.as_str(),
        "(local)",
    ) {
        String::from_str("localhost")
    } else {
        host
    };
    push_char(&mut r, ',');
    append_dec(&mut r, conn.port as u64);
    r
}

/// The characters of `s` before the first `c` (all of `s` when there is none).
pub open spec fn before_char(s: Seq<char>, c: char) -> Seq<char>
    decreases s.len(),
{
    if s.len() == 0 {
        s
    } else if s[0] == c {
        seq![]
    } else {
        seq![s[0]] + before_char(s.drop_first(), c)
    }
}

/// The characters of `s` after the first `c` (nothing when there is none).
pub open spec fn after_char(s: Seq<char>, c: char) -> Seq<char>
    decreases s.len(),
{
    if s.len() == 0 {
        s
    } else if s[0] == c {
        s.drop_first()
    } else {
        after_char(s.drop_first(), c)
    }
}

proof fn lemma_split_at_char(s: Seq<char>, c: char, k: int)
    requires
        0 <= k < s.len(),
        s[k] == c,
        forall|j: int| 0 <= j < k ==> s[j] != c,
    ensures
        before_char(s, c) == s.take(k),
        after_char(s, c) == s.skip(k + 1),
    decreases k,
{
    if k > 0 {
        lemma_split_at_char(s.drop_first(), c, k - 1);
        assert(s.take(k) =~= seq![s[0]] + s.drop_first().take(k - 1));
        assert(s.skip(k + 1) =~= s.drop_first().skip(k));
    } else {
        assert(s.take(0) =~= Seq::<char>::empty());
        assert(s.skip(1) =~= s.drop_first());
    }
}

/// The host and instance a TDS login addresses: an explicit instance wins;
/// `host\instance` is split at the first backslash (`.` meaning localhost);
/// a bare `SQLEXPRESS` is the local express instance; `.` is localhost.
pub open spec fn tds_target(host: Seq<char>, instance: Seq<char>) -> (Seq<char>, Option<Seq<char>>) {
    let h = trim(host);
    let i = trim(instance);
    if i.len() > 0 {
        (h, Some(i))
    } else if h.contains('\\') {
        let first = before_char(h, '\\');
        (if first == "."@ {
            "localhost"@
        } else {
            first
        }, Some(after_char(h, '\\')))
    } else if eq_ignore_case(h, "SQLEXPRESS"@) {
        ("localhost"@, Some("SQLEXPRESS"@))
    } else if h == "."@ {
        ("localhost"@, None)
    } else {
        (h, None)
    }
}

/// What a TDS login is configured with.
pub struct TdsSettings {
    pub host: String,
    /// The named instance; `None` means the TCP port is used.
    pub instance_name: Option<String>,
    pub port: u16,
    /// The database to open; `None` leaves the login's default.
    pub database: Option<String>,
    pub username: String,
    pub password: String,
    pub trust_cert: bool,
    pub encrypt: bool,
}

pub open spec fn opt_view(o: Option<String>) -> Option<Seq<char>> {
    match o {
        Some(s) => Some(s@),
        None => None,
    }
}

/// The settings of `tds_settings` for a profile with SQL authentication.
pub open spec fn tds_settings_of(c: ConnectionConfig, t: TdsSettings) -> bool {
    let target = tds_target(c.host@, c.instance_name@);
    &&& t.host@ == target.0
    &&& opt_view(t.instance_name) == (match target.1 {
        Some(i) => if i.len() > 0 {
            Some(i)
        } else {
            None
        },
        None => None,
    })
    &&& t.port == c.port
    &&& opt_view(t.database) == (if is_blank(c.database@) {
        None
    } else {
        Some(c.database@)
    })
    &&& t.username@ == c.username@
    &&& t.password@ == c.password@
    &&& t.trust_cert == c.trust_cert
    &&& t.encrypt == c.encrypt
}

/// The text of the error for Windows authentication off Windows.
pub open spec fn windows_auth_unsupported() -> Seq<char> {
    "Windows authentication is only supported on Windows"@
}

fn find_char(v: &Vec<char>, c: char) -> (k: usize)
    ensures
        k <= v.len(),
        forall|j: int| 0 <= j < k ==> v@[j] != c,
        k < v.len() ==> v@[k as int] == c,
{
    let mut k: usize = 0;
    while k < v.len() && v[k] != c
        invariant
            k <= v.len(),
            forall|j: int| 0 <= j < k ==> v@[j] != c,
        decreases v.len() - k,
    {
        k = k + 1;
    }
    k
}

/// The host and instance a TDS login addresses (see `tds_target`).
pub fn resolve_tds_target(host: &str, instance: &str) -> (r: (String, Option<String>))
    ensures
        r.0@ == tds_target(host@, instance@).0,
        opt_view(r.1) == tds_target(host@, instance@).1,
{
    let h = trim_str(host);
    let i = trim_str(instance);
    if i.as_str().is_empty() == false {
        return (h, Some(i));
    }
    if contains_char(h.as_str(), '\\') {
        let v = crate::text::chars_of(h.as_str());
        let k = find_char(&v, '\\');
        proof {
            let j = choose|j: int| 0 <= j < h@.len() && h@[j] == '\\';
            assert(k < v.len()) by {
                if k == v.len() {
                    assert(v@[j] != '\\');
                }
            }
            lemma_split_at_char(h@, '\\', k as int);
        }
        let first = crate::text::string_from_chars(&v, 0, k);
        let rest = crate::text::string_from_chars(&v, k + 1, v.len());
        assert(first@ =~= h@.take(k as int));
        assert(rest@ =~= h@.skip(k + 1));
        let name = if str_eq(first.as_str(), ".") {
            String::from_str("localhost")
        } else {
            first
        };
        return (name, Some(rest));
    }
    if eq_ignore_ascii_case(h.as_str(), "SQLEXPRESS") {
        return (String::from_str("localhost"), Some(String::from_str("SQLEXPRESS")));
    }
    if str_eq(h.as_str(), ".") {
        return (String::from_str("localhost"), None);
    }
    (h, None)
}

/// The login settings of a profile, or the error returned for
/// Windows authentication on a platform without it.
pub fn tds_settings(conn: &ConnectionConfig) -> (r: Result<TdsSettings, String>)
    ensures
        conn.use_windows_auth ==> (r matches Err(e) && e@ == windows_auth_unsupported()),
        !conn.use_windows_auth ==> (r matches Ok(t) && tds_settings_of(*conn, t)),
{
    if conn.use_windows_auth {
        return Err(String::from_str("Windows authentication is only supported on Windows"));
    }
    let (host, instance) = resolve_tds_target(conn.host.as_str(), conn.instance_name.as_str());
    let instance_name = match instance {
        Some(name) => {
            if name.as_str().is_empty() == false {
                Some(name)
            } else {
                None
            }
        },
        None => None,
    };
    let database = if is_blank_str(conn.database.as_str()) {
        None
    } else {
        Some(String::from_str(conn.database.as_str()))
    };
    Ok(
        TdsSettings {
            host,
            instance_name,
            port: conn.port,
            database,
            username: String::from_str(conn.username.as_str()),
            password: String::from_str(conn.password.as_str()),
            trust_cert: conn.trust_cert,
            encrypt: conn.encrypt,
        },
    )
}

// ---------------------------------------------------------------------------
// Clients
// ---------------------------------------------------------------------------

/// The driver a client talks through.
#[derive(Clone, Copy, Debug, PartialEq, Eq, Structural)]
pub enum DbBackend {
    Tiberius,
    Odbc,
}

/// A profile together with the driver that reached it.
pub struct DbClient {
    pub config: ConnectionConfig,
    pub backend: DbBackend,
}

pub const DEFAULT_QUERY_TIMEOUT_SECS: u64 = 30;
pub const DASHBOARD_QUERY_TIMEOUT_SECS: u64 = 35;
pub const SEARCH_QUERY_TIMEOUT_SECS: u64 = 15;

/// What a logged query is about, and its time limit.
pub struct QueryExecutionContext {
    pub endpoint: String,
    pub query_name: String,
    pub connection_id: String,
    pub database: String,
    pub table: String,
    pub timeout_secs: Option<u64>,
}

impl QueryExecutionContext {
    /// A context with an endpoint and a query name; the other texts empty and
    /// no time limit of its own.
    pub fn new(endpoint: &str, query_name: &str) -> (r: Self)
        ensures
            r.endpoint@ == endpoint@,
            r.query_name@ == query_name@,
            r.connection_id@.len() == 0,
            r.database@.len() == 0,
            r.table@.len() == 0,
            r.timeout_secs.is_none(),
    {
        QueryExecutionContext {
            endpoint: String::from_str(endpoint),
            query_name: String::from_str(query_name),
            connection_id: String::new(),
            database: String::new(),
            table: String::new(),
            timeout_secs: None,
        }
    }

    pub fn with_connection_id(self, connection_id: &str) -> (r: Self)
        ensures
            r.connection_id@ == connection_id@,
            r.endpoint == self.endpoint,
            r.query_name == self.query_name,
            r.database == self.database,
            r.table == self.table,
            r.timeout_secs == self.timeout_secs,
    {
        let mut r = self;
        r.connection_id = String::from_str(connection_id);
        r
    }

    pub fn with_database(self, database: &str) -> (r: Self)
        ensures
            r.database@ == database@,
            r.endpoint == self.endpoint,
            r.query_name == self.query_name,
            r.connection_id == self.connection_id,
            r.table == self.table,
            r.timeout_secs == self.timeout_secs,
    {
        let mut r = self;
        r.database = String::from_str(database);
        r
    }

    pub fn with_table(self, table: &str) -> (r: Self)
        ensures
            r.table@ == table@,
            r.endpoint == self.endpoint,
            r.query_name == self.query_name,
            r.connection_id == self.connection_id,
            r.database == self.database,
            r.timeout_secs == self.timeout_secs,
    {
        let mut r = self;
        r.table = String::from_str(table);
        r
    }

    /// A time limit of its own, at least one second.
    pub fn with_timeout_secs(self, timeout_secs: u64) -> (r: Self)
        ensures
            r.timeout_secs == Some(if timeout_secs < 1 {
                1u64
            } else {
                timeout_secs
            }),
            r.endpoint == self.endpoint,
            r.query_name == self.query_name,
            r.connection_id == self.connection_id,
            r.database == self.database,
            r.table == self.table,
    {
        let mut r = self;
        r.timeout_secs = Some(if timeout_secs < 1 {
            1
        } else {
            timeout_secs
        });
        r
    }

    /// The time limit in seconds: the context's own, else the default; at
    /// least one second.
    pub fn resolved_timeout(&self) -> (secs: u64)
        ensures
            secs == (match self.timeout_secs {
                Some(t) => if t < 1 {
                    1u64
                } else {
                    t
                },
                None => DEFAULT_QUERY_TIMEOUT_SECS,
            }),
            secs >= 1,
    {
        match self.timeout_secs {
            Some(t) => if t < 1 {
                1
            } else {
                t
            },
            None => DEFAULT_QUERY_TIMEOUT_SECS,
        }
    }
}

/// The dashboard time limit: the configured one when the configuration can
/// be read, else the dashboard default; at least one second.
pub fn dashboard_timeout_secs(configured: Option<u64>) -> (secs: u64)
    ensures
        secs == (match configured {
            Some(t) => if t < 1 {
                1u64
            } else {
                t
            },
            None => DASHBOARD_QUERY_TIMEOUT_SECS,
        }),
{
    match configured {
        Some(t) => if t < 1 {
            1
        } else {
            t
        },
        None => DASHBOARD_QUERY_TIMEOUT_SECS,
    }
}

// ---------------------------------------------------------------------------
// Query text in the log
// ---------------------------------------------------------------------------

/// The words of a text: its maximal runs of non-whitespace characters.
pub open spec fn ws_words(s: Seq<char>) -> Seq<Seq<char>>
    decreases s.len(),
{
    if s.len() == 0 {
        seq![]
    } else {
        let w = ws_words(s.drop_last());
        let c = s.last();
        if is_ws(c) {
            w
        } else if s.len() >= 2 && !is_ws(s[s.len() - 2]) && w.len() > 0 {
            w.update(w.len() - 1, w.last().push(c))
        } else {
            w.push(seq![c])
        }
    }
}

/// The words of a text separated by single spaces.
pub open spec fn collapsed_text(s: Seq<char>) -> Seq<char> {
    join_seq(ws_words(s), " "@)
}

proof fn lemma_ws_words_nonempty(s: Seq<char>)
    requires
        s.len() > 0,
        !is_ws(s.last()),
    ensures
        ws_words(s).len() > 0,
{
}

fn collapse_whitespace(sql: &str) -> (r: String)
    ensures
        r@ == collapsed_text(sql@),
{
    let mut words: Vec<String> = Vec::new();
    let mut current = String::new();
    let mut in_word = false;
    for c in it: sql.chars()
        invariant
            it.seq() == sql@,
            in_word == (it.index() > 0 && !is_ws(sql@[it.index() - 1])),
            in_word ==> strings_view(words@).push(current@) == ws_words(sql@.take(it.index() as int)),
            !in_word ==> strings_view(words@) == ws_words(sql@.take(it.index() as int)),
            !in_word ==> current@.len() == 0,
    {
        let ghost i = it.index();
        let ghost p = sql@.take(i + 1);
        proof {
            assert(p.drop_last() =~= sql@.take(i as int));
            assert(p.last() == c);
            if i > 0 {
                assert(p[p.len() - 2] == sql@[i - 1]);
            }
        }
        if is_whitespace(c) {
            if in_word {
                let w = current;
                let ghost prev = words@;
                words.push(w);
                assert(strings_view(words@) =~= strings_view(prev).push(w@));
                current = String::new();
            }
            in_word = false;
        } else {
            if in_word {
                let ghost before = strings_view(words@).push(current@);
                push_char(&mut current, c);
                assert(strings_view(words@).push(current@) =~= before.update(
                    before.len() - 1,
                    before.last().push(c),
                ));
            } else {
                push_char(&mut current, c);
                assert(current@ =~= seq![c]);
                assert(strings_view(words@).push(current@) =~= ws_words(sql@.take(i as int)).push(seq![c]));
            }
            in_word = true;
        }
        proof {
            assert(sql@[i as int] == c);
        }
    }
    assert(sql@.take(sql@.len() as int) =~= sql@);
    if in_word {
        let w = current;
        let ghost prev = words@;
        words.push(w);
        assert(strings_view(words@) =~= strings_view(prev).push(w@));
    }
    join_strings(&words, " ")
}

/// The log's form of a query: its words separated by single spaces, cut to
/// `limit` bytes and marked with an ellipsis when longer.
pub open spec fn shortened_bytes(sql: Seq<char>, limit: nat) -> Seq<u8> {
    let b = vstd::utf8::encode_utf8(collapsed_text(sql));
    if b.len() <= limit {
        b
    } else {
        b.subrange(0, limit as int) + vstd::utf8::encode_utf8("…"@)
    }
}

/// `shorten_sql`. Cutting inside a character would panic, so the cut must
/// fall on a character boundary when the text is longer than the limit.
pub fn shorten_sql(sql: &str, limit: usize) -> (r: String)
    requires
        vstd::utf8::encode_utf8(collapsed_text(sql@)).len() <= usize::MAX,
        vstd::utf8::encode_utf8(collapsed_text(sql@)).len() <= limit || vstd::utf8::is_char_boundary(
            vstd::utf8::encode_utf8(collapsed_text(sql@)),
            limit as int,
        ),
    ensures
        vstd::utf8::encode_utf8(r@) == shortened_bytes(sql@, limit as nat),
{
    let collapsed = collapse_whitespace(sql);
    let text = collapsed.as_str();
    assert(text.spec_bytes() == vstd::utf8::encode_utf8(collapsed_text(sql@)));
    if text.len() <= limit {
        return collapsed;
    }
    let (head, _) = text.split_at(limit);
    let mut r = String::from_str(head);
    r.append("…");
    proof {
        lemma_encode_utf8_append(head@, "…"@);
        assert(head.spec_bytes() == vstd::utf8::encode_utf8(head@));
    }
    r
}

// ---------------------------------------------------------------------------
// Text read through ODBC
// ---------------------------------------------------------------------------

/// The characters Windows-1252 gives the bytes 0x80 to 0x9F.
pub open spec fn cp1252_high() -> Seq<char> {
    seq![
        '\u{20AC}', '\u{0081}', '\u{201A}', '\u{0192}', '\u{201E}', '\u{2026}', '\u{2020}',
        '\u{2021}', '\u{02C6}', '\u{2030}', '\u{0160}', '\u{2039}', '\u{0152}', '\u{008D}',
        '\u{017D}', '\u{008F}', '\u{0090}', '\u{2018}', '\u{2019}', '\u{201C}', '\u{201D}',
        '\u{2022}', '\u{2013}', '\u{2014}', '\u{02DC}', '\u{2122}', '\u{0161}', '\u{203A}',
        '\u{0153}', '\u{009D}', '\u{017E}', '\u{0178}',
    ]
}

/// The character of a Windows-1252 byte (Latin-1 outside 0x80 to 0x9F).
pub open spec fn cp1252_char(b: u8) -> char {
    if 0x80 <= b && b <= 0x9F {
        cp1252_high()[b - 0x80]
    } else {
        b as char
    }
}

/// `decode_windows_1252`.
pub fn decode_windows_1252(bytes: &[u8]) -> (r: String)
    ensures
        r@ == bytes@.map_values(|b: u8| cp1252_char(b)),
{
    let high: [char; 32] = [
        '\u{20AC}', '\u{0081}', '\u{201A}', '\u{0192}', '\u{201E}', '\u{2026}', '\u{2020}',
        '\u{2021}', '\u{02C6}', '\u{2030}', '\u{0160}', '\u{2039}', '\u{0152}', '\u{008D}',
        '\u{017D}', '\u{008F}', '\u{0090}', '\u{2018}', '\u{2019}', '\u{201C}', '\u{201D}',
        '\u{2022}', '\u{2013}', '\u{2014}', '\u{02DC}', '\u{2122}', '\u{0161}', '\u{203A}',
        '\u{0153}', '\u{009D}', '\u{017E}', '\u{0178}',
    ];
    assert(high@ =~= cp1252_high());
    let mut r = String::new();
    let mut i: usize = 0;
    while i < bytes.len()
        invariant
            i <= bytes.len(),
            high@ == cp1252_high(),
            r@ == bytes@.take(i as int).map_values(|b: u8| cp1252_char(b)),
        decreases bytes.len() - i,
    {
        let b = bytes[i];
        let c = if 0x80 <= b && b <= 0x9F {
            high[(b - 0x80) as usize]
        } else {
            b as char
        };
        push_char(&mut r, c);
        assert(bytes@.take(i + 1).map_values(|b: u8| cp1252_char(b)) =~= bytes@.take(i as int).map_values(
            |b: u8| cp1252_char(b),
        ).push(cp1252_char(b)));
        i = i + 1;
    }
    assert(bytes@.take(bytes.len() as int) =~= bytes@);
    r
}

/// `std::str::from_utf8`, as an owned string: present exactly when the
/// bytes are valid UTF-8, and then their decoding.
#[verifier::external_body]
pub(crate) fn utf8_text(bytes: &[u8]) -> (r: Option<String>)
    ensures
        r is Some <==> vstd::utf8::valid_utf8(bytes@),
        r matches Some(s) ==> s@ == vstd::utf8::decode_utf8(bytes@),
{
    match std::str::from_utf8(bytes) {
        Ok(text) => Some(text.to_string()),
        Err(_) => None,
    }
}

/// `decode_odbc_text`: UTF-8 when the bytes are valid UTF-8, else
/// Windows-1252.
pub fn decode_odbc_text(bytes: &[u8]) -> (r: String)
    ensures
        vstd::utf8::valid_utf8(bytes@) ==> r@ == vstd::utf8::decode_utf8(bytes@),
        !vstd::utf8::valid_utf8(bytes@) ==> r@ == bytes@.map_values(|b: u8| cp1252_char(b)),
{
    match utf8_text(bytes) {
        Some(text) => text,
        None => decode_windows_1252(bytes),
    }
}

} // verus!
