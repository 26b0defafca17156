//! The application's saved configuration and the commands that read and
//! change it: the application passwords, the settings, the recent values
//! of input fields, the connection profiles, the saved queries and the
//! query history.
use vstd::prelude::*;
use crate::bridge::{text_less, text_less_exec};
use crate::connection::ConnectionConfig;
use crate::schema::{same_schema, SageEdition, SageSchema};
use crate::settings::{
    at_most, check_password, forget_field_value, mask_password, masked_password, password_to_store,
    argon2_verifies, check_view, hash_secret, phc_parse_error, push_recent, secret_check, recent_field_values, remember_field_value, remembered, with_recent, without,
    AppSettings, MAX_FIELD_HISTORY, MAX_QUERY_HISTORY,
};
use crate::sql::strings_view;
use crate::jobs::{lemma_text_less_irreflexive, lemma_text_less_transitive};
use crate::text::{str_eq, trim};

verus! {

// ---------------------------------------------------------------------------
// What is saved
// ---------------------------------------------------------------------------

/// A query saved to the query library.
#[derive(Debug)]
pub struct SavedQuery {
    pub id: String,
    pub connection_id: String,
    pub name: String,
    pub sql: String,
    pub updated_at: String,
}

/// A query run, as the history records it.
#[derive(Debug)]
pub struct QueryHistoryEntry {
    pub id: String,
    pub connection_id: String,
    pub connection_name: String,
    pub sql: String,
    pub ran_at: String,
    pub ok: bool,
    pub row_count: Option<i64>,
    pub error: Option<String>,
}

/// The saved configuration of the application.
pub struct AppConfig {
    pub connections: Vec<ConnectionConfig>,
    pub saved_queries: Vec<SavedQuery>,
    pub query_history: Vec<QueryHistoryEntry>,
    /// The recent values of each input field, by field.
    pub input_history: Vec<(String, Vec<String>)>,
    pub password_hash: Option<String>,
    pub admin_password_hash: Option<String>,
    pub query_timeout_secs: u64,
    pub dashboard_timeout_secs: u64,
    pub login_timeout_secs: u64,
    pub account_ar: String,
    pub account_sales: String,
    pub account_vat: String,
}

// ---------------------------------------------------------------------------
// Views
// ---------------------------------------------------------------------------

pub struct SchemaView {
    pub edition: SageEdition,
    pub confidence: int,
    pub texts: Seq<Seq<char>>,
}

pub open spec fn schema_view(s: SageSchema) -> SchemaView {
    SchemaView { edition: s.edition, confidence: s.confidence as int, texts: crate::schema::schema_texts(s) }
}

/// What the specifications see of a connection profile.
pub struct ConnView {
    pub id: Seq<char>,
    pub name: Seq<char>,
    pub host: Seq<char>,
    pub instance_name: Seq<char>,
    pub port: int,
    pub database: Seq<char>,
    pub username: Seq<char>,
    pub password: Seq<char>,
    pub use_windows_auth: bool,
    pub encrypt: bool,
    pub trust_cert: bool,
    pub sage_edition: Seq<char>,
    pub custom_schema: Option<SchemaView>,
}

pub open spec fn conn_view(c: ConnectionConfig) -> ConnView {
    ConnView {
        id: c.id@,
        name: c.name@,
        host: c.host@,
        instance_name: c.instance_name@,
        port: c.port as int,
        database: c.database@,
        username: c.username@,
        password: c.password@,
        use_windows_auth: c.use_windows_auth,
        encrypt: c.encrypt,
        trust_cert: c.trust_cert,
        sage_edition: c.sage_edition@,
        custom_schema: match c.custom_schema {
            Some(s) => Some(schema_view(s)),
            None => None,
        },
    }
}

pub open spec fn conn_views(s: Seq<ConnectionConfig>) -> Seq<ConnView> {
    s.map_values(|c: ConnectionConfig| conn_view(c))
}

pub struct QueryView {
    pub id: Seq<char>,
    pub connection_id: Seq<char>,
    pub name: Seq<char>,
    pub sql: Seq<char>,
    pub updated_at: Seq<char>,
}

pub open spec fn query_view(q: SavedQuery) -> QueryView {
    QueryView { id: q.id@, connection_id: q.connection_id@, name: q.name@, sql: q.sql@, updated_at: q.updated_at@ }
}

pub open spec fn query_views(s: Seq<SavedQuery>) -> Seq<QueryView> {
    s.map_values(|q: SavedQuery| query_view(q))
}

pub struct RunView {
    pub id: Seq<char>,
    pub connection_id: Seq<char>,
    pub connection_name: Seq<char>,
    pub sql: Seq<char>,
    pub ran_at: Seq<char>,
    pub ok: bool,
    pub row_count: Option<i64>,
    pub error: Option<Seq<char>>,
}

pub open spec fn run_view(e: QueryHistoryEntry) -> RunView {
    RunView {
        id: e.id@,
        connection_id: e.connection_id@,
        connection_name: e.connection_name@,
        sql: e.sql@,
        ran_at: e.ran_at@,
        ok: e.ok,
        row_count: e.row_count,
        error: match e.error {
            Some(s) => Some(s@),
            None => None,
        },
    }
}

pub open spec fn run_views(s: Seq<QueryHistoryEntry>) -> Seq<RunView> {
    s.map_values(|e: QueryHistoryEntry| run_view(e))
}

pub open spec fn history_view(h: Seq<(String, Vec<String>)>) -> Seq<(Seq<char>, Seq<Seq<char>>)> {
    h.map_values(|p: (String, Vec<String>)| (p.0@, strings_view(p.1@)))
}

// ---------------------------------------------------------------------------
// Copies
// ---------------------------------------------------------------------------

fn copy_schema(s: &SageSchema) -> (r: SageSchema)
    ensures
        schema_view(r) == schema_view(*s),
{
    let r = s.duplicate();
    assert(same_schema(r, *s));
    r
}

/// A copy of a profile, field for field.
pub fn copy_connection(c: &ConnectionConfig) -> (r: ConnectionConfig)
    ensures
        conn_view(r) == conn_view(*c),
{
    ConnectionConfig {
        id: c.id.clone(),
        name: c.name.clone(),
        host: c.host.clone(),
        instance_name: c.instance_name.clone(),
        port: c.port,
        database: c.database.clone(),
        username: c.username.clone(),
        password: c.password.clone(),
        use_windows_auth: c.use_windows_auth,
        encrypt: c.encrypt,
        trust_cert: c.trust_cert,
        sage_edition: c.sage_edition.clone(),
        custom_schema: match &c.custom_schema {
            Some(s) => Some(copy_schema(s)),
            None => None,
        },
    }
}

fn copy_query(q: &SavedQuery) -> (r: SavedQuery)
    ensures
        query_view(r) == query_view(*q),
{
    SavedQuery {
        id: q.id.clone(),
        connection_id: q.connection_id.clone(),
        name: q.name.clone(),
        sql: q.sql.clone(),
        updated_at: q.updated_at.clone(),
    }
}

fn copy_run(e: &QueryHistoryEntry) -> (r: QueryHistoryEntry)
    ensures
        run_view(r) == run_view(*e),
{
    QueryHistoryEntry {
        id: e.id.clone(),
        connection_id: e.connection_id.clone(),
        connection_name: e.connection_name.clone(),
        sql: e.sql.clone(),
        ran_at: e.ran_at.clone(),
        ok: e.ok,
        row_count: e.row_count,
        error: match &e.error {
            Some(s) => Some(s.clone()),
            None => None,
        },
    }
}

// ---------------------------------------------------------------------------
// Application passwords
// ---------------------------------------------------------------------------

/// Whether an application password is set.
pub fn has_password(config: &AppConfig) -> (b: bool)
    ensures
        b == config.password_hash is Some,
{
    config.password_hash.is_some()
}

/// The settings and lists, everything but the two password hashes, are the
/// same.
pub open spec fn same_but_passwords(a: AppConfig, b: AppConfig) -> bool {
    &&& a.connections@ == b.connections@
    &&& a.saved_queries@ == b.saved_queries@
    &&& a.query_history@ == b.query_history@
    &&& a.input_history@ == b.input_history@
    &&& a.query_timeout_secs == b.query_timeout_secs
    &&& a.dashboard_timeout_secs == b.dashboard_timeout_secs
    &&& a.login_timeout_secs == b.login_timeout_secs
    &&& a.account_ar@ == b.account_ar@
    &&& a.account_sales@ == b.account_sales@
    &&& a.account_vat@ == b.account_vat@
}

/// The password hashes, the timeouts and the default accounts are the same.
pub open spec fn same_settings(a: AppConfig, b: AppConfig) -> bool {
    &&& a.password_hash == b.password_hash
    &&& a.admin_password_hash == b.admin_password_hash
    &&& a.query_timeout_secs == b.query_timeout_secs
    &&& a.dashboard_timeout_secs == b.dashboard_timeout_secs
    &&& a.login_timeout_secs == b.login_timeout_secs
    &&& a.account_ar@ == b.account_ar@
    &&& a.account_sales@ == b.account_sales@
    &&& a.account_vat@ == b.account_vat@
}

pub open spec fn hash_view(h: Option<String>) -> Option<Seq<char>> {
    match h {
        Some(s) => Some(s@),
        None => None,
    }
}

/// Hashes a new application password and stores the hash. It succeeds for
/// every password of at most 0xFFFFFFFF bytes; nothing changes when hashing
/// fails.
pub fn set_password(config: &mut AppConfig, password: &str) -> (r: Result<(), String>)
    ensures
        same_but_passwords(*final(config), *old(config)),
        final(config).admin_password_hash == old(config).admin_password_hash,
        r is Ok ==> (final(config).password_hash matches Some(h) && phc_parse_error(h@) is None
            && argon2_verifies(password@, h@)),
        r is Err ==> final(config).password_hash == old(config).password_hash,
        vstd::utf8::encode_utf8(password@).len() <= 0xFFFFFFFF ==> r is Ok,
{
    let hash = match hash_secret(password) {
        Ok(h) => h,
        Err(e) => {
            return Err(e);
        },
    };
    config.password_hash = Some(hash);
    Ok(())
}

/// Checks a password against the stored hash; with none set, access is
/// allowed.
pub fn verify_password(config: &AppConfig, password: &str) -> (r: Result<bool, String>)
    ensures
        check_view(r) == secret_check(hash_view(config.password_hash), password@),
{
    match &config.password_hash {
        Some(h) => check_password(Some(h.as_str()), password),
        None => check_password(None, password),
    }
}

/// Removes the application password.
pub fn remove_password(config: &mut AppConfig)
    ensures
        final(config).password_hash is None,
        final(config).admin_password_hash == old(config).admin_password_hash,
        same_but_passwords(*final(config), *old(config)),
{
    config.password_hash = None;
}

/// The PIN is the application password under another name.
pub fn has_pin(config: &AppConfig) -> (b: bool)
    ensures
        b == config.password_hash is Some,
{
    has_password(config)
}

pub fn set_pin(config: &mut AppConfig, pin: &str) -> (r: Result<(), String>)
    ensures
        same_but_passwords(*final(config), *old(config)),
        final(config).admin_password_hash == old(config).admin_password_hash,
        r is Ok ==> (final(config).password_hash matches Some(h) && phc_parse_error(h@) is None
            && argon2_verifies(pin@, h@)),
        r is Err ==> final(config).password_hash == old(config).password_hash,
        vstd::utf8::encode_utf8(pin@).len() <= 0xFFFFFFFF ==> r is Ok,
{
    set_password(config, pin)
}

pub fn verify_pin(config: &AppConfig, pin: &str) -> (r: Result<bool, String>)
    ensures
        check_view(r) == secret_check(hash_view(config.password_hash), pin@),
{
    verify_password(config, pin)
}

pub fn remove_pin(config: &mut AppConfig)
    ensures
        final(config).password_hash is None,
        final(config).admin_password_hash == old(config).admin_password_hash,
        same_but_passwords(*final(config), *old(config)),
{
    remove_password(config)
}

/// Whether an administrator password is set.
pub fn has_admin_password(config: &AppConfig) -> (b: bool)
    ensures
        b == config.admin_password_hash is Some,
{
    config.admin_password_hash.is_some()
}

/// Hashes a new administrator password and stores the hash. It succeeds for
/// every password of at most 0xFFFFFFFF bytes; nothing changes when hashing
/// fails.
pub fn set_admin_password(config: &mut AppConfig, password: &str) -> (r: Result<(), String>)
    ensures
        same_but_passwords(*final(config), *old(config)),
        final(config).password_hash == old(config).password_hash,
        r is Ok ==> (final(config).admin_password_hash matches Some(h) && phc_parse_error(h@) is None
            && argon2_verifies(password@, h@)),
        r is Err ==> final(config).admin_password_hash == old(config).admin_password_hash,
        vstd::utf8::encode_utf8(password@).len() <= 0xFFFFFFFF ==> r is Ok,
{
    let hash = match hash_secret(password) {
        Ok(h) => h,
        Err(e) => {
            return Err(e);
        },
    };
    config.admin_password_hash = Some(hash);
    Ok(())
}

pub fn verify_admin_password(config: &AppConfig, password: &str) -> (r: Result<bool, String>)
    ensures
        check_view(r) == secret_check(hash_view(config.admin_password_hash), password@),
{
    match &config.admin_password_hash {
        Some(h) => check_password(Some(h.as_str()), password),
        None => check_password(None, password),
    }
}

pub fn remove_admin_password(config: &mut AppConfig)
    ensures
        final(config).admin_password_hash is None,
        final(config).password_hash == old(config).password_hash,
        same_but_passwords(*final(config), *old(config)),
{
    config.admin_password_hash = None;
}

/// A password that was just set is accepted by the check that follows.
pub proof fn lemma_set_password_then_verify(after: AppConfig, password: Seq<char>)
    requires
        after.password_hash matches Some(h) && phc_parse_error(h@) is None && argon2_verifies(password, h@),
    ensures
        secret_check(hash_view(after.password_hash), password) == Ok::<bool, Seq<char>>(true),
{
}

// ---------------------------------------------------------------------------
// Settings
// ---------------------------------------------------------------------------

/// The settings page's values.
pub fn get_settings(config: &AppConfig) -> (r: AppSettings)
    ensures
        r.query_timeout_secs == config.query_timeout_secs,
        r.dashboard_timeout_secs == config.dashboard_timeout_secs,
        r.login_timeout_secs == config.login_timeout_secs,
        r.account_ar@ == config.account_ar@,
        r.account_sales@ == config.account_sales@,
        r.account_vat@ == config.account_vat@,
{
    AppSettings {
        query_timeout_secs: config.query_timeout_secs,
        dashboard_timeout_secs: config.dashboard_timeout_secs,
        login_timeout_secs: config.login_timeout_secs,
        account_ar: config.account_ar.clone(),
        account_sales: config.account_sales.clone(),
        account_vat: config.account_vat.clone(),
    }
}

/// Stores the settings page's values.
pub fn save_settings(config: &mut AppConfig, settings: AppSettings)
    ensures
        final(config).query_timeout_secs == settings.query_timeout_secs,
        final(config).dashboard_timeout_secs == settings.dashboard_timeout_secs,
        final(config).login_timeout_secs == settings.login_timeout_secs,
        final(config).account_ar == settings.account_ar,
        final(config).account_sales == settings.account_sales,
        final(config).account_vat == settings.account_vat,
        conn_views(final(config).connections@) == conn_views(old(config).connections@),
        final(config).password_hash == old(config).password_hash,
{
    config.query_timeout_secs = settings.query_timeout_secs;
    config.dashboard_timeout_secs = settings.dashboard_timeout_secs;
    config.login_timeout_secs = settings.login_timeout_secs;
    config.account_ar = settings.account_ar;
    config.account_sales = settings.account_sales;
    config.account_vat = settings.account_vat;
}

// ---------------------------------------------------------------------------
// Recent values of input fields
// ---------------------------------------------------------------------------

pub type FieldHistory = Seq<(Seq<char>, Seq<Seq<char>>)>;

/// Where a field's values are kept (its last entry).
pub open spec fn field_index(h: FieldHistory, field: Seq<char>) -> Option<int>
    decreases h.len(),
{
    if h.len() == 0 {
        None
    } else if h.last().0 == field {
        Some(h.len() - 1)
    } else {
        field_index(h.drop_last(), field)
    }
}

/// The recent values of a field, most recent first (none for a field
/// never typed into).
pub open spec fn history_of(h: FieldHistory, field: Seq<char>) -> Seq<Seq<char>> {
    match field_index(h, field) {
        Some(k) => h[k].1,
        None => Seq::<Seq<char>>::empty(),
    }
}

/// The history with a field's values replaced.
pub open spec fn history_set(h: FieldHistory, field: Seq<char>, values: Seq<Seq<char>>) -> FieldHistory {
    match field_index(h, field) {
        Some(k) => h.update(k, (field, values)),
        None => h.push((field, values)),
    }
}

/// The history once a value is typed into a field (see `remembered`); a
/// blank value changes nothing.
pub open spec fn history_saved(h: FieldHistory, field: Seq<char>, value: Seq<char>) -> FieldHistory {
    if trim(value).len() == 0 {
        h
    } else {
        history_set(h, field, remembered(history_of(h, field), value))
    }
}

pub proof fn lemma_field_index(h: FieldHistory, field: Seq<char>)
    ensures
        match field_index(h, field) {
            Some(k) => 0 <= k < h.len() && h[k].0 == field && forall|j: int| k < j < h.len() ==> (#[trigger] h[j]).0 != field,
            None => forall|j: int| 0 <= j < h.len() ==> (#[trigger] h[j]).0 != field,
        },
    decreases h.len(),
{
    if h.len() > 0 {
        lemma_field_index(h.drop_last(), field);
        if h.last().0 != field {
            match field_index(h.drop_last(), field) {
                Some(k) => {
                    assert forall|j: int| k < j < h.len() implies (#[trigger] h[j]).0 != field by {
                        if j < h.len() - 1 {
                            assert(h.drop_last()[j] == h[j]);
                        }
                    }
                },
                None => {
                    assert forall|j: int| 0 <= j < h.len() implies (#[trigger] h[j]).0 != field by {
                        if j < h.len() - 1 {
                            assert(h.drop_last()[j] == h[j]);
                        }
                    }
                },
            }
        }
    }
}

proof fn lemma_field_index_at(h: FieldHistory, field: Seq<char>, k: int)
    requires
        0 <= k < h.len(),
        h[k].0 == field,
        forall|j: int| k < j < h.len() ==> (#[trigger] h[j]).0 != field,
    ensures
        field_index(h, field) == Some(k),
    decreases h.len(),
{
    if k < h.len() - 1 {
        assert(h[h.len() - 1].0 != field);
        assert forall|j: int| k < j < h.drop_last().len() implies (#[trigger] h.drop_last()[j]).0 != field by {
            assert(h.drop_last()[j] == h[j]);
        }
        lemma_field_index_at(h.drop_last(), field, k);
    }
}

/// Once a field's values are replaced, they are what the field holds.
pub proof fn lemma_history_set_get(h: FieldHistory, field: Seq<char>, values: Seq<Seq<char>>)
    ensures
        history_of(history_set(h, field, values), field) == values,
{
    lemma_field_index(h, field);
    let t = history_set(h, field, values);
    match field_index(h, field) {
        Some(k) => {
            assert forall|j: int| k < j < t.len() implies (#[trigger] t[j]).0 != field by {
                assert(t[j] == h[j]);
            }
            lemma_field_index_at(t, field, k);
        },
        None => {
            lemma_field_index_at(t, field, h.len() as int);
        },
    }
}

/// A value typed into a field becomes its most recent value, and the field
/// keeps at most `MAX_FIELD_HISTORY` values.
pub proof fn lemma_saved_value_first(h: FieldHistory, field: Seq<char>, value: Seq<char>)
    requires
        trim(value).len() > 0,
    ensures
        history_of(history_saved(h, field, value), field)[0] == trim(value),
        history_of(history_saved(h, field, value), field).len() <= MAX_FIELD_HISTORY,
{
    let l = remembered(history_of(h, field), value);
    lemma_history_set_get(h, field, l);
    let s = seq![trim(value)] + without(history_of(h, field), trim(value));
    assert(s[0] == trim(value));
}

impl AppConfig {
    fn field_position(&self, field: &str) -> (r: Option<usize>)
        ensures
            match r {
                Some(k) => k < self.input_history@.len() && field_index(history_view(self.input_history@), field@) == Some(k as int),
                None => field_index(history_view(self.input_history@), field@) is None,
            },
    {
        let ghost h = history_view(self.input_history@);
        let mut i: usize = self.input_history.len();
        assert(h.take(i as int) =~= h);
        while i > 0
            invariant
                i <= self.input_history.len(),
                h == history_view(self.input_history@),
                field_index(h, field@) == field_index(h.take(i as int), field@),
            decreases i,
        {
            let ghost t = h.take(i as int);
            assert(t.last() == h[i - 1]);
            assert(h[i - 1] == (self.input_history@[i - 1].0@, strings_view(self.input_history@[i - 1].1@)));
            if str_eq(self.input_history[i - 1].0.as_str(), field) {
                return Some(i - 1);
            }
            assert(t.drop_last() =~= h.take(i - 1));
            i = i - 1;
        }
        None
    }
}

/// The recent values of a field, at most `MAX_FIELD_HISTORY`.
pub fn get_field_history(config: &AppConfig, field: &str) -> (r: Vec<String>)
    ensures
        strings_view(r@) == at_most(history_of(history_view(config.input_history@), field@), MAX_FIELD_HISTORY as nat),
{
    match config.field_position(field) {
        Some(k) => {
            let ghost h = history_view(config.input_history@);
            assert(h[k as int].1 == strings_view(config.input_history@[k as int].1@));
            let mut copy: Vec<String> = Vec::new();
            let list = &config.input_history[k].1;
            let mut i: usize = 0;
            while i < list.len()
                invariant
                    i <= list.len(),
                    strings_view(copy@) == strings_view(list@).take(i as int),
                decreases list.len() - i,
            {
                let ghost before = copy@;
                copy.push(list[i].clone());
                assert(strings_view(copy@) =~= strings_view(before).push(list@[i as int]@));
                assert(strings_view(list@).take(i + 1) =~= strings_view(list@).take(i as int).push(list@[i as int]@));
                i = i + 1;
            }
            assert(strings_view(list@).take(list.len() as int) =~= strings_view(list@));
            recent_field_values(copy)
        },
        None => {
            let r: Vec<String> = Vec::new();
            assert(strings_view(r@) =~= Seq::<Seq<char>>::empty());
            r
        },
    }
}

impl AppConfig {
    /// Replaces the values of the field at position `k`, or adds the field.
    fn set_field_values(&mut self, position: Option<usize>, field: String, values: Vec<String>)
        requires
            match position {
                Some(k) => field_index(history_view(old(self).input_history@), field@) == Some(k as int),
                None => field_index(history_view(old(self).input_history@), field@) is None,
            },
        ensures
            history_view(final(self).input_history@) == history_set(history_view(old(self).input_history@), field@, strings_view(values@)),
            conn_views(final(self).connections@) == conn_views(old(self).connections@),
            query_views(final(self).saved_queries@) == query_views(old(self).saved_queries@),
            run_views(final(self).query_history@) == run_views(old(self).query_history@),
    {
        let ghost h = history_view(self.input_history@);
        let ghost fv = field@;
        let ghost vv = strings_view(values@);
        match position {
            Some(k) => {
                proof {
                    lemma_field_index(h, fv);
                }
                self.input_history.set(k, (field, values));
                assert(history_view(self.input_history@) =~= h.update(k as int, (fv, vv)));
            },
            None => {
                self.input_history.push((field, values));
                assert(history_view(self.input_history@) =~= h.push((fv, vv)));
            },
        }
    }
}

/// Remembers a value typed into a field (see `history_saved`).
pub fn save_field_history(config: &mut AppConfig, field: String, value: &str)
    ensures
        history_view(final(config).input_history@) == history_saved(history_view(old(config).input_history@), field@, value@),
        conn_views(final(config).connections@) == conn_views(old(config).connections@),
        query_views(final(config).saved_queries@) == query_views(old(config).saved_queries@),
        run_views(final(config).query_history@) == run_views(old(config).query_history@),
{
    if crate::text::is_blank_str(value) {
        proof {
            crate::text::lemma_blank_iff_trim_empty(value@);
        }
        return;
    }
    proof {
        crate::text::lemma_blank_iff_trim_empty(value@);
    }
    let ghost h = history_view(config.input_history@);
    let position = config.field_position(field.as_str());
    let current: Vec<String> = match position {
        Some(k) => {
            assert(h[k as int].1 == strings_view(config.input_history@[k as int].1@));
            let ghost before = config.input_history@;
            let (f, list) = config.input_history.remove(k);
            let empty: Vec<String> = Vec::new();
            let ghost fe = (f, empty);
            config.input_history.insert(k, (f, empty));
            assert(config.input_history@ =~= before.update(k as int, fe));
            assert(strings_view(fe.1@) =~= Seq::<Seq<char>>::empty());
            assert(history_view(config.input_history@) =~= h.update(k as int, (h[k as int].0, Seq::<Seq<char>>::empty())));
            proof {
                lemma_field_index(h, field@);
                let t = history_view(config.input_history@);
                assert forall|j: int| k < j < t.len() implies (#[trigger] t[j]).0 != field@ by {
                    assert(t[j] == h[j]);
                }
                lemma_field_index_at(t, field@, k as int);
            }
            list
        },
        None => Vec::new(),
    };
    assert(strings_view(current@) =~= history_of(h, field@));
    let ghost mid = history_view(config.input_history@);
    let values = remember_field_value(current, value);
    config.set_field_values(position, field, values);
    assert(history_view(config.input_history@) =~= history_set(h, field@, remembered(history_of(h, field@), value@))) by {
        match position {
            Some(k) => {
                assert(mid.update(k as int, (field@, remembered(history_of(h, field@), value@)))
                    =~= h.update(k as int, (field@, remembered(history_of(h, field@), value@))));
            },
            None => {},
        }
    }
}

/// Forgets a value of a field's history.
pub fn remove_field_history_entry(config: &mut AppConfig, field: &str, value: &str)
    ensures
        history_view(final(config).input_history@) == match field_index(history_view(old(config).input_history@), field@) {
            Some(k) => history_view(old(config).input_history@).update(
                k,
                (field@, without(history_view(old(config).input_history@)[k].1, value@)),
            ),
            None => history_view(old(config).input_history@),
        },
        conn_views(final(config).connections@) == conn_views(old(config).connections@),
        query_views(final(config).saved_queries@) == query_views(old(config).saved_queries@),
        run_views(final(config).query_history@) == run_views(old(config).query_history@),
{
    let ghost h = history_view(config.input_history@);
    match config.field_position(field) {
        Some(k) => {
            proof {
                lemma_field_index(h, field@);
            }
            let ghost before = config.input_history@;
            let (f, list) = config.input_history.remove(k);
            let kept = forget_field_value(list, value);
            config.input_history.insert(k, (f, kept));
            assert(history_view(config.input_history@) =~= h.update(k as int, (field@, without(h[k as int].1, value@))));
        },
        None => {},
    }
}

// ---------------------------------------------------------------------------
// Connection profiles
// ---------------------------------------------------------------------------

/// A profile as listed: its password, when set, masked.
pub open spec fn masked_conn(c: ConnView) -> ConnView {
    ConnView {
        password: if c.password.len() == 0 {
            Seq::<char>::empty()
        } else {
            masked_password()
        },
        ..c
    }
}

/// The saved profiles, passwords masked.
pub fn list_connections(config: &AppConfig) -> (r: Vec<ConnectionConfig>)
    ensures
        conn_views(r@) == conn_views(config.connections@).map_values(|c: ConnView| masked_conn(c)),
{
    let mut out: Vec<ConnectionConfig> = Vec::new();
    let mut i: usize = 0;
    while i < config.connections.len()
        invariant
            i <= config.connections.len(),
            conn_views(out@) == conn_views(config.connections@).take(i as int).map_values(|c: ConnView| masked_conn(c)),
        decreases config.connections.len() - i,
    {
        let mut c = copy_connection(&config.connections[i]);
        c.password = mask_password(config.connections[i].password.as_str());
        let ghost before = out@;
        proof {
            if config.connections@[i as int].password@.len() == 0 {
                assert(c.password@ =~= Seq::<char>::empty());
            }
        }
        out.push(c);
        assert(conn_views(out@) =~= conn_views(before).push(masked_conn(conn_view(config.connections@[i as int]))));
        assert(conn_views(config.connections@).take(i + 1) =~= conn_views(config.connections@).take(i as int).push(
            conn_view(config.connections@[i as int]),
        ));
        i = i + 1;
    }
    assert(conn_views(config.connections@).take(config.connections.len() as int) =~= conn_views(config.connections@));
    out
}

/// The first profile of an id.
pub open spec fn first_conn(s: Seq<ConnView>, id: Seq<char>) -> Option<int>
    decreases s.len(),
{
    if s.len() == 0 {
        None
    } else {
        match first_conn(s.drop_last(), id) {
            Some(k) => Some(k),
            None => if s.last().id == id {
                Some(s.len() - 1)
            } else {
                None
            },
        }
    }
}

proof fn lemma_first_conn_extends(s: Seq<ConnView>, id: Seq<char>, m: int, n: int)
    requires
        0 <= m <= n <= s.len(),
        first_conn(s.take(m), id) is Some,
    ensures
        first_conn(s.take(n), id) == first_conn(s.take(m), id),
    decreases n - m,
{
    if n > m {
        lemma_first_conn_extends(s, id, m, n - 1);
        assert(s.take(n).drop_last() =~= s.take(n - 1));
    }
}

proof fn lemma_first_conn_range(s: Seq<ConnView>, id: Seq<char>)
    ensures
        match first_conn(s, id) {
            Some(k) => 0 <= k < s.len() && s[k].id == id,
            None => true,
        },
    decreases s.len(),
{
    if s.len() > 0 {
        lemma_first_conn_range(s.drop_last(), id);
    }
}

/// The profile as stored: an update keeps the stored password when it
/// comes back masked; a new profile gets a new id.
pub open spec fn stored_connection(s: Seq<ConnView>, c: ConnView, new_id: Seq<char>) -> ConnView {
    match first_conn(s, c.id) {
        Some(k) => ConnView {
            password: if c.password == masked_password() {
                s[k].password
            } else {
                c.password
            },
            ..c
        },
        None => ConnView { id: new_id, ..c },
    }
}

/// The profiles once one is saved: it replaces the profile of its id, or
/// is added.
pub open spec fn connections_saved(s: Seq<ConnView>, c: ConnView, new_id: Seq<char>) -> Seq<ConnView> {
    match first_conn(s, c.id) {
        Some(k) => s.update(k, stored_connection(s, c, new_id)),
        None => s.push(stored_connection(s, c, new_id)),
    }
}

/// The recent values a saved profile leaves: its host, instance, database
/// and user name.
pub open spec fn profile_history(h: FieldHistory, c: ConnView) -> FieldHistory {
    history_saved(
        history_saved(
            history_saved(history_saved(h, "conn_host"@, c.host), "conn_instance"@, c.instance_name),
            "conn_database"@,
            c.database,
        ),
        "conn_username"@,
        c.username,
    )
}

impl AppConfig {
    fn connection_position(&self, id: &str) -> (r: Option<usize>)
        ensures
            match r {
                Some(k) => k < self.connections@.len() && first_conn(conn_views(self.connections@), id@) == Some(k as int),
                None => first_conn(conn_views(self.connections@), id@) is None,
            },
    {
        let ghost s = conn_views(self.connections@);
        let mut i: usize = 0;
        assert(s.take(0) =~= Seq::<ConnView>::empty());
        while i < self.connections.len()
            invariant
                i <= self.connections.len(),
                s == conn_views(self.connections@),
                first_conn(s.take(i as int), id@) is None,
            decreases self.connections.len() - i,
        {
            assert(s.take(i + 1).drop_last() =~= s.take(i as int));
            assert(s.take(i + 1).last() == conn_view(self.connections@[i as int]));
            if str_eq(self.connections[i].id.as_str(), id) {
                proof {
                    lemma_first_conn_extends(s, id@, i + 1, s.len() as int);
                    assert(s.take(s.len() as int) =~= s);
                }
                return Some(i);
            }
            i = i + 1;
        }
        assert(s.take(s.len() as int) =~= s);
        None
    }
}

/// Saves a profile (see `connections_saved`), remembers its host,
/// instance, database and user name (see `profile_history`), and returns
/// it as stored. `new_id` is the id a new profile gets.
pub fn save_connection(config: &mut AppConfig, connection: ConnectionConfig, new_id: String) -> (r: ConnectionConfig)
    ensures
        conn_view(r) == stored_connection(conn_views(old(config).connections@), conn_view(connection), new_id@),
        conn_views(final(config).connections@) == connections_saved(conn_views(old(config).connections@), conn_view(connection), new_id@),
        history_view(final(config).input_history@) == profile_history(history_view(old(config).input_history@), conn_view(connection)),
        query_views(final(config).saved_queries@) == query_views(old(config).saved_queries@),
        run_views(final(config).query_history@) == run_views(old(config).query_history@),
{
    let ghost s = conn_views(config.connections@);
    let ghost cv = conn_view(connection);
    let host = connection.host.clone();
    let instance = connection.instance_name.clone();
    let database = connection.database.clone();
    let username = connection.username.clone();
    let stored = match config.connection_position(connection.id.as_str()) {
        Some(k) => {
            assert(s[k as int] == conn_view(config.connections@[k as int]));
            let password = password_to_store(connection.password.as_str(), config.connections[k].password.as_str());
            let updated = ConnectionConfig { password, ..connection };
            let out = copy_connection(&updated);
            config.connections.set(k, updated);
            assert(conn_views(config.connections@) =~= s.update(k as int, conn_view(out)));
            out
        },
        None => {
            let added = ConnectionConfig { id: new_id, ..connection };
            let out = copy_connection(&added);
            config.connections.push(added);
            assert(conn_views(config.connections@) =~= s.push(conn_view(out)));
            out
        },
    };
    assert(conn_view(stored) == stored_connection(s, cv, new_id@));
    proof {
        reveal_strlit("conn_host");
        reveal_strlit("conn_instance");
        reveal_strlit("conn_database");
        reveal_strlit("conn_username");
    }
    save_field_history(config, String::from_str("conn_host"), host.as_str());
    save_field_history(config, String::from_str("conn_instance"), instance.as_str());
    save_field_history(config, String::from_str("conn_database"), database.as_str());
    save_field_history(config, String::from_str("conn_username"), username.as_str());
    stored
}

/// A listed profile never shows a password: it is empty or masked.
pub proof fn lemma_listed_passwords_masked(s: Seq<ConnView>, i: int)
    requires
        0 <= i < s.len(),
    ensures
        ({
            let p = s.map_values(|c: ConnView| masked_conn(c))[i].password;
            p.len() == 0 || p == masked_password()
        }),
{
}

/// Saving a profile whose password comes back masked keeps the password
/// that was stored.
pub proof fn lemma_masked_save_keeps_password(s: Seq<ConnView>, c: ConnView, new_id: Seq<char>)
    requires
        first_conn(s, c.id) is Some,
        c.password == masked_password(),
    ensures
        connections_saved(s, c, new_id)[first_conn(s, c.id).unwrap()].password == s[first_conn(s, c.id).unwrap()].password,
{
    lemma_first_conn_range(s, c.id);
}

/// What deleting a profile leaves of a configuration: the profile, its saved
/// queries and its history gone, in order, and everything else as it was.
pub open spec fn connection_deleted(after: AppConfig, before: AppConfig, id: Seq<char>) -> bool {
    &&& conn_views(after.connections@) == conn_views(before.connections@).filter(|c: ConnView| c.id != id)
    &&& query_views(after.saved_queries@) == query_views(before.saved_queries@).filter(
        |q: QueryView| q.connection_id != id,
    )
    &&& run_views(after.query_history@) == run_views(before.query_history@).filter(
        |e: RunView| e.connection_id != id,
    )
    &&& history_view(after.input_history@) == history_view(before.input_history@)
    &&& same_settings(after, before)
}

/// Deletes a profile, with its saved queries and its history.
pub fn delete_connection(config: &mut AppConfig, id: &str)
    ensures
        connection_deleted(*final(config), *old(config), id@),
        conn_views(final(config).connections@) == conn_views(old(config).connections@).filter(|c: ConnView| c.id != id@),
        query_views(final(config).saved_queries@) == query_views(old(config).saved_queries@).filter(
            |q: QueryView| q.connection_id != id@,
        ),
        run_views(final(config).query_history@) == run_views(old(config).query_history@).filter(
            |e: RunView| e.connection_id != id@,
        ),
        history_view(final(config).input_history@) == history_view(old(config).input_history@),
        same_settings(*final(config), *old(config)),
{
    let ghost cs = conn_views(config.connections@);
    let ghost cp = |c: ConnView| c.id != id@;
    let mut kept: Vec<ConnectionConfig> = Vec::new();
    let mut i: usize = 0;
    assert(cs.take(0) =~= Seq::<ConnView>::empty());
    while i < config.connections.len()
        invariant
            i <= config.connections.len(),
            cs == conn_views(config.connections@),
            cp == (|c: ConnView| c.id != id@),
            conn_views(kept@) == cs.take(i as int).filter(cp),
        decreases config.connections.len() - i,
    {
        proof {
            assert(cs.take(i + 1) =~= cs.take(i as int).push(cs[i as int]));
            cs.take(i as int).lemma_filter_push(cs[i as int], cp);
        }
        assert(cs[i as int] == conn_view(config.connections@[i as int]));
        let ghost before = kept@;
        if !str_eq(config.connections[i].id.as_str(), id) {
            kept.push(copy_connection(&config.connections[i]));
            assert(conn_views(kept@) =~= conn_views(before).push(cs[i as int]));
        }
        i = i + 1;
    }
    assert(cs.take(cs.len() as int) =~= cs);
    config.connections = kept;
    remove_queries_of(config, id);
    remove_runs_of(config, id);
}

fn remove_queries_of(config: &mut AppConfig, connection_id: &str)
    ensures
        query_views(final(config).saved_queries@) == query_views(old(config).saved_queries@).filter(
            |q: QueryView| q.connection_id != connection_id@,
        ),
        conn_views(final(config).connections@) == conn_views(old(config).connections@),
        run_views(final(config).query_history@) == run_views(old(config).query_history@),
        history_view(final(config).input_history@) == history_view(old(config).input_history@),
        same_settings(*final(config), *old(config)),
{
    let ghost qs = query_views(config.saved_queries@);
    let ghost qp = |q: QueryView| q.connection_id != connection_id@;
    let mut kept: Vec<SavedQuery> = Vec::new();
    let mut i: usize = 0;
    assert(qs.take(0) =~= Seq::<QueryView>::empty());
    while i < config.saved_queries.len()
        invariant
            i <= config.saved_queries.len(),
            qs == query_views(config.saved_queries@),
            qp == (|q: QueryView| q.connection_id != connection_id@),
            query_views(kept@) == qs.take(i as int).filter(qp),
        decreases config.saved_queries.len() - i,
    {
        proof {
            assert(qs.take(i + 1) =~= qs.take(i as int).push(qs[i as int]));
            qs.take(i as int).lemma_filter_push(qs[i as int], qp);
        }
        assert(qs[i as int] == query_view(config.saved_queries@[i as int]));
        if !str_eq(config.saved_queries[i].connection_id.as_str(), connection_id) {
            let ghost before = kept@;
            kept.push(copy_query(&config.saved_queries[i]));
            assert(query_views(kept@) =~= query_views(before).push(qs[i as int]));
        }
        i = i + 1;
    }
    assert(qs.take(qs.len() as int) =~= qs);
    config.saved_queries = kept;
}

fn remove_runs_of(config: &mut AppConfig, connection_id: &str)
    ensures
        run_views(final(config).query_history@) == run_views(old(config).query_history@).filter(
            |e: RunView| e.connection_id != connection_id@,
        ),
        conn_views(final(config).connections@) == conn_views(old(config).connections@),
        query_views(final(config).saved_queries@) == query_views(old(config).saved_queries@),
        history_view(final(config).input_history@) == history_view(old(config).input_history@),
        same_settings(*final(config), *old(config)),
{
    let ghost rs = run_views(config.query_history@);
    let ghost rp = |e: RunView| e.connection_id != connection_id@;
    let mut kept: Vec<QueryHistoryEntry> = Vec::new();
    let mut i: usize = 0;
    assert(rs.take(0) =~= Seq::<RunView>::empty());
    while i < config.query_history.len()
        invariant
            i <= config.query_history.len(),
            rs == run_views(config.query_history@),
            rp == (|e: RunView| e.connection_id != connection_id@),
            run_views(kept@) == rs.take(i as int).filter(rp),
        decreases config.query_history.len() - i,
    {
        proof {
            assert(rs.take(i + 1) =~= rs.take(i as int).push(rs[i as int]));
            rs.take(i as int).lemma_filter_push(rs[i as int], rp);
        }
        assert(rs[i as int] == run_view(config.query_history@[i as int]));
        if !str_eq(config.query_history[i].connection_id.as_str(), connection_id) {
            let ghost before = kept@;
            kept.push(copy_run(&config.query_history[i]));
            assert(run_views(kept@) =~= run_views(before).push(rs[i as int]));
        }
        i = i + 1;
    }
    assert(rs.take(rs.len() as int) =~= rs);
    config.query_history = kept;
}

// ---------------------------------------------------------------------------
// Saved queries
// ---------------------------------------------------------------------------

/// A query belongs to the listing: of the connection asked for, or any.
pub open spec fn query_in(q: QueryView, connection_id: Option<Seq<char>>) -> bool {
    match connection_id {
        Some(id) => q.connection_id == id,
        None => true,
    }
}

pub open spec fn opt_str_view(o: Option<&str>) -> Option<Seq<char>> {
    match o {
        Some(s) => Some(s@),
        None => None,
    }
}

/// Most recently updated first.
pub open spec fn queries_newest_first(s: Seq<QueryView>) -> bool {
    forall|i: int, j: int| 0 <= i < j < s.len() ==> !text_less((#[trigger] s[i]).updated_at, (#[trigger] s[j]).updated_at)
}

proof fn lemma_insert_query_sorted(s: Seq<QueryView>, p: int, x: QueryView)
    requires
        queries_newest_first(s),
        0 <= p <= s.len(),
        forall|i: int| 0 <= i < p ==> !text_less((#[trigger] s[i]).updated_at, x.updated_at),
        p < s.len() ==> text_less(s[p].updated_at, x.updated_at),
    ensures
        queries_newest_first(s.insert(p, x)),
{
    let t = s.insert(p, x);
    assert forall|i: int, j: int| 0 <= i < j < t.len() implies !text_less((#[trigger] t[i]).updated_at, (#[trigger] t[j]).updated_at) by {
        if i < p && j < p {
            assert(t[i] == s[i] && t[j] == s[j]);
        } else if i < p && j == p {
            assert(t[i] == s[i] && t[j] == x);
        } else if i < p {
            assert(t[i] == s[i] && t[j] == s[j - 1]);
        } else if i == p {
            assert(t[i] == x && t[j] == s[j - 1]);
            if text_less(x.updated_at, s[j - 1].updated_at) {
                lemma_text_less_transitive(s[p].updated_at, x.updated_at, s[j - 1].updated_at);
                if p < j - 1 {
                    assert(!text_less(s[p].updated_at, s[j - 1].updated_at));
                } else {
                    lemma_text_less_irreflexive(s[p].updated_at);
                }
            }
        } else {
            assert(t[i] == s[i - 1] && t[j] == s[j - 1]);
        }
    }
}

/// The saved queries of a connection (or all), most recently updated first.
pub fn list_saved_queries(config: &AppConfig, connection_id: Option<&str>) -> (r: Vec<SavedQuery>)
    ensures
        queries_newest_first(query_views(r@)),
        query_views(r@).to_multiset() == query_views(config.saved_queries@).filter(
            |q: QueryView| query_in(q, opt_str_view(connection_id)),
        ).to_multiset(),
{
    let ghost qs = query_views(config.saved_queries@);
    let ghost qp = |q: QueryView| query_in(q, opt_str_view(connection_id));
    let mut out: Vec<SavedQuery> = Vec::new();
    let mut i: usize = 0;
    assert(qs.take(0) =~= Seq::<QueryView>::empty());
    assert(query_views(out@) =~= Seq::<QueryView>::empty());
    assert(qs.take(0).filter(qp) =~= Seq::<QueryView>::empty());
    while i < config.saved_queries.len()
        invariant
            i <= config.saved_queries.len(),
            qs == query_views(config.saved_queries@),
            qp == (|q: QueryView| query_in(q, opt_str_view(connection_id))),
            queries_newest_first(query_views(out@)),
            query_views(out@).to_multiset() == qs.take(i as int).filter(qp).to_multiset(),
        decreases config.saved_queries.len() - i,
    {
        let x = &config.saved_queries[i];
        assert(qs[i as int] == query_view(*x));
        proof {
            assert(qs.take(i + 1) =~= qs.take(i as int).push(qs[i as int]));
            qs.take(i as int).lemma_filter_push(qs[i as int], qp);
        }
        let wanted = match connection_id {
            Some(id) => str_eq(x.connection_id.as_str(), id),
            None => true,
        };
        if wanted {
            let mut p: usize = 0;
            while p < out.len() && !text_less_exec(out[p].updated_at.as_str(), x.updated_at.as_str())
                invariant
                    p <= out.len(),
                    forall|k: int| 0 <= k < p ==> !text_less((#[trigger] query_views(out@)[k]).updated_at, query_view(*x).updated_at),
                decreases out.len() - p,
            {
                assert(query_views(out@)[p as int] == query_view(out@[p as int]));
                p = p + 1;
            }
            if p < out.len() {
                assert(query_views(out@)[p as int] == query_view(out@[p as int]));
            }
            let y = copy_query(x);
            let ghost before = query_views(out@);
            proof {
                lemma_insert_query_sorted(before, p as int, query_view(y));
                vstd::seq_lib::to_multiset_insert(before, p as int, query_view(y));
                vstd::seq_lib::to_multiset_build(qs.take(i as int).filter(qp), query_view(y));
            }
            out.insert(p, y);
            assert(query_views(out@) =~= before.insert(p as int, query_view(y)));
        }
        i = i + 1;
    }
    assert(qs.take(qs.len() as int) =~= qs);
    out
}

/// The first saved query of an id.
pub open spec fn first_query(s: Seq<QueryView>, id: Seq<char>) -> Option<int>
    decreases s.len(),
{
    if s.len() == 0 {
        None
    } else {
        match first_query(s.drop_last(), id) {
            Some(k) => Some(k),
            None => if s.last().id == id {
                Some(s.len() - 1)
            } else {
                None
            },
        }
    }
}

proof fn lemma_first_query_extends(s: Seq<QueryView>, id: Seq<char>, m: int, n: int)
    requires
        0 <= m <= n <= s.len(),
        first_query(s.take(m), id) is Some,
    ensures
        first_query(s.take(n), id) == first_query(s.take(m), id),
    decreases n - m,
{
    if n > m {
        lemma_first_query_extends(s, id, m, n - 1);
        assert(s.take(n).drop_last() =~= s.take(n - 1));
    }
}

/// The query as saved: an update keeps its id and takes the new
/// connection, name and text; a new query gets an id when it has none.
/// Either way it is stamped with the time of saving.
pub open spec fn stored_query(s: Seq<QueryView>, q: QueryView, now: Seq<char>, new_id: Seq<char>) -> QueryView {
    match first_query(s, q.id) {
        Some(k) => QueryView { connection_id: q.connection_id, name: q.name, sql: q.sql, updated_at: now, ..s[k] },
        None => QueryView {
            id: if q.id.len() == 0 {
                new_id
            } else {
                q.id
            },
            updated_at: now,
            ..q
        },
    }
}

pub open spec fn queries_saved(s: Seq<QueryView>, q: QueryView, now: Seq<char>, new_id: Seq<char>) -> Seq<QueryView> {
    match first_query(s, q.id) {
        Some(k) => s.update(k, stored_query(s, q, now, new_id)),
        None => s.push(stored_query(s, q, now, new_id)),
    }
}

impl AppConfig {
    fn query_position(&self, id: &str) -> (r: Option<usize>)
        ensures
            match r {
                Some(k) => k < self.saved_queries@.len() && first_query(query_views(self.saved_queries@), id@) == Some(k as int),
                None => first_query(query_views(self.saved_queries@), id@) is None,
            },
    {
        let ghost qs = query_views(self.saved_queries@);
        let mut i: usize = 0;
        assert(qs.take(0) =~= Seq::<QueryView>::empty());
        while i < self.saved_queries.len()
            invariant
                i <= self.saved_queries.len(),
                qs == query_views(self.saved_queries@),
                first_query(qs.take(i as int), id@) is None,
            decreases self.saved_queries.len() - i,
        {
            assert(qs.take(i + 1).drop_last() =~= qs.take(i as int));
            assert(qs.take(i + 1).last() == query_view(self.saved_queries@[i as int]));
            if str_eq(self.saved_queries[i].id.as_str(), id) {
                proof {
                    lemma_first_query_extends(qs, id@, i + 1, qs.len() as int);
                    assert(qs.take(qs.len() as int) =~= qs);
                }
                return Some(i);
            }
            i = i + 1;
        }
        assert(qs.take(qs.len() as int) =~= qs);
        None
    }
}

/// Saves a query to the library and returns it as saved.
pub fn save_saved_query(config: &mut AppConfig, query: SavedQuery, now: String, new_id: String) -> (r: SavedQuery)
    ensures
        query_view(r) == stored_query(query_views(old(config).saved_queries@), query_view(query), now@, new_id@),
        query_views(final(config).saved_queries@) == queries_saved(query_views(old(config).saved_queries@), query_view(query), now@, new_id@),
        conn_views(final(config).connections@) == conn_views(old(config).connections@),
        run_views(final(config).query_history@) == run_views(old(config).query_history@),
        history_view(final(config).input_history@) == history_view(old(config).input_history@),
        same_settings(*final(config), *old(config)),
{
    let ghost qs = query_views(config.saved_queries@);
    let ghost qv = query_view(query);
    match config.query_position(query.id.as_str()) {
        Some(k) => {
            assert(qs[k as int] == query_view(config.saved_queries@[k as int]));
            let id = config.saved_queries[k].id.clone();
            let updated = SavedQuery {
                id,
                connection_id: query.connection_id,
                name: query.name,
                sql: query.sql,
                updated_at: now,
            };
            let out = copy_query(&updated);
            config.saved_queries.set(k, updated);
            assert(query_views(config.saved_queries@) =~= qs.update(k as int, query_view(out)));
            out
        },
        None => {
            let id = if query.id.as_str().is_empty() {
                new_id
            } else {
                query.id
            };
            let added = SavedQuery { id, connection_id: query.connection_id, name: query.name, sql: query.sql, updated_at: now };
            let out = copy_query(&added);
            config.saved_queries.push(added);
            assert(query_views(config.saved_queries@) =~= qs.push(query_view(out)));
            out
        },
    }
}

/// Deletes a saved query.
pub fn delete_saved_query(config: &mut AppConfig, id: &str)
    ensures
        query_views(final(config).saved_queries@) == query_views(old(config).saved_queries@).filter(|q: QueryView| q.id != id@),
        conn_views(final(config).connections@) == conn_views(old(config).connections@),
        run_views(final(config).query_history@) == run_views(old(config).query_history@),
        history_view(final(config).input_history@) == history_view(old(config).input_history@),
        same_settings(*final(config), *old(config)),
{
    let ghost qs = query_views(config.saved_queries@);
    let ghost qp = |q: QueryView| q.id != id@;
    let mut kept: Vec<SavedQuery> = Vec::new();
    let mut i: usize = 0;
    assert(qs.take(0) =~= Seq::<QueryView>::empty());
    while i < config.saved_queries.len()
        invariant
            i <= config.saved_queries.len(),
            qs == query_views(config.saved_queries@),
            qp == (|q: QueryView| q.id != id@),
            query_views(kept@) == qs.take(i as int).filter(qp),
        decreases config.saved_queries.len() - i,
    {
        proof {
            assert(qs.take(i + 1) =~= qs.take(i as int).push(qs[i as int]));
            qs.take(i as int).lemma_filter_push(qs[i as int], qp);
        }
        assert(qs[i as int] == query_view(config.saved_queries@[i as int]));
        if !str_eq(config.saved_queries[i].id.as_str(), id) {
            let ghost before = kept@;
            kept.push(copy_query(&config.saved_queries[i]));
            assert(query_views(kept@) =~= query_views(before).push(qs[i as int]));
        }
        i = i + 1;
    }
    assert(qs.take(qs.len() as int) =~= qs);
    config.saved_queries = kept;
}

// ---------------------------------------------------------------------------
// Query history
// ---------------------------------------------------------------------------

pub open spec fn run_in(e: RunView, connection_id: Option<Seq<char>>) -> bool {
    match connection_id {
        Some(id) => e.connection_id == id,
        None => true,
    }
}

/// Most recently run first.
pub open spec fn runs_newest_first(s: Seq<RunView>) -> bool {
    forall|i: int, j: int| 0 <= i < j < s.len() ==> !text_less((#[trigger] s[i]).ran_at, (#[trigger] s[j]).ran_at)
}

proof fn lemma_insert_run_sorted(s: Seq<RunView>, p: int, x: RunView)
    requires
        runs_newest_first(s),
        0 <= p <= s.len(),
        forall|i: int| 0 <= i < p ==> !text_less((#[trigger] s[i]).ran_at, x.ran_at),
        p < s.len() ==> text_less(s[p].ran_at, x.ran_at),
    ensures
        runs_newest_first(s.insert(p, x)),
{
    let t = s.insert(p, x);
    assert forall|i: int, j: int| 0 <= i < j < t.len() implies !text_less((#[trigger] t[i]).ran_at, (#[trigger] t[j]).ran_at) by {
        if i < p && j < p {
            assert(t[i] == s[i] && t[j] == s[j]);
        } else if i < p && j == p {
            assert(t[i] == s[i] && t[j] == x);
        } else if i < p {
            assert(t[i] == s[i] && t[j] == s[j - 1]);
        } else if i == p {
            assert(t[i] == x && t[j] == s[j - 1]);
            if text_less(x.ran_at, s[j - 1].ran_at) {
                lemma_text_less_transitive(s[p].ran_at, x.ran_at, s[j - 1].ran_at);
                if p < j - 1 {
                    assert(!text_less(s[p].ran_at, s[j - 1].ran_at));
                } else {
                    lemma_text_less_irreflexive(s[p].ran_at);
                }
            }
        } else {
            assert(t[i] == s[i - 1] && t[j] == s[j - 1]);
        }
    }
}

/// The history of a connection (or all of it), most recently run first.
pub fn list_query_history(config: &AppConfig, connection_id: Option<&str>) -> (r: Vec<QueryHistoryEntry>)
    ensures
        runs_newest_first(run_views(r@)),
        run_views(r@).to_multiset() == run_views(config.query_history@).filter(
            |e: RunView| run_in(e, opt_str_view(connection_id)),
        ).to_multiset(),
{
    let ghost rs = run_views(config.query_history@);
    let ghost rp = |e: RunView| run_in(e, opt_str_view(connection_id));
    let mut out: Vec<QueryHistoryEntry> = Vec::new();
    let mut i: usize = 0;
    assert(rs.take(0) =~= Seq::<RunView>::empty());
    assert(run_views(out@) =~= Seq::<RunView>::empty());
    assert(rs.take(0).filter(rp) =~= Seq::<RunView>::empty());
    while i < config.query_history.len()
        invariant
            i <= config.query_history.len(),
            rs == run_views(config.query_history@),
            rp == (|e: RunView| run_in(e, opt_str_view(connection_id))),
            runs_newest_first(run_views(out@)),
            run_views(out@).to_multiset() == rs.take(i as int).filter(rp).to_multiset(),
        decreases config.query_history.len() - i,
    {
        let x = &config.query_history[i];
        assert(rs[i as int] == run_view(*x));
        proof {
            assert(rs.take(i + 1) =~= rs.take(i as int).push(rs[i as int]));
            rs.take(i as int).lemma_filter_push(rs[i as int], rp);
        }
        let wanted = match connection_id {
            Some(id) => str_eq(x.connection_id.as_str(), id),
            None => true,
        };
        if wanted {
            let mut p: usize = 0;
            while p < out.len() && !text_less_exec(out[p].ran_at.as_str(), x.ran_at.as_str())
                invariant
                    p <= out.len(),
                    forall|k: int| 0 <= k < p ==> !text_less((#[trigger] run_views(out@)[k]).ran_at, run_view(*x).ran_at),
                decreases out.len() - p,
            {
                assert(run_views(out@)[p as int] == run_view(out@[p as int]));
                p = p + 1;
            }
            if p < out.len() {
                assert(run_views(out@)[p as int] == run_view(out@[p as int]));
            }
            let y = copy_run(x);
            let ghost before = run_views(out@);
            proof {
                lemma_insert_run_sorted(before, p as int, run_view(y));
                vstd::seq_lib::to_multiset_insert(before, p as int, run_view(y));
                vstd::seq_lib::to_multiset_build(rs.take(i as int).filter(rp), run_view(y));
            }
            out.insert(p, y);
            assert(run_views(out@) =~= before.insert(p as int, run_view(y)));
        }
        i = i + 1;
    }
    assert(rs.take(rs.len() as int) =~= rs);
    out
}

/// Clears the history of a connection, or all of it.
pub fn clear_query_history(config: &mut AppConfig, connection_id: Option<&str>)
    ensures
        run_views(final(config).query_history@) == match connection_id {
            Some(id) => run_views(old(config).query_history@).filter(|e: RunView| e.connection_id != id@),
            None => Seq::<RunView>::empty(),
        },
        conn_views(final(config).connections@) == conn_views(old(config).connections@),
        query_views(final(config).saved_queries@) == query_views(old(config).saved_queries@),
        history_view(final(config).input_history@) == history_view(old(config).input_history@),
{
    match connection_id {
        Some(id) => remove_runs_of(config, id),
        None => {
            config.query_history = Vec::new();
            assert(run_views(config.query_history@) =~= Seq::<RunView>::empty());
        },
    }
}

/// Records a query run: it comes first, and at most `MAX_QUERY_HISTORY`
/// runs are kept.
pub fn append_query_history(config: &mut AppConfig, entry: QueryHistoryEntry)
    ensures
        run_views(final(config).query_history@) == with_recent(
            run_views(old(config).query_history@),
            run_view(entry),
            MAX_QUERY_HISTORY as nat,
        ),
        conn_views(final(config).connections@) == conn_views(old(config).connections@),
        query_views(final(config).saved_queries@) == query_views(old(config).saved_queries@),
        history_view(final(config).input_history@) == history_view(old(config).input_history@),
{
    let ghost before = config.query_history@;
    let ghost e = entry;
    let mut history: Vec<QueryHistoryEntry> = Vec::new();
    core::mem::swap(&mut history, &mut config.query_history);
    let kept = push_recent(history, entry, MAX_QUERY_HISTORY);
    config.query_history = kept;
    assert(run_views(config.query_history@) =~= with_recent(run_views(before), run_view(e), MAX_QUERY_HISTORY as nat));
}

/// The latest run comes first and the history never grows past
/// `MAX_QUERY_HISTORY`.
pub proof fn lemma_history_bounded(s: Seq<RunView>, e: RunView)
    requires
        s.len() <= MAX_QUERY_HISTORY,
    ensures
        with_recent(s, e, MAX_QUERY_HISTORY as nat).len() <= MAX_QUERY_HISTORY,
        with_recent(s, e, MAX_QUERY_HISTORY as nat)[0] == e,
{
}

} // verus!
