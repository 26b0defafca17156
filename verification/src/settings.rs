//! Application settings kept between sessions: the timeouts and default
//! accounts, the recent values typed into fields, the query history, and
//! the application passwords.
use vstd::prelude::*;
use crate::sql::strings_view;
use crate::text::{str_eq, trim, trim_str};

verus! {

/// The settings shown on the settings page.
pub struct AppSettings {
    pub query_timeout_secs: u64,
    pub dashboard_timeout_secs: u64,
    pub login_timeout_secs: u64,
    pub account_ar: String,
    pub account_sales: String,
    pub account_vat: String,
}

pub const MAX_QUERY_HISTORY: usize = 100;
pub const MAX_FIELD_HISTORY: usize = 10;

// ---------------------------------------------------------------------------
// Recent values
// ---------------------------------------------------------------------------

/// The entries other than `v`, in order.
pub open spec fn without(list: Seq<Seq<char>>, v: Seq<char>) -> Seq<Seq<char>>
    decreases list.len(),
{
    if list.len() == 0 {
        seq![]
    } else if list.last() == v {
        without(list.drop_last(), v)
    } else {
        without(list.drop_last(), v).push(list.last())
    }
}

pub open spec fn at_most(s: Seq<Seq<char>>, n: nat) -> Seq<Seq<char>> {
    if s.len() <= n {
        s
    } else {
        s.take(n as int)
    }
}

/// A field's history after a value is typed: a blank value changes
/// nothing; otherwise the trimmed value comes first, its older copies are
/// dropped, and at most ten values are kept.
pub open spec fn remembered(list: Seq<Seq<char>>, value: Seq<char>) -> Seq<Seq<char>> {
    let t = trim(value);
    if t.len() == 0 {
        list
    } else {
        at_most(seq![t] + without(list, t), MAX_FIELD_HISTORY as nat)
    }
}

fn without_exec(list: Vec<String>, v: &str) -> (r: Vec<String>)
    ensures
        strings_view(r@) == without(strings_view(list@), v@),
{
    let mut r: Vec<String> = Vec::new();
    let mut i: usize = 0;
    while i < list.len()
        invariant
            i <= list.len(),
            strings_view(r@) == without(strings_view(list@).take(i as int), v@),
        decreases list.len() - i,
    {
        let ghost t = strings_view(list@).take(i + 1);
        assert(t.drop_last() =~= strings_view(list@).take(i as int));
        assert(t.last() == list@[i as int]@);
        if !str_eq(list[i].as_str(), v) {
            let ghost prev = r@;
            r.push(String::from_str(list[i].as_str()));
            assert(strings_view(r@) =~= strings_view(prev).push(list@[i as int]@));
        }
        i = i + 1;
    }
    assert(strings_view(list@).take(list.len() as int) =~= strings_view(list@));
    r
}

fn truncated(list: Vec<String>, n: usize) -> (r: Vec<String>)
    ensures
        strings_view(r@) == at_most(strings_view(list@), n as nat),
{
    let ghost before = list@;
    let mut list = list;
    list.truncate(n);
    assert(strings_view(list@) =~= at_most(strings_view(before), n as nat));
    list
}

/// `save_field_history` on one field's list (see `remembered`).
pub fn remember_field_value(list: Vec<String>, value: &str) -> (r: Vec<String>)
    ensures
        strings_view(r@) == remembered(strings_view(list@), value@),
{
    let trimmed = trim_str(value);
    if trimmed.as_str().is_empty() {
        return list;
    }
    let rest = without_exec(list, trimmed.as_str());
    let mut r: Vec<String> = Vec::new();
    let ghost tv = trimmed@;
    r.push(trimmed);
    let mut i: usize = 0;
    while i < rest.len()
        invariant
            i <= rest.len(),
            strings_view(r@) == seq![tv] + strings_view(rest@).take(i as int),
        decreases rest.len() - i,
    {
        let ghost prev = r@;
        r.push(String::from_str(rest[i].as_str()));
        assert(strings_view(r@) =~= strings_view(prev).push(rest@[i as int]@));
        assert(strings_view(rest@).take(i + 1) =~= strings_view(rest@).take(i as int).push(rest@[i as int]@));
        i = i + 1;
    }
    assert(strings_view(rest@).take(rest.len() as int) =~= strings_view(rest@));
    truncated(r, MAX_FIELD_HISTORY)
}

/// `remove_field_history_entry` on one field's list: every copy of the
/// value goes.
pub fn forget_field_value(list: Vec<String>, value: &str) -> (r: Vec<String>)
    ensures
        strings_view(r@) == without(strings_view(list@), value@),
{
    without_exec(list, value)
}

/// `get_field_history` on one field's list: the ten most recent values.
pub fn recent_field_values(list: Vec<String>) -> (r: Vec<String>)
    ensures
        strings_view(r@) == at_most(strings_view(list@), MAX_FIELD_HISTORY as nat),
{
    truncated(list, MAX_FIELD_HISTORY)
}

proof fn lemma_without_omits(list: Seq<Seq<char>>, v: Seq<char>)
    ensures
        !without(list, v).contains(v),
        without(list, v).len() <= list.len(),
        forall|x: Seq<char>| list.contains(x) && x != v ==> #[trigger] without(list, v).contains(x),
        forall|x: Seq<char>| #[trigger] without(list, v).contains(x) ==> list.contains(x),
    decreases list.len(),
{
    if list.len() > 0 {
        lemma_without_omits(list.drop_last(), v);
        let w = without(list.drop_last(), v);
        assert forall|x: Seq<char>| list.contains(x) && x != v implies #[trigger] without(list, v).contains(x) by {
            let k = choose|k: int| 0 <= k < list.len() && list[k] == x;
            if k < list.len() - 1 {
                assert(list.drop_last()[k] == x);
                assert(w.contains(x));
                if list.last() != v {
                    let j = choose|j: int| 0 <= j < w.len() && w[j] == x;
                    assert(w.push(list.last())[j] == x);
                }
            } else {
                assert(w.push(list.last())[w.len() as int] == x);
            }
        }
        assert forall|x: Seq<char>| #[trigger] without(list, v).contains(x) implies list.contains(x) by {
            let r = without(list, v);
            let j = choose|j: int| 0 <= j < r.len() && r[j] == x;
            if list.last() != v && j == w.len() {
                assert(list[list.len() - 1] == x);
            } else {
                assert(w[j] == x);
                assert(w.contains(x));
                assert(list.drop_last().contains(x));
                let k = choose|k: int| 0 <= k < list.drop_last().len() && list.drop_last()[k] == x;
                assert(list[k] == x);
            }
        }
        if list.last() != v {
            assert forall|j: int| 0 <= j < w.len() + 1 implies w.push(list.last())[j] != v by {
                if j < w.len() {
                    assert(w.push(list.last())[j] == w[j]);
                }
            }
        }
    }
}

pub open spec fn no_repeats(s: Seq<Seq<char>>) -> bool {
    forall|i: int, j: int| 0 <= i < j < s.len() ==> s[i] != s[j]
}

proof fn lemma_without_no_repeats(list: Seq<Seq<char>>, v: Seq<char>)
    requires
        no_repeats(list),
    ensures
        no_repeats(without(list, v)),
    decreases list.len(),
{
    if list.len() > 0 {
        lemma_without_no_repeats(list.drop_last(), v);
        lemma_without_omits(list.drop_last(), v);
        let w = without(list.drop_last(), v);
        if list.last() != v {
            assert(!list.drop_last().contains(list.last())) by {
                if list.drop_last().contains(list.last()) {
                    let k = choose|k: int| 0 <= k < list.drop_last().len() && list.drop_last()[k] == list.last();
                    assert(list[k] == list[list.len() - 1]);
                }
            }
            assert(!w.contains(list.last()));
            let r = w.push(list.last());
            assert forall|i: int, j: int| 0 <= i < j < r.len() implies r[i] != r[j] by {
                if j == w.len() {
                    assert(r[i] == w[i]);
                    assert(w.contains(w[i]));
                }
            }
        }
    }
}

/// A field's history after a non-blank value is typed starts with that
/// value (trimmed), holds it once, keeps at most ten values, and repeats
/// none when it repeated none before.
pub proof fn lemma_remembered_value_first(list: Seq<Seq<char>>, value: Seq<char>)
    requires
        trim(value).len() > 0,
        no_repeats(list),
    ensures
        remembered(list, value).len() >= 1,
        remembered(list, value)[0] == trim(value),
        remembered(list, value).len() <= MAX_FIELD_HISTORY,
        no_repeats(remembered(list, value)),
{
    let t = trim(value);
    lemma_without_omits(list, t);
    lemma_without_no_repeats(list, t);
    let w = without(list, t);
    let s = seq![t] + w;
    assert forall|i: int, j: int| 0 <= i < j < s.len() implies s[i] != s[j] by {
        if i == 0 {
            assert(s[j] == w[j - 1]);
            assert(w.contains(w[j - 1]));
        } else {
            assert(s[i] == w[i - 1]);
            assert(s[j] == w[j - 1]);
        }
    }
    let r = remembered(list, value);
    assert forall|i: int, j: int| 0 <= i < j < r.len() implies r[i] != r[j] by {
        assert(r[i] == s[i]);
        assert(r[j] == s[j]);
    }
}

/// A list with a new entry first, at most `max` long (the query history).
pub open spec fn with_recent<T>(list: Seq<T>, entry: T, max: nat) -> Seq<T> {
    let s = seq![entry] + list;
    if s.len() <= max {
        s
    } else {
        s.take(max as int)
    }
}

/// `append_query_history` on the history: the new entry first, at most
/// `max` entries kept.
pub fn push_recent<T>(list: Vec<T>, entry: T, max: usize) -> (r: Vec<T>)
    ensures
        r@ == with_recent(list@, entry, max as nat),
{
    let ghost before = list@;
    let ghost e = entry;
    let mut list = list;
    list.insert(0, entry);
    assert(list@ =~= seq![e] + before);
    list.truncate(max);
    list
}

// ---------------------------------------------------------------------------
// Saved connection passwords
// ---------------------------------------------------------------------------

/// What a listed connection shows instead of its password.
pub open spec fn masked_password() -> Seq<char> {
    "••••••••"@
}

/// `list_connections`: a set password is shown masked, an empty one stays
/// empty.
pub fn mask_password(password: &str) -> (r: String)
    ensures
        r@ == (if password@.len() == 0 {
            Seq::<char>::empty()
        } else {
            masked_password()
        }),
{
    if password.is_empty() {
        String::new()
    } else {
        String::from_str("••••••••")
    }
}

/// `save_connection`: an update that sends back the masked password keeps
/// the stored one.
pub fn password_to_store(incoming: &str, existing: &str) -> (r: String)
    ensures
        r@ == (if incoming@ == masked_password() {
            existing@
        } else {
            incoming@
        }),
{
    if str_eq(incoming, "••••••••") {
        String::from_str(existing)
    } else {
        String::from_str(incoming)
    }
}

// ---------------------------------------------------------------------------
// Application passwords
// ---------------------------------------------------------------------------

/// What `PasswordHash::new` reports for a stored hash: nothing when it
/// reads as a PHC string, else its error's text.
pub uninterp spec fn phc_parse_error(hash: Seq<char>) -> Option<Seq<char>>;

/// Whether `Argon2::default().verify_password` accepts a secret against a
/// stored PHC string. Verification reads the algorithm, parameters, salt and
/// output from the string itself, so the answer depends on these two alone.
pub uninterp spec fn argon2_verifies(secret: Seq<char>, hash: Seq<char>) -> bool;

/// `PasswordHash::new`: reads a stored PHC string; the outcome, as the
/// error's text, is named by `phc_parse_error`.
#[verifier::external_body]
fn phc_error(hash: &str) -> (r: Option<String>)
    ensures
        match r {
            None => phc_parse_error(hash@) is None,
            Some(e) => phc_parse_error(hash@) == Some(e@),
        },
{
    match argon2::password_hash::PasswordHash::new(hash) {
        Ok(_) => None,
        Err(e) => Some(e.to_string()),
    }
}

/// `PasswordHash::new` then `Argon2::default().verify_password(..).is_ok()`:
/// for a hash that reads, the answer is `argon2_verifies`.
#[verifier::external_body]
fn argon2_matches(secret: &str, hash: &str) -> (r: bool)
    ensures
        phc_parse_error(hash@) is None ==> r == argon2_verifies(secret@, hash@),
{
    match argon2::password_hash::PasswordHash::new(hash) {
        Ok(h) => argon2::PasswordVerifier::verify_password(&argon2::Argon2::default(), secret.as_bytes(), &h).is_ok(),
        Err(_) => false,
    }
}

/// Sixteen random bytes for a salt, from the operating system's generator
/// through a version-4 UUID. Nothing is claimed of them.
#[verifier::external_body]
fn random_salt() -> (r: [u8; 16]) {
    *uuid::Uuid::new_v4().as_bytes()
}

/// `SaltString::encode_b64` then `Argon2::default().hash_password(..)`, as
/// a PHC string. With a 16-byte salt it fails only for a password longer
/// than 0xFFFFFFFF bytes; what it produces reads back, and verifies the
/// secret it was made from.
#[verifier::external_body]
fn argon2_hash(secret: &str, salt: &[u8; 16]) -> (r: Result<String, String>)
    ensures
        vstd::utf8::encode_utf8(secret@).len() <= 0xFFFFFFFF ==> r is Ok,
        r matches Ok(h) ==> phc_parse_error(h@) is None && argon2_verifies(secret@, h@),
{
    let salt = argon2::password_hash::SaltString::encode_b64(salt).map_err(|e| e.to_string())?;
    argon2::PasswordHasher::hash_password(&argon2::Argon2::default(), secret.as_bytes(), &salt)
        .map_err(|e| e.to_string())
        .map(|hash| hash.to_string())
}

/// `hash_secret`: the Argon2 hash of a secret under a fresh random salt. It
/// succeeds for every secret of at most 0xFFFFFFFF bytes; a hash it returns
/// reads back and verifies that secret.
pub fn hash_secret(secret: &str) -> (r: Result<String, String>)
    ensures
        vstd::utf8::encode_utf8(secret@).len() <= 0xFFFFFFFF ==> r is Ok,
        r matches Ok(h) ==> phc_parse_error(h@) is None && argon2_verifies(secret@, h@),
{
    let salt = random_salt();
    argon2_hash(secret, &salt)
}

/// The outcome of checking a secret against a stored hash, if any: with no
/// hash access is allowed; a hash that does not read is an error.
pub open spec fn secret_check(stored: Option<Seq<char>>, secret: Seq<char>) -> Result<bool, Seq<char>> {
    match stored {
        None => Ok(true),
        Some(h) => match phc_parse_error(h) {
            Some(m) => Err(m),
            None => Ok(argon2_verifies(secret, h)),
        },
    }
}

pub open spec fn check_view(r: Result<bool, String>) -> Result<bool, Seq<char>> {
    match r {
        Ok(b) => Ok(b),
        Err(e) => Err(e@),
    }
}

/// `verify_secret`: a stored hash that does not read is an error;
/// otherwise Argon2's answer.
pub fn verify_secret(secret: &str, hash_str: &str) -> (r: Result<bool, String>)
    ensures
        check_view(r) == secret_check(Some(hash_str@), secret@),
{
    match phc_error(hash_str) {
        Some(e) => Err(e),
        None => Ok(argon2_matches(secret, hash_str)),
    }
}

/// `verify_password` on the stored hash: with no password set, access is
/// allowed.
pub fn check_password(stored_hash: Option<&str>, password: &str) -> (r: Result<bool, String>)
    ensures
        check_view(r) == secret_check(
            match stored_hash {
                Some(h) => Some(h@),
                None => None,
            },
            password@,
        ),
{
    match stored_hash {
        Some(h) => verify_secret(password, h),
        None => Ok(true),
    }
}

/// A secret checks against the hash `hash_secret` made of it: the answer is
/// yes.
pub proof fn lemma_hashed_secret_verifies(secret: Seq<char>, hash: Seq<char>)
    requires
        phc_parse_error(hash) is None,
        argon2_verifies(secret, hash),
    ensures
        secret_check(Some(hash), secret) == Ok::<bool, Seq<char>>(true),
{
}

} // verus!
