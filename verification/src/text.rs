//! Character-level string helpers shared by the SQL, XML and export code.
use vstd::prelude::*;

verus! {

// ---------------------------------------------------------------------------
// Trusted std primitives
// ---------------------------------------------------------------------------

/// `String::push`: appends one character to the end of the string.
#[verifier::external_body]
pub(crate) fn push_char(s: &mut String, c: char)
    ensures
        final(s)@ == old(s)@.push(c),
{
    s.push(c);
}

/// What `str::to_uppercase` returns: the full Unicode uppercase mapping,
/// which may change the length of the text.
pub uninterp spec fn unicode_uppercase(s: Seq<char>) -> Seq<char>;

/// `str::to_uppercase`. Its result is named by `unicode_uppercase`; nothing
/// more is claimed about the Unicode case tables.
#[verifier::external_body]
pub(crate) fn to_uppercase(s: &str) -> (r: String)
    ensures
        r@ == unicode_uppercase(s@),
{
    s.to_uppercase()
}

// ---------------------------------------------------------------------------
// Basic sequence predicates
// ---------------------------------------------------------------------------

/// The characters that carry the Unicode `White_Space` property
/// (the set `char::is_whitespace` tests for).
pub open spec fn is_ws(c: char) -> bool {
    let u = c as u32;
    (0x09 <= u && u <= 0x0d) || u == 0x20 || u == 0x85 || u == 0xa0 || u == 0x1680
        || (0x2000 <= u && u <= 0x200a) || u == 0x2028 || u == 0x2029 || u == 0x202f
        || u == 0x205f || u == 0x3000
}

pub fn is_whitespace(c: char) -> (b: bool)
    ensures
        b == is_ws(c),
{
    let u = c as u32;
    (0x09 <= u && u <= 0x0d) || u == 0x20 || u == 0x85 || u == 0xa0 || u == 0x1680
        || (0x2000 <= u && u <= 0x200a) || u == 0x2028 || u == 0x2029 || u == 0x202f
        || u == 0x205f || u == 0x3000
}

/// Leading whitespace removed.
pub open spec fn trim_start(s: Seq<char>) -> Seq<char>
    decreases s.len(),
{
    if s.len() > 0 && is_ws(s[0]) {
        trim_start(s.drop_first())
    } else {
        s
    }
}

/// Trailing whitespace removed.
pub open spec fn trim_end(s: Seq<char>) -> Seq<char>
    decreases s.len(),
{
    if s.len() > 0 && is_ws(s.last()) {
        trim_end(s.drop_last())
    } else {
        s
    }
}

/// `str::trim`: leading and trailing whitespace removed.
pub open spec fn trim(s: Seq<char>) -> Seq<char> {
    trim_end(trim_start(s))
}

/// Every character is whitespace (so `trim` leaves nothing).
pub open spec fn is_blank(s: Seq<char>) -> bool {
    forall|i: int| 0 <= i < s.len() ==> is_ws(#[trigger] s[i])
}

pub open spec fn starts_with(s: Seq<char>, p: Seq<char>) -> bool {
    p.len() <= s.len() && s.take(p.len() as int) == p
}

pub open spec fn ends_with(s: Seq<char>, p: Seq<char>) -> bool {
    p.len() <= s.len() && s.skip(s.len() - p.len()) == p
}

/// ASCII letters mapped to lower case; every other character unchanged.
pub open spec fn lower_char(c: char) -> char {
    if 'A' <= c && c <= 'Z' {
        ((c as u32) + 32) as char
    } else {
        c
    }
}

pub open spec fn ascii_lower(s: Seq<char>) -> Seq<char> {
    s.map_values(|c: char| lower_char(c))
}

/// `eq_ignore_ascii_case` on strings.
pub open spec fn eq_ignore_case(a: Seq<char>, b: Seq<char>) -> bool {
    ascii_lower(a) == ascii_lower(b)
}

/// Every occurrence of `target` replaced by `repl` (`str::replace` with a
/// single-character pattern).
pub open spec fn replace_char_seq(s: Seq<char>, target: char, repl: Seq<char>) -> Seq<char>
    decreases s.len(),
{
    if s.len() == 0 {
        seq![]
    } else {
        replace_char_seq(s.drop_last(), target, repl) + (if s.last() == target {
            repl
        } else {
            seq![s.last()]
        })
    }
}

// ---------------------------------------------------------------------------
// Lemmas
// ---------------------------------------------------------------------------

pub proof fn lemma_replace_char_append(a: Seq<char>, b: Seq<char>, target: char, repl: Seq<char>)
    ensures
        replace_char_seq(a + b, target, repl) == replace_char_seq(a, target, repl)
            + replace_char_seq(b, target, repl),
    decreases b.len(),
{
    if b.len() == 0 {
        assert(a + b == a);
    } else {
        assert((a + b).drop_last() == a + b.drop_last());
        lemma_replace_char_append(a, b.drop_last(), target, repl);
    }
}

pub proof fn lemma_replace_char_absent(s: Seq<char>, target: char, repl: Seq<char>)
    requires
        !s.contains(target),
    ensures
        replace_char_seq(s, target, repl) == s,
    decreases s.len(),
{
    if s.len() > 0 {
        assert(!s.drop_last().contains(target)) by {
            if s.drop_last().contains(target) {
                let i = choose|i: int| 0 <= i < s.drop_last().len() && s.drop_last()[i] == target;
                assert(s[i] == target);
            }
        }
        lemma_replace_char_absent(s.drop_last(), target, repl);
        assert(s.last() != target) by {
            assert(s[s.len() - 1] == s.last());
        }
        assert(s.drop_last().push(s.last()) == s);
    }
}

pub proof fn lemma_trim_start_subrange(s: Seq<char>, i: int)
    requires
        0 <= i <= s.len(),
        forall|k: int| 0 <= k < i ==> is_ws(#[trigger] s[k]),
    ensures
        trim_start(s) == trim_start(s.subrange(i, s.len() as int)),
    decreases i,
{
    if i > 0 {
        assert(s.drop_first() == s.subrange(1, s.len() as int));
        lemma_trim_start_subrange(s.drop_first(), i - 1);
        assert(s.drop_first().subrange(i - 1, s.drop_first().len() as int) == s.subrange(
            i,
            s.len() as int,
        ));
    } else {
        assert(s.subrange(0, s.len() as int) == s);
    }
}

pub proof fn lemma_trim_end_subrange(s: Seq<char>, j: int)
    requires
        0 <= j <= s.len(),
        forall|k: int| j <= k < s.len() ==> is_ws(#[trigger] s[k]),
    ensures
        trim_end(s) == trim_end(s.subrange(0, j)),
    decreases s.len() - j,
{
    if j < s.len() {
        assert(s.drop_last() == s.subrange(0, s.len() - 1));
        assert(is_ws(s[s.len() - 1]));
        lemma_trim_end_subrange(s.drop_last(), j);
        assert(s.drop_last().subrange(0, j) == s.subrange(0, j));
    } else {
        assert(s.subrange(0, j) == s);
    }
}

/// UTF-8 takes between one and four bytes per character.
pub proof fn lemma_encode_utf8_len(s: Seq<char>)
    ensures
        s.len() <= vstd::utf8::encode_utf8(s).len() <= 4 * s.len(),
    decreases s.len(),
{
    if s.len() > 0 {
        lemma_encode_utf8_len(s.drop_first());
        let e = vstd::utf8::encode_scalar(s[0] as u32);
        assert(1 <= e.len() <= 4);
    }
}

/// UTF-8 encoding distributes over concatenation.
pub proof fn lemma_encode_utf8_append(a: Seq<char>, b: Seq<char>)
    ensures
        vstd::utf8::encode_utf8(a + b) == vstd::utf8::encode_utf8(a) + vstd::utf8::encode_utf8(b),
    decreases a.len(),
{
    if a.len() == 0 {
        assert(a + b =~= b);
        assert(vstd::utf8::encode_utf8(a) =~= Seq::<u8>::empty());
    } else {
        lemma_encode_utf8_append(a.drop_first(), b);
        assert((a + b).drop_first() =~= a.drop_first() + b);
        assert((a + b)[0] == a[0]);
    }
}

// ---------------------------------------------------------------------------
// Executable helpers
// ---------------------------------------------------------------------------

/// The characters of a string, in order.
pub fn chars_of(s: &str) -> (v: Vec<char>)
    ensures
        v@ == s@,
{
    let mut v: Vec<char> = Vec::new();
    for c in it: s.chars()
        invariant
            it.seq() == s@,
            v@ == it.seq().take(it.index() as int),
    {
        v.push(c);
        assert(it.seq().take(it.index() + 1) == it.seq().take(it.index() as int).push(c));
    }
    assert(s@.take(s@.len() as int) == s@);
    v
}

/// A string holding `v[from..to]`.
pub fn string_from_chars(v: &Vec<char>, from: usize, to: usize) -> (r: String)
    requires
        from <= to <= v.len(),
    ensures
        r@ == v@.subrange(from as int, to as int),
{
    let mut r = String::new();
    let mut i = from;
    while i < to
        invariant
            from <= i <= to <= v.len(),
            r@ == v@.subrange(from as int, i as int),
        decreases to - i,
    {
        push_char(&mut r, v[i]);
        assert(v@.subrange(from as int, i + 1) == v@.subrange(from as int, i as int).push(v@[i as int]));
        i = i + 1;
    }
    r
}

/// `str::trim`, returning an owned string.
pub fn trim_str(s: &str) -> (r: String)
    ensures
        r@ == trim(s@),
{
    let v = chars_of(s);
    let n = v.len();
    let mut i: usize = 0;
    while i < n && is_whitespace(v[i])
        invariant
            i <= n == v.len(),
            v@ == s@,
            forall|k: int| 0 <= k < i ==> is_ws(#[trigger] v@[k]),
        decreases n - i,
    {
        i = i + 1;
    }
    let mut j: usize = n;
    while j > i && is_whitespace(v[j - 1])
        invariant
            i <= j <= n == v.len(),
            v@ == s@,
            forall|k: int| j <= k < n ==> is_ws(#[trigger] v@[k]),
        decreases j - i,
    {
        j = j - 1;
    }
    proof {
        lemma_trim_start_subrange(s@, i as int);
        let t = s@.subrange(i as int, n as int);
        // t has no leading whitespace
        if i < n {
            assert(!is_ws(t[0]));
        }
        assert(trim_start(t) == t);
        lemma_trim_end_subrange(t, j - i);
        let u = t.subrange(0, j - i);
        assert(u == s@.subrange(i as int, j as int));
        if j > i {
            assert(u.last() == v@[j - 1]);
        }
        assert(trim_end(u) == u);
    }
    string_from_chars(&v, i, j)
}

/// `s.trim().is_empty()`.
pub fn is_blank_str(s: &str) -> (b: bool)
    ensures
        b == is_blank(s@),
{
    let mut all = true;
    for c in it: s.chars()
        invariant
            it.seq() == s@,
            all == (forall|k: int| 0 <= k < it.index() ==> is_ws(#[trigger] s@[k])),
    {
        if !is_whitespace(c) {
            all = false;
        }
    }
    all
}

pub proof fn lemma_blank_iff_trim_empty(s: Seq<char>)
    ensures
        is_blank(s) <==> trim(s).len() == 0,
    decreases s.len(),
{
    if s.len() > 0 {
        if is_ws(s[0]) {
            lemma_blank_iff_trim_empty(s.drop_first());
            if is_blank(s.drop_first()) {
                assert forall|i: int| 0 <= i < s.len() implies is_ws(#[trigger] s[i]) by {
                    if i > 0 {
                        assert(s[i] == s.drop_first()[i - 1]);
                    }
                }
            }
            if is_blank(s) {
                assert forall|i: int| 0 <= i < s.drop_first().len() implies is_ws(
                    #[trigger] s.drop_first()[i],
                ) by {
                    assert(s.drop_first()[i] == s[i + 1]);
                }
            }
        } else {
            assert(trim_start(s) == s);
            lemma_trim_end_keeps_first(s);
        }
    }
}

proof fn lemma_trim_end_keeps_first(s: Seq<char>)
    requires
        s.len() > 0,
        !is_ws(s[0]),
    ensures
        trim_end(s).len() > 0,
    decreases s.len(),
{
    if is_ws(s.last()) {
        assert(s.len() > 1);
        assert(s.drop_last()[0] == s[0]);
        lemma_trim_end_keeps_first(s.drop_last());
    }
}

/// ASCII lower-casing of one character.
pub fn to_lower_char(c: char) -> (r: char)
    ensures
        r == lower_char(c),
{
    if 'A' <= c && c <= 'Z' {
        let u = (c as u32) + 32;
        assert(u == (c as u32) + 32);
        // 'a'..='z' are valid scalar values.
        char_from_ascii_u32(u)
    } else {
        c
    }
}

/// A character from an ASCII code point.
pub fn char_from_ascii_u32(u: u32) -> (c: char)
    requires
        u < 128,
    ensures
        c == u as char,
        c as u32 == u,
{
    (u as u8) as char
}

/// `str::to_ascii_lowercase`.
pub fn to_ascii_lowercase(s: &str) -> (r: String)
    ensures
        r@ == ascii_lower(s@),
{
    let mut r = String::new();
    for c in it: s.chars()
        invariant
            it.seq() == s@,
            r@ == ascii_lower(it.seq().take(it.index() as int)),
    {
        push_char(&mut r, to_lower_char(c));
        assert(ascii_lower(it.seq().take(it.index() + 1)) == ascii_lower(
            it.seq().take(it.index() as int),
        ).push(lower_char(c)));
    }
    assert(s@.take(s@.len() as int) == s@);
    r
}

/// `str::eq_ignore_ascii_case`.
pub fn eq_ignore_ascii_case(a: &str, b: &str) -> (r: bool)
    ensures
        r == eq_ignore_case(a@, b@),
{
    let la = to_ascii_lowercase(a);
    let lb = to_ascii_lowercase(b);
    la == lb
}

/// `==` on string slices.
pub fn str_eq(a: &str, b: &str) -> (r: bool)
    ensures
        r == (a@ == b@),
{
    let x = String::from_str(a);
    let y = String::from_str(b);
    x == y
}

/// `str::replace` with a single-character pattern.
pub fn replace_char(s: &str, target: char, repl: &str) -> (r: String)
    ensures
        r@ == replace_char_seq(s@, target, repl@),
{
    let mut out = String::new();
    for c in it: s.chars()
        invariant
            it.seq() == s@,
            out@ == replace_char_seq(it.seq().take(it.index() as int), target, repl@),
    {
        assert(it.seq().take(it.index() + 1).drop_last() == it.seq().take(it.index() as int));
        if c == target {
            out.append(repl);
        } else {
            push_char(&mut out, c);
        }
    }
    assert(s@.take(s@.len() as int) == s@);
    out
}

/// `str::contains` with a character pattern.
pub fn contains_char(s: &str, target: char) -> (b: bool)
    ensures
        b == s@.contains(target),
{
    let mut found = false;
    for c in it: s.chars()
        invariant
            it.seq() == s@,
            found == (exists|k: int| 0 <= k < it.index() && s@[k] == target),
    {
        if c == target {
            found = true;
        }
    }
    found
}

/// `str::starts_with`.
pub fn starts_with_str(s: &str, p: &str) -> (b: bool)
    ensures
        b == starts_with(s@, p@),
{
    let sv = chars_of(s);
    let pv = chars_of(p);
    if pv.len() > sv.len() {
        return false;
    }
    let mut i: usize = 0;
    while i < pv.len()
        invariant
            i <= pv.len() <= sv.len(),
            sv@ == s@,
            pv@ == p@,
            forall|k: int| 0 <= k < i ==> sv@[k] == pv@[k],
        decreases pv.len() - i,
    {
        if sv[i] != pv[i] {
            assert(s@.take(p@.len() as int)[i as int] != p@[i as int]);
            return false;
        }
        i = i + 1;
    }
    assert(s@.take(p@.len() as int) =~= p@);
    true
}

// ---------------------------------------------------------------------------
// Decimal numbers
// ---------------------------------------------------------------------------

pub open spec fn digit_char(d: nat) -> char {
    (d + 48) as char
}

/// Decimal digits of a natural number, most significant first, no padding.
pub open spec fn dec(n: nat) -> Seq<char>
    decreases n,
{
    if n < 10 {
        seq![digit_char(n)]
    } else {
        dec(n / 10).push(digit_char(n % 10))
    }
}

/// `s` left-padded with `pad` up to `width` characters (`{:0width$}`).
pub open spec fn pad_left(s: Seq<char>, width: nat, pad: char) -> Seq<char> {
    if s.len() >= width {
        s
    } else {
        Seq::new((width - s.len()) as nat, |_i: int| pad) + s
    }
}

pub proof fn lemma_dec_len_pos(n: nat)
    ensures
        dec(n).len() >= 1,
    decreases n,
{
    if n >= 10 {
        lemma_dec_len_pos(n / 10);
    }
}

fn digit(d: u64) -> (c: char)
    requires
        d < 10,
    ensures
        c == digit_char(d as nat),
{
    char_from_ascii_u32((d as u32) + 48)
}

/// Appends the decimal representation of `n`.
pub fn append_dec(out: &mut String, n: u64)
    ensures
        final(out)@ == old(out)@ + dec(n as nat),
    decreases n,
{
    if n >= 10 {
        append_dec(out, n / 10);
    }
    push_char(out, digit(n % 10));
    assert(old(out)@ + dec(n as nat) =~= (if n >= 10 { old(out)@ + dec((n / 10) as nat) } else { old(out)@ }).push(digit_char((n % 10) as nat)));
}

/// `n.to_string()` for unsigned integers.
pub fn u64_to_string(n: u64) -> (r: String)
    ensures
        r@ == dec(n as nat),
{
    let mut r = String::new();
    append_dec(&mut r, n);
    assert(r@ =~= dec(n as nat));
    r
}

/// `format!("{:03}", n)`.
pub fn u64_to_string_padded3(n: u64) -> (r: String)
    ensures
        r@ == pad_left(dec(n as nat), 3, '0'),
{
    let digits = u64_to_string(n);
    proof { lemma_dec_len_pos(n as nat); }
    if n < 10 {
        let mut r = String::from_str("00");
        r.append(digits.as_str());
        proof {
            reveal_strlit("00");
            assert(r@ =~= pad_left(dec(n as nat), 3, '0'));
        }
        r
    } else if n < 100 {
        let mut r = String::from_str("0");
        r.append(digits.as_str());
        proof {
            reveal_strlit("0");
            assert(dec(n as nat).len() == 2) by {
                assert(dec((n / 10) as nat).len() == 1);
            }
            assert(r@ =~= pad_left(dec(n as nat), 3, '0'));
        }
        r
    } else {
        proof {
            assert(dec(n as nat).len() >= 3) by {
                assert(dec((n / 10) as nat).len() >= 2) by {
                    assert(dec(((n / 10) / 10) as nat).len() >= 1) by {
                        lemma_dec_len_pos(((n / 10) / 10) as nat);
                    }
                }
            }
        }
        digits
    }
}

} // verus!
