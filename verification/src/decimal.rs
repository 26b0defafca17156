//! Decimal amounts of the ledger, carried as `rust_decimal` values in their
//! serialized form; the arithmetic and the text are rust_decimal's own.
use vstd::prelude::*;
use rust_decimal::Decimal;
use crate::ledger::latest_value;
use crate::text::str_eq;

verus! {

/// A decimal amount: the 16 bytes of `rust_decimal::Decimal::serialize`
/// (the flag word, then the low, middle and high words of the mantissa,
/// each little-endian).
#[derive(Clone, Copy, Debug)]
pub struct Amount {
    pub bytes: [u8; 16],
}

/// What `Decimal::checked_add` gives for two serialized decimals: the
/// serialized sum, or `None` when the sum overflows.
pub uninterp spec fn decimal_sum(a: Seq<u8>, b: Seq<u8>) -> Option<Seq<u8>>;

/// What `Decimal::checked_sub` gives for two serialized decimals: the
/// serialized difference `a - b`, or `None` when it overflows.
pub uninterp spec fn decimal_difference(a: Seq<u8>, b: Seq<u8>) -> Option<Seq<u8>>;

/// The text `Decimal::to_string` gives for a serialized decimal.
pub uninterp spec fn decimal_text(a: Seq<u8>) -> Seq<char>;

/// Whether a serialized decimal equals `Decimal::ZERO`.
pub uninterp spec fn decimal_is_zero(a: Seq<u8>) -> bool;

/// What `Decimal::from_str` gives for a text, serialized; `None` when the
/// text is not a decimal number.
pub uninterp spec fn decimal_parse(text: Seq<char>) -> Option<Seq<u8>>;

/// The serialized form of `Decimal::ZERO`: every flag and mantissa bit clear.
pub open spec fn zero_bytes() -> Seq<u8> {
    Seq::new(16, |i: int| 0u8)
}

/// The running sum `0 + xs[0] + xs[1] + ...`, added left to right as
/// `Decimal`'s `+=` does; `None` once a step overflows.
pub open spec fn sum_amounts(xs: Seq<Seq<u8>>) -> Option<Seq<u8>>
    decreases xs.len(),
{
    if xs.len() == 0 {
        Some(zero_bytes())
    } else {
        match sum_amounts(xs.drop_last()) {
            Some(s) => decimal_sum(s, xs.last()),
            None => None,
        }
    }
}

/// The running balance `0 + (d0 - c0) + (d1 - c1) + ...` of debit/credit
/// pairs; `None` once a difference or a sum overflows.
pub open spec fn balance_of(entries: Seq<(Seq<u8>, Seq<u8>)>) -> Option<Seq<u8>>
    decreases entries.len(),
{
    if entries.len() == 0 {
        Some(zero_bytes())
    } else {
        match balance_of(entries.drop_last()) {
            Some(s) => match decimal_difference(entries.last().0, entries.last().1) {
                Some(x) => decimal_sum(s, x),
                None => None,
            },
            None => None,
        }
    }
}

pub open spec fn debits_of(entries: Seq<(Seq<u8>, Seq<u8>)>) -> Seq<Seq<u8>> {
    entries.map_values(|e: (Seq<u8>, Seq<u8>)| e.0)
}

pub open spec fn credits_of(entries: Seq<(Seq<u8>, Seq<u8>)>) -> Seq<Seq<u8>> {
    entries.map_values(|e: (Seq<u8>, Seq<u8>)| e.1)
}

/// The serialized form of `Decimal::ONE`: no flag, mantissa 1.
pub open spec fn one_bytes() -> Seq<u8> {
    Seq::new(16, |i: int| if i == 4 { 1u8 } else { 0u8 })
}

impl Amount {
    /// `Decimal::ONE`.
    pub fn one() -> (r: Amount)
        ensures
            r.bytes@ == one_bytes(),
    {
        let r = Amount { bytes: [0u8, 0, 0, 0, 1, 0, 0, 0, 0, 0, 0, 0, 0, 0, 0, 0] };
        assert(r.bytes@ =~= one_bytes());
        r
    }

    /// `Decimal::ZERO`.
    pub fn zero() -> (r: Amount)
        ensures
            r.bytes@ == zero_bytes(),
    {
        let r = Amount { bytes: [0u8, 0, 0, 0, 0, 0, 0, 0, 0, 0, 0, 0, 0, 0, 0, 0] };
        assert(r.bytes@ =~= zero_bytes());
        r
    }
}

/// `Decimal::checked_add` on the two deserialized amounts, serialized back.
/// The contract claims only that the result is the named sum.
#[verifier::external_body]
pub(crate) fn checked_add(a: &Amount, b: &Amount) -> (r: Option<Amount>)
    ensures
        match r {
            Some(s) => decimal_sum(a.bytes@, b.bytes@) == Some(s.bytes@),
            None => decimal_sum(a.bytes@, b.bytes@) is None,
        },
{
    match Decimal::deserialize(a.bytes).checked_add(Decimal::deserialize(b.bytes)) {
        Some(d) => Some(Amount { bytes: d.serialize() }),
        None => None,
    }
}

/// `Decimal::checked_sub` on the two deserialized amounts, serialized back.
/// The contract claims only that the result is the named difference.
#[verifier::external_body]
pub(crate) fn checked_sub(a: &Amount, b: &Amount) -> (r: Option<Amount>)
    ensures
        match r {
            Some(s) => decimal_difference(a.bytes@, b.bytes@) == Some(s.bytes@),
            None => decimal_difference(a.bytes@, b.bytes@) is None,
        },
{
    match Decimal::deserialize(a.bytes).checked_sub(Decimal::deserialize(b.bytes)) {
        Some(d) => Some(Amount { bytes: d.serialize() }),
        None => None,
    }
}

/// `Decimal::from_str` of the text, serialized. The contract claims only
/// that the result is the named one.
#[verifier::external_body]
pub(crate) fn parse_decimal(text: &str) -> (r: Option<Amount>)
    ensures
        match r {
            Some(a) => decimal_parse(text@) == Some(a.bytes@),
            None => decimal_parse(text@) is None,
        },
{
    match text.parse::<Decimal>() {
        Ok(d) => Some(Amount { bytes: d.serialize() }),
        Err(_) => None,
    }
}

/// Whether the deserialized amount equals `Decimal::ZERO`. The contract
/// claims only that the answer is the named one.
#[verifier::external_body]
pub(crate) fn is_zero_amount(a: &Amount) -> (r: bool)
    ensures
        r == decimal_is_zero(a.bytes@),
{
    Decimal::deserialize(a.bytes) == Decimal::ZERO
}

/// `Decimal::to_string` of the deserialized amount. The contract claims that
/// the text is the named one and has at most 33 characters: rust_decimal
/// builds it in a 32-character buffer and `Display` adds at most a sign.
#[verifier::external_body]
pub(crate) fn amount_text(a: &Amount) -> (r: String)
    ensures
        r@ == decimal_text(a.bytes@),
        r@.len() <= 33,
{
    Decimal::deserialize(a.bytes).to_string()
}

/// The balance an account has once an entry with `debit` and `credit` is
/// added to `previous`: `previous + (debit - credit)`.
pub open spec fn next_balance(previous: Seq<u8>, debit: Seq<u8>, credit: Seq<u8>) -> Option<Seq<u8>> {
    match decimal_difference(debit, credit) {
        Some(x) => decimal_sum(previous, x),
        None => None,
    }
}

/// The running balance of each account, in the order the accounts came.
pub struct RunningBalances {
    items: Vec<(String, Amount)>,
}

pub open spec fn balance_pairs(v: Seq<(String, Amount)>) -> Seq<(Seq<char>, Seq<u8>)> {
    v.map_values(|p: (String, Amount)| (p.0@, p.1.bytes@))
}

impl RunningBalances {
    /// The balance of `account`, if it has had an entry.
    pub closed spec fn balance(&self, account: Seq<char>) -> Option<Seq<u8>> {
        latest_value(balance_pairs(self.items@), account)
    }

    pub fn new() -> (r: Self)
        ensures
            forall|a: Seq<char>| #[trigger] r.balance(a) is None,
    {
        RunningBalances { items: Vec::new() }
    }

    /// Adds `debit - credit` to the balance of `account` (zero at first) and
    /// returns the new balance.
    pub fn advance(&mut self, account: &str, debit: &Amount, credit: &Amount) -> (r: Result<Amount, String>)
        ensures
            decimal_difference(debit.bytes@, credit.bytes@) is None <==> r is Err && r->Err_0@
                == "Subtraction overflowed"@,
            next_balance(
                match old(self).balance(account@) {
                    Some(b) => b,
                    None => zero_bytes(),
                },
                debit.bytes@,
                credit.bytes@,
            ) is Some <==> r is Ok,
            r is Err ==> r->Err_0@ == "Subtraction overflowed"@ || r->Err_0@ == "Addition overflowed"@,
            r is Ok ==> {
                &&& Some(r->Ok_0.bytes@) == next_balance(
                    match old(self).balance(account@) {
                        Some(b) => b,
                        None => zero_bytes(),
                    },
                    debit.bytes@,
                    credit.bytes@,
                )
                &&& final(self).balance(account@) == Some(r->Ok_0.bytes@)
                &&& forall|a: Seq<char>| a != account@ ==> #[trigger] final(self).balance(a) == old(self).balance(a)
            },
    {
        proof {
            reveal_strlit("Addition overflowed");
            reveal_strlit("Subtraction overflowed");
            assert("Addition overflowed"@ != "Subtraction overflowed"@) by {
                assert("Addition overflowed"@[0] != "Subtraction overflowed"@[0]);
            }
        }
        let mut i = self.items.len();
        let ghost pairs = balance_pairs(self.items@);
        assert(pairs.take(i as int) =~= pairs);
        while i > 0
            invariant
                i <= self.items.len(),
                pairs == balance_pairs(self.items@),
                latest_value(pairs, account@) == latest_value(pairs.take(i as int), account@),
                forall|k: int| i <= k < self.items.len() ==> (#[trigger] self.items@[k]).0@ != account@,
            ensures
                i <= self.items.len(),
                latest_value(pairs, account@) == latest_value(pairs.take(i as int), account@),
                forall|k: int| i <= k < self.items.len() ==> (#[trigger] self.items@[k]).0@ != account@,
                i > 0 ==> self.items@[i - 1].0@ == account@,
            decreases i,
        {
            assert(pairs.take(i as int).drop_last() =~= pairs.take(i - 1));
            if str_eq(self.items[i - 1].0.as_str(), account) {
                break;
            }
            i = i - 1;
        }
        proof {
            if i > 0 {
                assert(pairs.take(i as int).last() == (account@, self.items@[i - 1].1.bytes@));
                assert(latest_value(pairs, account@) == Some(self.items@[i - 1].1.bytes@));
            } else {
                assert(pairs.take(0) =~= Seq::<(Seq<char>, Seq<u8>)>::empty());
            }
        }
        let previous = if i > 0 {
            self.items[i - 1].1
        } else {
            Amount::zero()
        };
        let net = match checked_sub(debit, credit) {
            Some(v) => v,
            None => {
                return Err(String::from_str("Subtraction overflowed"));
            },
        };
        let balance = match checked_add(&previous, &net) {
            Some(v) => v,
            None => {
                return Err(String::from_str("Addition overflowed"));
            },
        };
        let ghost old_items = self.items@;
        if i > 0 {
            let name = String::from_str(account);
            self.items.set(i - 1, (name, balance));
            proof {
                lemma_latest_after_set(old_items, self.items@, (i - 1) as int, account@);
            }
        } else {
            self.items.push((String::from_str(account), balance));
            proof {
                assert(balance_pairs(self.items@) =~= balance_pairs(old_items).push((account@, balance.bytes@)));
                assert(balance_pairs(self.items@).drop_last() =~= balance_pairs(old_items));
            }
        }
        Ok(balance)
    }
}

/// Replacing the value of the latest pair of a key changes the value found
/// for that key only.
proof fn lemma_latest_after_set(old_items: Seq<(String, Amount)>, new_items: Seq<(String, Amount)>, j: int, key: Seq<char>)
    requires
        0 <= j < old_items.len(),
        new_items.len() == old_items.len(),
        old_items[j].0@ == key,
        new_items[j].0@ == key,
        forall|k: int| 0 <= k < old_items.len() && k != j ==> new_items[k] == old_items[k],
        forall|k: int| j < k < old_items.len() ==> old_items[k].0@ != key,
    ensures
        latest_value(balance_pairs(new_items), key) == Some(new_items[j].1.bytes@),
        forall|a: Seq<char>|
            a != key ==> #[trigger] latest_value(balance_pairs(new_items), a) == latest_value(
                balance_pairs(old_items),
                a,
            ),
    decreases old_items.len(),
{
    let n = old_items.len();
    let np = balance_pairs(new_items);
    let op = balance_pairs(old_items);
    if j < n - 1 {
        lemma_latest_after_set(old_items.drop_last(), new_items.drop_last(), j, key);
        assert(np.drop_last() =~= balance_pairs(new_items.drop_last()));
        assert(op.drop_last() =~= balance_pairs(old_items.drop_last()));
        assert(new_items.last() == old_items.last());
        assert(np.last() == op.last());
        assert(old_items[n - 1].0@ != key);
        assert forall|a: Seq<char>| a != key implies #[trigger] latest_value(np, a) == latest_value(op, a) by {
            assert(latest_value(balance_pairs(new_items.drop_last()), a) == latest_value(
                balance_pairs(old_items.drop_last()),
                a,
            ));
        }
    } else {
        assert(np.drop_last() =~= op.drop_last()) by {
            assert forall|k: int| 0 <= k < n - 1 implies np.drop_last()[k] == op.drop_last()[k] by {
                assert(new_items[k] == old_items[k]);
            }
        }
        assert(np.last().0 == key);
        assert(op.last().0 == key);
        assert forall|a: Seq<char>| a != key implies #[trigger] latest_value(np, a) == latest_value(op, a) by {
        }
    }
}

} // verus!
