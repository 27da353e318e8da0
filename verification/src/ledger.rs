//! A keyed accumulator of non-negative amounts.
//!
//! One value lives under each 64-bit key; a key with no entry holds 0. The
//! engine uses one ledger per token for collected fees and one per help
//! request for per-donor contributions. `total_of` (the sum of every entry)
//! lets the escrow invariants tie the recorded pieces to the running totals.

use vstd::prelude::*;

verus! {

use crate::types::Error;

/// The sum of every recorded amount.
pub open spec fn total_of(s: Seq<(u64, i128)>) -> int
    decreases s.len(),
{
    if s.len() == 0 {
        0
    } else {
        total_of(s.drop_last()) + s.last().1
    }
}

/// The amount recorded under `key`; 0 where no entry exists.
pub open spec fn amount_under(s: Seq<(u64, i128)>, key: u64) -> int
    decreases s.len(),
{
    if s.len() == 0 {
        0
    } else if s.last().0 == key {
        s.last().1 as int
    } else {
        amount_under(s.drop_last(), key)
    }
}

/// No key owns two entries.
pub open spec fn keys_unique(s: Seq<(u64, i128)>) -> bool {
    forall|i: int, j: int| #![trigger s[i], s[j]] 0 <= i < j < s.len() ==> s[i].0 != s[j].0
}

/// Every recorded amount is at least 0.
pub open spec fn amounts_nonneg(s: Seq<(u64, i128)>) -> bool {
    forall|i: int| 0 <= i < s.len() ==> (#[trigger] s[i]).1 >= 0
}

pub proof fn lemma_amount_at_index(s: Seq<(u64, i128)>, i: int)
    requires
        keys_unique(s),
        0 <= i < s.len(),
    ensures
        amount_under(s, s[i].0) == s[i].1,
    decreases s.len(),
{
    if i < s.len() - 1 {
        lemma_amount_at_index(s.drop_last(), i);
    }
}

pub proof fn lemma_amount_absent(s: Seq<(u64, i128)>, key: u64)
    requires
        forall|i: int| 0 <= i < s.len() ==> (#[trigger] s[i]).0 != key,
    ensures
        amount_under(s, key) == 0,
    decreases s.len(),
{
    if s.len() > 0 {
        lemma_amount_absent(s.drop_last(), key);
    }
}

pub proof fn lemma_total_nonneg(s: Seq<(u64, i128)>)
    requires
        amounts_nonneg(s),
    ensures
        total_of(s) >= 0,
    decreases s.len(),
{
    if s.len() > 0 {
        lemma_total_nonneg(s.drop_last());
    }
}

/// Each entry contributes to the total, so no single recorded amount can
/// exceed the sum of all of them.
pub proof fn lemma_amount_le_total(s: Seq<(u64, i128)>, key: u64)
    requires
        keys_unique(s),
        amounts_nonneg(s),
    ensures
        0 <= amount_under(s, key) <= total_of(s),
    decreases s.len(),
{
    if s.len() > 0 {
        lemma_total_nonneg(s.drop_last());
        lemma_amount_le_total(s.drop_last(), key);
        assert(s[s.len() - 1].1 >= 0);
    }
}

proof fn lemma_replace_value(s: Seq<(u64, i128)>, i: int, v: i128)
    requires
        keys_unique(s),
        0 <= i < s.len(),
    ensures
        amount_under(s.update(i, (s[i].0, v)), s[i].0) == v,
        forall|k: u64|
            k != s[i].0 ==> #[trigger] amount_under(s.update(i, (s[i].0, v)), k) == amount_under(
                s,
                k,
            ),
        total_of(s.update(i, (s[i].0, v))) == total_of(s) - s[i].1 + v,
        keys_unique(s.update(i, (s[i].0, v))),
    decreases s.len(),
{
    let t = s.update(i, (s[i].0, v));
    if i == s.len() - 1 {
        assert(t.drop_last() =~= s.drop_last());
    } else {
        assert(t.drop_last() =~= s.drop_last().update(i, (s[i].0, v)));
        lemma_replace_value(s.drop_last(), i, v);
        assert(s.last().0 != s[i].0);
        assert forall|k: u64| k != s[i].0 implies #[trigger] amount_under(t, k) == amount_under(
            s,
            k,
        ) by {
            if k == t.last().0 {
            } else {
                assert(amount_under(t, k) == amount_under(t.drop_last(), k));
            }
        }
    }
}

proof fn lemma_append_entry(s: Seq<(u64, i128)>, key: u64, v: i128)
    requires
        forall|i: int| 0 <= i < s.len() ==> (#[trigger] s[i]).0 != key,
    ensures
        amount_under(s.push((key, v)), key) == v,
        forall|k: u64|
            k != key ==> #[trigger] amount_under(s.push((key, v)), k) == amount_under(s, k),
        total_of(s.push((key, v))) == total_of(s) + v,
        keys_unique(s) ==> keys_unique(s.push((key, v))),
    decreases s.len(),
{
    let t = s.push((key, v));
    assert(t.drop_last() =~= s);
    assert(t.last() == (key, v));
}

/// A set of non-negative amounts, one under each 64-bit key; a key without
/// an entry holds 0.
pub struct AmountLedger {
    pub entries: Vec<(u64, i128)>,
}

impl AmountLedger {
    /// Entries are well formed: one per key, none negative.
    pub open spec fn wf(&self) -> bool {
        keys_unique(self.entries@) && amounts_nonneg(self.entries@)
    }

    /// The amount recorded under `key`.
    pub open spec fn spec_amount(&self, key: u64) -> int {
        amount_under(self.entries@, key)
    }

    /// The sum of every recorded amount.
    pub open spec fn spec_total(&self) -> int {
        total_of(self.entries@)
    }

    /// An empty ledger: every key holds 0.
    pub fn new() -> (r: AmountLedger)
        ensures
            r.wf(),
            r.spec_total() == 0,
            forall|k: u64| #[trigger] r.spec_amount(k) == 0,
    {
        AmountLedger { entries: Vec::new() }
    }

    /// The position of the entry under `key`, if one exists.
    fn position_of(&self, key: u64) -> (r: Option<usize>)
        ensures
            match r {
                Some(i) => i < self.entries@.len() && self.entries@[i as int].0 == key,
                None => forall|i: int|
                    0 <= i < self.entries@.len() ==> (#[trigger] self.entries@[i]).0 != key,
            },
    {
        let n = self.entries.len();
        let mut i: usize = 0;
        while i < n
            invariant
                n == self.entries@.len(),
                i <= n,
                forall|j: int| 0 <= j < i ==> (#[trigger] self.entries@[j]).0 != key,
            decreases n - i,
        {
            if self.entries[i].0 == key {
                return Some(i);
            }
            i = i + 1;
        }
        None
    }

    /// The amount recorded under `key`.
    pub fn amount_of(&self, key: u64) -> (r: i128)
        requires
            self.wf(),
        ensures
            r as int == self.spec_amount(key),
    {
        match self.position_of(key) {
            Some(i) => {
                proof {
                    lemma_amount_at_index(self.entries@, i as int);
                }
                self.entries[i].1
            },
            None => {
                proof {
                    lemma_amount_absent(self.entries@, key);
                }
                0
            },
        }
    }

    /// Record `amount` more under `key`, refusing to overflow the entry.
    /// No other key moves.
    pub fn credit(&mut self, key: u64, amount: i128) -> (r: Result<(), Error>)
        requires
            old(self).wf(),
            amount >= 0,
        ensures
            final(self).wf(),
            match r {
                Ok(()) => {
                    &&& old(self).spec_amount(key) + amount <= i128::MAX
                    &&& final(self).spec_amount(key) == old(self).spec_amount(key) + amount
                    &&& final(self).spec_total() == old(self).spec_total() + amount
                },
                Err(e) => {
                    &&& e == Error::ArithmeticOverflow
                    &&& old(self).spec_amount(key) + amount > i128::MAX
                    &&& *final(self) == *old(self)
                },
            },
            forall|k: u64|
                k != key ==> #[trigger] final(self).spec_amount(k) == old(self).spec_amount(k),
    {
        match self.position_of(key) {
            Some(i) => {
                proof {
                    lemma_amount_at_index(self.entries@, i as int);
                }
                let current = self.entries[i].1;
                match current.checked_add(amount) {
                    Some(updated) => {
                        proof {
                            lemma_replace_value(self.entries@, i as int, updated);
                        }
                        self.entries[i] = (key, updated);
                        Ok(())
                    },
                    None => Err(Error::ArithmeticOverflow),
                }
            },
            None => {
                proof {
                    lemma_amount_absent(self.entries@, key);
                    lemma_append_entry(self.entries@, key, amount);
                }
                self.entries.push((key, amount));
                Ok(())
            },
        }
    }

    /// Reset the amount under `key` to 0. No other key moves.
    pub fn clear(&mut self, key: u64)
        requires
            old(self).wf(),
        ensures
            final(self).wf(),
            final(self).spec_amount(key) == 0,
            final(self).spec_total() == old(self).spec_total() - old(self).spec_amount(key),
            forall|k: u64|
                k != key ==> #[trigger] final(self).spec_amount(k) == old(self).spec_amount(k),
    {
        match self.position_of(key) {
            Some(i) => {
                proof {
                    lemma_amount_at_index(self.entries@, i as int);
                    lemma_replace_value(self.entries@, i as int, 0);
                }
                self.entries[i] = (key, 0);
            },
            None => {
                proof {
                    lemma_amount_absent(self.entries@, key);
                }
            },
        }
    }
}

} // verus!
