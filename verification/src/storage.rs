//! The durable storage accessor layer for leased entries.
//!
//! The host's durable store has two tiers: non-expiring entries for
//! contract-identity fields (held as plain fields of the contract state) and
//! leased entries that expire unless renewed. This module models the leased
//! tier: a keyed collection of integer amounts, each entry carrying the
//! ledger sequence number until which it stays accessible. Every read or
//! write of a live entry renews its lease to a fixed window; an entry whose
//! lease has lapsed reads as its absence-default, zero.

use vstd::prelude::*;
use crate::storage_types::{BUMP_AMOUNT, LIFETIME_THRESHOLD};

verus! {

/// One leased entry: a two-part key, the stored amount, and the ledger
/// sequence number up to which the entry remains accessible.
#[derive(Clone, Copy, PartialEq, Eq, Structural, Debug)]
pub struct LeasedEntry {
    pub key_a: u64,
    pub key_b: u64,
    pub amount: i128,
    pub live_until: u64,
}

/// True when the entry is keyed by `(a, b)`.
pub open spec fn is_key(e: LeasedEntry, a: u64, b: u64) -> bool {
    e.key_a == a && e.key_b == b
}

/// The first entry keyed by `(a, b)`, if one is stored.
pub open spec fn lookup(s: Seq<LeasedEntry>, a: u64, b: u64) -> Option<LeasedEntry>
    decreases s.len(),
{
    if s.len() == 0 {
        None
    } else if is_key(s[0], a, b) {
        Some(s[0])
    } else {
        lookup(s.drop_first(), a, b)
    }
}

/// Whether some entry is stored under `(a, b)`, live or not.
pub open spec fn has_entry(s: Seq<LeasedEntry>, a: u64, b: u64) -> bool {
    lookup(s, a, b).is_some()
}

/// The stored amount under `(a, b)`, ignoring the lease; zero when absent.
pub open spec fn stored_amount(s: Seq<LeasedEntry>, a: u64, b: u64) -> i128 {
    match lookup(s, a, b) {
        Some(e) => e.amount,
        None => 0,
    }
}

/// The lease bound of the entry under `(a, b)`; zero when absent.
pub open spec fn lease_of(s: Seq<LeasedEntry>, a: u64, b: u64) -> u64 {
    match lookup(s, a, b) {
        Some(e) => e.live_until,
        None => 0,
    }
}

/// The amount an accessor observes at ledger sequence `seq`: the stored
/// amount while the lease holds, the absence-default zero otherwise.
pub open spec fn live_amount(s: Seq<LeasedEntry>, a: u64, b: u64, seq: u32) -> i128 {
    match lookup(s, a, b) {
        Some(e) => if e.live_until >= seq as u64 { e.amount } else { 0 },
        None => 0,
    }
}

/// An entry is fresh at `seq` when what an accessor observes is exactly what
/// is stored: the entry is live, holds zero, or is absent.
pub open spec fn entry_fresh(s: Seq<LeasedEntry>, a: u64, b: u64, seq: u32) -> bool {
    stored_amount(s, a, b) == live_amount(s, a, b, seq)
}

/// Sum of all stored amounts, ignoring leases.
pub open spec fn stored_sum(s: Seq<LeasedEntry>) -> int
    decreases s.len(),
{
    if s.len() == 0 {
        0
    } else {
        s[0].amount + stored_sum(s.drop_first())
    }
}

/// Sum of the stored amounts of the entries whose first key part is `a`.
pub open spec fn stored_sum_for(s: Seq<LeasedEntry>, a: u64) -> int
    decreases s.len(),
{
    if s.len() == 0 {
        0
    } else if s[0].key_a == a {
        s[0].amount + stored_sum_for(s.drop_first(), a)
    } else {
        stored_sum_for(s.drop_first(), a)
    }
}

/// Both collections observe the same amounts at `seq` and store the same
/// amounts under every key; only leases of `post` may have moved forward.
pub open spec fn values_preserved(pre: Seq<LeasedEntry>, post: Seq<LeasedEntry>, seq: u32) -> bool {
    &&& forall|a: u64, b: u64| has_entry(post, a, b) == has_entry(pre, a, b)
    &&& forall|a: u64, b: u64| stored_amount(post, a, b) == stored_amount(pre, a, b)
    &&& forall|a: u64, b: u64| lease_of(post, a, b) >= lease_of(pre, a, b)
    &&& forall|a: u64, b: u64| live_amount(post, a, b, seq) == live_amount(pre, a, b, seq)
    &&& stored_sum(post) == stored_sum(pre)
    &&& forall|a: u64| stored_sum_for(post, a) == stored_sum_for(pre, a)
}

proof fn lemma_lookup_skip(s: Seq<LeasedEntry>, a: u64, b: u64, i: int)
    requires
        0 <= i <= s.len(),
        forall|j: int| 0 <= j < i ==> !is_key(s[j], a, b),
    ensures
        lookup(s, a, b) == lookup(s.skip(i), a, b),
    decreases i,
{
    if i == 0 {
        assert(s.skip(0) =~= s);
    } else {
        assert(!is_key(s[0], a, b));
        lemma_lookup_skip(s.drop_first(), a, b, i - 1);
        assert(s.drop_first().skip(i - 1) =~= s.skip(i));
    }
}

proof fn lemma_lookup_update_other(s: Seq<LeasedEntry>, i: int, e: LeasedEntry, a: u64, b: u64)
    requires
        0 <= i < s.len(),
        e.key_a == s[i].key_a,
        e.key_b == s[i].key_b,
        !is_key(e, a, b),
    ensures
        lookup(s.update(i, e), a, b) == lookup(s, a, b),
    decreases s.len(),
{
    let t = s.update(i, e);
    if i == 0 {
        assert(!is_key(s[0], a, b));
        assert(t.drop_first() =~= s.drop_first());
    } else {
        assert(t[0] == s[0]);
        if !is_key(s[0], a, b) {
            assert(t.drop_first() =~= s.drop_first().update(i - 1, e));
            lemma_lookup_update_other(s.drop_first(), i - 1, e, a, b);
        }
    }
}

proof fn lemma_lookup_push_other(s: Seq<LeasedEntry>, e: LeasedEntry, a: u64, b: u64)
    requires
        !is_key(e, a, b),
    ensures
        lookup(s.push(e), a, b) == lookup(s, a, b),
    decreases s.len(),
{
    let t = s.push(e);
    if s.len() == 0 {
        assert(t[0] == e);
        assert(t.drop_first() =~= Seq::<LeasedEntry>::empty());
        assert(lookup(t, a, b) == lookup(t.drop_first(), a, b));
        assert(lookup(Seq::<LeasedEntry>::empty(), a, b).is_none());
    } else {
        assert(t[0] == s[0]);
        if !is_key(s[0], a, b) {
            assert(t.drop_first() =~= s.drop_first().push(e));
            lemma_lookup_push_other(s.drop_first(), e, a, b);
            assert(lookup(t, a, b) == lookup(t.drop_first(), a, b));
        } else {
            assert(lookup(t, a, b) == Some(t[0]));
            assert(lookup(s, a, b) == Some(s[0]));
        }
    }
}

proof fn lemma_sum_update(s: Seq<LeasedEntry>, i: int, e: LeasedEntry)
    requires
        0 <= i < s.len(),
    ensures
        stored_sum(s.update(i, e)) == stored_sum(s) - s[i].amount + e.amount,
    decreases s.len(),
{
    let t = s.update(i, e);
    if i == 0 {
        assert(t.drop_first() =~= s.drop_first());
    } else {
        assert(t[0] == s[0]);
        assert(t.drop_first() =~= s.drop_first().update(i - 1, e));
        lemma_sum_update(s.drop_first(), i - 1, e);
    }
}

proof fn lemma_sum_push(s: Seq<LeasedEntry>, e: LeasedEntry)
    ensures
        stored_sum(s.push(e)) == stored_sum(s) + e.amount,
    decreases s.len(),
{
    let t = s.push(e);
    if s.len() == 0 {
        assert(t[0] == e);
        assert(t.drop_first() =~= Seq::<LeasedEntry>::empty());
        assert(stored_sum(t) == e.amount + stored_sum(t.drop_first()));
        assert(stored_sum(Seq::<LeasedEntry>::empty()) == 0);
    } else {
        assert(t[0] == s[0]);
        assert(t.drop_first() =~= s.drop_first().push(e));
        lemma_sum_push(s.drop_first(), e);
        assert(stored_sum(t) == t[0].amount + stored_sum(t.drop_first()));
    }
}

proof fn lemma_sum_for_update(s: Seq<LeasedEntry>, i: int, e: LeasedEntry, a: u64)
    requires
        0 <= i < s.len(),
    ensures
        stored_sum_for(s.update(i, e), a) == stored_sum_for(s, a)
            - (if s[i].key_a == a { s[i].amount as int } else { 0 })
            + (if e.key_a == a { e.amount as int } else { 0 }),
    decreases s.len(),
{
    let t = s.update(i, e);
    if i == 0 {
        assert(t.drop_first() =~= s.drop_first());
    } else {
        assert(t[0] == s[0]);
        assert(t.drop_first() =~= s.drop_first().update(i - 1, e));
        lemma_sum_for_update(s.drop_first(), i - 1, e, a);
    }
}

proof fn lemma_sum_for_push(s: Seq<LeasedEntry>, e: LeasedEntry, a: u64)
    ensures
        stored_sum_for(s.push(e), a) == stored_sum_for(s, a)
            + (if e.key_a == a { e.amount as int } else { 0 }),
    decreases s.len(),
{
    let t = s.push(e);
    if s.len() == 0 {
        assert(t[0] == e);
        assert(t.drop_first() =~= Seq::<LeasedEntry>::empty());
        assert(stored_sum_for(Seq::<LeasedEntry>::empty(), a) == 0);
        if e.key_a == a {
            assert(stored_sum_for(t, a) == e.amount + stored_sum_for(t.drop_first(), a));
        } else {
            assert(stored_sum_for(t, a) == stored_sum_for(t.drop_first(), a));
        }
    } else {
        assert(t[0] == s[0]);
        assert(t.drop_first() =~= s.drop_first().push(e));
        lemma_sum_for_push(s.drop_first(), e, a);
        if t[0].key_a == a {
            assert(stored_sum_for(t, a) == t[0].amount + stored_sum_for(t.drop_first(), a));
            assert(stored_sum_for(s, a) == s[0].amount + stored_sum_for(s.drop_first(), a));
        } else {
            assert(stored_sum_for(t, a) == stored_sum_for(t.drop_first(), a));
            assert(stored_sum_for(s, a) == stored_sum_for(s.drop_first(), a));
        }
    }
}

/// The leased tier of the durable store for one kind of keyed amount.
pub struct LeasedMap {
    pub entries: Vec<LeasedEntry>,
}

impl LeasedMap {
    /// An empty collection: every key reads as its absence-default.
    pub fn new() -> (r: Self)
        ensures
            r.entries@.len() == 0,
    {
        LeasedMap { entries: Vec::new() }
    }

    /// Index of the first entry keyed by `(a, b)`, with nothing before it
    /// under that key.
    fn locate(&self, a: u64, b: u64) -> (r: Option<usize>)
        ensures
            match r {
                Some(i) => i < self.entries@.len()
                    && is_key(self.entries@[i as int], a, b)
                    && (forall|j: int| 0 <= j < i ==> !is_key(self.entries@[j], a, b))
                    && lookup(self.entries@, a, b) == Some(self.entries@[i as int]),
                None => lookup(self.entries@, a, b).is_none()
                    && (forall|j: int| 0 <= j < self.entries@.len()
                        ==> !is_key(self.entries@[j], a, b)),
            },
    {
        let n: usize = self.entries.len();
        let mut i: usize = 0;
        while i < n
            invariant
                n == self.entries@.len(),
                i <= n,
                forall|j: int| 0 <= j < i ==> !is_key(self.entries@[j], a, b),
            decreases n - i,
        {
            if self.entries[i].key_a == a && self.entries[i].key_b == b {
                proof {
                    lemma_lookup_skip(self.entries@, a, b, i as int);
                    assert(self.entries@.skip(i as int)[0] == self.entries@[i as int]);
                    assert(lookup(self.entries@.skip(i as int), a, b)
                        == Some(self.entries@[i as int]));
                }
                return Some(i);
            }
            i = i + 1;
        }
        proof {
            lemma_lookup_skip(self.entries@, a, b, n as int);
            assert(self.entries@.skip(n as int).len() == 0);
        }
        None
    }

    /// Read the observable amount under `(a, b)` without touching the lease.
    pub fn peek(&self, a: u64, b: u64, seq: u32) -> (r: i128)
        ensures
            r == live_amount(self.entries@, a, b, seq),
    {
        match self.locate(a, b) {
            Some(i) => {
                let e = self.entries[i];
                if e.live_until >= seq as u64 {
                    e.amount
                } else {
                    0
                }
            }
            None => 0,
        }
    }

    /// Renew the lease of the entry under `(a, b)` if it is live at `seq`.
    /// Stored amounts and the amounts observable at `seq` are unchanged.
    pub fn touch(&mut self, a: u64, b: u64, seq: u32)
        ensures
            values_preserved(old(self).entries@, final(self).entries@, seq),
            forall|a2: u64, b2: u64| !(a2 == a && b2 == b)
                ==> lookup(final(self).entries@, a2, b2) == lookup(old(self).entries@, a2, b2),
            has_entry(old(self).entries@, a, b) && lease_of(old(self).entries@, a, b) >= seq as u64
                ==> lease_of(final(self).entries@, a, b)
                    >= seq as u64 + LIFETIME_THRESHOLD as u64,
    {
        let ghost pre = self.entries@;
        match self.locate(a, b) {
            Some(i) => {
                let e = self.entries[i];
                if e.live_until >= seq as u64 && e.live_until < seq as u64 + LIFETIME_THRESHOLD as u64 {
                    let renewed = LeasedEntry {
                        live_until: seq as u64 + BUMP_AMOUNT as u64,
                        ..e
                    };
                    self.entries[i] = renewed;
                    proof {
                        lemma_lookup_skip(self.entries@, a, b, i as int);
                        assert(self.entries@.skip(i as int)[0] == renewed);
                        lemma_sum_update(pre, i as int, renewed);
                        assert forall|a2: u64| stored_sum_for(self.entries@, a2)
                            == stored_sum_for(pre, a2) by {
                            lemma_sum_for_update(pre, i as int, renewed, a2);
                        }
                        assert forall|a2: u64, b2: u64| !(a2 == a && b2 == b)
                            implies lookup(self.entries@, a2, b2) == lookup(pre, a2, b2) by {
                            lemma_lookup_update_other(pre, i as int, renewed, a2, b2);
                        }
                    }
                }
            }
            None => {}
        }
    }

    /// Read the observable amount under `(a, b)` and renew its lease.
    pub fn get(&mut self, a: u64, b: u64, seq: u32) -> (r: i128)
        ensures
            r == live_amount(old(self).entries@, a, b, seq),
            values_preserved(old(self).entries@, final(self).entries@, seq),
            forall|a2: u64, b2: u64| !(a2 == a && b2 == b)
                ==> lookup(final(self).entries@, a2, b2) == lookup(old(self).entries@, a2, b2),
            has_entry(old(self).entries@, a, b) && lease_of(old(self).entries@, a, b) >= seq as u64
                ==> lease_of(final(self).entries@, a, b)
                    >= seq as u64 + LIFETIME_THRESHOLD as u64,
    {
        let r = self.peek(a, b, seq);
        self.touch(a, b, seq);
        r
    }

    /// Store `amount` under `(a, b)` and renew the entry's lease.
    pub fn set(&mut self, a: u64, b: u64, amount: i128, seq: u32)
        ensures
            has_entry(final(self).entries@, a, b),
            stored_amount(final(self).entries@, a, b) == amount,
            live_amount(final(self).entries@, a, b, seq) == amount,
            lease_of(final(self).entries@, a, b) >= seq as u64 + LIFETIME_THRESHOLD as u64,
            forall|a2: u64, b2: u64| !(a2 == a && b2 == b)
                ==> lookup(final(self).entries@, a2, b2) == lookup(old(self).entries@, a2, b2),
            stored_sum(final(self).entries@)
                == stored_sum(old(self).entries@) - stored_amount(old(self).entries@, a, b)
                    + amount,
            forall|a2: u64| stored_sum_for(final(self).entries@, a2)
                == stored_sum_for(old(self).entries@, a2)
                    - (if a2 == a { stored_amount(old(self).entries@, a, b) as int } else { 0 })
                    + (if a2 == a { amount as int } else { 0 }),
    {
        let ghost pre = self.entries@;
        match self.locate(a, b) {
            Some(i) => {
                let e = self.entries[i];
                let renewed_lease: u64 =
                    if e.live_until < seq as u64 + LIFETIME_THRESHOLD as u64 {
                        seq as u64 + BUMP_AMOUNT as u64
                    } else {
                        e.live_until
                    };
                let updated = LeasedEntry {
                    key_a: a,
                    key_b: b,
                    amount,
                    live_until: renewed_lease,
                };
                self.entries[i] = updated;
                proof {
                    lemma_lookup_skip(self.entries@, a, b, i as int);
                    assert(self.entries@.skip(i as int)[0] == updated);
                    lemma_sum_update(pre, i as int, updated);
                    assert forall|a2: u64| stored_sum_for(self.entries@, a2)
                        == stored_sum_for(pre, a2)
                            - (if a2 == a { stored_amount(pre, a, b) as int } else { 0 })
                            + (if a2 == a { amount as int } else { 0 }) by {
                        lemma_sum_for_update(pre, i as int, updated, a2);
                    }
                    assert forall|a2: u64, b2: u64| !(a2 == a && b2 == b)
                        implies lookup(self.entries@, a2, b2) == lookup(pre, a2, b2) by {
                        lemma_lookup_update_other(pre, i as int, updated, a2, b2);
                    }
                }
            }
            None => {
                let fresh = LeasedEntry {
                    key_a: a,
                    key_b: b,
                    amount,
                    live_until: seq as u64 + BUMP_AMOUNT as u64,
                };
                self.entries.push(fresh);
                proof {
                    let ghost n = pre.len() as int;
                    assert forall|j: int| 0 <= j < n implies !is_key(self.entries@[j], a, b) by {
                        assert(self.entries@[j] == pre[j]);
                    }
                    lemma_lookup_skip(self.entries@, a, b, n);
                    assert(self.entries@.skip(n)[0] == fresh);
                    assert(lookup(self.entries@.skip(n), a, b) == Some(fresh));
                    lemma_sum_push(pre, fresh);
                    assert forall|a2: u64| stored_sum_for(self.entries@, a2)
                        == stored_sum_for(pre, a2)
                            - (if a2 == a { stored_amount(pre, a, b) as int } else { 0 })
                            + (if a2 == a { amount as int } else { 0 }) by {
                        lemma_sum_for_push(pre, fresh, a2);
                    }
                    assert forall|a2: u64, b2: u64| !(a2 == a && b2 == b)
                        implies lookup(self.entries@, a2, b2) == lookup(pre, a2, b2) by {
                        lemma_lookup_push_other(pre, fresh, a2, b2);
                    }
                }
            }
        }
    }
}

/// One leased scalar entry of the durable store, such as the running total
/// of sold sale-asset units.
#[derive(Clone, Copy, PartialEq, Eq, Structural, Debug)]
pub struct LeasedCell {
    pub amount: i128,
    pub live_until: u64,
}

impl LeasedCell {
    /// The amount an accessor observes at `seq`: the stored amount while the
    /// lease holds, zero otherwise.
    pub open spec fn live_value(self, seq: u32) -> i128 {
        if self.live_until >= seq as u64 {
            self.amount
        } else {
            0
        }
    }

    /// The cell is fresh at `seq` when the observable and stored amounts
    /// agree: the lease holds, or nothing of consequence was stored.
    pub open spec fn fresh(self, seq: u32) -> bool {
        self.live_value(seq) == self.amount
    }

    /// A cell that has never been written: it reads as zero.
    pub fn new() -> (r: Self)
        ensures
            r.amount == 0,
            r.live_until == 0,
    {
        LeasedCell { amount: 0, live_until: 0 }
    }

    /// Read the observable amount without touching the lease.
    pub fn peek(&self, seq: u32) -> (r: i128)
        ensures
            r == self.live_value(seq),
    {
        if self.live_until >= seq as u64 {
            self.amount
        } else {
            0
        }
    }

    /// Renew the lease if the cell is live at `seq`.
    pub fn touch(&mut self, seq: u32)
        ensures
            final(self).amount == old(self).amount,
            final(self).live_until >= old(self).live_until,
            final(self).live_value(seq) == old(self).live_value(seq),
            old(self).live_until >= seq as u64
                ==> final(self).live_until >= seq as u64 + LIFETIME_THRESHOLD as u64,
    {
        if self.live_until >= seq as u64 && self.live_until < seq as u64 + LIFETIME_THRESHOLD as u64 {
            self.live_until = seq as u64 + BUMP_AMOUNT as u64;
        }
    }

    /// Read the observable amount and renew the lease.
    pub fn get(&mut self, seq: u32) -> (r: i128)
        ensures
            r == old(self).live_value(seq),
            final(self).amount == old(self).amount,
            final(self).live_until >= old(self).live_until,
            final(self).live_value(seq) == old(self).live_value(seq),
            old(self).live_until >= seq as u64
                ==> final(self).live_until >= seq as u64 + LIFETIME_THRESHOLD as u64,
    {
        let r = self.peek(seq);
        self.touch(seq);
        r
    }

    /// Store `amount` and renew the lease.
    pub fn set(&mut self, amount: i128, seq: u32)
        ensures
            final(self).amount == amount,
            final(self).live_value(seq) == amount,
            final(self).live_until >= seq as u64 + LIFETIME_THRESHOLD as u64,
            final(self).live_until >= old(self).live_until,
    {
        self.amount = amount;
        if self.live_until < seq as u64 + LIFETIME_THRESHOLD as u64 {
            self.live_until = seq as u64 + BUMP_AMOUNT as u64;
        }
    }
}

} // verus!
