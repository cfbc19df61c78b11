//! The admission ledger: a per-client request counter with a fixed ceiling.
//! `try_admit` atomically checks a client's count against the ceiling and,
//! when below it, records the admission by incrementing the count. There is
//! no time window or refill: once a client reaches the ceiling it stays
//! denied for the life of the ledger.

use crate::identity::ClientIdentity;
use std::collections::HashMap;
use vstd::prelude::*;

verus! {

broadcast use vstd::std_specs::hash::group_hash_axioms;

/// The fixed admission ceiling: a client is admitted at most this many times.
pub const ADMIT_LIMIT: u32 = 5;

/// How many requests the ledger state `m` has recorded for key `k`; a key
/// never contacted counts as zero.
pub open spec fn count_of(m: Map<u64, u32>, k: u64) -> nat {
    if m.contains_key(k) {
        m[k] as nat
    } else {
        0
    }
}

/// Whether the next request under key `k` is admitted in ledger state `m`.
pub open spec fn admits(m: Map<u64, u32>, k: u64) -> bool {
    count_of(m, k) < ADMIT_LIMIT
}

/// The ledger state after one `try_admit` under key `k`: the count rises by
/// one on admission and nothing changes on denial.
pub open spec fn admit_step(m: Map<u64, u32>, k: u64) -> Map<u64, u32> {
    if admits(m, k) {
        m.insert(k, (count_of(m, k) + 1) as u32)
    } else {
        m
    }
}

/// The per-client request counters. The map is keyed by the packed identity
/// key; entries appear lazily on first contact and are never removed.
///
/// The ledger itself is a plain value: callers that share it across
/// concurrent request handlers serialize access through one exclusive lock,
/// so each `try_admit` call sees and updates the state indivisibly.
pub struct Ledger {
    counts: HashMap<u64, u32>,
}

impl View for Ledger {
    type V = Map<u64, u32>;

    closed spec fn view(&self) -> Map<u64, u32> {
        self.counts@
    }
}

impl Ledger {
    /// A fresh ledger: no client has been seen, every count is zero.
    pub fn new() -> (ledger: Ledger)
        ensures
            ledger@ == Map::<u64, u32>::empty(),
    {
        Ledger { counts: HashMap::new() }
    }

    /// Decides whether `id`'s next request may proceed. Reads the current
    /// count for `id`; at or above `ADMIT_LIMIT` it denies without mutating,
    /// below it it increments the count and admits. The check and the
    /// increment happen under one `&mut` borrow, so no other caller can
    /// observe an intermediate state.
    pub fn try_admit(&mut self, id: ClientIdentity) -> (admitted: bool)
        ensures
            admitted == admits(old(self)@, id.key_spec()),
            final(self)@ == admit_step(old(self)@, id.key_spec()),
    {
        let key = id.key();
        let count: u32 = match self.counts.get(&key) {
            Some(c) => *c,
            None => 0,
        };
        if count >= ADMIT_LIMIT {
            false
        } else {
            self.counts.insert(key, count + 1);
            true
        }
    }

    /// How many requests have been admitted for `id` so far.
    pub fn count(&self, id: ClientIdentity) -> (n: u32)
        ensures
            n == count_of(self@, id.key_spec()),
    {
        match self.counts.get(&id.key()) {
            Some(c) => *c,
            None => 0,
        }
    }
}

/// One admission under identity `a` leaves every other identity's count, and
/// hence its admission decision, exactly as it was: exhausting one client's
/// quota cannot affect another's.
pub proof fn lemma_per_identity_isolation(m: Map<u64, u32>, a: ClientIdentity, b: ClientIdentity)
    requires
        a != b,
    ensures
        count_of(admit_step(m, a.key_spec()), b.key_spec()) == count_of(m, b.key_spec()),
        admits(admit_step(m, a.key_spec()), b.key_spec()) == admits(m, b.key_spec()),
{
    if a.key_spec() == b.key_spec() {
        crate::identity::lemma_key_injective(a, b);
    }
}

/// A denial changes nothing: once a key's quota is exhausted the ledger
/// state is fixed for that key, so every later request under it is denied
/// as well.
pub proof fn lemma_rejection_permanent(m: Map<u64, u32>, k: u64)
    requires
        !admits(m, k),
    ensures
        admit_step(m, k) == m,
        !admits(admit_step(m, k), k),
{
}

/// The outcomes of `n` consecutive `try_admit` calls under key `k`, starting
/// from ledger state `m`, in order.
pub open spec fn admit_results(m: Map<u64, u32>, k: u64, n: nat) -> Seq<bool>
    decreases n,
{
    if n == 0 {
        Seq::empty()
    } else {
        seq![admits(m, k)] + admit_results(admit_step(m, k), k, (n - 1) as nat)
    }
}

/// How many of `n` consecutive `try_admit` calls under key `k`, starting
/// from ledger state `m`, are admitted.
pub open spec fn admitted_count(m: Map<u64, u32>, k: u64, n: nat) -> nat
    decreases n,
{
    if n == 0 {
        0
    } else {
        (if admits(m, k) {
            1nat
        } else {
            0nat
        }) + admitted_count(admit_step(m, k), k, (n - 1) as nat)
    }
}

/// Ceiling enforcement: for a client not seen before, six consecutive
/// `try_admit` calls yield admission exactly five times and then denial.
pub proof fn lemma_ceiling_enforcement(m: Map<u64, u32>, k: u64)
    requires
        count_of(m, k) == 0,
    ensures
        admit_results(m, k, 6) == seq![true, true, true, true, true, false],
{
    reveal_with_fuel(admit_results, 7);
    assert(admit_results(m, k, 6) =~= seq![true, true, true, true, true, false]);
}

/// Of `n` consecutive `try_admit` calls under one key, exactly
/// `min(n, ADMIT_LIMIT - count)` are admitted, whatever `n` is. Concurrent
/// callers are serialized through exclusive access to the ledger, so every
/// interleaving is some such consecutive order and admits the same number.
pub proof fn lemma_admitted_count(m: Map<u64, u32>, k: u64, n: nat)
    requires
        count_of(m, k) <= ADMIT_LIMIT,
    ensures
        admitted_count(m, k, n) == if n <= ADMIT_LIMIT - count_of(m, k) {
            n
        } else {
            (ADMIT_LIMIT - count_of(m, k)) as nat
        },
    decreases n,
{
    if n > 0 {
        lemma_admitted_count(admit_step(m, k), k, (n - 1) as nat);
    }
}

/// No false positives: from a fresh count, `n` serialized `try_admit` calls
/// admit exactly `min(n, ADMIT_LIMIT)` requests.
pub proof fn lemma_no_false_positives(m: Map<u64, u32>, k: u64, n: nat)
    requires
        count_of(m, k) == 0,
    ensures
        admitted_count(m, k, n) == if n <= ADMIT_LIMIT {
            n
        } else {
            ADMIT_LIMIT as nat
        },
{
    lemma_admitted_count(m, k, n);
}

} // verus!
