use vstd::prelude::*;
use crate::ids::Hash256;

verus! {

/// The append-only set of registered seller commitments. Membership means
/// "this secret identity may later act as an authorized seller"; nothing is
/// ever removed.
pub struct CommitmentSet {
    pub entries: Vec<Hash256>,
}

impl View for CommitmentSet {
    type V = Set<Hash256>;

    open spec fn view(&self) -> Set<Hash256> {
        self.entries@.to_set()
    }
}

impl CommitmentSet {
    /// The entries hold each commitment once.
    pub open spec fn wf(self) -> bool {
        self.entries@.no_duplicates()
    }

    /// An empty commitment set.
    pub fn new() -> (r: CommitmentSet)
        ensures
            r.wf(),
            r@ == Set::<Hash256>::empty(),
    {
        let r = CommitmentSet { entries: Vec::new() };
        proof {
            assert(r@ =~= Set::<Hash256>::empty());
        }
        r
    }

    /// Whether `h` was registered.
    pub fn contains(&self, h: &Hash256) -> (r: bool)
        ensures
            r == self@.contains(*h),
    {
        let mut i: usize = 0;
        while i < self.entries.len()
            invariant
                i <= self.entries@.len(),
                forall|j: int| 0 <= j < i ==> self.entries@[j] != *h,
            decreases self.entries@.len() - i,
        {
            if self.entries[i] == *h {
                return true;
            }
            i = i + 1;
        }
        proof {
            assert(!self.entries@.contains(*h));
        }
        false
    }

    /// Registers `h`. Registering an already-registered commitment is an
    /// idempotent no-op; either way the call succeeds.
    pub fn register(&mut self, h: Hash256)
        requires
            old(self).wf(),
        ensures
            final(self).wf(),
            final(self)@ == old(self)@.insert(h),
            old(self)@.contains(h) ==> *final(self) == *old(self),
    {
        if !self.contains(&h) {
            proof {
                assert(!old(self).entries@.contains(h));
            }
            self.entries.push(h);
            proof {
                old(self).entries@.lemma_push_to_set_commute(h);
                assert(self@ =~= old(self)@.insert(h));
                assert forall|i: int, j: int|
                    0 <= i < j < self.entries@.len() implies self.entries@[i]
                    != self.entries@[j] by {
                    if j == self.entries@.len() - 1 {
                        assert(old(self).entries@[i] == self.entries@[i]);
                    }
                }
            }
        } else {
            proof {
                assert(self@ =~= old(self)@.insert(h));
            }
        }
    }

    /// How many distinct commitments were registered.
    pub fn len(&self) -> (n: usize)
        requires
            self.wf(),
        ensures
            n == self@.len(),
    {
        proof {
            self.entries@.unique_seq_to_set();
        }
        self.entries.len()
    }
}

/// The set of consumed nullifiers. Membership means "this private claim was
/// already spent"; a nullifier, once present, is permanent.
pub struct NullifierSet {
    pub entries: Vec<Hash256>,
}

impl View for NullifierSet {
    type V = Set<Hash256>;

    open spec fn view(&self) -> Set<Hash256> {
        self.entries@.to_set()
    }
}

/// Whether `try_consume` on a nullifier set with contents `s` reports `n`
/// fresh, so that the gated transition may proceed.
pub open spec fn consume_fresh(s: Set<Hash256>, n: Hash256) -> bool {
    !s.contains(n)
}

/// The contents of a nullifier set after `try_consume(n)` ran on contents
/// `s`, whatever it reported.
pub open spec fn consume_result(s: Set<Hash256>, n: Hash256) -> Set<Hash256> {
    s.insert(n)
}

impl NullifierSet {
    /// The entries hold each nullifier once.
    pub open spec fn wf(self) -> bool {
        self.entries@.no_duplicates()
    }

    /// An empty nullifier set.
    pub fn new() -> (r: NullifierSet)
        ensures
            r.wf(),
            r@ == Set::<Hash256>::empty(),
    {
        let r = NullifierSet { entries: Vec::new() };
        proof {
            assert(r@ =~= Set::<Hash256>::empty());
        }
        r
    }

    /// Whether `n` was already consumed. Diagnostics only: gated transitions
    /// go through `try_consume`.
    pub fn contains(&self, n: &Hash256) -> (r: bool)
        ensures
            r == self@.contains(*n),
    {
        let mut i: usize = 0;
        while i < self.entries.len()
            invariant
                i <= self.entries@.len(),
                forall|j: int| 0 <= j < i ==> self.entries@[j] != *n,
            decreases self.entries@.len() - i,
        {
            if self.entries[i] == *n {
                return true;
            }
            i = i + 1;
        }
        proof {
            assert(!self.entries@.contains(*n));
        }
        false
    }

    /// Atomically checks absence and inserts: returns `true` exactly when
    /// this is the first consumption of `n`. When `n` was already spent the
    /// set is left untouched and the caller must reject the transition.
    pub fn try_consume(&mut self, n: Hash256) -> (fresh: bool)
        requires
            old(self).wf(),
        ensures
            final(self).wf(),
            fresh == consume_fresh(old(self)@, n),
            final(self)@ == consume_result(old(self)@, n),
            !fresh ==> *final(self) == *old(self),
    {
        if self.contains(&n) {
            proof {
                assert(self@ =~= old(self)@.insert(n));
            }
            false
        } else {
            proof {
                assert(!old(self).entries@.contains(n));
            }
            self.entries.push(n);
            proof {
                old(self).entries@.lemma_push_to_set_commute(n);
                assert(self@ =~= old(self)@.insert(n));
                assert forall|i: int, j: int|
                    0 <= i < j < self.entries@.len() implies self.entries@[i]
                    != self.entries@[j] by {
                    if j == self.entries@.len() - 1 {
                        assert(old(self).entries@[i] == self.entries@[i]);
                    }
                }
            }
            true
        }
    }
}

/// Replay rejection: once `try_consume(n)` has reported `n` fresh, `n` stays
/// spent in the resulting contents and in the contents of every later state
/// (nullifiers are never removed), so every subsequent `try_consume(n)`
/// reports a replay.
pub proof fn lemma_replay_rejection(s: Set<Hash256>, later: Set<Hash256>, n: Hash256)
    requires
        consume_fresh(s, n),
        consume_result(s, n).subset_of(later),
    ensures
        !consume_fresh(later, n),
{
    assert(consume_result(s, n).contains(n));
}

/// Registration idempotence: registering a commitment a second time leaves
/// the commitment set exactly as the first registration left it.
pub proof fn lemma_registration_idempotent(s: Set<Hash256>, c: Hash256)
    ensures
        s.insert(c).insert(c) == s.insert(c),
{
    assert(s.insert(c).insert(c) =~= s.insert(c));
}

} // verus!
