use vstd::prelude::*;
use std::collections::VecDeque;
use crate::types::{ParaId, ValidationCode};

verus! {

/// A retired code, kept until `eligible_block` has passed.
#[derive(Debug, PartialEq, Eq)]
pub struct PastCodeEntry {
    pub para: ParaId,
    pub code: ValidationCode,
    pub eligible_block: u32,
}

/// Whether an entry is still retained at `current_block`.
pub open spec fn retained(e: PastCodeEntry, current_block: u32) -> bool {
    e.eligible_block > current_block
}

/// The entries of `s` that a sweep at `current_block` keeps, in their order.
pub open spec fn retained_entries(s: Seq<PastCodeEntry>, current_block: u32) -> Seq<PastCodeEntry> {
    s.filter(|e: PastCodeEntry| retained(e, current_block))
}

/// Number of entries of `s` that a sweep at `current_block` removes.
pub open spec fn due_count(s: Seq<PastCodeEntry>, current_block: u32) -> int {
    s.len() - retained_entries(s, current_block).len()
}

/// The queue of retired codes awaiting pruning. The order of insertion has no
/// bearing on which entries a sweep removes.
pub struct PruningQueue {
    entries: VecDeque<PastCodeEntry>,
}

impl View for PruningQueue {
    type V = Seq<PastCodeEntry>;

    closed spec fn view(&self) -> Seq<PastCodeEntry> {
        self.entries@
    }
}

impl PruningQueue {
    /// An empty queue.
    pub fn new() -> (q: PruningQueue)
        ensures
            q@ == Seq::<PastCodeEntry>::empty(),
    {
        PruningQueue { entries: VecDeque::new() }
    }

    /// Appends a retired code; callers need not respect any order.
    pub fn enqueue(&mut self, para: ParaId, code: ValidationCode, eligible_block: u32)
        ensures
            final(self)@ == old(self)@.push(PastCodeEntry { para, code, eligible_block }),
    {
        self.entries.push_back(PastCodeEntry { para, code, eligible_block });
    }

    /// Number of entries held.
    pub fn len(&self) -> (n: usize)
        ensures
            n == self@.len(),
    {
        self.entries.len()
    }

    /// The entries held, in insertion order.
    pub fn entries(&self) -> (r: &VecDeque<PastCodeEntry>)
        ensures
            r@ == self@,
    {
        &self.entries
    }

    /// Removes every entry whose eligible block is at or before
    /// `current_block`, in one pass over all entries, and returns how many
    /// were removed. The others stay, in their order.
    pub fn sweep(&mut self, current_block: u32) -> (removed: usize)
        ensures
            final(self)@ == retained_entries(old(self)@, current_block),
            removed == due_count(old(self)@, current_block),
    {
        let ghost pred = |e: PastCodeEntry| retained(e, current_block);
        let ghost orig = self.entries@;
        let n = self.entries.len();
        let mut removed: usize = 0;
        let mut i: usize = 0;
        while i < n
            invariant
                n == orig.len(),
                i <= n,
                pred == (|e: PastCodeEntry| retained(e, current_block)),
                self.entries@ == orig.skip(i as int) + orig.take(i as int).filter(pred),
                removed == i - orig.take(i as int).filter(pred).len(),
                orig.take(i as int).filter(pred).len() <= i,
            decreases n - i,
        {
            let ghost kept = orig.take(i as int).filter(pred);
            proof {
                assert(orig.take(i as int + 1) =~= orig.take(i as int).push(orig[i as int]));
                orig.take(i as int).lemma_filter_push(orig[i as int], pred);
                assert(pred(orig[i as int]) == (orig[i as int].eligible_block > current_block));
            }
            let front = self.entries.pop_front();
            match front {
                Some(e) => {
                    assert(e == orig[i as int]);
                    assert(self.entries@ =~= orig.skip(i as int + 1) + kept);
                    if e.eligible_block > current_block {
                        self.entries.push_back(e);
                        assert(self.entries@ =~= orig.skip(i as int + 1) + kept.push(orig[i as int]));
                        assert(orig.take(i as int + 1).filter(pred) == kept.push(orig[i as int]));
                    } else {
                        assert(orig.take(i as int + 1).filter(pred) == kept);
                        removed = removed + 1;
                    }
                },
                None => {
                    assert(false);
                },
            }
            i = i + 1;
        }
        proof {
            assert(orig.take(n as int) =~= orig);
            assert(self.entries@ =~= orig.filter(pred));
        }
        removed
    }
}

/// Each entry occurs in what a sweep keeps as often as in the queue when it
/// is retained at `current_block`, and not at all otherwise.
pub proof fn lemma_retained_counts(s: Seq<PastCodeEntry>, current_block: u32, e: PastCodeEntry)
    ensures
        retained_entries(s, current_block).to_multiset().count(e) == (if retained(e, current_block) {
            s.to_multiset().count(e)
        } else {
            0
        }),
    decreases s.len(),
{
    broadcast use vstd::multiset::group_multiset_axioms, vstd::multiset::group_multiset_properties,
        vstd::seq_lib::to_multiset_build;

    let pred = |x: PastCodeEntry| retained(x, current_block);
    if s.len() == 0 {
        assert(retained_entries(s, current_block) =~= s) by {
            reveal(Seq::filter);
        }
        s.to_multiset_ensures();
    } else {
        let t = s.drop_last();
        let x = s.last();
        assert(s =~= t.push(x));
        lemma_retained_counts(t, current_block, e);
        t.lemma_filter_push(x, pred);
    }
}

/// A sweep does not depend on the order in which entries were inserted: two
/// queues holding the same entries, in any order, keep the same entries and
/// remove the same number.
pub proof fn lemma_sweep_order_independent(
    s1: Seq<PastCodeEntry>,
    s2: Seq<PastCodeEntry>,
    current_block: u32,
)
    requires
        s1.to_multiset() == s2.to_multiset(),
    ensures
        retained_entries(s1, current_block).to_multiset() == retained_entries(
            s2,
            current_block,
        ).to_multiset(),
        due_count(s1, current_block) == due_count(s2, current_block),
{
    broadcast use vstd::multiset::group_multiset_axioms, vstd::seq_lib::to_multiset_len;

    assert forall|e: PastCodeEntry|
        retained_entries(s1, current_block).to_multiset().count(e) == retained_entries(
            s2,
            current_block,
        ).to_multiset().count(e) by {
        lemma_retained_counts(s1, current_block, e);
        lemma_retained_counts(s2, current_block, e);
    }
    assert(retained_entries(s1, current_block).to_multiset() =~= retained_entries(
        s2,
        current_block,
    ).to_multiset());
    s1.to_multiset_ensures();
    s2.to_multiset_ensures();
    retained_entries(s1, current_block).to_multiset_ensures();
    retained_entries(s2, current_block).to_multiset_ensures();
}

/// Sweeping twice at the same block removes nothing the second time.
pub proof fn lemma_sweep_idempotent(s: Seq<PastCodeEntry>, current_block: u32)
    ensures
        retained_entries(retained_entries(s, current_block), current_block) == retained_entries(
            s,
            current_block,
        ),
        due_count(retained_entries(s, current_block), current_block) == 0,
    decreases s.len(),
{
    let pred = |x: PastCodeEntry| retained(x, current_block);
    if s.len() == 0 {
        reveal(Seq::filter);
        assert(retained_entries(s, current_block) =~= s);
    } else {
        let t = s.drop_last();
        let x = s.last();
        assert(s =~= t.push(x));
        lemma_sweep_idempotent(t, current_block);
        t.lemma_filter_push(x, pred);
        if pred(x) {
            t.filter(pred).lemma_filter_push(x, pred);
        }
    }
}

} // verus!
