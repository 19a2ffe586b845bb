use vstd::prelude::*;
use std::collections::VecDeque;
use crate::types::{sat_add, ParaAction, ParaId};

verus! {

/// An action queued for a para, to be applied when `session` begins.
#[derive(Clone, Copy, Debug, PartialEq, Eq, Structural)]
pub struct QueuedAction {
    pub session: u32,
    pub para: ParaId,
    pub action: ParaAction,
}

/// Whether a queued action targets `session`.
pub open spec fn targets(q: QueuedAction, session: u32) -> bool {
    q.session == session
}

/// The (para, action) pairs queued for `session`, in queue order.
pub open spec fn due_actions(s: Seq<QueuedAction>, session: u32) -> Seq<(ParaId, ParaAction)> {
    s.filter(|q: QueuedAction| targets(q, session)).map_values(
        |q: QueuedAction| (q.para, q.action),
    )
}

/// The queued actions that target other sessions than `session`, in queue order.
pub open spec fn other_actions(s: Seq<QueuedAction>, session: u32) -> Seq<QueuedAction> {
    s.filter(|q: QueuedAction| !targets(q, session))
}

/// Actions queued per session, flushed once when their session begins.
pub struct ActionQueue {
    entries: VecDeque<QueuedAction>,
}

impl View for ActionQueue {
    type V = Seq<QueuedAction>;

    closed spec fn view(&self) -> Seq<QueuedAction> {
        self.entries@
    }
}

impl ActionQueue {
    /// An empty queue.
    pub fn new() -> (q: ActionQueue)
        ensures
            q@ == Seq::<QueuedAction>::empty(),
    {
        ActionQueue { entries: VecDeque::new() }
    }

    /// Queues `action` for `para` at the session after `current_session`, and
    /// returns that session.
    pub fn queue(&mut self, para: ParaId, action: ParaAction, current_session: u32) -> (next: u32)
        ensures
            next == sat_add(current_session, 1),
            final(self)@ == old(self)@.push(QueuedAction { session: next, para, action }),
    {
        let next = current_session.saturating_add(1);
        self.entries.push_back(QueuedAction { session: next, para, action });
        next
    }

    /// Number of queued actions, over all sessions.
    pub fn len(&self) -> (n: usize)
        ensures
            n == self@.len(),
    {
        self.entries.len()
    }

    /// Removes and returns, in queue order, every action queued for exactly
    /// `session`. Actions for other sessions stay, in their order.
    pub fn flush(&mut self, session: u32) -> (r: Vec<(ParaId, ParaAction)>)
        ensures
            r@ == due_actions(old(self)@, session),
            final(self)@ == other_actions(old(self)@, session),
    {
        let ghost due = |q: QueuedAction| targets(q, session);
        let ghost other = |q: QueuedAction| !targets(q, session);
        let ghost pair = |q: QueuedAction| (q.para, q.action);
        let ghost orig = self.entries@;
        let n = self.entries.len();
        let mut out: Vec<(ParaId, ParaAction)> = Vec::new();
        let mut i: usize = 0;
        while i < n
            invariant
                n == orig.len(),
                i <= n,
                due == (|q: QueuedAction| targets(q, session)),
                other == (|q: QueuedAction| !targets(q, session)),
                pair == (|q: QueuedAction| (q.para, q.action)),
                self.entries@ == orig.skip(i as int) + orig.take(i as int).filter(other),
                out@ == orig.take(i as int).filter(due).map_values(pair),
            decreases n - i,
        {
            let ghost prefix = orig.take(i as int);
            let ghost x = orig[i as int];
            proof {
                assert(orig.take(i as int + 1) =~= prefix.push(x));
                prefix.lemma_filter_push(x, due);
                prefix.lemma_filter_push(x, other);
                assert(prefix.filter(due).push(x).map_values(pair) =~= prefix.filter(due).map_values(
                    pair,
                ).push(pair(x)));
            }
            let front = self.entries.pop_front();
            match front {
                Some(q) => {
                    assert(self.entries@ =~= orig.skip(i as int + 1) + prefix.filter(other));
                    if q.session == session {
                        out.push((q.para, q.action));
                    } else {
                        self.entries.push_back(q);
                        assert(self.entries@ =~= orig.skip(i as int + 1) + prefix.filter(
                            other,
                        ).push(x));
                    }
                },
                None => {
                    assert(false);
                },
            }
            i = i + 1;
        }
        proof {
            assert(orig.take(n as int) =~= orig);
            assert(self.entries@ =~= orig.filter(other));
        }
        out
    }
}

/// An action queued for the next session is returned, last, by the flush of
/// that session, after those queued for it before.
pub proof fn lemma_queue_then_flush(
    s: Seq<QueuedAction>,
    para: ParaId,
    action: ParaAction,
    next: u32,
)
    ensures
        due_actions(s.push(QueuedAction { session: next, para, action }), next) == due_actions(
            s,
            next,
        ).push((para, action)),
{
    let q = QueuedAction { session: next, para, action };
    let due = |x: QueuedAction| targets(x, next);
    let pair = |x: QueuedAction| (x.para, x.action);
    s.lemma_filter_push(q, due);
    assert(s.filter(due).push(q).map_values(pair) =~= s.filter(due).map_values(pair).push(
        pair(q),
    ));
}

/// After a flush of `session`, nothing is left queued for it; a second flush
/// of the same session returns nothing.
pub proof fn lemma_flush_clears_session(s: Seq<QueuedAction>, session: u32)
    ensures
        forall|i: int|
            0 <= i < other_actions(s, session).len() ==> #[trigger] other_actions(
                s,
                session,
            )[i].session != session,
        due_actions(other_actions(s, session), session) == Seq::<(ParaId, ParaAction)>::empty(),
{
    lemma_nothing_due(other_actions(s, session), session);
}

/// A session with nothing queued for it flushes to the empty sequence.
pub proof fn lemma_nothing_due(s: Seq<QueuedAction>, session: u32)
    ensures
        (forall|i: int| 0 <= i < s.len() ==> #[trigger] s[i].session != session) ==> due_actions(
            s,
            session,
        ) == Seq::<(ParaId, ParaAction)>::empty(),
        forall|i: int|
            0 <= i < other_actions(s, session).len() ==> #[trigger] other_actions(
                s,
                session,
            )[i].session != session,
    decreases s.len(),
{
    broadcast use vstd::seq_lib::group_filter_ensures;

    let due = |x: QueuedAction| targets(x, session);
    if s.len() > 0 {
        let t = s.drop_last();
        assert(s =~= t.push(s.last()));
        lemma_nothing_due(t, session);
        t.lemma_filter_push(s.last(), due);
    } else {
        reveal(Seq::filter);
    }
    if forall|i: int| 0 <= i < s.len() ==> #[trigger] s[i].session != session {
        assert(due_actions(s, session) =~= Seq::<(ParaId, ParaAction)>::empty());
    }
}

} // verus!
