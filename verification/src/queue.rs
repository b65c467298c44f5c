//! The matchmaking queue: strictly FIFO pairing of waiting tickets.
//!
//! A ticket is whatever the surrounding process parks for a waiting client —
//! the queue never looks inside it. An arriving ticket either pairs at once
//! with the oldest waiter (the waiter becomes the first-paired participant,
//! the newcomer the second) or, when nobody waits, is parked itself. The
//! surrounding process holds the queue under its lock for exactly one
//! `enqueue` call, which never suspends, so the check-and-park step is
//! atomic and no wake-up can be missed.

use vstd::prelude::*;

verus! {

/// What one arrival does to the waiting line `q`: an empty line parks the
/// newcomer at its back; otherwise the oldest waiter leaves the line and
/// pairs with the newcomer, the waiter first.
pub open spec fn enqueue_model<T>(q: Seq<T>, ticket: T) -> (Seq<T>, Option<(T, T)>) {
    if q.len() == 0 {
        (q.push(ticket), None)
    } else {
        (q.drop_first(), Some((q[0], ticket)))
    }
}

/// The waiting line and the pairs formed, in order, after a whole sequence
/// of arrivals.
pub open spec fn run_enqueue<T>(q: Seq<T>, tickets: Seq<T>) -> (Seq<T>, Seq<(T, T)>)
    decreases tickets.len(),
{
    if tickets.len() == 0 {
        (q, Seq::empty())
    } else {
        let (q2, paired) = enqueue_model(q, tickets[0]);
        let (q3, pairs) = run_enqueue(q2, tickets.drop_first());
        match paired {
            Option::None => (q3, pairs),
            Option::Some(p) => (q3, seq![p] + pairs),
        }
    }
}

/// `N` arrivals at an empty queue form exactly `⌊N/2⌋` pairs, strictly in
/// arrival order — the `k`-th pair is the `2k`-th arrival (first seat) with
/// the `2k+1`-th (second seat) — and leave at most one ticket waiting:
/// exactly the last arrival when `N` is odd, nobody when `N` is even.
pub proof fn lemma_fifo_pairing<T>(tickets: Seq<T>)
    ensures
        ({
            let (q, pairs) = run_enqueue(Seq::<T>::empty(), tickets);
            &&& pairs.len() == tickets.len() / 2
            &&& q.len() == tickets.len() % 2
            &&& (forall|k: int|
                0 <= k < pairs.len() ==> pairs[k] == (tickets[2 * k], tickets[2 * k + 1]))
            &&& (tickets.len() % 2 == 1 ==> q[0] == tickets[tickets.len() - 1])
        }),
    decreases tickets.len(),
{
    if tickets.len() > 0 {
        lemma_fifo_pairing_from_one(tickets[0], tickets.drop_first());
    }
}

/// The same count, order and leftover, for arrivals at a queue in which one
/// ticket `w` already waits: the first arrival pairs with `w`, and from
/// there pairing proceeds as from an empty queue.
pub proof fn lemma_fifo_pairing_from_one<T>(w: T, tickets: Seq<T>)
    ensures
        ({
            let (q, pairs) = run_enqueue(seq![w], tickets);
            &&& pairs.len() == (tickets.len() + 1) / 2
            &&& q.len() == (tickets.len() + 1) % 2
            &&& (tickets.len() > 0 ==> pairs[0] == (w, tickets[0]))
            &&& (forall|k: int|
                1 <= k < pairs.len() ==> pairs[k] == (tickets[2 * k - 1], tickets[2 * k]))
            &&& ((tickets.len() + 1) % 2 == 1 ==> q[0] == (if tickets.len() == 0 {
                w
            } else {
                tickets[tickets.len() - 1]
            }))
        }),
    decreases tickets.len(),
{
    if tickets.len() > 0 {
        assert(seq![w].drop_first() =~= Seq::<T>::empty());
        lemma_fifo_pairing(tickets.drop_first());
        let (q1, pairs1) = run_enqueue(Seq::<T>::empty(), tickets.drop_first());
        let (q2, pairs2) = run_enqueue(seq![w], tickets);
        assert(pairs2 =~= seq![(w, tickets[0])] + pairs1);
        assert(forall|k: int|
            1 <= k < pairs2.len() ==> pairs2[k] == (tickets.drop_first()[2 * (k - 1)], tickets.drop_first()[2
                * (k - 1) + 1]));
    }
}

/// The shared FIFO of tickets still waiting to be paired.
pub struct MatchQueue<T> {
    pub waiting: Vec<T>,
}

impl<T> MatchQueue<T> {
    /// An empty queue: nobody waits.
    pub fn new() -> (q: Self)
        ensures
            q.waiting@.len() == 0,
    {
        MatchQueue { waiting: Vec::new() }
    }

    /// Handles one arriving ticket exactly as [`enqueue_model`] says: pairs
    /// it with the oldest waiter — returned as `(first, second)`, the waiter
    /// first — or parks it at the back of the line when nobody waits.
    pub fn enqueue(&mut self, ticket: T) -> (paired: Option<(T, T)>)
        ensures
            ({
                let (q2, p) = enqueue_model(old(self).waiting@, ticket);
                final(self).waiting@ == q2 && paired == p
            }),
    {
        if self.waiting.len() == 0 {
            self.waiting.push(ticket);
            proof {
                assert(self.waiting@ =~= old(self).waiting@.push(ticket));
            }
            None
        } else {
            let w = self.waiting.remove(0);
            proof {
                assert(self.waiting@ =~= old(self).waiting@.drop_first());
            }
            Some((w, ticket))
        }
    }
}

} // verus!
