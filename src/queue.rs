//! The pollable side of a live view: a FIFO of diffs filled by the
//! background subscription and drained by the foreign caller.

use std::collections::VecDeque;
use vstd::prelude::*;

use crate::diff::VecDiff;

verus! {

/// The queue `q` after `entry` is pushed at the back.
pub open spec fn pushed<T>(q: Seq<T>, entry: T) -> Seq<T> {
    q.push(entry)
}

/// What one take returns from the queue `q`, and the queue it leaves: the
/// oldest entry, or nothing from an empty queue.
pub open spec fn take_step<T>(q: Seq<T>) -> (Option<T>, Seq<T>) {
    if q.len() == 0 {
        (None, q)
    } else {
        (Some(q[0]), q.drop_first())
    }
}

/// One call on a queue: a push of an entry, or a take.
pub enum QueueOp<T> {
    Push(T),
    Take,
}

/// First-in first-out queue of pending entries.
pub struct DiffQueue<T> {
    entries: VecDeque<T>,
}

impl<T> View for DiffQueue<T> {
    type V = Seq<T>;

    closed spec fn view(&self) -> Seq<T> {
        self.entries@
    }
}

impl<T> DiffQueue<T> {
    pub fn new() -> (r: Self)
        ensures
            r@ == Seq::<T>::empty(),
    {
        DiffQueue { entries: VecDeque::new() }
    }

    /// Appends one entry at the back.
    pub fn push(&mut self, entry: T)
        ensures
            final(self)@ == pushed(old(self)@, entry),
    {
        self.entries.push_back(entry);
    }

    /// Appends every entry of `batch` at the back, keeping their order.
    pub fn push_batch(&mut self, batch: Vec<T>)
        ensures
            final(self)@ == old(self)@ + batch@,
    {
        let mut batch = batch;
        let ghost start = self@;
        let ghost all = batch@;
        let n = batch.len();
        let mut k: usize = 0;
        while k < n
            invariant
                n == all.len(),
                k <= n,
                batch@ == all.subrange(k as int, n as int),
                self@ == start + all.subrange(0, k as int),
            decreases n - k,
        {
            let e = batch.remove(0);
            proof {
                assert(batch@ =~= all.subrange(k as int + 1, n as int));
            }
            self.entries.push_back(e);
            proof {
                assert(all.subrange(0, k as int + 1) =~= all.subrange(0, k as int).push(all[k as int]));
            }
            k = k + 1;
        }
        proof {
            assert(all.subrange(0, n as int) =~= all);
        }
    }

    /// Carries out `ops` in order: each push queues its entry, each take
    /// removes the oldest entry. Returns what the takes removed, in order.
    pub fn perform(&mut self, ops: Vec<QueueOp<T>>) -> (taken: Vec<T>)
        ensures
            (taken@, final(self)@) == run(old(self)@, ops@),
    {
        let mut rest = ops;
        let mut taken: Vec<T> = Vec::new();
        let ghost all = rest@;
        while rest.len() > 0
            invariant
                run(old(self)@, all) == (taken@ + run(self@, rest@).0, run(self@, rest@).1),
            decreases rest@.len(),
        {
            let ghost before = self@;
            let ghost rs = rest@;
            let op = rest.remove(0);
            assert(rest@ =~= rs.drop_first());
            match op {
                QueueOp::Push(x) => {
                    self.push(x);
                    assert(taken@ + (Seq::<T>::empty() + run(self@, rest@).0) =~= taken@ + run(
                        self@,
                        rest@,
                    ).0);
                },
                QueueOp::Take => {
                    let ghost old_taken = taken@;
                    match self.take_next() {
                        Some(x) => {
                            taken.push(x);
                            assert(old_taken + (seq![x] + run(self@, rest@).0) =~= taken@ + run(
                                self@,
                                rest@,
                            ).0);
                        },
                        None => {
                            assert(old_taken + (Seq::<T>::empty() + run(self@, rest@).0) =~= taken@
                                + run(self@, rest@).0);
                        },
                    }
                },
            }
        }
        assert(taken@ + Seq::<T>::empty() =~= taken@);
        taken
    }

    /// Whether at least one entry is pending.
    pub fn has_pending(&self) -> (r: bool)
        ensures
            r == (self@.len() > 0),
    {
        self.entries.len() > 0
    }

    /// Removes and returns the oldest entry; `None` when nothing is pending.
    pub fn take_next(&mut self) -> (r: Option<T>)
        ensures
            (r, final(self)@) == take_step(old(self)@),
    {
        let r = self.entries.pop_front();
        proof {
            if old(self)@.len() > 0 {
                assert(self@ =~= old(self)@.drop_first());
            }
        }
        r
    }
}

/// Runs `ops` in turn on a queue that holds `q`: the entries the takes
/// returned, in order, and the queue left at the end.
pub open spec fn run<T>(q: Seq<T>, ops: Seq<QueueOp<T>>) -> (Seq<T>, Seq<T>)
    decreases ops.len(),
{
    if ops.len() == 0 {
        (Seq::empty(), q)
    } else {
        let (out, next) = match ops[0] {
            QueueOp::Push(x) => (Seq::<T>::empty(), pushed(q, x)),
            QueueOp::Take => {
                let step = take_step(q);
                (
                    match step.0 {
                        Some(x) => seq![x],
                        None => Seq::<T>::empty(),
                    },
                    step.1,
                )
            },
        };
        let rest = run(next, ops.drop_first());
        (out + rest.0, rest.1)
    }
}

/// The entries that `ops` pushes, in order.
pub open spec fn pushes_of<T>(ops: Seq<QueueOp<T>>) -> Seq<T>
    decreases ops.len(),
{
    if ops.len() == 0 {
        Seq::empty()
    } else {
        match ops[0] {
            QueueOp::Push(x) => seq![x] + pushes_of(ops.drop_first()),
            QueueOp::Take => pushes_of(ops.drop_first()),
        }
    }
}

/// However pushes and takes interleave, entries leave a queue in the order
/// in which they were pushed: what the takes return, followed by what is
/// still pending, is exactly what the queue held followed by every pushed
/// entry. From an empty queue, the k-th entry taken is the k-th pushed, and
/// nothing is pending once as many entries were taken as were pushed.
pub proof fn lemma_fifo_order<T>(q: Seq<T>, ops: Seq<QueueOp<T>>)
    ensures
        run(q, ops).0 + run(q, ops).1 == q + pushes_of(ops),
    decreases ops.len(),
{
    if ops.len() == 0 {
        assert(Seq::<T>::empty() + q =~= q + Seq::<T>::empty());
    } else {
        let rest = ops.drop_first();
        match ops[0] {
            QueueOp::Push(x) => {
                lemma_fifo_order(q.push(x), rest);
                assert(Seq::<T>::empty() + run(q.push(x), rest).0 =~= run(q.push(x), rest).0);
                assert(q.push(x) + pushes_of(rest) =~= q + (seq![x] + pushes_of(rest)));
            },
            QueueOp::Take => {
                if q.len() == 0 {
                    lemma_fifo_order(q, rest);
                    assert(Seq::<T>::empty() + run(q, rest).0 =~= run(q, rest).0);
                } else {
                    lemma_fifo_order(q.drop_first(), rest);
                    let r = run(q.drop_first(), rest);
                    assert(seq![q[0]] + r.0 + r.1 =~= seq![q[0]] + (r.0 + r.1));
                    assert(seq![q[0]] + (q.drop_first() + pushes_of(rest)) =~= q + pushes_of(rest));
                }
            },
        }
    }
}

/// A live view as the foreign caller sees it: diffs waiting to be taken,
/// and whether the view still accepts updates.
pub struct LiveView<T> {
    queue: DiffQueue<VecDiff<T>>,
    closed: bool,
}

impl<T> LiveView<T> {
    /// The diffs waiting to be taken, oldest first.
    pub closed spec fn pending(&self) -> Seq<VecDiff<T>> {
        self.queue@
    }

    /// Whether the view has been closed.
    pub closed spec fn is_closed_spec(&self) -> bool {
        self.closed
    }

    /// Opens a view on a collection whose contents are `initial`: exactly one
    /// diff is pending, an `Append` that carries the whole snapshot.
    pub fn open(initial: Vec<T>) -> (r: Self)
        ensures
            r.pending() == seq![VecDiff::Append { values: initial }],
            !r.is_closed_spec(),
    {
        let mut queue = DiffQueue::new();
        queue.push(VecDiff::Append { values: initial });
        LiveView { queue, closed: false }
    }

    /// Opens a view whose queue starts empty: every diff, the first snapshot
    /// included, comes later from the background loop.
    pub fn empty() -> (r: Self)
        ensures
            r.pending() == Seq::<VecDiff<T>>::empty(),
            !r.is_closed_spec(),
    {
        LiveView { queue: DiffQueue::new(), closed: false }
    }

    /// Hands one batch of updates to the view. While it is open, every diff
    /// of the batch is queued in arrival order and one notification is due
    /// (`true`); once closed, the batch is dropped and none is due.
    pub fn deliver(&mut self, batch: Vec<VecDiff<T>>) -> (notify: bool)
        ensures
            (final(self).pending(), notify) == delivery(old(self).pending(), old(self).is_closed_spec(), batch@),
            final(self).is_closed_spec() == old(self).is_closed_spec(),
    {
        if self.closed {
            false
        } else {
            self.queue.push_batch(batch);
            true
        }
    }

    /// Closes the view: the handle was released or the update stream ended.
    /// Diffs already queued can still be taken.
    pub fn close(&mut self)
        ensures
            final(self).is_closed_spec(),
            final(self).pending() == old(self).pending(),
    {
        self.closed = true;
    }

    pub fn is_closed(&self) -> (r: bool)
        ensures
            r == self.is_closed_spec(),
    {
        self.closed
    }

    /// Whether at least one diff is waiting.
    pub fn has_queued_item(&self) -> (r: bool)
        ensures
            r == (self.pending().len() > 0),
    {
        self.queue.has_pending()
    }

    /// Removes and returns the oldest waiting diff; `None` when none waits.
    pub fn queue_next(&mut self) -> (r: Option<VecDiff<T>>)
        ensures
            final(self).is_closed_spec() == old(self).is_closed_spec(),
            (r, final(self).pending()) == take_step(old(self).pending()),
    {
        self.queue.take_next()
    }
}

/// What one delivery of `batch` does to a view whose pending diffs are
/// `pending`: the diffs pending after it, and whether a notification is due.
pub open spec fn delivery<D>(pending: Seq<D>, closed: bool, batch: Seq<D>) -> (Seq<D>, bool) {
    if closed {
        (pending, false)
    } else {
        (pending + batch, true)
    }
}

/// Pending diffs and the number of notifications due after `batches` are
/// delivered in turn to a view whose pending diffs are `pending`.
pub open spec fn after_deliveries<D>(pending: Seq<D>, closed: bool, batches: Seq<Seq<D>>) -> (Seq<D>, nat)
    decreases batches.len(),
{
    if batches.len() == 0 {
        (pending, 0)
    } else {
        let step = delivery(pending, closed, batches[0]);
        let rest = after_deliveries(step.0, closed, batches.drop_first());
        (rest.0, rest.1 + if step.1 {
            1nat
        } else {
            0nat
        })
    }
}

/// After a view is closed, however many batches still arrive, none of them
/// reaches its queue and none asks for a notification.
pub proof fn lemma_closed_view_stays_silent<D>(pending: Seq<D>, batches: Seq<Seq<D>>)
    ensures
        after_deliveries(pending, true, batches) == (pending, 0nat),
    decreases batches.len(),
{
    if batches.len() > 0 {
        lemma_closed_view_stays_silent(pending, batches.drop_first());
    }
}

/// The diffs of all `batches`, one batch after the other.
pub open spec fn concat_all<D>(batches: Seq<Seq<D>>) -> Seq<D>
    decreases batches.len(),
{
    if batches.len() == 0 {
        Seq::empty()
    } else {
        batches[0] + concat_all(batches.drop_first())
    }
}

/// While a view is open, each batch asks for exactly one notification, and
/// the diffs of all batches are queued in arrival order.
pub proof fn lemma_open_view_queues_in_order<D>(pending: Seq<D>, batches: Seq<Seq<D>>)
    ensures
        after_deliveries(pending, false, batches) == (pending + concat_all(batches), batches.len()),
    decreases batches.len(),
{
    if batches.len() == 0 {
        assert(pending + Seq::<D>::empty() =~= pending);
    } else {
        lemma_open_view_queues_in_order(pending + batches[0], batches.drop_first());
        assert(pending + batches[0] + concat_all(batches.drop_first()) =~= pending + concat_all(batches));
    }
}

} // verus!
