use vstd::prelude::*;

verus! {

/// FIFO queue of (block, height) pairs waiting to be absorbed by the wallet.
/// It counts, as ghost state, every block ever enqueued and every block ever
/// drained, so that the accounting between the two can be stated.
pub struct BlockQueue<B> {
    items: Vec<(B, u32)>,
    enqueued: Ghost<nat>,
    drained: Ghost<nat>,
}

impl<B> BlockQueue<B> {
    /// The blocks waiting, oldest first.
    pub closed spec fn pending(&self) -> Seq<(B, u32)> {
        self.items@
    }

    /// How many blocks were ever enqueued.
    pub closed spec fn enqueued_total(&self) -> nat {
        self.enqueued@
    }

    /// How many blocks were ever drained.
    pub closed spec fn drained_total(&self) -> nat {
        self.drained@
    }

    /// Every enqueued block is either still waiting or was drained once.
    pub closed spec fn wf(&self) -> bool {
        self.drained@ + self.items@.len() == self.enqueued@
    }

    pub fn new() -> (r: Self)
        ensures
            r.wf(),
            r.pending() == Seq::<(B, u32)>::empty(),
            r.enqueued_total() == 0,
            r.drained_total() == 0,
    {
        BlockQueue { items: Vec::new(), enqueued: Ghost(0), drained: Ghost(0) }
    }

    pub fn len(&self) -> (r: usize)
        ensures
            r == self.pending().len(),
    {
        self.items.len()
    }

    /// Appends a block at the back.
    pub fn enqueue(&mut self, block: B, height: u32)
        requires
            old(self).wf(),
        ensures
            final(self).wf(),
            final(self).pending() == old(self).pending().push((block, height)),
            final(self).enqueued_total() == old(self).enqueued_total() + 1,
            final(self).drained_total() == old(self).drained_total(),
    {
        self.items.push((block, height));
        self.enqueued = Ghost(self.enqueued@ + 1);
    }

    /// Removes every waiting block at once and hands them out in FIFO order.
    pub fn drain(&mut self) -> (r: Vec<(B, u32)>)
        requires
            old(self).wf(),
        ensures
            final(self).wf(),
            r@ == old(self).pending(),
            final(self).pending() == Seq::<(B, u32)>::empty(),
            final(self).enqueued_total() == old(self).enqueued_total(),
            final(self).drained_total() == old(self).drained_total() + r@.len(),
    {
        let mut out: Vec<(B, u32)> = Vec::new();
        std::mem::swap(&mut out, &mut self.items);
        self.drained = Ghost(self.drained@ + out@.len());
        out
    }
}

/// No block is lost or counted twice: what was drained so far plus what is
/// still waiting is exactly what was ever enqueued. Right after a drain
/// nothing waits, so the drained total equals the enqueued total.
pub proof fn lemma_queue_accounting<B>(q: &BlockQueue<B>)
    requires
        q.wf(),
    ensures
        q.drained_total() + q.pending().len() == q.enqueued_total(),
        q.pending().len() == 0 ==> q.drained_total() == q.enqueued_total(),
{
}

} // verus!
