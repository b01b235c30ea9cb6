use vstd::prelude::*;

verus! {

/// The host-to-simulation command channel, seen from the simulation side:
/// a first-in first-out queue of raw command bytes. The producer appends at
/// the back, the consumer removes from the front, and neither call blocks.
pub struct CommandQueue {
    items: Vec<u8>,
}

impl View for CommandQueue {
    type V = Seq<u8>;

    closed spec fn view(&self) -> Seq<u8> {
        self.items@
    }
}

impl CommandQueue {
    /// An empty queue.
    pub fn new() -> (q: CommandQueue)
        ensures
            q@ == Seq::<u8>::empty(),
    {
        CommandQueue { items: Vec::new() }
    }

    /// Appends one command at the back of the queue. Never blocks and never
    /// drops a command.
    pub fn enqueue(&mut self, cmd: u8)
        ensures
            final(self)@ == old(self)@.push(cmd),
    {
        self.items.push(cmd);
    }

    /// Removes and returns the oldest command, or returns `None` on an empty
    /// queue, leaving it untouched. Never blocks.
    pub fn try_dequeue(&mut self) -> (r: Option<u8>)
        ensures
            match r {
                None => old(self)@.len() == 0 && final(self)@ == old(self)@,
                Some(c) => old(self)@.len() > 0 && c == old(self)@[0] && final(self)@
                    == old(self)@.drop_first(),
            },
    {
        if self.items.len() == 0 {
            None
        } else {
            Some(self.items.remove(0))
        }
    }

    /// How many commands are waiting.
    pub fn len(&self) -> (n: usize)
        ensures
            n == self@.len(),
    {
        self.items.len()
    }
}

/// The queue contents after a producer enqueues the commands `cs`, one at a
/// time and in order, onto a queue holding `q`.
pub open spec fn after_enqueues(q: Seq<u8>, cs: Seq<u8>) -> Seq<u8> {
    q + cs
}

/// The queue contents after the consumer dequeues `k` times from a queue
/// holding `q`.
pub open spec fn after_dequeues(q: Seq<u8>, k: nat) -> Seq<u8>
    recommends
        k <= q.len(),
    decreases k,
{
    if k == 0 {
        q
    } else {
        after_dequeues(q, (k - 1) as nat).drop_first()
    }
}

/// First-in first-out: if the producer enqueues the commands `cs` in order
/// onto a queue holding `init`, then the `k`-th dequeue (counting from zero)
/// returns exactly the `k`-th of those commands, once the earlier contents
/// have been drained. Commands come out in the order they went in, none is
/// reordered, coalesced or dropped.
pub proof fn lemma_fifo_order(init: Seq<u8>, cs: Seq<u8>, k: nat)
    requires
        k < init.len() + cs.len(),
    ensures
        after_dequeues(after_enqueues(init, cs), k)[0] == if k < init.len() {
            init[k as int]
        } else {
            cs[k - init.len()]
        },
{
    lemma_after_dequeues_skips(after_enqueues(init, cs), k);
}

/// Dequeuing `k` times from a queue holding `q` leaves exactly the elements
/// of `q` past index `k`, still in order.
pub proof fn lemma_after_dequeues_skips(q: Seq<u8>, k: nat)
    requires
        k <= q.len(),
    ensures
        after_dequeues(q, k) =~= q.skip(k as int),
    decreases k,
{
    if k > 0 {
        lemma_after_dequeues_skips(q, (k - 1) as nat);
    }
}

} // verus!
