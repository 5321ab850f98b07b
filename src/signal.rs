//! Edge events of the user's activity and the bounded queue that carries
//! them from the idle source to the scheduler.

use vstd::prelude::*;

verus! {

/// One transition of the user's activity state.
#[derive(Clone, Copy, Debug, PartialEq, Eq, Structural)]
pub enum Signal {
    Idled,
    Resumed,
}

/// How many undelivered signals the channel holds: enough for one whole
/// idle/resume pair to wait while the scheduler is busy showing a break.
pub const CHANNEL_CAPACITY: usize = 2;

/// The queue after offering `s` to it: appended when there is room,
/// dropped when it is full.
pub open spec fn after_send(q: Seq<Signal>, s: Signal) -> Seq<Signal> {
    if q.len() < CHANNEL_CAPACITY {
        q.push(s)
    } else {
        q
    }
}

/// The queue after offering each of `sends` in turn.
pub open spec fn after_sends(q: Seq<Signal>, sends: Seq<Signal>) -> Seq<Signal>
    decreases sends.len(),
{
    if sends.len() == 0 {
        q
    } else {
        after_send(after_sends(q, sends.drop_last()), sends.last())
    }
}

/// A first-in first-out queue of signals that never holds more than
/// `CHANNEL_CAPACITY` of them. Sending never waits: a signal offered to a
/// full queue is dropped.
pub struct SignalChannel {
    buffer: Vec<Signal>,
}

impl View for SignalChannel {
    type V = Seq<Signal>;

    closed spec fn view(&self) -> Seq<Signal> {
        self.buffer@
    }
}

impl SignalChannel {
    pub open spec fn wf(&self) -> bool {
        self@.len() <= CHANNEL_CAPACITY
    }

    pub fn new() -> (r: SignalChannel)
        ensures
            r.wf(),
            r@ == Seq::<Signal>::empty(),
    {
        SignalChannel { buffer: Vec::new() }
    }

    /// Queues `s` unless the channel is full; tells whether it was queued.
    pub fn try_send(&mut self, s: Signal) -> (queued: bool)
        requires
            old(self).wf(),
        ensures
            final(self).wf(),
            queued == (old(self)@.len() < CHANNEL_CAPACITY),
            final(self)@ == after_send(old(self)@, s),
    {
        if self.buffer.len() < CHANNEL_CAPACITY {
            self.buffer.push(s);
            true
        } else {
            false
        }
    }

    /// Takes the oldest undelivered signal, if there is one.
    pub fn try_recv(&mut self) -> (r: Option<Signal>)
        requires
            old(self).wf(),
        ensures
            final(self).wf(),
            old(self)@.len() == 0 ==> r is None && final(self)@ == old(self)@,
            old(self)@.len() > 0 ==> r == Some(old(self)@[0]) && final(self)@ == old(
                self,
            )@.drop_first(),
    {
        if self.buffer.len() == 0 {
            None
        } else {
            Some(self.buffer.remove(0))
        }
    }

    /// Drops every undelivered signal.
    pub fn clear(&mut self)
        ensures
            final(self).wf(),
            final(self)@ == Seq::<Signal>::empty(),
    {
        self.buffer.clear();
    }

    pub fn len(&self) -> (n: usize)
        ensures
            n == self@.len(),
    {
        self.buffer.len()
    }

    pub fn is_empty(&self) -> (r: bool)
        ensures
            r == (self@.len() == 0),
    {
        self.buffer.len() == 0
    }
}

/// However many signals are offered, the channel holds at most
/// `CHANNEL_CAPACITY` of them, and once full it drops every further one.
pub proof fn lemma_channel_bound(q: Seq<Signal>, sends: Seq<Signal>)
    requires
        q.len() <= CHANNEL_CAPACITY,
    ensures
        after_sends(q, sends).len() <= CHANNEL_CAPACITY,
        q.len() == CHANNEL_CAPACITY ==> after_sends(q, sends) == q,
    decreases sends.len(),
{
    if sends.len() > 0 {
        lemma_channel_bound(q, sends.drop_last());
    }
}

} // verus!
