//! Fan-in of the per-session event streams.
//!
//! Each session owns one bounded FIFO queue that its producer fills with
//! decoded events; the single consumer drains all queues through one
//! interface. Events from the same session are yielded in production order;
//! across sessions, whichever session has a ready event is yielded next.
//! A full queue is a recoverable overflow reported to the producer, never
//! an abort.

use vstd::prelude::*;
use std::collections::VecDeque;
use crate::events::ControllerEvent;
use crate::events::spec_decode;

verus! {

/// Returned to a producer when its session's bounded queue is full; the
/// queue and every log are left unchanged.
#[derive(Copy, Clone, Debug, PartialEq, Eq, Structural)]
pub struct MuxOverflow;

/// The multiplexer: one bounded queue and one end-of-stream flag per
/// session, with ghost logs of everything ever pushed and ever taken.
pub struct Multiplexer {
    queues: Vec<VecDeque<ControllerEvent>>,
    ended_flags: Vec<bool>,
    capacity: usize,
    pushed_log: Ghost<Seq<Seq<ControllerEvent>>>,
    taken_log: Ghost<Seq<Seq<ControllerEvent>>>,
}

impl Multiplexer {
    /// Number of sessions fanned in.
    pub closed spec fn num_sessions(&self) -> int {
        self.queues@.len() as int
    }

    /// Events pushed to session `s` and not yet yielded, oldest first.
    pub closed spec fn pending(&self, s: int) -> Seq<ControllerEvent> {
        self.queues@[s]@
    }

    /// Every event ever pushed to session `s`, in production order.
    pub closed spec fn pushed(&self, s: int) -> Seq<ControllerEvent> {
        self.pushed_log@[s]
    }

    /// Every event yielded to the consumer from session `s`, in order.
    pub closed spec fn taken(&self, s: int) -> Seq<ControllerEvent> {
        self.taken_log@[s]
    }

    /// Whether session `s`'s source has ended (its device disconnected).
    pub closed spec fn ended(&self, s: int) -> bool {
        self.ended_flags@[s]
    }

    /// The bound every session queue keeps to.
    pub closed spec fn capacity(&self) -> int {
        self.capacity as int
    }

    /// Invariant: the flag and log views cover every session, and for each
    /// session the yielded events followed by the pending ones are exactly
    /// the pushed ones, within the capacity bound.
    pub closed spec fn wf(&self) -> bool {
        &&& self.ended_flags@.len() == self.queues@.len()
        &&& self.pushed_log@.len() == self.queues@.len()
        &&& self.taken_log@.len() == self.queues@.len()
        &&& self.capacity >= 1
        &&& forall|s: int|
            0 <= s < self.queues@.len() ==> self.taken(s) + self.pending(s) == self.pushed(s)
        &&& forall|s: int| 0 <= s < self.queues@.len() ==> self.pending(s).len() <= self.capacity
    }

    /// Create a multiplexer over `n` sessions, each with an empty queue
    /// bounded by `capacity`.
    pub fn new(n: usize, capacity: usize) -> (m: Multiplexer)
        requires
            capacity >= 1,
        ensures
            m.wf(),
            m.num_sessions() == n,
            m.capacity() == capacity,
            forall|s: int|
                0 <= s < n ==> m.pending(s) == Seq::<ControllerEvent>::empty() && m.pushed(s)
                    == Seq::<ControllerEvent>::empty() && m.taken(s)
                    == Seq::<ControllerEvent>::empty() && !m.ended(s),
    {
        let mut queues: Vec<VecDeque<ControllerEvent>> = Vec::new();
        let mut ended_flags: Vec<bool> = Vec::new();
        let mut i: usize = 0;
        while i < n
            invariant
                i <= n,
                queues@.len() == i,
                ended_flags@.len() == i,
                forall|s: int| 0 <= s < i ==> queues@[s]@ == Seq::<ControllerEvent>::empty(),
                forall|s: int| 0 <= s < i ==> !ended_flags@[s],
            decreases n - i,
        {
            queues.push(VecDeque::new());
            ended_flags.push(false);
            i = i + 1;
        }
        Multiplexer {
            queues,
            ended_flags,
            capacity,
            pushed_log: Ghost(Seq::new(n as nat, |s: int| Seq::empty())),
            taken_log: Ghost(Seq::new(n as nat, |s: int| Seq::empty())),
        }
    }

    /// Number of sessions fanned in.
    pub fn session_count(&self) -> (r: usize)
        ensures
            r == self.num_sessions(),
    {
        self.queues.len()
    }

    /// Producer side: append one event to session `s`'s queue. Succeeds
    /// exactly when the queue is below its bound; a full queue reports a
    /// recoverable overflow and changes nothing.
    pub fn push(&mut self, s: usize, e: ControllerEvent) -> (r: Result<(), MuxOverflow>)
        requires
            old(self).wf(),
            s < old(self).num_sessions(),
            !old(self).ended(s as int),
        ensures
            final(self).wf(),
            final(self).num_sessions() == old(self).num_sessions(),
            final(self).capacity() == old(self).capacity(),
            forall|t: int|
                0 <= t < old(self).num_sessions() ==> final(self).ended(t) == old(self).ended(t)
                    && final(self).taken(t) == old(self).taken(t),
            forall|t: int|
                0 <= t < old(self).num_sessions() && t != s ==> final(self).pending(t) == old(
                    self,
                ).pending(t) && final(self).pushed(t) == old(self).pushed(t),
            match r {
                Ok(_) => {
                    &&& old(self).pending(s as int).len() < old(self).capacity()
                    &&& final(self).pending(s as int) == old(self).pending(s as int).push(e)
                    &&& final(self).pushed(s as int) == old(self).pushed(s as int).push(e)
                },
                Err(_) => {
                    &&& old(self).pending(s as int).len() == old(self).capacity()
                    &&& final(self).pending(s as int) == old(self).pending(s as int)
                    &&& final(self).pushed(s as int) == old(self).pushed(s as int)
                },
            },
    {
        if self.queues[s].len() >= self.capacity {
            return Err(MuxOverflow);
        }
        let q = &mut self.queues[s];
        q.push_back(e);
        proof {
            self.pushed_log@ = self.pushed_log@.update(
                s as int,
                self.pushed_log@[s as int].push(e),
            );
            assert forall|t: int|
                0 <= t < self.queues@.len() implies self.taken(t) + self.pending(t)
                == self.pushed(t) by {
                assert(old(self).taken(t) + old(self).pending(t) == old(self).pushed(t));
                if t == s as int {
                    assert(self.taken(t) + self.pending(t) =~= old(self).pushed(t).push(e));
                }
            }
            assert forall|t: int|
                0 <= t < self.queues@.len() implies self.pending(t).len() <= self.capacity by {
                assert(old(self).pending(t).len() <= old(self).capacity());
            }
        }
        Ok(())
    }

    /// Producer side of the driver callback: decode one raw MIDI message
    /// and, if it carries an event, enqueue it for session `s`. Returns
    /// whether an event was enqueued; a full queue reports the overflow and
    /// changes nothing.
    pub fn ingest(&mut self, s: usize, msg: &[u8]) -> (r: Result<bool, MuxOverflow>)
        requires
            old(self).wf(),
            s < old(self).num_sessions(),
            !old(self).ended(s as int),
        ensures
            final(self).wf(),
            final(self).num_sessions() == old(self).num_sessions(),
            final(self).capacity() == old(self).capacity(),
            forall|t: int|
                0 <= t < old(self).num_sessions() ==> final(self).ended(t) == old(self).ended(t)
                    && final(self).taken(t) == old(self).taken(t),
            forall|t: int|
                0 <= t < old(self).num_sessions() && t != s ==> final(self).pending(t) == old(
                    self,
                ).pending(t) && final(self).pushed(t) == old(self).pushed(t),
            match spec_decode(msg@) {
                None => {
                    &&& r == Ok::<bool, MuxOverflow>(false)
                    &&& final(self).pending(s as int) == old(self).pending(s as int)
                    &&& final(self).pushed(s as int) == old(self).pushed(s as int)
                },
                Some(e) => match r {
                    Ok(got) => {
                        &&& got
                        &&& old(self).pending(s as int).len() < old(self).capacity()
                        &&& final(self).pending(s as int) == old(self).pending(s as int).push(e)
                        &&& final(self).pushed(s as int) == old(self).pushed(s as int).push(e)
                    },
                    Err(_) => {
                        &&& old(self).pending(s as int).len() == old(self).capacity()
                        &&& final(self).pending(s as int) == old(self).pending(s as int)
                        &&& final(self).pushed(s as int) == old(self).pushed(s as int)
                    },
                },
            },
    {
        match ControllerEvent::from_midi(msg) {
            None => Ok(false),
            Some(e) => match self.push(s, e) {
                Ok(_) => Ok(true),
                Err(overflow) => Err(overflow),
            },
        }
    }

    /// Mark session `s`'s source as ended; the consumer observes the end of
    /// the whole sequence once every session has ended and drained.
    pub fn close(&mut self, s: usize)
        requires
            old(self).wf(),
            s < old(self).num_sessions(),
        ensures
            final(self).wf(),
            final(self).num_sessions() == old(self).num_sessions(),
            final(self).capacity() == old(self).capacity(),
            final(self).ended(s as int),
            forall|t: int|
                0 <= t < old(self).num_sessions() && t != s ==> final(self).ended(t) == old(
                    self,
                ).ended(t),
            forall|t: int|
                0 <= t < old(self).num_sessions() ==> final(self).pending(t) == old(self).pending(
                    t,
                ) && final(self).pushed(t) == old(self).pushed(t) && final(self).taken(t) == old(
                    self,
                ).taken(t),
    {
        self.ended_flags.set(s, true);
        proof {
            assert forall|t: int|
                0 <= t < self.queues@.len() implies self.taken(t) + self.pending(t)
                == self.pushed(t) by {
                assert(old(self).taken(t) + old(self).pending(t) == old(self).pushed(t));
            }
            assert forall|t: int|
                0 <= t < self.queues@.len() implies self.pending(t).len() <= self.capacity by {
                assert(old(self).pending(t).len() <= old(self).capacity());
            }
        }
    }

    /// Consumer side: yield the next ready `(session, event)` pair, from
    /// the first session holding a pending event; `None` when no session
    /// has one ready right now.
    pub fn poll_next(&mut self) -> (r: Option<(usize, ControllerEvent)>)
        requires
            old(self).wf(),
        ensures
            final(self).wf(),
            final(self).num_sessions() == old(self).num_sessions(),
            final(self).capacity() == old(self).capacity(),
            forall|t: int|
                0 <= t < old(self).num_sessions() ==> final(self).ended(t) == old(self).ended(t)
                    && final(self).pushed(t) == old(self).pushed(t),
            match r {
                Some(p) => {
                    &&& p.0 < old(self).num_sessions()
                    &&& old(self).pending(p.0 as int).len() > 0
                    &&& p.1 == old(self).pending(p.0 as int)[0]
                    &&& final(self).pending(p.0 as int) == old(self).pending(
                        p.0 as int,
                    ).drop_first()
                    &&& final(self).taken(p.0 as int) == old(self).taken(p.0 as int).push(p.1)
                    &&& forall|t: int|
                        0 <= t < old(self).num_sessions() && t != p.0 ==> final(self).pending(t)
                            == old(self).pending(t) && final(self).taken(t) == old(self).taken(t)
                    &&& forall|t: int| 0 <= t < p.0 ==> old(self).pending(t).len() == 0
                },
                None => {
                    &&& forall|t: int|
                        0 <= t < old(self).num_sessions() ==> old(self).pending(t).len() == 0
                    &&& forall|t: int|
                        0 <= t < old(self).num_sessions() ==> final(self).pending(t) == old(
                            self,
                        ).pending(t) && final(self).taken(t) == old(self).taken(t)
                },
            },
    {
        let n = self.queues.len();
        let mut s: usize = 0;
        while s < n
            invariant
                s <= n,
                n == old(self).num_sessions(),
                *self == *old(self),
                old(self).wf(),
                forall|t: int| 0 <= t < s ==> old(self).pending(t).len() == 0,
            decreases n - s,
        {
            if self.queues[s].len() > 0 {
                let q = &mut self.queues[s];
                let popped = q.pop_front();
                match popped {
                    Some(e) => {
                        proof {
                            self.taken_log@ = self.taken_log@.update(
                                s as int,
                                self.taken_log@[s as int].push(e),
                            );
                            assert(self.taken(s as int) + self.pending(s as int) =~= old(
                                self,
                            ).taken(s as int) + old(self).pending(s as int));
                            assert forall|t: int|
                                0 <= t < self.queues@.len() implies self.taken(t) + self.pending(t)
                                == self.pushed(t) by {
                                assert(old(self).taken(t) + old(self).pending(t) == old(
                                    self,
                                ).pushed(t));
                            }
                            assert forall|t: int|
                                0 <= t < self.queues@.len() implies self.pending(t).len()
                                <= self.capacity by {
                                assert(old(self).pending(t).len() <= old(self).capacity());
                            }
                        }
                        return Some((s, e));
                    },
                    None => {
                        proof {
                            assert(false);
                        }
                    },
                }
            }
            s = s + 1;
        }
        None
    }

    /// Whether the whole multiplexed sequence has ended: every session's
    /// source has ended and every queue has drained.
    pub fn is_finished(&self) -> (r: bool)
        requires
            self.wf(),
        ensures
            r == (forall|s: int|
                0 <= s < self.num_sessions() ==> #[trigger] self.ended(s)
                    && self.pending(s).len() == 0),
    {
        let n = self.queues.len();
        let mut s: usize = 0;
        while s < n
            invariant
                s <= n,
                n == self.num_sessions(),
                self.wf(),
                forall|t: int|
                    0 <= t < s ==> #[trigger] self.ended(t) && self.pending(t).len() == 0,
            decreases n - s,
        {
            if !self.ended_flags[s] || self.queues[s].len() > 0 {
                proof {
                    assert((s as int) < self.num_sessions());
                    assert(!(self.ended(s as int) && self.pending(s as int).len() == 0));
                    assert(!(forall|t: int|
                        0 <= t < self.num_sessions() ==> #[trigger] self.ended(t)
                            && self.pending(t).len() == 0));
                }
                return false;
            }
            proof {
                assert(self.ended(s as int) && self.pending(s as int).len() == 0);
                assert(forall|t: int|
                    0 <= t < s + 1 ==> #[trigger] self.ended(t) && self.pending(t).len() == 0);
            }
            s = s + 1;
        }
        true
    }
}

/// Fan-in ordering law: for every session, the events already yielded to
/// the consumer, followed by those still pending, are exactly the events
/// its producer pushed, in production order — so each session's subsequence
/// of the consumer-facing stream preserves its production order.
pub proof fn lemma_fan_in_order(m: &Multiplexer, s: int)
    requires
        m.wf(),
        0 <= s < m.num_sessions(),
    ensures
        m.taken(s) + m.pending(s) == m.pushed(s),
        m.taken(s) == m.pushed(s).take(m.taken(s).len() as int),
{
    assert(m.taken(s) =~= m.pushed(s).take(m.taken(s).len() as int));
}

/// A drained session has delivered everything: once nothing is pending for
/// session `s`, the consumer has been yielded every event pushed for `s`,
/// in production order.
pub proof fn lemma_drained_session_delivers_all(m: &Multiplexer, s: int)
    requires
        m.wf(),
        0 <= s < m.num_sessions(),
        m.pending(s).len() == 0,
    ensures
        m.taken(s) == m.pushed(s),
{
    assert(m.taken(s) + m.pending(s) =~= m.taken(s));
}

} // verus!
