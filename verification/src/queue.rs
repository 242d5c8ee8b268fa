//! Bounded, ordered hand-off queue between the native worker thread and
//! the consumer.  A push never blocks: on a full queue the oldest
//! unconsumed event leaves, and the loss is latched so that exactly one
//! dropped-events signal reaches the consumer per overflow run.

use vstd::prelude::*;

use crate::Event;
use crate::Notification;

verus! {

/// One bounded push: append, dropping the oldest event when the queue
/// is full.
pub open spec fn push_one(q: Seq<Event>, cap: int, e: Event) -> Seq<Event> {
    if q.len() < cap {
        q.push(e)
    } else {
        q.skip(1).push(e)
    }
}

/// A whole batch of bounded pushes, oldest record first.
pub open spec fn push_all(q: Seq<Event>, cap: int, es: Seq<Event>) -> Seq<Event>
    decreases es.len(),
{
    if es.len() == 0 {
        q
    } else {
        push_one(push_all(q, cap, es.drop_last()), cap, es.last())
    }
}

/// Overflow drops only the oldest: a batch of bounded pushes ends with
/// the newest events — the tail of the appended sequence, cut to the
/// capacity.  In particular the queue never grows past the capacity,
/// however many events arrive before the consumer reads.
pub proof fn lemma_push_all_keeps_newest(q: Seq<Event>, cap: int, es: Seq<Event>)
    requires
        1 <= cap,
        q.len() <= cap,
    ensures
        push_all(q, cap, es) == (q + es).skip(
            if q.len() + es.len() <= cap {
                0
            } else {
                q.len() + es.len() - cap
            },
        ),
        push_all(q, cap, es).len() <= cap,
    decreases es.len(),
{
    if es.len() == 0 {
        assert((q + es).skip(0) =~= q);
    } else {
        let es2 = es.drop_last();
        lemma_push_all_keeps_newest(q, cap, es2);
        let prev = push_all(q, cap, es2);
        let ex2: int = if q.len() + es2.len() <= cap {
            0
        } else {
            q.len() + es2.len() - cap
        };
        assert(prev.len() == q.len() + es2.len() - ex2);
        if prev.len() < cap {
            assert(ex2 == 0);
            assert(push_all(q, cap, es) == prev.push(es.last()));
            assert(prev =~= q + es2);
            assert((q + es2).push(es.last()) =~= (q + es).skip(0));
        } else {
            assert(prev.len() == cap);
            assert(push_all(q, cap, es) == prev.skip(1).push(es.last()));
            assert(prev.skip(1).push(es.last()) =~= (q + es).skip(ex2 + 1));
            assert(q.len() + es.len() - cap == ex2 + 1);
        }
    }
}

/// The bounded event queue.  Capacity is fixed at construction; the
/// element count never exceeds it.
pub struct EventQueue {
    events: Vec<Event>,
    capacity: usize,
    overflowed: bool,
}

impl EventQueue {
    #[verifier::type_invariant]
    spec fn inv(self) -> bool {
        self.capacity >= 1 && self.events@.len() <= self.capacity
    }

    /// The buffered events, oldest first.
    pub closed spec fn contents(&self) -> Seq<Event> {
        self.events@
    }

    /// The fixed capacity.
    pub closed spec fn capacity_model(&self) -> int {
        self.capacity as int
    }

    /// Whether an overflow happened since the signal was last taken.
    pub closed spec fn overflow_pending(&self) -> bool {
        self.overflowed
    }

    /// An empty queue of the given capacity.
    pub fn new(capacity: usize) -> (q: EventQueue)
        requires
            capacity >= 1,
        ensures
            q.contents() == Seq::<Event>::empty(),
            q.capacity_model() == capacity as int,
            !q.overflow_pending(),
    {
        EventQueue { events: Vec::new(), capacity, overflowed: false }
    }

    /// Number of buffered events; never above the capacity.
    pub fn len(&self) -> (n: usize)
        ensures
            n as int == self.contents().len(),
            n as int <= self.capacity_model(),
    {
        proof {
            use_type_invariant(self);
        }
        self.events.len()
    }

    /// The fixed capacity, at least one.
    pub fn capacity(&self) -> (c: usize)
        ensures
            c as int == self.capacity_model(),
            c >= 1,
    {
        proof {
            use_type_invariant(self);
        }
        self.capacity
    }

    /// Push from the worker side; never blocks and never grows past the
    /// capacity.  On a full queue the oldest event is dropped to make
    /// room, and the loss is latched.
    pub fn push(&mut self, e: Event)
        ensures
            final(self).capacity_model() == old(self).capacity_model(),
            final(self).contents().len() <= final(self).capacity_model(),
            old(self).contents().len() < old(self).capacity_model() ==> {
                &&& final(self).contents() == old(self).contents().push(e)
                &&& final(self).overflow_pending() == old(self).overflow_pending()
            },
            old(self).contents().len() >= old(self).capacity_model() ==> {
                &&& final(self).contents() == old(self).contents().skip(1).push(e)
                &&& final(self).overflow_pending()
            },
    {
        proof {
            use_type_invariant(&*self);
        }
        let mut evs: Vec<Event> = Vec::new();
        std::mem::swap(&mut evs, &mut self.events);
        if evs.len() == self.capacity {
            let _oldest = evs.remove(0);
            self.overflowed = true;
            proof {
                assert(evs@ =~= old(self).contents().skip(1));
            }
        }
        evs.push(e);
        std::mem::swap(&mut evs, &mut self.events);
    }

    /// Push a whole decoded batch, oldest record first.  The queue
    /// keeps the newest events up to its capacity; if anything was
    /// dropped to make room, the loss is latched.
    pub fn push_batch(&mut self, evs: Vec<Event>)
        ensures
            final(self).capacity_model() == old(self).capacity_model(),
            final(self).contents() == push_all(
                old(self).contents(),
                old(self).capacity_model(),
                evs@,
            ),
            final(self).contents().len() == (if old(self).contents().len() + evs@.len() <= old(
                self,
            ).capacity_model() {
                old(self).contents().len() + evs@.len() as int
            } else {
                old(self).capacity_model()
            }),
            final(self).overflow_pending() == (old(self).overflow_pending() || old(
                self,
            ).contents().len() + evs@.len() > old(self).capacity_model()),
    {
        proof {
            use_type_invariant(&*self);
        }
        let ghost es = evs@;
        let ghost q0 = self.contents();
        let ghost cap = self.capacity_model();
        let ghost f0 = self.overflow_pending();
        let mut evs = evs;
        let n = evs.len();
        let mut i: usize = 0;
        proof {
            assert(es.take(0) =~= Seq::<Event>::empty());
            assert(evs@ =~= es.skip(0));
        }
        while i < n
            invariant
                i <= n,
                n == es.len(),
                evs@ == es.skip(i as int),
                self.capacity_model() == cap,
                q0.len() <= cap,
                self.contents() == push_all(q0, cap, es.take(i as int)),
                self.contents().len() == (if q0.len() + i <= cap {
                    q0.len() + i
                } else {
                    cap
                }),
                self.overflow_pending() == (f0 || q0.len() + i > cap),
            decreases n - i,
        {
            let e = evs.remove(0);
            proof {
                assert(e == es[i as int]);
                assert(evs@ =~= es.skip(i as int + 1));
                assert(es.take(i as int + 1).drop_last() =~= es.take(i as int));
                assert(es.take(i as int + 1).last() == es[i as int]);
            }
            self.push(e);
            i = i + 1;
        }
        proof {
            assert(es.take(n as int) =~= es);
        }
    }

    /// Pop the oldest buffered event, if any, from the consumer side.
    pub fn pop(&mut self) -> (r: Option<Event>)
        ensures
            final(self).capacity_model() == old(self).capacity_model(),
            final(self).overflow_pending() == old(self).overflow_pending(),
            old(self).contents().len() == 0 ==> {
                &&& r is None
                &&& final(self).contents() == old(self).contents()
            },
            old(self).contents().len() > 0 ==> {
                &&& r == Some(old(self).contents()[0])
                &&& final(self).contents() == old(self).contents().skip(1)
            },
    {
        proof {
            use_type_invariant(&*self);
        }
        if self.events.len() == 0 {
            None
        } else {
            let mut evs: Vec<Event> = Vec::new();
            std::mem::swap(&mut evs, &mut self.events);
            let e = evs.remove(0);
            proof {
                assert(evs@ =~= old(self).contents().skip(1));
            }
            std::mem::swap(&mut evs, &mut self.events);
            Some(e)
        }
    }

    /// Take the dropped-events signal: returns it exactly once per
    /// overflow run and clears the latch; the buffered events stay.
    pub fn take_overflow(&mut self) -> (r: Option<Notification>)
        ensures
            final(self).capacity_model() == old(self).capacity_model(),
            final(self).contents() == old(self).contents(),
            !final(self).overflow_pending(),
            old(self).overflow_pending() ==> r == Some(Notification::EventsDropped),
            !old(self).overflow_pending() ==> r is None,
    {
        proof {
            use_type_invariant(&*self);
        }
        if self.overflowed {
            self.overflowed = false;
            Some(Notification::EventsDropped)
        } else {
            self.overflowed = false;
            None
        }
    }
}

} // verus!
