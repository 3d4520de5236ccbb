//! A double-ended queue with a fixed capacity.
//!
//! Pushing into a full queue evicts the oldest value first, so the queue
//! always keeps the most recent `capacity` values. With capacity 1 this
//! is the single-slot handoff between the reception callback and the
//! main loop: a second send overwrites the first.

use vstd::prelude::*;

verus! {

/// Contents after a push: a full queue drops its oldest value to make
/// room, any other queue just grows.
pub open spec fn deque_pushed<T>(s: Seq<T>, capacity: int, value: T) -> Seq<T> {
    if s.len() == capacity {
        s.drop_first().push(value)
    } else {
        s.push(value)
    }
}

/// The value a pop returns: the oldest buffered value, if any.
pub open spec fn deque_front<T>(s: Seq<T>) -> Option<T> {
    if s.len() == 0 {
        None
    } else {
        Some(s.first())
    }
}

/// Contents after a pop: the oldest value is gone.
pub open spec fn deque_after_pop<T>(s: Seq<T>) -> Seq<T> {
    if s.len() == 0 {
        s
    } else {
        s.drop_first()
    }
}

/// A double-ended queue holding at most `capacity` values.
pub struct Deque<T> {
    capacity: usize,
    stack: Vec<T>,
}

impl<T> View for Deque<T> {
    type V = Seq<T>;

    closed spec fn view(&self) -> Seq<T> {
        self.stack@
    }
}

impl<T> Deque<T> {
    /// The fixed capacity the queue was created with.
    pub closed spec fn cap(&self) -> int {
        self.capacity as int
    }

    /// A queue never holds more values than its capacity, which is at
    /// least one.
    pub open spec fn wf(&self) -> bool {
        self@.len() <= self.cap() && self.cap() >= 1
    }

    /// An empty queue that will hold at most `max_size` values.
    pub fn new(max_size: usize) -> (r: Deque<T>)
        requires
            max_size >= 1,
        ensures
            r@ == Seq::<T>::empty(),
            r.cap() == max_size,
            r.wf(),
    {
        let stack: Vec<T> = Vec::new();
        Deque { capacity: max_size, stack }
    }

    /// The buffered values, oldest first.
    pub fn values(&self) -> (r: &Vec<T>)
        ensures
            r@ == self@,
    {
        &self.stack
    }

    /// Appends a value, evicting the oldest one when the queue is full.
    pub fn push(&mut self, value: T)
        requires
            old(self).wf(),
        ensures
            final(self)@ == deque_pushed(old(self)@, old(self).cap(), value),
            final(self).cap() == old(self).cap(),
            final(self).wf(),
    {
        if self.stack.len() == self.capacity {
            let _ = self.pop();
        }
        self.stack.push(value);
    }

    /// Takes the oldest value out, if the queue holds any.
    pub fn pop(&mut self) -> (r: Option<T>)
        requires
            old(self).wf(),
        ensures
            r == deque_front(old(self)@),
            final(self)@ == deque_after_pop(old(self)@),
            final(self).cap() == old(self).cap(),
            final(self).wf(),
    {
        if self.stack.len() == 0 {
            None
        } else {
            let value = self.stack.remove(0);
            proof {
                assert(self.stack@ =~= old(self)@.drop_first());
            }
            Some(value)
        }
    }

    /// The buffered values for index-based traversal, oldest first.
    pub fn iter(&self) -> (r: &Vec<T>)
        ensures
            r@ == self@,
    {
        &self.stack
    }
}

/// A push leaves nothing in the queue but whole pushed values: every
/// element afterwards is either the new value or one the queue already
/// held. So, by induction over any interleaving of pushes and pops, a
/// pop can only return a value exactly as it was pushed. (Safety
/// against a push preempting a pop midway is beyond this sequential
/// model; on hardware the consumer masks the bus interrupts around the
/// take.)
pub proof fn lemma_no_torn_values<T>(s: Seq<T>, capacity: int, value: T)
    requires
        capacity >= 1,
    ensures
        forall|j: int|
            0 <= j < deque_pushed(s, capacity, value).len() ==> s.contains(
                #[trigger] deque_pushed(s, capacity, value)[j],
            ) || deque_pushed(s, capacity, value)[j] == value,
{
    let after = deque_pushed(s, capacity, value);
    assert forall|j: int| 0 <= j < after.len() implies s.contains(#[trigger] after[j]) || after[j]
        == value by {
        if j < after.len() - 1 {
            if s.len() == capacity {
                assert(after[j] == s.drop_first()[j]);
                assert(s.drop_first()[j] == s[j + 1]);
                assert(s.contains(s[j + 1]));
            } else {
                assert(after[j] == s[j]);
                assert(s.contains(s[j]));
            }
        } else {
            assert(after[j] == value);
        }
    }
}

/// Single-slot overwrite: in a queue of capacity 1, a second push
/// overwrites the first value; a pop then yields the later value and a
/// further pop finds the queue empty.
pub proof fn lemma_single_slot_overwrite<T>(s: Seq<T>, a: T, b: T)
    requires
        s.len() <= 1,
    ensures
        ({
            let after = deque_pushed(deque_pushed(s, 1, a), 1, b);
            &&& deque_front(after) == Some(b)
            &&& deque_front(deque_after_pop(after)) == None::<T>
        }),
{
}

} // verus!
