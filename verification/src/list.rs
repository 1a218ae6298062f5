//! The event list of one processing block: a time-ordered collection of
//! records with order-preserving insertion and forward traversal by index.

use crate::events::Event;
use vstd::prelude::*;

verus! {

/// Non-decreasing timestamps throughout the sequence.
pub open spec fn sorted_by_time(s: Seq<Event>) -> bool {
    forall|i: int, j: int|
        #![trigger s[i], s[j]]
        0 <= i <= j < s.len() ==> s[i].raw.time <= s[j].raw.time
}

/// An ordered, time-stamped collection of the records of one processing
/// block. Insertion keeps the list sorted by timestamp and puts a new record
/// after every record whose timestamp is not larger, so records that share a
/// timestamp stay in the order they were inserted.
pub struct EventList<'a> {
    items: Vec<Event<'a>>,
}

impl<'a> View for EventList<'a> {
    type V = Seq<Event<'a>>;

    closed spec fn view(&self) -> Seq<Event<'a>> {
        self.items@
    }
}

impl<'a> EventList<'a> {
    /// The list's one invariant: its records stand in timestamp order.
    pub open spec fn wf(&self) -> bool {
        sorted_by_time(self@)
    }

    /// An empty list.
    pub fn new() -> (r: EventList<'a>)
        ensures
            r@ == Seq::<Event<'a>>::empty(),
            r.wf(),
    {
        EventList { items: Vec::new() }
    }

    /// How many records the list holds.
    pub fn len(&self) -> (r: usize)
        ensures
            r == self@.len(),
    {
        self.items.len()
    }

    /// The record at one position of the traversal order.
    pub fn get(&self, index: usize) -> (r: Event<'a>)
        requires
            index < self@.len(),
        ensures
            r == self@[index as int],
    {
        self.items[index]
    }

    /// Inserts a record, keeping the list sorted by timestamp; the returned
    /// position lies after every record whose timestamp is at most the new
    /// record's and before every record whose timestamp is larger, so equal
    /// timestamps keep their insertion order. Costs one binary search and one
    /// shift of the records behind the position.
    pub fn insert(&mut self, event: Event<'a>) -> (position: usize)
        requires
            old(self).wf(),
            old(self)@.len() < usize::MAX,
        ensures
            final(self).wf(),
            position <= old(self)@.len(),
            final(self)@ == old(self)@.insert(position as int, event),
            forall|j: int|
                0 <= j < position ==> (#[trigger] old(self)@[j]).raw.time <= event.raw.time,
            forall|j: int|
                position <= j < old(self)@.len() ==> (#[trigger] old(self)@[j]).raw.time
                    > event.raw.time,
    {
        let mut lo: usize = 0;
        let mut hi: usize = self.items.len();
        while lo < hi
            invariant
                lo <= hi <= self.items@.len(),
                sorted_by_time(self.items@),
                forall|j: int|
                    0 <= j < lo ==> (#[trigger] self.items@[j]).raw.time <= event.raw.time,
                forall|j: int|
                    hi <= j < self.items@.len() ==> (#[trigger] self.items@[j]).raw.time
                        > event.raw.time,
            decreases hi - lo,
        {
            let mid: usize = lo + (hi - lo) / 2;
            if self.items[mid].time() <= event.time() {
                proof {
                    assert forall|j: int| 0 <= j < mid + 1 implies (#[trigger] self.items@[j]).raw.time
                        <= event.raw.time by {
                        assert(self.items@[j].raw.time <= self.items@[mid as int].raw.time);
                    }
                }
                lo = mid + 1;
            } else {
                hi = mid;
            }
        }
        let ghost s = self.items@;
        self.items.insert(lo, event);
        proof {
            s.insert_ensures(lo as int, event);
            assert forall|a: int, b: int|
                #![trigger self.items@[a], self.items@[b]]
                0 <= a <= b < self.items@.len() implies self.items@[a].raw.time
                <= self.items@[b].raw.time by {
                let t = self.items@;
                if a < lo && b < lo {
                    assert(t[a] == s[a] && t[b] == s[b]);
                } else if a < lo && b == lo {
                    assert(t[a] == s[a] && t[b] == event);
                } else if a < lo && b > lo {
                    assert(t[a] == s[a] && t[b] == s[b - 1]);
                    assert(s[a].raw.time <= s[b - 1].raw.time);
                } else if a == lo && b == lo {
                } else if a == lo && b > lo {
                    assert(t[a] == event && t[b] == s[b - 1]);
                } else {
                    assert(t[a] == s[a - 1] && t[b] == s[b - 1]);
                    assert(s[a - 1].raw.time <= s[b - 1].raw.time);
                }
            }
        }
        lo
    }
}

} // verus!
