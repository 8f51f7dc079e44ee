//! A collection that caches the sum of its numbers so the average
//! stays cheap to read.

use vstd::prelude::*;
use crate::exercises::sum_of;
use crate::exercises::sum_numbers;

verus! {

/// The sum of a sequence of 32-bit numbers is bounded by the extreme
/// values times the length.
pub proof fn lemma_sum_bounds(s: Seq<i32>)
    ensures
        -2147483648 * s.len() <= sum_of(s) <= 2147483647 * s.len(),
    decreases s.len(),
{
    if s.len() > 0 {
        lemma_sum_bounds(s.drop_last());
    }
}

/// A collection of numbers that keeps their running total, so that the
/// average is always a division away.
pub struct AveragedCollection {
    list: Vec<i32>,
    total: i128,
}

impl AveragedCollection {
    /// The numbers held, in insertion order.
    pub closed spec fn values(&self) -> Seq<i32> {
        self.list@
    }

    /// The running total always equals the sum of the numbers held.
    pub closed spec fn inv(&self) -> bool {
        self.total == sum_of(self.list@)
    }

    /// An empty collection.
    pub fn new() -> (r: AveragedCollection)
        ensures
            r.values() == Seq::<i32>::empty(),
            r.inv(),
    {
        AveragedCollection { list: Vec::new(), total: 0 }
    }

    /// A collection holding exactly the given numbers.
    pub fn from(list: Vec<i32>) -> (r: AveragedCollection)
        ensures
            r.values() == list@,
            r.inv(),
    {
        let total = sum_numbers(&list);
        AveragedCollection { list, total }
    }

    /// Adds a number to the collection.
    pub fn add(&mut self, value: i32)
        requires
            old(self).inv(),
        ensures
            final(self).values() == old(self).values().push(value),
            final(self).inv(),
    {
        proof {
            vstd::std_specs::vec::axiom_spec_len(&self.list);
            lemma_sum_bounds(self.list@);
        }
        self.list.push(value);
        self.total = self.total + (value as i128);
        proof {
            assert(self.list@.drop_last() =~= old(self).list@);
        }
    }

    /// Removes and returns the most recently added number, if any.
    pub fn remove(&mut self) -> (r: Option<i32>)
        requires
            old(self).inv(),
        ensures
            old(self).values().len() == 0 ==> r is None && final(self).values() == old(
                self,
            ).values(),
            old(self).values().len() > 0 ==> (r matches Some(v) && v == old(
                self,
            ).values().last() && final(self).values() == old(self).values().drop_last()),
            final(self).inv(),
    {
        proof {
            vstd::std_specs::vec::axiom_spec_len(&self.list);
            lemma_sum_bounds(self.list@);
        }
        let result = self.list.pop();
        match result {
            Some(value) => {
                self.total = self.total - (value as i128);
                Some(value)
            },
            None => None,
        }
    }

    /// The sum of the numbers held; the average is this divided by
    /// how many there are.
    pub fn total(&self) -> (r: i128)
        requires
            self.inv(),
        ensures
            r == sum_of(self.values()),
    {
        self.total
    }

    /// How many numbers the collection holds.
    pub fn len(&self) -> (r: usize)
        ensures
            r == self.values().len(),
    {
        self.list.len()
    }
}

} // verus!
