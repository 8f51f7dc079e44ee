use vstd::prelude::*;
use vstd::laws_cmp::obeys_partial_cmp_spec_properties;
use vstd::std_specs::cmp::PartialOrdSpec;
use vstd::utf8::encode_utf8;
use core::cmp::Ordering;

verus! {

#[derive(Debug)]
pub struct Point<T> {
    pub x: T,
    pub y: T,
}

impl<T> Point<T> {
    /// Borrows the first coordinate.
    pub fn x(&self) -> (r: &T)
        ensures
            *r == self.x,
    {
        &self.x
    }
}

#[derive(Debug)]
pub struct MultipleTypePoint<T, U> {
    pub x: T,
    pub y: U,
}

impl<T, U> MultipleTypePoint<T, U> {
    /// Combines this point's first coordinate with the other point's
    /// second coordinate.
    pub fn mix_up<V, W>(self, other: MultipleTypePoint<V, W>) -> (r: MultipleTypePoint<T, W>)
        ensures
            r.x == self.x,
            r.y == other.y,
    {
        MultipleTypePoint { x: self.x, y: other.y }
    }
}

/// The largest signed 32-bit integer in a nonempty slice.
pub fn largest_i32(list: &[i32]) -> (r: i32)
    requires
        list@.len() > 0,
    ensures
        exists|i: int| 0 <= i < list@.len() && r == list@[i],
        forall|i: int| 0 <= i < list@.len() ==> list@[i] <= r,
{
    let mut largest = list[0];

    let mut k: usize = 1;
    while k < list.len()
        invariant
            1 <= k <= list@.len(),
            exists|i: int| 0 <= i < list@.len() && largest == list@[i],
            forall|i: int| 0 <= i < k ==> list@[i] <= largest,
        decreases list@.len() - k,
    {
        if list[k] > largest {
            largest = list[k];
        }
        k += 1;
    }

    largest
}

/// The largest character in a nonempty slice.
pub fn largest_char(list: &[char]) -> (r: char)
    requires
        list@.len() > 0,
    ensures
        exists|i: int| 0 <= i < list@.len() && r == list@[i],
        forall|i: int| 0 <= i < list@.len() ==> list@[i] <= r,
{
    let mut largest = list[0];

    let mut k: usize = 1;
    while k < list.len()
        invariant
            1 <= k <= list@.len(),
            exists|i: int| 0 <= i < list@.len() && largest == list@[i],
            forall|i: int| 0 <= i < k ==> list@[i] <= largest,
        decreases list@.len() - k,
    {
        if list[k] > largest {
            largest = list[k];
        }
        k += 1;
    }

    largest
}

/// An element of a nonempty slice that no other element exceeds, for
/// any ordered type whose comparisons mean what they say.
pub fn largest<T: PartialOrd + Copy>(list: &[T]) -> (r: T)
    requires
        list@.len() > 0,
        T::obeys_partial_cmp_spec(),
        obeys_partial_cmp_spec_properties::<T>(),
    ensures
        exists|i: int| 0 <= i < list@.len() && r == list@[i],
        forall|i: int|
            0 <= i < list@.len() ==> list@[i].partial_cmp_spec(&r) != Some(Ordering::Greater),
{
    reveal(obeys_partial_cmp_spec_properties);
    let mut largest = list[0];

    let mut k: usize = 1;
    while k < list.len()
        invariant
            1 <= k <= list@.len(),
            T::obeys_partial_cmp_spec(),
            obeys_partial_cmp_spec_properties::<T>(),
            exists|i: int| 0 <= i < list@.len() && largest == list@[i],
            forall|i: int|
                0 <= i < k ==> list@[i].partial_cmp_spec(&largest) != Some(Ordering::Greater),
        decreases list@.len() - k,
    {
        proof {
            reveal(obeys_partial_cmp_spec_properties);
        }
        let item = list[k];
        if item > largest {
            largest = item;
        }
        k += 1;
    }

    largest
}

/// The longer of two string slices, the second when their byte lengths
/// are equal.
pub fn longest<'a>(x: &'a str, y: &'a str) -> (r: &'a str)
    ensures
        encode_utf8(x@).len() as usize > encode_utf8(y@).len() as usize ==> r@ == x@,
        encode_utf8(x@).len() as usize <= encode_utf8(y@).len() as usize ==> r@ == y@,
{
    if x.len() > y.len() {
        x
    } else {
        y
    }
}

pub struct Pair<T> {
    pub x: T,
    pub y: T,
}

impl<T> Pair<T> {
    /// A pair of the two given values.
    pub fn new(x: T, y: T) -> (r: Self)
        ensures
            r.x == x,
            r.y == y,
    {
        Self { x, y }
    }
}

/// A document fragment quoting part of a longer text.
#[derive(Debug)]
pub struct ImportantExcerpt<'a> {
    pub part: &'a str,
}

impl<'a> ImportantExcerpt<'a> {
    /// The importance level of an excerpt; always three.
    pub fn level(&self) -> (r: i32)
        ensures
            r == 3,
    {
        3
    }
}

} // verus!
