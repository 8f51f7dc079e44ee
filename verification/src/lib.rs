//! Verified library of small, self-contained lessons: a line-search utility,
//! word games, blog-post workflows, and assorted data-structure examples.
//! Each module carries contracts that pin down what its functions compute.

use vstd::prelude::*;

pub mod adder;
pub mod advanced;
pub mod art;
pub mod averaged;
pub mod basics;
pub mod blog;
pub mod closures;
pub mod coins;
pub mod exercises;
pub mod generics;
pub mod iterators;
pub mod messages;
pub mod minigrep;
pub mod mybox;
pub mod ownership;
pub mod restaurant;
pub mod screen;
pub mod summaries;
pub mod structs;
pub mod tracker;
pub mod typestate;

verus! {

/// Relies on String::push: appends one character.
#[verifier::external_body]
pub(crate) fn push_char(s: &mut String, c: char)
    ensures
        final(s)@ == old(s)@.push(c),
{
    s.push(c);
}

} // verus!
