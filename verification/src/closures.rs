//! Closures as values: a memoizing cache, a workout planner built on
//! it, and functions that take and return closures.

use vstd::prelude::*;
use std::collections::HashMap;

verus! {

/// Memoizes a calculation: each argument is computed at most once, and
/// every cached answer is one the calculation could have produced.
pub struct Cacher<F: Fn(u32) -> u32> {
    calculation: F,
    values: HashMap<u32, u32>,
}

impl<F: Fn(u32) -> u32> Cacher<F> {
    /// The calculation being memoized.
    pub closed spec fn func(&self) -> F {
        self.calculation
    }

    /// The answers cached so far.
    pub closed spec fn cache(&self) -> Map<u32, u32> {
        self.values@
    }

    /// Every cached answer is a possible result of the calculation on
    /// its argument.
    pub closed spec fn inv(&self) -> bool {
        forall|k: u32|
            self.values@.contains_key(k) ==> call_ensures(
                self.calculation,
                (k,),
                #[trigger] self.values@[k],
            )
    }

    /// A cacher with an empty cache.
    pub fn new(calculation: F) -> (r: Cacher<F>)
        ensures
            r.func() == calculation,
            r.cache() == Map::<u32, u32>::empty(),
            r.inv(),
    {
        Cacher { calculation, values: HashMap::new() }
    }

    /// The calculation's answer for `arg`: computed on the first call,
    /// replayed from the cache on every later one.
    pub fn value(&mut self, arg: u32) -> (v: u32)
        requires
            old(self).inv(),
            call_requires(old(self).func(), (arg,)),
        ensures
            final(self).inv(),
            final(self).func() == old(self).func(),
            call_ensures(old(self).func(), (arg,), v),
            old(self).cache().contains_key(arg) ==> v == old(self).cache()[arg]
                && final(self).cache() == old(self).cache(),
            !old(self).cache().contains_key(arg)
                ==> final(self).cache() == old(self).cache().insert(arg, v),
    {
        broadcast use vstd::std_specs::hash::group_hash_axioms;

        match self.values.get(&arg) {
            Some(v) => *v,
            None => {
                let v = (self.calculation)(arg);
                self.values.insert(arg, v);
                v
            },
        }
    }
}

/// One instruction of a workout plan.
#[derive(Debug, PartialEq, Eq, Structural)]
pub enum WorkoutMessage {
    Pushups(u32),
    Situps(u32),
    TakeABreak,
    Run(u32),
}

/// Plans a workout. A light intensity asks for pushups and situps,
/// both counted by a single run of the expensive calculation; a heavy
/// one asks for a run of as many minutes, unless the random number is
/// three, which grants a break.
pub fn generate_workout<F: Fn(u32) -> u32>(
    intensity: u32,
    random_number: u32,
    expensive_calculation: F,
) -> (r: Vec<WorkoutMessage>)
    requires
        call_requires(expensive_calculation, (intensity,)),
    ensures
        intensity < 25 ==> r@.len() == 2 && (exists|v: u32|
            call_ensures(expensive_calculation, (intensity,), v) && r@[0]
                == WorkoutMessage::Pushups(v) && r@[1] == WorkoutMessage::Situps(v)),
        intensity >= 25 && random_number == 3 ==> r@.len() == 1 && r@[0]
            == WorkoutMessage::TakeABreak,
        intensity >= 25 && random_number != 3 ==> r@.len() == 1 && (exists|v: u32|
            call_ensures(expensive_calculation, (intensity,), v) && r@[0]
                == WorkoutMessage::Run(v)),
{
    let mut expensive_result = Cacher::new(expensive_calculation);
    let mut messages: Vec<WorkoutMessage> = Vec::new();

    if intensity < 25 {
        let pushups = expensive_result.value(intensity);
        messages.push(WorkoutMessage::Pushups(pushups));
        let situps = expensive_result.value(intensity);
        messages.push(WorkoutMessage::Situps(situps));
        proof {
            assert(situps == pushups);
        }
    } else {
        if random_number == 3 {
            messages.push(WorkoutMessage::TakeABreak);
        } else {
            let minutes = expensive_result.value(intensity);
            messages.push(WorkoutMessage::Run(minutes));
        }
    }

    messages
}

/// Applies `f` to `arg` twice and adds the results.
pub fn do_twice<F: Fn(i32) -> i32>(f: F, arg: i32) -> (r: i32)
    requires
        call_requires(f, (arg,)),
        forall|y1: i32, y2: i32|
            call_ensures(f, (arg,), y1) && call_ensures(f, (arg,), y2) ==> i32::MIN <= y1 + y2
                <= i32::MAX,
    ensures
        exists|y1: i32, y2: i32|
            call_ensures(f, (arg,), y1) && call_ensures(f, (arg,), y2) && r == y1 + y2,
{
    f(arg) + f(arg)
}

/// Builds the closure that adds `y` to its argument.
pub fn returns_closure(y: i32) -> (f: impl Fn(i32) -> i32)
    ensures
        forall|x: i32| i32::MIN <= x + y <= i32::MAX ==> call_requires(f, (x,)),
        forall|x: i32, r: i32| call_ensures(f, (x,), r) ==> r == x + y,
{
    move |x: i32| -> (r: i32)
        requires
            i32::MIN <= x + y <= i32::MAX,
        ensures
            r == x + y,
        {
            x + y
        }
}

} // verus!
