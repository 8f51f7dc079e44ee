use vstd::prelude::*;

verus! {

/// Counts upward from one to five, then stops.
pub struct Counter {
    count: u32,
}

impl Counter {
    /// How many times the counter has been advanced.
    pub closed spec fn count(&self) -> u32 {
        self.count
    }

    /// A fresh counter that has not been advanced yet.
    pub fn new() -> (r: Counter)
        ensures
            r.count() == 0,
    {
        Counter { count: 0 }
    }

    /// Advances the counter: the first five calls yield one through
    /// five, every later call yields nothing.
    pub fn next(&mut self) -> (r: Option<u32>)
        requires
            old(self).count() < u32::MAX,
        ensures
            final(self).count() == old(self).count() + 1,
            old(self).count() < 5 ==> (r matches Some(v) && v == old(self).count() + 1),
            old(self).count() >= 5 ==> r is None,
    {
        self.count += 1;

        if self.count < 6 {
            Some(self.count)
        } else {
            None
        }
    }
}

#[derive(PartialEq, Debug)]
pub struct Shoe {
    pub size: u32,
    pub style: String,
}

impl Clone for Shoe {
    /// An exact copy of the shoe.
    fn clone(&self) -> (r: Shoe)
        ensures
            r == *self,
    {
        Shoe { size: self.size, style: self.style.clone() }
    }
}

/// The shoes of the given size, in the order they came.
#[verifier::loop_isolation(false)]
pub fn shoes_in_my_size(shoes: Vec<Shoe>, shoe_size: u32) -> (r: Vec<Shoe>)
    ensures
        r@ == shoes@.filter(|s: Shoe| s.size == shoe_size),
{
    let ghost pred = |s: Shoe| s.size == shoe_size;
    let mut r: Vec<Shoe> = Vec::new();
    let mut k: usize = 0;
    proof {
        assert(shoes@.take(0) =~= Seq::<Shoe>::empty());
        assert(r@ =~= shoes@.take(0).filter(pred));
    }
    while k < shoes.len()
        invariant
            k <= shoes@.len(),
            r@ == shoes@.take(k as int).filter(pred),
        decreases shoes@.len() - k,
    {
        proof {
            assert(shoes@.take(k + 1) =~= shoes@.take(k as int).push(shoes@[k as int]));
            shoes@.take(k as int).lemma_filter_push(shoes@[k as int], pred);
        }
        if shoes[k].size == shoe_size {
            let s = shoes[k].clone();
            r.push(s);
        }
        k += 1;
    }
    proof {
        assert(shoes@.take(shoes@.len() as int) =~= shoes@);
    }
    r
}

} // verus!
