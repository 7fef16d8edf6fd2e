//! A memoising wrapper around a computation, a holder for a
//! value-rewriting function, a shoe with a randomly drawn size, and
//! the choice of workout the surrounding command makes.

use vstd::prelude::*;
use vstd::std_specs::hash::group_hash_axioms;

use std::collections::HashMap;

verus! {

/// Remembers every answer the wrapped computation has given, and
/// never asks it the same question twice.
pub struct Cacher<F: Fn(u64) -> u64> {
    calculate: F,
    map: HashMap<u64, u64>,
}

impl<F: Fn(u64) -> u64> Cacher<F> {
    /// Everything remembered is an answer the computation could have
    /// given.
    pub closed spec fn wf(&self) -> bool {
        forall|k: u64|
            self.map@.contains_key(k) ==> call_ensures(self.calculate, (k,), #[trigger] self.map@[k])
    }

    /// What has been asked so far.
    pub closed spec fn cached(&self) -> Map<u64, u64> {
        self.map@
    }

    /// The wrapped computation.
    pub closed spec fn func(&self) -> F {
        self.calculate
    }

    pub fn new(calculation: F) -> (r: Cacher<F>)
        ensures
            r.wf(),
            r.func() == calculation,
            r.cached() == Map::<u64, u64>::empty(),
    {
        Cacher { calculate: calculation, map: HashMap::new() }
    }

    /// The computation's answer for `number`: computed and remembered
    /// the first time, replayed from memory afterwards.
    pub fn value(&mut self, number: u64) -> (r: u64)
        requires
            old(self).wf(),
            call_requires(old(self).func(), (number,)),
        ensures
            final(self).wf(),
            final(self).func() == old(self).func(),
            call_ensures(old(self).func(), (number,), r),
            final(self).cached() == old(self).cached().insert(number, r) || final(self).cached()
                == old(self).cached(),
    {
        proof {
            broadcast use group_hash_axioms;

        }
        if self.map.contains_key(&number) {
            match self.map.get(&number) {
                Some(v) => {
                    return *v;
                },
                None => {
                    proof {
                        assert(false);
                    }
                    return 0;
                },
            }
        }
        let v = (self.calculate)(number);
        self.map.insert(number, v);
        v
    }
}

/// Holds a function and applies it on demand.
pub struct Muter<F: Fn(u64) -> u64> {
    dewit: F,
    val: u64,
}

impl<F: Fn(u64) -> u64> Muter<F> {
    /// The held function.
    pub closed spec fn func(&self) -> F {
        self.dewit
    }

    pub fn new(d: F) -> (r: Muter<F>)
        ensures
            r.func() == d,
    {
        Muter { dewit: d, val: 0 }
    }

    /// Applies the held function to `v`.
    pub fn get(&mut self, v: u64) -> (r: u64)
        requires
            call_requires(old(self).func(), (v,)),
        ensures
            final(self).func() == old(self).func(),
            call_ensures(old(self).func(), (v,), r),
    {
        (self.dewit)(v)
    }
}

/// Relies on rand's `Rng::gen_range`: a value drawn from the
/// half-open range handed to it.
#[verifier::external_body]
fn random_shoe_size() -> (r: u64)
    ensures
        r < 20,
{
    rand::Rng::gen_range(&mut rand::thread_rng(), 0..20)
}

/// A make of shoe and its size.
#[derive(Debug)]
pub struct Shoe {
    pub make: &'static str,
    pub size: u64,
}

impl Shoe {
    /// A shoe of the given make whose size is drawn at random; the
    /// size always lies under 20, whatever is drawn.
    pub fn new(make: &'static str) -> (r: Shoe)
        ensures
            r.make == make,
            r.size < 20,
    {
        Shoe { make, size: random_shoe_size() }
    }
}

/// What a workout session consists of.
#[derive(Debug, PartialEq, Eq, Structural)]
pub enum Workout {
    Exercises,
    Break,
    Running,
}

/// The choice the trainer makes: exercises below intensity 25, a
/// break when the lucky number 3 comes up, a run otherwise.
pub fn workout_choice(intensity: u64, random: u64) -> (r: Workout)
    ensures
        intensity < 25 ==> r == Workout::Exercises,
        intensity >= 25 && random == 3 ==> r == Workout::Break,
        intensity >= 25 && random != 3 ==> r == Workout::Running,
{
    if intensity < 25 {
        Workout::Exercises
    } else if random == 3 {
        Workout::Break
    } else {
        Workout::Running
    }
}

} // verus!
