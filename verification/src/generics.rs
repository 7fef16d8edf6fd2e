//! Generic helpers: maxima over slices, a two-field point whose
//! halves can be swapped across types, and a small summary trait.

use vstd::prelude::*;
use vstd::std_specs::cmp::PartialOrdSpec;
use vstd::string::StringExecFns;

verus! {

/// The running maximum of a non-empty slice of machine integers.
pub open spec fn spec_max_i32(s: Seq<i32>) -> int
    decreases s.len(),
{
    if s.len() <= 1 {
        s[0] as int
    } else if s.last() > spec_max_i32(s.drop_last()) {
        s.last() as int
    } else {
        spec_max_i32(s.drop_last())
    }
}

/// The largest number in a non-empty slice.
pub fn find_max(numbers: &[i32]) -> (r: i32)
    requires
        numbers@.len() > 0,
    ensures
        r == spec_max_i32(numbers@),
        forall|i: int| 0 <= i < numbers@.len() ==> numbers@[i] <= r,
        exists|i: int| 0 <= i < numbers@.len() && numbers@[i] == r,
{
    let mut max = numbers[0];
    let mut i: usize = 1;
    while i < numbers.len()
        invariant
            1 <= i <= numbers@.len(),
            max == spec_max_i32(numbers@.take(i as int)),
            forall|j: int| 0 <= j < i ==> numbers@[j] <= max,
            exists|j: int| 0 <= j < i && numbers@[j] == max,
        decreases numbers@.len() - i,
    {
        proof {
            assert(numbers@.take(i as int + 1).drop_last() =~= numbers@.take(i as int));
        }
        if numbers[i] > max {
            max = numbers[i];
        }
        i = i + 1;
    }
    proof {
        assert(numbers@.take(numbers@.len() as int) =~= numbers@);
    }
    max
}

/// The running maximum of a non-empty sequence, as the comparison
/// operator of `T` decides it: each element replaces the maximum so
/// far exactly when it compares strictly greater.
pub open spec fn fold_max<T: PartialOrdSpec>(s: Seq<T>) -> T
    decreases s.len(),
{
    if s.len() <= 1 {
        s[0]
    } else if s.last().partial_cmp_spec(&fold_max(s.drop_last())) == Some(
        core::cmp::Ordering::Greater,
    ) {
        s.last()
    } else {
        fold_max(s.drop_last())
    }
}

/// The running maximum of a non-empty slice, handed back by
/// reference.
pub fn generic_ref_max<T: PartialOrd + PartialOrdSpec>(numbers: &[T]) -> (r: &T)
    requires
        numbers@.len() > 0,
        T::obeys_partial_cmp_spec(),
    ensures
        *r == fold_max(numbers@),
{
    let mut max_idx: usize = 0;
    let mut i: usize = 1;
    while i < numbers.len()
        invariant
            1 <= i <= numbers@.len(),
            max_idx < i,
            T::obeys_partial_cmp_spec(),
            numbers@[max_idx as int] == fold_max(numbers@.take(i as int)),
        decreases numbers@.len() - i,
    {
        proof {
            assert(numbers@.take(i as int + 1).drop_last() =~= numbers@.take(i as int));
        }
        if numbers[i] > numbers[max_idx] {
            max_idx = i;
        }
        i = i + 1;
    }
    proof {
        assert(numbers@.take(numbers@.len() as int) =~= numbers@);
    }
    &numbers[max_idx]
}

/// The running maximum of a non-empty slice of copyable values.
pub fn generic_max<T: PartialOrd + PartialOrdSpec + Copy>(numbers: &[T]) -> (r: T)
    requires
        numbers@.len() > 0,
        T::obeys_partial_cmp_spec(),
    ensures
        r == fold_max(numbers@),
{
    let mut max = numbers[0];
    let mut i: usize = 1;
    while i < numbers.len()
        invariant
            1 <= i <= numbers@.len(),
            T::obeys_partial_cmp_spec(),
            max == fold_max(numbers@.take(i as int)),
        decreases numbers@.len() - i,
    {
        proof {
            assert(numbers@.take(i as int + 1).drop_last() =~= numbers@.take(i as int));
        }
        if numbers[i] > max {
            max = numbers[i];
        }
        i = i + 1;
    }
    proof {
        assert(numbers@.take(numbers@.len() as int) =~= numbers@);
    }
    max
}

/// A point whose two coordinates may have different types.
pub struct Point<T, U> {
    pub x: T,
    pub y: U,
}

impl<T, U> Point<T, U> {
    /// Keeps this point's first coordinate and takes the other
    /// point's second.
    pub fn swap<W, V>(self, other: Point<W, V>) -> (r: Point<T, V>)
        ensures
            r.x == self.x,
            r.y == other.y,
    {
        Point { x: self.x, y: other.y }
    }
}

/// A short description of a value, with overridable stock wording.
pub trait Summary {
    fn summarise(&self) -> String;

    fn defaulted_fn(&self) -> String {
        String::from_str("Defaulted")
    }

    fn something_else(&self) -> String {
        let mut s = String::from_str("Im a type: ");
        let d = self.summarise();
        s.append(d.as_str());
        s
    }
}

impl<T, U> Summary for Point<T, U> {
    fn summarise(&self) -> String {
        String::from_str("I'm a point!")
    }

    fn defaulted_fn(&self) -> String {
        String::from_str("I've overriden the defaulted behaviour")
    }
}

impl Summary for i32 {
    fn summarise(&self) -> String {
        String::from_str("I'm in i32")
    }
}

} // verus!
