//! Small demonstration items: a few empty marker types and a
//! documented increment function.

use vstd::prelude::*;

verus! {

/// Bar docs
pub struct Bar;

/// Bara inline
pub struct Bara;

/// Barp private
pub struct Barp;

/// foo is a function
pub fn foo() {
}

/// This one would be kept out of generated documentation.
pub fn hidden_foo() {
}

/// Adds 1 to a number
/// # Arguments
/// * `a` - the number to add one to
/// # Returns
/// * `a` + 1
pub fn add(a: i32) -> (r: i32)
    requires
        a < i32::MAX,
    ensures
        r == a + 1,
{
    a + 1
}

} // verus!
