//! A home-grown optional type whose empty case carries a message.

use vstd::prelude::*;
use vstd::string::StringExecFns;

verus! {

/// Either a value, or a message saying why there is none.
#[derive(Debug)]
pub enum MyOption<T> {
    Filled(T),
    Nothing(String),
}

impl<T> MyOption<T> {
    /// Takes the value out; there must be one.
    pub fn underlying(self) -> (r: T)
        requires
            self is Filled,
        ensures
            self matches MyOption::Filled(v) && r == v,
    {
        match self {
            MyOption::Filled(value) => value,
            MyOption::Nothing(_) => unreached(),
        }
    }

    /// Borrows the value; there must be one.
    pub fn underlying_ref(&self) -> (r: &T)
        requires
            self is Filled,
        ensures
            self matches MyOption::Filled(v) && *r == v,
    {
        match self {
            MyOption::Filled(value) => value,
            MyOption::Nothing(_) => unreached(),
        }
    }
}

/// Hands the value through when enabled, and a stock excuse when
/// not.
pub fn maybe_does_it<T>(info: T, enabled: bool) -> (r: MyOption<T>)
    ensures
        enabled ==> r == MyOption::Filled(info),
        !enabled ==> (r matches MyOption::Nothing(m) && m@ == "This function wasn't successful"@),
{
    if enabled {
        MyOption::Filled(info)
    } else {
        MyOption::Nothing(String::from_str("This function wasn't successful"))
    }
}

} // verus!
