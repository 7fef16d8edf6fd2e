//! Choosing the longer of two borrowed strings, and the argument
//! pair handed to the command around it.

use vstd::prelude::*;

verus! {

/// The strictly longer of the two strings, by byte length; two
/// strings of one length have no greatest.
pub fn greatest<'a>(a: &'a str, b: &'a str) -> (r: Option<&'a str>)
    ensures
        a.len() == b.len() ==> r is None,
        b.len() > a.len() ==> (r matches Some(s) && s@ == b@),
        a.len() > b.len() ==> (r matches Some(s) && s@ == a@),
{
    if a.len() == b.len() {
        return None;
    }
    if b.len() > a.len() {
        Some(b)
    } else {
        Some(a)
    }
}

/// The two strings to compare.
pub struct Config<'a> {
    pub first: &'a str,
    pub second: &'a str,
}

/// Exactly two words make a comparison.
pub fn parse_args<'a>(args: &'a [String]) -> (r: Result<Config<'a>, &'static str>)
    ensures
        args@.len() != 2 ==> (r matches Err(m) && m@ == "Not enough args"@),
        args@.len() == 2 ==> (r matches Ok(c) && c.first@ == args@[0]@ && c.second@
            == args@[1]@),
{
    if args.len() != 2 {
        return Err("Not enough args");
    }
    Ok(Config { first: args[0].as_str(), second: args[1].as_str() })
}

} // verus!
