//! The calculator's arithmetic: reading a number and applying one of
//! the four operations named by a symbol.

use vstd::prelude::*;

use crate::strutil::{parse_u32, spec_parse_u32, str_eq};

verus! {

/// Reads an unsigned number from a line of input; callers treat a
/// line that is not a number as fatal.
pub fn get_number(input: &str) -> (r: Option<u32>)
    ensures
        r == spec_parse_u32(input@),
{
    parse_u32(input)
}

/// Applies the operation the symbol names. The caller keeps the
/// operands inside the operation's domain: no overflowing sum,
/// difference or product, and no division by zero.
pub fn apply_op(op: &str, a: u32, b: u32) -> (r: Option<u32>)
    requires
        op@ == "+"@ ==> a + b <= u32::MAX,
        op@ == "-"@ ==> b <= a,
        op@ == "*"@ ==> a * b <= u32::MAX,
        op@ == "/"@ ==> b != 0,
    ensures
        op@ == "+"@ ==> r == Some((a + b) as u32),
        op@ == "-"@ ==> r == Some((a - b) as u32),
        op@ == "*"@ ==> r == Some((a * b) as u32),
        op@ == "/"@ ==> r == Some(a / b),
        (op@ != "+"@ && op@ != "-"@ && op@ != "*"@ && op@ != "/"@) ==> r is None,
{
    proof {
        reveal_strlit("+");
        reveal_strlit("-");
        reveal_strlit("*");
        reveal_strlit("/");
        assert("+"@[0] == '+');
        assert("-"@[0] == '-');
        assert("*"@[0] == '*');
        assert("/"@[0] == '/');
    }
    if str_eq(op, "+") {
        Some(a + b)
    } else if str_eq(op, "-") {
        Some(a - b)
    } else if str_eq(op, "*") {
        Some(a * b)
    } else if str_eq(op, "/") {
        Some(a / b)
    } else {
        None
    }
}

} // verus!
