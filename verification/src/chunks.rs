//! Splitting a buffer into adjacent pairs and dealing the pairs out
//! to a left and a right side, as an interleaved stereo stream is.

use vstd::prelude::*;
use vstd::arithmetic::div_mod::{lemma_fundamental_div_mod, lemma_mod_division_less_than_divisor};

verus! {

/// The adjacent pairs of a buffer; a trailing odd element is
/// dropped.
pub open spec fn spec_pairs<T>(s: Seq<T>) -> Seq<(T, T)> {
    Seq::new((s.len() as int / 2) as nat, |i: int| (s[2 * i], s[2 * i + 1]))
}

/// The pairs at even positions.
pub open spec fn spec_lefts<T>(s: Seq<T>) -> Seq<(T, T)> {
    Seq::new(
        ((spec_pairs(s).len() + 1) as int / 2) as nat,
        |i: int| spec_pairs(s)[2 * i],
    )
}

/// The pairs at odd positions.
pub open spec fn spec_rights<T>(s: Seq<T>) -> Seq<(T, T)> {
    Seq::new((spec_pairs(s).len() as int / 2) as nat, |i: int| spec_pairs(s)[2 * i + 1])
}

/// Splits the buffer into its adjacent pairs.
pub fn pair_up<T: Copy>(data: &[T]) -> (r: Vec<(T, T)>)
    ensures
        r@ == spec_pairs(data@),
{
    let n = data.len() / 2;
    proof {
        lemma_fundamental_div_mod(data@.len() as int, 2);
        lemma_mod_division_less_than_divisor(data@.len() as int, 2);
    }
    let mut r: Vec<(T, T)> = Vec::new();
    let mut i: usize = 0;
    while i < n
        invariant
            i <= n,
            n == data@.len() as int / 2,
            2 * n <= data@.len() <= usize::MAX,
            r@ == spec_pairs(data@).take(i as int),
        decreases n - i,
    {
        r.push((data[2 * i], data[2 * i + 1]));
        i = i + 1;
        proof {
            assert(r@ =~= spec_pairs(data@).take(i as int));
        }
    }
    proof {
        assert(spec_pairs(data@).take(n as int) =~= spec_pairs(data@));
    }
    r
}

/// The pairs that fall to the left side: every second pair, starting
/// with the first.
pub fn lefts<T: Copy>(data: &[T]) -> (r: Vec<(T, T)>)
    ensures
        r@ == spec_lefts(data@),
{
    let total = data.len();
    let pairs = pair_up(data);
    let np = pairs.len();
    proof {
        assert(np <= total);
        lemma_fundamental_div_mod(np as int + 1, 2);
        lemma_mod_division_less_than_divisor(np as int + 1, 2);
    }
    let n = (np + 1) / 2;
    let mut r: Vec<(T, T)> = Vec::new();
    let mut i: usize = 0;
    while i < n
        invariant
            i <= n,
            np == pairs@.len(),
            pairs@ == spec_pairs(data@),
            n == (np + 1) as int / 2,
            2 * n <= np + 1,
            np <= usize::MAX,
            r@ == spec_lefts(data@).take(i as int),
        decreases n - i,
    {
        r.push(pairs[2 * i]);
        i = i + 1;
        proof {
            assert(r@ =~= spec_lefts(data@).take(i as int));
        }
    }
    proof {
        assert(spec_lefts(data@).take(n as int) =~= spec_lefts(data@));
    }
    r
}

/// The pairs that fall to the right side: every second pair,
/// starting with the second.
pub fn rights<T: Copy>(data: &[T]) -> (r: Vec<(T, T)>)
    ensures
        r@ == spec_rights(data@),
{
    let pairs = pair_up(data);
    let np = pairs.len();
    let n = np / 2;
    proof {
        lemma_fundamental_div_mod(np as int, 2);
        lemma_mod_division_less_than_divisor(np as int, 2);
    }
    let mut r: Vec<(T, T)> = Vec::new();
    let mut i: usize = 0;
    while i < n
        invariant
            i <= n,
            np == pairs@.len(),
            pairs@ == spec_pairs(data@),
            n == np as int / 2,
            2 * n <= np,
            np <= usize::MAX,
            r@ == spec_rights(data@).take(i as int),
        decreases n - i,
    {
        r.push(pairs[2 * i + 1]);
        i = i + 1;
        proof {
            assert(r@ =~= spec_rights(data@).take(i as int));
        }
    }
    proof {
        assert(spec_rights(data@).take(n as int) =~= spec_rights(data@));
    }
    r
}

/// The unsigned value the first two bytes hold in big-endian order.
pub open spec fn be_u16(b0: u8, b1: u8) -> u16 {
    (b0 * 0x100 + b1) as u16
}

/// Relies on byteorder's `BigEndian::read_u16`: the unsigned value
/// the first two bytes hold in big-endian order.
#[verifier::external_body]
fn read_u16_be(bytes: &[u8]) -> (r: u16)
    requires
        bytes@.len() >= 2,
    ensures
        r == be_u16(bytes@[0], bytes@[1]),
{
    <byteorder::BigEndian as byteorder::ByteOrder>::read_u16(bytes)
}

/// Joins the first two bytes into one big-endian value; a buffer too
/// short to hold a pair joins to zero.
pub fn join(bytes: &[u8]) -> (r: u16)
    ensures
        bytes@.len() >= 2 ==> r == be_u16(bytes@[0], bytes@[1]),
        bytes@.len() < 2 ==> r == 0,
{
    if bytes.len() < 2 {
        0
    } else {
        read_u16_be(bytes)
    }
}

} // verus!
