//! The full sample-to-text decoder: the envelope classifier feeding
//! symbol groups through the Morse table, with letter gaps, collapsed
//! word gaps and a trimmed tail.

use vstd::prelude::*;
use vstd::string::StringExecFns;

use crate::classifier::{counters_after, ParserStatus};
use crate::morse;
use crate::morse::{classify_run, lemma_decode_single_char, spec_decode, Symbol};

verus! {

/// The state of the sample-to-text pass.
pub struct DecodeState {
    pub over: nat,
    pub under: nat,
    pub pending: Seq<Symbol>,
    pub out: Seq<char>,
}

pub open spec fn decode_init() -> DecodeState {
    DecodeState { over: 0, under: 0, pending: seq![], out: seq![] }
}

/// One sample of the sample-to-text pass: move the counters, then
/// fire at most one boundary, in priority order. A short gap after a
/// loud run closes the run into a symbol (or discards it as noise); a
/// mid-size gap with nothing loud pending decodes the gathered group
/// into a letter; a long gap appends a single word separator, which
/// repeated long silence does not duplicate.
pub open spec fn decode_step(st: DecodeState, sample: i16, threshold: i16) -> DecodeState {
    let (over, under) = counters_after(st.over, st.under, sample, threshold);
    if under > 3 && under <= 1000 && over != 0 {
        match classify_run(over) {
            Some(s) => DecodeState {
                over: 0,
                under,
                pending: st.pending.push(s),
                out: st.out,
            },
            None => DecodeState { over: 0, under, pending: st.pending, out: st.out },
        }
    } else if under > 1000 && under <= 2000 && over == 0 && st.pending.len() > 0 {
        DecodeState { over, under, pending: seq![], out: st.out + spec_decode(st.pending) }
    } else if under > 2000 && over == 0 {
        let out = if st.out.len() > 0 && st.out.last() == ' ' {
            st.out
        } else {
            st.out.push(' ')
        };
        DecodeState { over, under: 0, pending: st.pending, out }
    } else {
        DecodeState { over, under, pending: st.pending, out: st.out }
    }
}

pub open spec fn decode_machine(samples: Seq<i16>, threshold: i16) -> DecodeState
    decreases samples.len(),
{
    if samples.len() == 0 {
        decode_init()
    } else {
        decode_step(decode_machine(samples.drop_last(), threshold), samples.last(), threshold)
    }
}

/// Trailing word separators are stripped from the finished text.
pub open spec fn trim_spaces(s: Seq<char>) -> Seq<char>
    decreases s.len(),
{
    if s.len() > 0 && s.last() == ' ' {
        trim_spaces(s.drop_last())
    } else {
        s
    }
}

/// The text decoded from a sample stream: run the machine over every
/// sample, decode whatever group is still pending at the end of the
/// stream, and trim trailing separators.
pub open spec fn spec_parse(samples: Seq<i16>, threshold: i16) -> Seq<char> {
    let st = decode_machine(samples, threshold);
    let out = if st.pending.len() > 0 {
        st.out + spec_decode(st.pending)
    } else {
        st.out
    };
    trim_spaces(out)
}

/// A sequence that does not end in a separator is already trimmed.
proof fn lemma_trim_noop(s: Seq<char>)
    requires
        s.len() == 0 || s.last() != ' ',
    ensures
        trim_spaces(s) == s,
{
}

/// Trimming undoes one trailing separator.
proof fn lemma_trim_push_space(s: Seq<char>)
    requires
        s.len() == 0 || s.last() != ' ',
    ensures
        trim_spaces(s.push(' ')) == s,
{
    assert(s.push(' ').drop_last() =~= s);
    assert(s.push(' ').last() == ' ');
    lemma_trim_noop(s);
}

/// What trimming promises: the result never ends in a separator.
proof fn lemma_trim_no_trailing(s: Seq<char>)
    ensures
        trim_spaces(s).len() > 0 ==> trim_spaces(s).last() != ' ',
    decreases s.len(),
{
    if s.len() > 0 && s.last() == ' ' {
        lemma_trim_no_trailing(s.drop_last());
    }
}

/// The machine's counters never outgrow the number of samples read.
proof fn lemma_decode_counters_bounded(samples: Seq<i16>, threshold: i16)
    ensures
        decode_machine(samples, threshold).over <= samples.len(),
        decode_machine(samples, threshold).under <= samples.len(),
    decreases samples.len(),
{
    if samples.len() > 0 {
        lemma_decode_counters_bounded(samples.drop_last(), threshold);
    }
}

/// The pending group only ever holds dots and dashes, never the word
/// gap symbol.
proof fn lemma_pending_no_space(samples: Seq<i16>, threshold: i16)
    ensures
        forall|k: int|
            0 <= k < decode_machine(samples, threshold).pending.len()
                ==> decode_machine(samples, threshold).pending[k] != Symbol::Space,
    decreases samples.len(),
{
    if samples.len() > 0 {
        lemma_pending_no_space(samples.drop_last(), threshold);
    }
}

/// Converts a sequence of signed 16-bit samples into decoded text:
/// runs of loud samples become dots and dashes, letter gaps decode the
/// gathered group through the Morse table, and long silences separate
/// words. The text carries no trailing whitespace.
pub fn parse(samples: &[i16], threshold: i16) -> (r: String)
    ensures
        r@ == spec_parse(samples@, threshold),
        r@.len() > 0 ==> r@.last() != ' ',
{
    proof {
        reveal_strlit(" ");
        assert(" "@ =~= seq![' ']);
    }
    let mut status = ParserStatus::default();
    let mut symbols: Vec<Symbol> = Vec::new();
    let mut rc: String = String::new();
    let mut pending_space: bool = false;
    let mut i: usize = 0;
    while i < samples.len()
        invariant
            i <= samples@.len(),
            status.over_threshold as nat == decode_machine(samples@.take(i as int), threshold).over,
            status.under_threshold as nat == decode_machine(
                samples@.take(i as int),
                threshold,
            ).under,
            symbols@ == decode_machine(samples@.take(i as int), threshold).pending,
            decode_machine(samples@.take(i as int), threshold).out == rc@ + (if pending_space {
                seq![' ']
            } else {
                Seq::<char>::empty()
            }),
            rc@.len() > 0 ==> rc@.last() != ' ',
        decreases samples@.len() - i,
    {
        proof {
            lemma_decode_counters_bounded(samples@.take(i as int), threshold);
            lemma_pending_no_space(samples@.take(i as int), threshold);
            assert(samples@.take(i as int).len() == i as int);
            assert(samples@.take(i as int + 1).drop_last() =~= samples@.take(i as int));
            assert(samples@.take(i as int + 1).last() == samples@[i as int]);
        }
        let ghost pre = decode_machine(samples@.take(i as int), threshold);
        let ghost post = decode_machine(samples@.take(i as int + 1), threshold);
        let sample = samples[i];
        if sample == i16::MIN {
            status.over();
        } else {
            let abs: i16 = if sample < 0 {
                -sample
            } else {
                sample
            };
            if abs > threshold {
                status.over();
            } else if abs < threshold {
                status.under();
            }
        }
        if status.is_end_of_symbol() {
            let symbol = Symbol::try_from(status.over_threshold);
            status.reset_over();
            if let Ok(s) = symbol {
                symbols.push(s);
            }
        } else if status.is_end_of_letter() && symbols.len() > 0 {
            let piece = morse::decode(symbols.as_slice());
            proof {
                lemma_decode_single_char(symbols@);
                assert(symbols@ != seq![Symbol::Space]);
            }
            if pending_space {
                rc.append(" ");
                pending_space = false;
                proof {
                    reveal_strlit(" ");
                }
            }
            rc.append(piece);
            symbols.clear();
            proof {
                assert(post.out =~= rc@ + Seq::<char>::empty());
            }
        } else if status.is_space() {
            proof {
                reveal_strlit(" ");
                if !(pre.out.len() > 0 && pre.out.last() == ' ') {
                    assert(post.out =~= rc@ + seq![' ']);
                }
            }
            pending_space = true;
            status.reset_under();
        }
        i = i + 1;
        proof {
            assert(decode_machine(samples@.take(i as int), threshold) == post);
        }
    }
    proof {
        assert(samples@.take(samples@.len() as int) =~= samples@);
    }
    let ghost st = decode_machine(samples@, threshold);
    if symbols.len() > 0 {
        let piece = morse::decode(symbols.as_slice());
        proof {
            lemma_pending_no_space(samples@, threshold);
            lemma_decode_single_char(symbols@);
            assert(symbols@ != seq![Symbol::Space]);
        }
        if pending_space {
            rc.append(" ");
            proof {
                reveal_strlit(" ");
            }
        }
        rc.append(piece);
        proof {
            assert(rc@ =~= st.out + spec_decode(st.pending));
            lemma_trim_noop(rc@);
        }
    } else {
        proof {
            if pending_space {
                lemma_trim_push_space(rc@);
                assert(st.out =~= rc@.push(' '));
            } else {
                lemma_trim_noop(rc@);
                assert(st.out =~= rc@);
            }
        }
    }
    rc
}

/// Decoding is a pure function of the sample buffer and the
/// threshold: decoding the same buffer twice gives the same text, with
/// no state carried across calls.
pub proof fn lemma_parse_deterministic(
    r1: Seq<char>,
    r2: Seq<char>,
    samples: Seq<i16>,
    threshold: i16,
)
    requires
        r1 == spec_parse(samples, threshold),
        r2 == spec_parse(samples, threshold),
    ensures
        r1 == r2,
{
}

/// Decoded text never ends in whitespace, however the stream ends.
pub proof fn lemma_no_trailing_whitespace(samples: Seq<i16>, threshold: i16)
    ensures
        spec_parse(samples, threshold).len() > 0 ==> spec_parse(samples, threshold).last() != ' ',
{
    let st = decode_machine(samples, threshold);
    if st.pending.len() > 0 {
        lemma_trim_no_trailing(st.out + spec_decode(st.pending));
    } else {
        lemma_trim_no_trailing(st.out);
    }
}

} // verus!
