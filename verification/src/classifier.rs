//! The envelope classifier: a run-length state machine that turns a
//! stream of signed samples and an amplitude threshold into Morse
//! timing symbols.

use vstd::prelude::*;

use crate::morse::{classify_run, Symbol};

verus! {

/// The two run-length counters of one classification pass.
#[derive(Debug)]
pub struct ParserStatus {
    pub over_threshold: u64,
    pub under_threshold: u64,
}

impl Default for ParserStatus {
    fn default() -> (r: ParserStatus)
        ensures
            r.over_threshold == 0,
            r.under_threshold == 0,
    {
        ParserStatus { over_threshold: 0, under_threshold: 0 }
    }
}

impl ParserStatus {
    /// A short gap right after some samples over the threshold: the
    /// symbol whose loud run just ended is complete.
    pub fn is_end_of_symbol(&self) -> (r: bool)
        ensures
            r == (self.under_threshold > 3 && self.under_threshold <= 1000
                && self.over_threshold != 0),
    {
        self.under_threshold > 3 && self.under_threshold <= 1000 && self.over_threshold != 0
    }

    /// One more sample over the threshold: the quiet run is broken.
    pub fn over(&mut self)
        requires
            old(self).over_threshold < u64::MAX,
        ensures
            final(self).over_threshold == old(self).over_threshold + 1,
            final(self).under_threshold == 0,
    {
        self.over_threshold = self.over_threshold + 1;
        self.under_threshold = 0;
    }

    /// One more sample under the threshold.
    pub fn under(&mut self)
        requires
            old(self).under_threshold < u64::MAX,
        ensures
            final(self).under_threshold == old(self).under_threshold + 1,
            final(self).over_threshold == old(self).over_threshold,
    {
        self.under_threshold = self.under_threshold + 1;
    }

    pub fn reset_under(&mut self)
        ensures
            final(self).under_threshold == 0,
            final(self).over_threshold == old(self).over_threshold,
    {
        self.under_threshold = 0;
    }

    pub fn reset_over(&mut self)
        ensures
            final(self).over_threshold == 0,
            final(self).under_threshold == old(self).under_threshold,
    {
        self.over_threshold = 0;
    }

    /// A bigger gap with no loud run pending: the letter is complete.
    pub fn is_end_of_letter(&self) -> (r: bool)
        ensures
            r == (self.under_threshold > 1000 && self.under_threshold <= 2000
                && self.over_threshold == 0),
    {
        self.under_threshold > 1000 && self.under_threshold <= 2000 && self.over_threshold == 0
    }

    /// A still bigger gap: a word separator.
    pub fn is_space(&self) -> (r: bool)
        ensures
            r == (self.under_threshold > 2000 && self.over_threshold == 0),
    {
        self.under_threshold > 2000 && self.over_threshold == 0
    }
}

/// The magnitude of a sample, as an unbounded integer.
pub open spec fn spec_abs(sample: i16) -> int {
    if sample < 0 {
        -(sample as int)
    } else {
        sample as int
    }
}

/// A sample counts as signal present when its magnitude exceeds the
/// threshold; the most negative sample, whose magnitude has no `i16`
/// representation, counts as signal present by decree.
pub open spec fn sample_is_over(sample: i16, threshold: i16) -> bool {
    sample == i16::MIN || spec_abs(sample) > threshold
}

/// A sample counts as signal absent when its magnitude is strictly
/// under the threshold; a sample exactly at the threshold is neither.
pub open spec fn sample_is_under(sample: i16, threshold: i16) -> bool {
    sample != i16::MIN && spec_abs(sample) < threshold
}

/// How one sample moves the two counters.
pub open spec fn counters_after(over: nat, under: nat, sample: i16, threshold: i16) -> (nat, nat) {
    if sample_is_over(sample, threshold) {
        ((over + 1) as nat, 0 as nat)
    } else if sample_is_under(sample, threshold) {
        (over, (under + 1) as nat)
    } else {
        (over, under)
    }
}

/// The state of the symbol-level classification pass.
pub struct ClassifyState {
    pub over: nat,
    pub under: nat,
    pub symbols: Seq<Symbol>,
}

pub open spec fn classify_init() -> ClassifyState {
    ClassifyState { over: 0, under: 0, symbols: seq![] }
}

/// One sample of the symbol-level pass: move the counters, then close
/// the pending loud run once a short gap follows it, keeping the
/// symbol when the run was long enough and discarding it as noise
/// otherwise.
pub open spec fn classify_step(st: ClassifyState, sample: i16, threshold: i16) -> ClassifyState {
    let (over, under) = counters_after(st.over, st.under, sample, threshold);
    if under > 3 && over != 0 {
        match classify_run(over) {
            Some(s) => ClassifyState { over: 0, under, symbols: st.symbols.push(s) },
            None => ClassifyState { over: 0, under, symbols: st.symbols },
        }
    } else {
        ClassifyState { over, under, symbols: st.symbols }
    }
}

pub open spec fn classify_machine(samples: Seq<i16>, threshold: i16) -> ClassifyState
    decreases samples.len(),
{
    if samples.len() == 0 {
        classify_init()
    } else {
        classify_step(classify_machine(samples.drop_last(), threshold), samples.last(), threshold)
    }
}

/// The symbols found in a sample stream, in order.
pub open spec fn spec_classify(samples: Seq<i16>, threshold: i16) -> Seq<Symbol> {
    classify_machine(samples, threshold).symbols
}

/// The counters never outgrow the number of samples consumed.
proof fn lemma_classify_counters_bounded(samples: Seq<i16>, threshold: i16)
    ensures
        classify_machine(samples, threshold).over <= samples.len(),
        classify_machine(samples, threshold).under <= samples.len(),
    decreases samples.len(),
{
    if samples.len() > 0 {
        lemma_classify_counters_bounded(samples.drop_last(), threshold);
    }
}

/// Classifies a whole sample stream into its sequence of dots and
/// dashes; a stream in which no symbol is found comes back as `None`.
pub fn parse(samples: &[i16], threshold: i16) -> (r: Option<Vec<Symbol>>)
    ensures
        r is Some <==> spec_classify(samples@, threshold).len() > 0,
        r matches Some(v) ==> v@ == spec_classify(samples@, threshold),
{
    let mut status = ParserStatus::default();
    let mut rc: Vec<Symbol> = Vec::new();
    let mut i: usize = 0;
    while i < samples.len()
        invariant
            i <= samples@.len(),
            status.over_threshold as nat == classify_machine(
                samples@.take(i as int),
                threshold,
            ).over,
            status.under_threshold as nat == classify_machine(
                samples@.take(i as int),
                threshold,
            ).under,
            rc@ == classify_machine(samples@.take(i as int), threshold).symbols,
        decreases samples@.len() - i,
    {
        proof {
            lemma_classify_counters_bounded(samples@.take(i as int), threshold);
            assert(samples@.take(i as int).len() == i as int);
            assert(samples@.take(i as int + 1).drop_last() =~= samples@.take(i as int));
            assert(samples@.take(i as int + 1).last() == samples@[i as int]);
        }
        let sample = samples[i];
        if sample == i16::MIN {
            status.over();
        } else {
            let abs: i16 = if sample < 0 {
                -sample
            } else {
                sample
            };
            if abs > threshold {
                status.over();
            } else if abs < threshold {
                status.under();
            }
        }
        if status.under_threshold > 3 && status.over_threshold != 0 {
            let symbol = Symbol::try_from(status.over_threshold);
            status.reset_over();
            if let Ok(s) = symbol {
                rc.push(s);
            }
        }
        i = i + 1;
    }
    proof {
        assert(samples@.take(samples@.len() as int) =~= samples@);
    }
    if rc.len() == 0 {
        return None;
    }
    Some(rc)
}

} // verus!
