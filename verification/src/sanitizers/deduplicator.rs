//! Run deduplication: of a maximal run of consecutive characters that
//! satisfy the configured predicate, only the first is emitted; characters
//! outside the predicate's class pass through and end the run.

use vstd::prelude::*;

use crate::chars::CharPredicate;
use crate::sanitizer::CharStream;
use crate::sanitizer::Sanitizer;
use crate::sanitizer::drain;
use crate::utils::text::copy_chars;

verus! {

/// The characters of `s` with runs collapsed, given that the automaton is
/// already inside a run exactly when `in_run` is true.
pub open spec fn dedup_chars<F: CharPredicate>(pred: F, s: Seq<char>, in_run: bool) -> Seq<char>
    decreases s.len(),
{
    if s.len() == 0 {
        Seq::empty()
    } else if !pred.spec_holds(s[0]) {
        seq![s[0]] + dedup_chars(pred, s.drop_first(), false)
    } else if !in_run {
        seq![s[0]] + dedup_chars(pred, s.drop_first(), true)
    } else {
        dedup_chars(pred, s.drop_first(), true)
    }
}

/// A transformer that keeps only the first character of every run of
/// consecutive characters satisfying the predicate.
pub struct Deduplicator<F: CharPredicate>(pub F);

impl<F: CharPredicate> Deduplicator<F> {
    /// A deduplicating transformer for the given predicate.
    pub fn new(f: F) -> (r: Self)
        ensures
            r.0 == f,
    {
        Deduplicator(f)
    }
}

impl<F: CharPredicate> Sanitizer for Deduplicator<F> {
    open spec fn spec_output(&self, input: Seq<char>) -> Seq<char> {
        dedup_chars(self.0, input, false)
    }

    fn sanitize(self, input: &Vec<char>) -> (out: Vec<char>) {
        let it = DeduplicatorIter::new(self.0, copy_chars(input));
        drain(it)
    }
}

/// The streaming state of one deduplication pass: the input characters,
/// how many of them have been consumed, and whether the pass is inside a
/// run of predicate characters.
pub struct DeduplicatorIter<F: CharPredicate> {
    pub f: F,
    pub input: Vec<char>,
    pub pos: usize,
    pub in_run: bool,
}

impl<F: CharPredicate> DeduplicatorIter<F> {
    /// A deduplication pass over `input`, positioned at its start.
    pub fn new(f: F, input: Vec<char>) -> (r: Self)
        ensures
            r.wf(),
            r.f == f,
            r.input == input,
            r.pos == 0,
            r.in_run == false,
            r.future() == dedup_chars(f, input@, false),
    {
        let r = DeduplicatorIter { f, input, pos: 0, in_run: false };
        proof {
            assert(r.input@.skip(0) =~= r.input@);
        }
        r
    }
}

impl<F: CharPredicate> CharStream for DeduplicatorIter<F> {
    open spec fn wf(&self) -> bool {
        self.pos <= self.input@.len()
    }

    open spec fn future(&self) -> Seq<char> {
        dedup_chars(self.f, self.input@.skip(self.pos as int), self.in_run)
    }

    fn next(&mut self) -> (r: Option<char>) {
        while self.pos < self.input.len()
            invariant
                self.wf(),
                self.f == old(self).f,
                self.input == old(self).input,
                self.future() == old(self).future(),
            decreases self.input@.len() - self.pos,
        {
            proof {
                assert(self.input@.skip(self.pos as int)[0] == self.input@[self.pos as int]);
                assert(self.input@.skip(self.pos as int).drop_first() =~= self.input@.skip(
                    self.pos as int + 1,
                ));
            }
            let c = self.input[self.pos];
            if !self.f.holds(c) {
                self.in_run = false;
                self.pos += 1;
                return Some(c);
            }
            if !self.in_run {
                self.in_run = true;
                self.pos += 1;
                return Some(c);
            }
            self.pos += 1;
        }
        proof {
            assert(self.input@.skip(self.pos as int).len() == 0);
        }
        None
    }
}

/// Deduplication never lengthens its input.
pub proof fn lemma_dedup_length<F: CharPredicate>(pred: F, s: Seq<char>, in_run: bool)
    ensures
        dedup_chars(pred, s, in_run).len() <= s.len(),
    decreases s.len(),
{
    if s.len() > 0 {
        lemma_dedup_length(pred, s.drop_first(), false);
        lemma_dedup_length(pred, s.drop_first(), true);
    }
}

proof fn lemma_dedup_no_consecutive_rec<F: CharPredicate>(pred: F, s: Seq<char>, in_run: bool)
    ensures
        ({
            let out = dedup_chars(pred, s, in_run);
            &&& forall|i: int|
                0 <= i && i + 1 < out.len() ==> !(pred.spec_holds(#[trigger] out[i])
                    && pred.spec_holds(out[i + 1]))
            &&& in_run && out.len() > 0 ==> !pred.spec_holds(out[0])
        }),
    decreases s.len(),
{
    if s.len() > 0 {
        let c = s[0];
        let rest = s.drop_first();
        lemma_dedup_no_consecutive_rec(pred, rest, false);
        lemma_dedup_no_consecutive_rec(pred, rest, true);
        if !pred.spec_holds(c) {
            let tail = dedup_chars(pred, rest, false);
            let out = dedup_chars(pred, s, in_run);
            assert(out == seq![c] + tail);
            assert forall|i: int| 0 <= i && i + 1 < out.len() implies !(pred.spec_holds(#[trigger] out[i])
                && pred.spec_holds(out[i + 1])) by {
                if i > 0 {
                    assert(out[i] == tail[i - 1]);
                    assert(out[i + 1] == tail[i]);
                }
            }
        } else if !in_run {
            let tail = dedup_chars(pred, rest, true);
            let out = dedup_chars(pred, s, in_run);
            assert(out == seq![c] + tail);
            assert forall|i: int| 0 <= i && i + 1 < out.len() implies !(pred.spec_holds(#[trigger] out[i])
                && pred.spec_holds(out[i + 1])) by {
                if i > 0 {
                    assert(out[i] == tail[i - 1]);
                    assert(out[i + 1] == tail[i]);
                } else {
                    assert(out[1] == tail[0]);
                }
            }
        }
    }
}

/// Deduplication invariant: no two consecutive output characters both
/// satisfy the collapse predicate, for every predicate and every input.
pub proof fn lemma_dedup_no_consecutive<F: CharPredicate>(pred: F, s: Seq<char>)
    ensures
        forall|i: int|
            0 <= i && i + 1 < dedup_chars(pred, s, false).len() ==> !(pred.spec_holds(
                #[trigger] dedup_chars(pred, s, false)[i],
            ) && pred.spec_holds(dedup_chars(pred, s, false)[i + 1])),
{
    lemma_dedup_no_consecutive_rec(pred, s, false);
}

} // verus!
