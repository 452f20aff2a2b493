//! The transformer interface: a `Sanitizer` turns one character sequence
//! into another, and a `CharStream` hands the output out one character at
//! a time.

use vstd::prelude::*;

use crate::chars::CharPredicate;
use crate::utils::text::copy_chars;

verus! {

/// A configured character-stream transformation.
///
/// `spec_output` is the mathematical statement of the transformation:
/// the entire output sequence as a function of the entire input sequence.
/// `sanitize` computes it.
pub trait Sanitizer: Sized {
    /// The output sequence this transformer produces from `input`.
    spec fn spec_output(&self, input: Seq<char>) -> Seq<char>;

    /// Transforms `input`, consuming the transformer's per-invocation state.
    fn sanitize(self, input: &Vec<char>) -> (out: Vec<char>)
        ensures
            out@ == self.spec_output(input@),
    ;
}

/// A pull-based producer of characters: one `next` call hands out the next
/// output character, or reports that the stream is exhausted.
///
/// `future()` is the sequence of characters still to come; `next` peels
/// exactly one character off it. The streaming transformers implement
/// their one-pass automata behind this trait.
pub trait CharStream: Sized {
    /// The state invariant of the stream.
    spec fn wf(&self) -> bool;

    /// The characters this stream will still produce.
    spec fn future(&self) -> Seq<char>;

    /// Produces the next output character, if any is left.
    fn next(&mut self) -> (r: Option<char>)
        requires
            old(self).wf(),
        ensures
            final(self).wf(),
            match r {
                Some(c) => old(self).future() == seq![c] + final(self).future(),
                None => final(self).future() == old(self).future() && final(self).future().len()
                    == 0,
            },
    ;
}

/// Pulls every character out of a stream, in order.
pub fn drain<S: CharStream>(source: S) -> (out: Vec<char>)
    requires
        source.wf(),
    ensures
        out@ == source.future(),
{
    let mut src = source;
    let mut out: Vec<char> = Vec::new();
    loop
        invariant_except_break
            src.wf(),
            out@ + src.future() == source.future(),
        ensures
            out@ == source.future(),
        decreases src.future().len(),
    {
        match src.next() {
            Some(c) => {
                out.push(c);
                proof {
                    assert(out@ + src.future() =~= source.future());
                }
            },
            None => {
                proof {
                    assert(out@ =~= out@ + src.future());
                }
                break ;
            },
        }
    }
    out
}

impl Sanitizer for () {
    /// The identity transformation.
    open spec fn spec_output(&self, input: Seq<char>) -> Seq<char> {
        input
    }

    fn sanitize(self, input: &Vec<char>) -> (out: Vec<char>) {
        copy_chars(input)
    }
}

/// The characters of `s` that satisfy the predicate, in order.
pub open spec fn filter_chars<F: CharPredicate>(pred: F, s: Seq<char>) -> Seq<char>
    decreases s.len(),
{
    if s.len() == 0 {
        Seq::empty()
    } else if pred.spec_holds(s[0]) {
        seq![s[0]] + filter_chars(pred, s.drop_first())
    } else {
        filter_chars(pred, s.drop_first())
    }
}

/// Filtering never lengthens its input.
pub proof fn lemma_filter_length<F: CharPredicate>(pred: F, s: Seq<char>)
    ensures
        filter_chars(pred, s).len() <= s.len(),
    decreases s.len(),
{
    if s.len() > 0 {
        lemma_filter_length(pred, s.drop_first());
    }
}

/// Adapts a boolean character predicate into a transformer that keeps
/// exactly the characters the predicate holds of.
pub struct BoolClosureAdapter<F: CharPredicate>(pub F);

impl<F: CharPredicate> BoolClosureAdapter<F> {
    /// A filtering transformer for the given predicate.
    pub fn new(pred: F) -> (r: Self)
        ensures
            r.0 == pred,
    {
        BoolClosureAdapter(pred)
    }
}

impl<F: CharPredicate> Sanitizer for BoolClosureAdapter<F> {
    open spec fn spec_output(&self, input: Seq<char>) -> Seq<char> {
        filter_chars(self.0, input)
    }

    fn sanitize(self, input: &Vec<char>) -> (out: Vec<char>) {
        proof {
            assert(input@.skip(0) =~= input@);
        }
        let mut out: Vec<char> = Vec::new();
        let mut i: usize = 0;
        while i < input.len()
            invariant
                i <= input@.len(),
                out@ + filter_chars(self.0, input@.skip(i as int)) == filter_chars(
                    self.0,
                    input@,
                ),
            decreases input@.len() - i,
        {
            proof {
                assert(input@.skip(i as int)[0] == input@[i as int]);
                assert(input@.skip(i as int).drop_first() =~= input@.skip(i as int + 1));
            }
            let c = input[i];
            if self.0.holds(c) {
                out.push(c);
                proof {
                    assert(out@ + filter_chars(self.0, input@.skip(i as int + 1)) =~= filter_chars(
                        self.0,
                        input@,
                    ));
                }
            }
            i += 1;
        }
        proof {
            assert(input@.skip(input@.len() as int).len() == 0);
            assert(out@ =~= out@ + filter_chars(self.0, input@.skip(input@.len() as int)));
        }
        out
    }
}

} // verus!
