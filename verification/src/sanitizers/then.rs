//! The sequencing combinator: chains two transformers, so that every
//! output character of the first is fed to the second.

use vstd::prelude::*;

use crate::sanitizer::Sanitizer;

verus! {

/// Chains two transformers: first `a` is applied, then `b`.
#[derive(Debug, Clone, Copy, PartialEq, Eq, Hash)]
pub struct Then<A: Sanitizer, B: Sanitizer> {
    pub a: A,
    pub b: B,
}

impl<A: Sanitizer, B: Sanitizer> Then<A, B> {
    /// The pipeline that applies `a` and feeds its output to `b`.
    pub fn new(a: A, b: B) -> (r: Self)
        ensures
            r.a == a,
            r.b == b,
    {
        Then { a, b }
    }
}

impl<A: Sanitizer, B: Sanitizer> Sanitizer for Then<A, B> {
    open spec fn spec_output(&self, input: Seq<char>) -> Seq<char> {
        self.b.spec_output(self.a.spec_output(input))
    }

    fn sanitize(self, input: &Vec<char>) -> (out: Vec<char>) {
        let mid = self.a.sanitize(input);
        self.b.sanitize(&mid)
    }
}

/// Composition law: sanitizing through `Then(a, b)` is sanitizing through
/// `a` and then sanitizing that output through `b`, for all transformers
/// and all inputs.
pub proof fn lemma_then_composition<A: Sanitizer, B: Sanitizer>(a: A, b: B, s: Seq<char>)
    ensures
        (Then { a, b }).spec_output(s) == b.spec_output(a.spec_output(s)),
{
}

} // verus!
