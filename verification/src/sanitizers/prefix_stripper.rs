//! Prefix stripping: characters at the start of the stream satisfying the
//! configured predicate are dropped; the first character that fails the
//! predicate, and everything after it, is emitted unchanged.

use vstd::prelude::*;

use crate::chars::CharPredicate;
use crate::sanitizer::CharStream;
use crate::sanitizer::Sanitizer;
use crate::sanitizer::drain;
use crate::utils::text::copy_chars;

verus! {

/// The characters of `s` after the longest prefix of characters satisfying
/// the predicate. If every character satisfies it, the result is empty.
pub open spec fn strip_prefix_chars<P: CharPredicate>(pred: P, s: Seq<char>) -> Seq<char>
    decreases s.len(),
{
    if s.len() == 0 {
        Seq::empty()
    } else if pred.spec_holds(s[0]) {
        strip_prefix_chars(pred, s.drop_first())
    } else {
        s
    }
}

/// A transformer that drops the leading characters satisfying the
/// predicate and passes everything from the first other character on
/// through unchanged.
#[derive(Debug, Clone, Copy, PartialEq, Eq, Hash)]
pub struct PrefixStripper<P: CharPredicate> {
    pub is_prefix: P,
}

impl<P: CharPredicate> PrefixStripper<P> {
    /// A prefix-stripping transformer for the given predicate.
    pub fn new(is_prefix: P) -> (r: Self)
        ensures
            r.is_prefix == is_prefix,
    {
        PrefixStripper { is_prefix }
    }
}

impl<P: CharPredicate> Sanitizer for PrefixStripper<P> {
    open spec fn spec_output(&self, input: Seq<char>) -> Seq<char> {
        strip_prefix_chars(self.is_prefix, input)
    }

    fn sanitize(self, input: &Vec<char>) -> (out: Vec<char>) {
        let it = PrefixStripperIter::new(copy_chars(input), self.is_prefix);
        drain(it)
    }
}

/// The streaming state of one prefix-stripping pass: the input characters,
/// how many of them have been consumed, and whether the prefix has ended.
pub struct PrefixStripperIter<P: CharPredicate> {
    pub input: Vec<char>,
    pub pos: usize,
    pub prefix_ended: bool,
    pub is_prefix: P,
}

impl<P: CharPredicate> PrefixStripperIter<P> {
    /// A prefix-stripping pass over `input`, positioned at its start.
    pub fn new(input: Vec<char>, is_prefix: P) -> (r: Self)
        ensures
            r.wf(),
            r.input == input,
            r.pos == 0,
            r.prefix_ended == false,
            r.is_prefix == is_prefix,
            r.future() == strip_prefix_chars(is_prefix, input@),
    {
        let r = PrefixStripperIter { input, pos: 0, prefix_ended: false, is_prefix };
        proof {
            assert(r.input@.skip(0) =~= r.input@);
        }
        r
    }
}

impl<P: CharPredicate> CharStream for PrefixStripperIter<P> {
    open spec fn wf(&self) -> bool {
        self.pos <= self.input@.len()
    }

    open spec fn future(&self) -> Seq<char> {
        if self.prefix_ended {
            self.input@.skip(self.pos as int)
        } else {
            strip_prefix_chars(self.is_prefix, self.input@.skip(self.pos as int))
        }
    }

    fn next(&mut self) -> (r: Option<char>) {
        while self.pos < self.input.len()
            invariant
                self.wf(),
                self.is_prefix == old(self).is_prefix,
                self.input == old(self).input,
                self.future() == old(self).future(),
            decreases self.input@.len() - self.pos,
        {
            proof {
                assert(self.input@.skip(self.pos as int)[0] == self.input@[self.pos as int]);
                assert(self.input@.skip(self.pos as int).drop_first() =~= self.input@.skip(
                    self.pos as int + 1,
                ));
            }
            let c = self.input[self.pos];
            if self.prefix_ended {
                self.pos += 1;
                return Some(c);
            }
            if !self.is_prefix.holds(c) {
                self.prefix_ended = true;
                self.pos += 1;
                return Some(c);
            }
            self.pos += 1;
        }
        proof {
            assert(self.input@.skip(self.pos as int).len() == 0);
        }
        None
    }
}

/// Prefix stripping never lengthens its input.
pub proof fn lemma_strip_prefix_length<P: CharPredicate>(pred: P, s: Seq<char>)
    ensures
        strip_prefix_chars(pred, s).len() <= s.len(),
    decreases s.len(),
{
    if s.len() > 0 && pred.spec_holds(s[0]) {
        lemma_strip_prefix_length(pred, s.drop_first());
    }
}

/// Prefix-stripper invariant, first half: the output's first character,
/// if there is one, does not satisfy the strip predicate.
pub proof fn lemma_strip_prefix_first<P: CharPredicate>(pred: P, s: Seq<char>)
    ensures
        strip_prefix_chars(pred, s).len() > 0 ==> !pred.spec_holds(strip_prefix_chars(pred, s)[0]),
    decreases s.len(),
{
    if s.len() > 0 && pred.spec_holds(s[0]) {
        lemma_strip_prefix_first(pred, s.drop_first());
    }
}

/// Prefix-stripper invariant, second half: if `k` is the position of the
/// first input character that fails the predicate, the output is exactly
/// the input from `k` on, unchanged.
pub proof fn lemma_strip_prefix_suffix<P: CharPredicate>(pred: P, s: Seq<char>, k: int)
    requires
        0 <= k < s.len(),
        forall|j: int| 0 <= j < k ==> pred.spec_holds(s[j]),
        !pred.spec_holds(s[k]),
    ensures
        strip_prefix_chars(pred, s) == s.skip(k),
    decreases k,
{
    if k == 0 {
        assert(s.skip(0) =~= s);
    } else {
        let rest = s.drop_first();
        assert(rest =~= s.skip(1));
        assert forall|j: int| 0 <= j < k - 1 implies pred.spec_holds(rest[j]) by {
            assert(rest[j] == s[j + 1]);
        }
        assert(rest[k - 1] == s[k]);
        lemma_strip_prefix_suffix(pred, rest, k - 1);
        assert(rest.skip(k - 1) =~= s.skip(k));
    }
}

} // verus!
