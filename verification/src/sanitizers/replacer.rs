//! Character replacement: each character that the configured lookup knows
//! is emitted as its replacement, every other character is emitted
//! unchanged.

use vstd::prelude::*;

use crate::sanitizer::CharStream;
use crate::sanitizer::Sanitizer;
use crate::sanitizer::drain;
use crate::utils::map::CharLookup;
use crate::utils::map::lookup_pairs;
use crate::utils::text::copy_chars;

verus! {

/// The character `c` after one replacement step through `lookup`.
pub open spec fn replacement_of<M: CharLookup>(lookup: M, c: char) -> char {
    match lookup.spec_get(c) {
        Some(r) => r,
        None => c,
    }
}

/// Every character of `s` after one replacement step through `lookup`.
/// The output has exactly one character per input character.
pub open spec fn replace_chars<M: CharLookup>(lookup: M, s: Seq<char>) -> Seq<char> {
    s.map(|_i: int, c: char| replacement_of(lookup, c))
}

/// A transformer that replaces characters according to a lookup.
#[derive(Debug, Clone, Copy, PartialEq, Eq, Hash)]
pub struct Replacer<M: CharLookup>(pub M);

impl<M: CharLookup> Replacer<M> {
    /// A replacing transformer for the given lookup.
    pub fn new(lookup: M) -> (r: Self)
        ensures
            r.0 == lookup,
    {
        Replacer(lookup)
    }
}

impl<M: CharLookup> Sanitizer for Replacer<M> {
    open spec fn spec_output(&self, input: Seq<char>) -> Seq<char> {
        replace_chars(self.0, input)
    }

    fn sanitize(self, input: &Vec<char>) -> (out: Vec<char>) {
        let it = ReplacerIter::new(self.0, copy_chars(input));
        drain(it)
    }
}

/// The streaming state of one replacement pass: the input characters and
/// how many of them have been consumed.
pub struct ReplacerIter<M: CharLookup> {
    pub lookup: M,
    pub input: Vec<char>,
    pub pos: usize,
}

impl<M: CharLookup> ReplacerIter<M> {
    /// A replacement pass over `input`, positioned at its start.
    pub fn new(lookup: M, input: Vec<char>) -> (r: Self)
        ensures
            r.wf(),
            r.lookup == lookup,
            r.input == input,
            r.pos == 0,
            r.future() == replace_chars(lookup, input@),
    {
        let r = ReplacerIter { lookup, input, pos: 0 };
        proof {
            assert(r.input@.skip(0) =~= r.input@);
        }
        r
    }
}

impl<M: CharLookup> CharStream for ReplacerIter<M> {
    open spec fn wf(&self) -> bool {
        self.pos <= self.input@.len()
    }

    open spec fn future(&self) -> Seq<char> {
        replace_chars(self.lookup, self.input@.skip(self.pos as int))
    }

    fn next(&mut self) -> (r: Option<char>) {
        if self.pos < self.input.len() {
            let c = self.input[self.pos];
            proof {
                assert(self.input@.skip(self.pos as int)[0] == c);
                assert(self.input@.skip(self.pos as int).drop_first() =~= self.input@.skip(
                    self.pos as int + 1,
                ));
                assert(replace_chars(self.lookup, self.input@.skip(self.pos as int)) =~= seq![
                    replacement_of(self.lookup, c),
                ] + replace_chars(self.lookup, self.input@.skip(self.pos as int + 1)));
            }
            self.pos += 1;
            let r = self.lookup.get(c);
            match r {
                Some(replacement) => Some(replacement),
                None => Some(c),
            }
        } else {
            None
        }
    }
}

/// Every character of `s` after one replacement step through a pair list
/// searched front to back.
pub open spec fn replace_with_pairs(pairs: Seq<(char, char)>, s: Seq<char>) -> Seq<char> {
    s.map(
        |_i: int, c: char|
            match lookup_pairs(pairs, c) {
                Some(r) => r,
                None => c,
            },
    )
}

/// A replacer over a vector of pairs computes exactly the pair-list
/// replacement of its input.
pub proof fn lemma_replacer_vec_spec(pairs: Vec<(char, char)>, s: Seq<char>)
    ensures
        replace_chars(pairs, s) == replace_with_pairs(pairs@, s),
{
    assert(replace_chars(pairs, s) =~= replace_with_pairs(pairs@, s));
}

/// For every lookup and every input, replacement preserves the length.
pub proof fn lemma_replacer_length<M: CharLookup>(lookup: M, s: Seq<char>)
    ensures
        replace_chars(lookup, s).len() == s.len(),
{
}

/// Replacing twice is replacing once, for lookups none of whose
/// replacement characters is itself replaced.
pub proof fn lemma_replacer_idempotent<M: CharLookup>(lookup: M, s: Seq<char>)
    requires
        forall|c: char| #[trigger] lookup.spec_get(c) is Some ==> lookup.spec_get(
            lookup.spec_get(c)->0,
        ) == None::<char>,
    ensures
        replace_chars(lookup, replace_chars(lookup, s)) == replace_chars(lookup, s),
{
    let once = replace_chars(lookup, s);
    let twice = replace_chars(lookup, once);
    assert forall|i: int| 0 <= i < once.len() implies twice[i] == once[i] by {
        let c = s[i];
        if lookup.spec_get(c) is Some {
            assert(lookup.spec_get(lookup.spec_get(c)->0) == None::<char>);
        }
    }
    assert(twice =~= once);
}

} // verus!
