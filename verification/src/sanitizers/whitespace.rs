//! Whitespace normalization: every whitespace character, by the Unicode
//! `White_Space` property, is emitted as the configured replacement
//! character, every other character unchanged.

use vstd::prelude::*;

use crate::chars::char_is_whitespace;
use crate::chars::is_whitespace_char;
use crate::sanitizer::Sanitizer;

verus! {

/// Every character of `s`, with whitespace characters replaced by
/// `replacement`. The output has exactly one character per input
/// character.
pub open spec fn normalize_whitespace(replacement: char, s: Seq<char>) -> Seq<char> {
    s.map(
        |_i: int, c: char|
            if is_whitespace_char(c) {
                replacement
            } else {
                c
            },
    )
}

/// A transformer that replaces whitespace characters, like `\t` or `\n`,
/// with a fixed replacement character.
#[derive(Debug, Clone, Copy, PartialEq, Eq, Hash)]
pub struct Whitespace {
    pub replacement: char,
}

impl Whitespace {
    /// A whitespace normalizer with the given replacement.
    pub fn new(replacement: char) -> (r: Self)
        ensures
            r.replacement == replacement,
    {
        Whitespace { replacement }
    }
}

impl Sanitizer for Whitespace {
    open spec fn spec_output(&self, input: Seq<char>) -> Seq<char> {
        normalize_whitespace(self.replacement, input)
    }

    fn sanitize(self, input: &Vec<char>) -> (out: Vec<char>) {
        let mut out: Vec<char> = Vec::new();
        let mut i: usize = 0;
        while i < input.len()
            invariant
                i <= input@.len(),
                out@ == normalize_whitespace(self.replacement, input@.take(i as int)),
            decreases input@.len() - i,
        {
            let c = input[i];
            if char_is_whitespace(c) {
                out.push(self.replacement);
            } else {
                out.push(c);
            }
            proof {
                assert(out@ =~= normalize_whitespace(self.replacement, input@.take(i as int + 1)));
            }
            i += 1;
        }
        proof {
            assert(input@.take(input@.len() as int) =~= input@);
        }
        out
    }
}

/// For every replacement character and every input, whitespace
/// normalization preserves the length.
pub proof fn lemma_whitespace_length(replacement: char, s: Seq<char>)
    ensures
        normalize_whitespace(replacement, s).len() == s.len(),
{
}

} // verus!
