//! Control-character normalization: every control character is emitted as
//! the configured replacement character, every other character unchanged.

use vstd::prelude::*;

use crate::chars::char_is_control;
use crate::chars::is_control_char;
use crate::sanitizer::Sanitizer;

verus! {

/// Every character of `s`, with control characters replaced by
/// `replacement`. The output has exactly one character per input
/// character.
pub open spec fn normalize_control(replacement: char, s: Seq<char>) -> Seq<char> {
    s.map(
        |_i: int, c: char|
            if is_control_char(c) {
                replacement
            } else {
                c
            },
    )
}

/// A transformer that replaces control characters, like `\0` or `\x07`,
/// with a fixed replacement character.
pub struct Control {
    pub replacement: char,
}

impl Control {
    /// A control-character normalizer with the given replacement.
    pub fn new(replacement: char) -> (r: Self)
        ensures
            r.replacement == replacement,
    {
        Control { replacement }
    }
}

impl Sanitizer for Control {
    open spec fn spec_output(&self, input: Seq<char>) -> Seq<char> {
        normalize_control(self.replacement, input)
    }

    fn sanitize(self, input: &Vec<char>) -> (out: Vec<char>) {
        let mut out: Vec<char> = Vec::new();
        let mut i: usize = 0;
        while i < input.len()
            invariant
                i <= input@.len(),
                out@ == normalize_control(self.replacement, input@.take(i as int)),
            decreases input@.len() - i,
        {
            let c = input[i];
            if char_is_control(c) {
                out.push(self.replacement);
            } else {
                out.push(c);
            }
            proof {
                assert(out@ =~= normalize_control(self.replacement, input@.take(i as int + 1)));
            }
            i += 1;
        }
        proof {
            assert(input@.take(input@.len() as int) =~= input@);
        }
        out
    }
}

/// For every replacement character and every input, control
/// normalization preserves the length.
pub proof fn lemma_control_length(replacement: char, s: Seq<char>)
    ensures
        normalize_control(replacement, s).len() == s.len(),
{
}

} // verus!
