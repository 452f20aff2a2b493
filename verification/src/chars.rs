//! Character classes and character predicates.
//!
//! The transformers are configured with predicates over characters
//! ("is this character whitespace", "is this character a tilde").
//! Each predicate is a small configuration value whose meaning is given
//! by a specification function.

use vstd::prelude::*;

verus! {

/// The characters with the Unicode `White_Space` property.
pub open spec fn is_whitespace_char(c: char) -> bool {
    let u = c as u32;
    ||| u == 0x09
    ||| u == 0x0A
    ||| u == 0x0B
    ||| u == 0x0C
    ||| u == 0x0D
    ||| u == 0x20
    ||| u == 0x85
    ||| u == 0xA0
    ||| u == 0x1680
    ||| (0x2000 <= u && u <= 0x200A)
    ||| u == 0x2028
    ||| u == 0x2029
    ||| u == 0x202F
    ||| u == 0x205F
    ||| u == 0x3000
}

/// The characters in the Unicode `Cc` (control) category: the C0 block,
/// delete, and the C1 block.
pub open spec fn is_control_char(c: char) -> bool {
    let u = c as u32;
    u <= 0x1F || (0x7F <= u && u <= 0x9F)
}

/// Decides the Unicode `White_Space` property.
pub fn char_is_whitespace(c: char) -> (r: bool)
    ensures
        r == is_whitespace_char(c),
{
    let u = c as u32;
    u == 0x09 || u == 0x0A || u == 0x0B || u == 0x0C || u == 0x0D || u == 0x20 || u == 0x85
        || u == 0xA0 || u == 0x1680 || (0x2000 <= u && u <= 0x200A) || u == 0x2028 || u == 0x2029
        || u == 0x202F || u == 0x205F || u == 0x3000
}

/// Decides the Unicode `Cc` (control) category.
pub fn char_is_control(c: char) -> (r: bool)
    ensures
        r == is_control_char(c),
{
    let u = c as u32;
    u <= 0x1F || (0x7F <= u && u <= 0x9F)
}

/// A decidable predicate over characters, used to configure the
/// deduplicating, prefix-stripping and filtering transformers.
pub trait CharPredicate: Sized {
    /// What the predicate holds of.
    spec fn spec_holds(&self, c: char) -> bool;

    /// Decides the predicate.
    fn holds(&self, c: char) -> (r: bool)
        ensures
            r == self.spec_holds(c),
    ;
}

/// The predicate "is a whitespace character".
pub struct IsWhitespace {}

impl CharPredicate for IsWhitespace {
    open spec fn spec_holds(&self, c: char) -> bool {
        is_whitespace_char(c)
    }

    fn holds(&self, c: char) -> (r: bool) {
        char_is_whitespace(c)
    }
}

/// The predicate "is exactly this character".
pub struct IsChar {
    pub target: char,
}

impl CharPredicate for IsChar {
    open spec fn spec_holds(&self, c: char) -> bool {
        c == self.target
    }

    fn holds(&self, c: char) -> (r: bool) {
        c == self.target
    }
}

} // verus!
