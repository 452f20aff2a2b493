//! Builder methods on every transformer: chain a further stage onto a
//! pipeline, left to right.

use vstd::prelude::*;

use crate::chars::CharPredicate;
use crate::sanitizer::Sanitizer;
use crate::sanitizers::Control;
use crate::sanitizers::Deduplicator;
use crate::sanitizers::Padder;
use crate::sanitizers::PrefixStripper;
use crate::sanitizers::Replacer;
use crate::sanitizers::Then;
use crate::sanitizers::Whitespace;
use crate::utils::map::CharLookup;

verus! {

/// Chaining helpers: each wraps `self` and one more stage into a `Then`
/// pipeline, so that pipelines read in application order.
pub trait SanitizerExt: Sanitizer {
    /// The pipeline that applies `self`, then `sanitizer`.
    fn then<S: Sanitizer>(self, sanitizer: S) -> (r: Then<Self, S>)
        ensures
            r.a == self,
            r.b == sanitizer,
    ;

    /// Appends a run-deduplicating stage for the given predicate.
    fn deduplicate<F: CharPredicate>(self, f: F) -> (r: Then<Self, Deduplicator<F>>)
        ensures
            r.a == self,
            r.b.0 == f,
    ;

    /// Appends a control-character normalizing stage.
    fn replace_control(self, replacement: char) -> (r: Then<Self, Control>)
        ensures
            r.a == self,
            r.b.replacement == replacement,
    ;

    /// Appends a whitespace normalizing stage.
    fn replace_whitespace(self, replacement: char) -> (r: Then<Self, Whitespace>)
        ensures
            r.a == self,
            r.b.replacement == replacement,
    ;

    /// Appends a character-replacing stage for the given lookup.
    fn replace<M: CharLookup>(self, lookup: M) -> (r: Then<Self, Replacer<M>>)
        ensures
            r.a == self,
            r.b.0 == lookup,
    ;

    /// Appends a reserved-name padding stage, with no boundary character.
    fn padding(self, names: Vec<Vec<char>>, pad: char) -> (r: Then<Self, Padder>)
        ensures
            r.a == self,
            r.b.names == names,
            r.b.insert_before == None::<char>,
            r.b.pad == pad,
    ;

    /// Appends a prefix-stripping stage for the given predicate.
    fn strip_prefix<P: CharPredicate>(self, is_prefix: P) -> (r: Then<Self, PrefixStripper<P>>)
        ensures
            r.a == self,
            r.b.is_prefix == is_prefix,
    ;
}

impl<S: Sanitizer> SanitizerExt for S {
    fn then<T: Sanitizer>(self, sanitizer: T) -> (r: Then<Self, T>) {
        Then::new(self, sanitizer)
    }

    fn deduplicate<F: CharPredicate>(self, f: F) -> (r: Then<Self, Deduplicator<F>>) {
        Then::new(self, Deduplicator::new(f))
    }

    fn replace_control(self, replacement: char) -> (r: Then<Self, Control>) {
        Then::new(self, Control::new(replacement))
    }

    fn replace_whitespace(self, replacement: char) -> (r: Then<Self, Whitespace>) {
        Then::new(self, Whitespace::new(replacement))
    }

    fn replace<M: CharLookup>(self, lookup: M) -> (r: Then<Self, Replacer<M>>) {
        Then::new(self, Replacer::new(lookup))
    }

    fn padding(self, names: Vec<Vec<char>>, pad: char) -> (r: Then<Self, Padder>) {
        Then::new(self, Padder::new(names, None, pad))
    }

    fn strip_prefix<P: CharPredicate>(self, is_prefix: P) -> (r: Then<Self, PrefixStripper<P>>) {
        Then::new(self, PrefixStripper::new(is_prefix))
    }
}

} // verus!
