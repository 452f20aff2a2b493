//! A lookup from a character to an optional replacement character.

use vstd::prelude::*;

verus! {

/// A finite, decidable lookup from characters to characters.
///
/// The replacing transformer is generic over this trait, so a caller may
/// choose a single pair, or a list of pairs searched front to back.
pub trait CharLookup: Sized {
    /// The replacement this lookup associates with `key`, if any.
    spec fn spec_get(&self, key: char) -> Option<char>;

    /// Looks `key` up.
    fn get(&self, key: char) -> (r: Option<char>)
        ensures
            r == self.spec_get(key),
    ;
}

/// The first value associated with `key` in `pairs`, searched front to back.
pub open spec fn lookup_pairs(pairs: Seq<(char, char)>, key: char) -> Option<char>
    decreases pairs.len(),
{
    if pairs.len() == 0 {
        None
    } else if pairs[0].0 == key {
        Some(pairs[0].1)
    } else {
        lookup_pairs(pairs.drop_first(), key)
    }
}

impl CharLookup for (char, char) {
    open spec fn spec_get(&self, key: char) -> Option<char> {
        if self.0 == key {
            Some(self.1)
        } else {
            None
        }
    }

    fn get(&self, key: char) -> (r: Option<char>) {
        if self.0 == key {
            Some(self.1)
        } else {
            None
        }
    }
}

impl CharLookup for Vec<(char, char)> {
    open spec fn spec_get(&self, key: char) -> Option<char> {
        lookup_pairs(self@, key)
    }

    fn get(&self, key: char) -> (r: Option<char>) {
        proof {
            assert(self@.skip(0) =~= self@);
        }
        let mut i: usize = 0;
        while i < self.len()
            invariant
                i <= self@.len(),
                lookup_pairs(self@, key) == lookup_pairs(self@.skip(i as int), key),
            decreases self@.len() - i,
        {
            proof {
                assert(self@.skip(i as int)[0] == self@[i as int]);
                assert(self@.skip(i as int).drop_first() =~= self@.skip(i as int + 1));
            }
            let pair = self[i];
            if pair.0 == key {
                return Some(pair.1);
            }
            i += 1;
        }
        proof {
            assert(self@.skip(self@.len() as int).len() == 0);
        }
        None
    }
}

} // verus!
