//! The local-filesystem target: only the path separator and the NUL
//! character are forbidden, for filenames and folder names alike.

use vstd::prelude::*;

use crate::platform::Platform;
use crate::sanitizer::Sanitizer;
use crate::sanitizers::Replacer;
use crate::sanitizers::replacer::lemma_replacer_vec_spec;
use crate::sanitizers::replacer::replace_with_pairs;

verus! {

/// The replacement pairs of this target: each forbidden character maps to
/// the configured replacement character.
pub open spec fn linux_pairs(replacement: char) -> Seq<(char, char)> {
    seq![('/', replacement), ('\u{0000}', replacement)]
}

/// A local-filesystem-style target. Only `/` and NUL are forbidden; the
/// same rule applies to filenames and folder names.
#[derive(Debug, Clone, Copy, PartialEq, Eq, Hash)]
pub struct Linux {
    pub replacement: char,
}

impl Default for Linux {
    /// The target with the replacement character U+FFFD.
    fn default() -> (r: Self)
        ensures
            r.replacement == '\u{FFFD}',
    {
        Linux { replacement: '\u{FFFD}' }
    }
}

impl Linux {
    /// The target with the given replacement character.
    pub fn new(replacement: char) -> (r: Self)
        ensures
            r.replacement == replacement,
    {
        Linux { replacement }
    }

    /// The forbidden characters, each paired with the replacement.
    fn forbidden_pairs(&self) -> (pairs: Vec<(char, char)>)
        ensures
            pairs@ == linux_pairs(self.replacement),
    {
        let mut pairs: Vec<(char, char)> = Vec::new();
        pairs.push(('/', self.replacement));
        pairs.push(('\u{0000}', self.replacement));
        proof {
            assert(pairs@ =~= linux_pairs(self.replacement));
        }
        pairs
    }
}

impl Platform for Linux {
    type FilenameSanitizer = Replacer<Vec<(char, char)>>;

    type FolderSanitizer = Replacer<Vec<(char, char)>>;

    open spec fn spec_filename_output(&self, input: Seq<char>) -> Seq<char> {
        replace_with_pairs(linux_pairs(self.replacement), input)
    }

    open spec fn spec_folder_output(&self, input: Seq<char>) -> Seq<char> {
        replace_with_pairs(linux_pairs(self.replacement), input)
    }

    open spec fn folder_supported(&self) -> bool {
        true
    }

    fn filename_sanitizer(&self) -> (s: Self::FilenameSanitizer) {
        let pairs = self.forbidden_pairs();
        let s = Replacer::new(pairs);
        proof {
            assert forall|input: Seq<char>| #[trigger] s.spec_output(input)
                == self.spec_filename_output(input) by {
                lemma_replacer_vec_spec(s.0, input);
            }
        }
        s
    }

    fn folder_sanitizer(&self) -> (s: Self::FolderSanitizer) {
        let pairs = self.forbidden_pairs();
        let s = Replacer::new(pairs);
        proof {
            assert forall|input: Seq<char>| #[trigger] s.spec_output(input)
                == self.spec_folder_output(input) by {
                lemma_replacer_vec_spec(s.0, input);
            }
        }
        s
    }
}

} // verus!
