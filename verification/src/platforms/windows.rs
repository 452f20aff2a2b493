//! The desktop-OS-style restrictive target: a larger reserved-character
//! set, control characters replaced, leading whitespace stripped, and
//! reserved device names padded. Folder sanitization is not defined for
//! this target.

use vstd::prelude::*;
use vstd::pervasive::unreached;

use crate::chars::IsWhitespace;
use crate::platform::Platform;
use crate::sanitizer::Sanitizer;
use crate::sanitizer_ext::SanitizerExt;
use crate::sanitizers::Control;
use crate::sanitizers::Padder;
use crate::sanitizers::PrefixStripper;
use crate::sanitizers::Replacer;
use crate::sanitizers::Then;
use crate::sanitizers::control::normalize_control;
use crate::sanitizers::padder::padder_output;
use crate::sanitizers::padder::views_of;
use crate::sanitizers::prefix_stripper::strip_prefix_chars;
use crate::sanitizers::replacer::lemma_replacer_vec_spec;
use crate::sanitizers::replacer::replace_with_pairs;
use crate::utils::text::chars_of;

verus! {

/// The reserved characters of this target, each paired with the
/// configured replacement character.
pub open spec fn windows_pairs(replacement: char) -> Seq<(char, char)> {
    seq![
        ('<', replacement),
        ('>', replacement),
        (':', replacement),
        ('"', replacement),
        ('/', replacement),
        ('\\', replacement),
        ('|', replacement),
        ('?', replacement),
        ('*', replacement),
        ('\u{0000}', replacement),
    ]
}

/// The reserved device names of this target. A filename must not equal
/// any of them, with or without an extension.
pub open spec fn windows_reserved_names() -> Seq<Seq<char>> {
    seq![
        "CON"@,
        "PRN"@,
        "AUX"@,
        "NUL"@,
        "COM0"@,
        "COM1"@,
        "COM2"@,
        "COM3"@,
        "COM4"@,
        "COM5"@,
        "COM6"@,
        "COM7"@,
        "COM8"@,
        "COM9"@,
        "LPT0"@,
        "LPT1"@,
        "LPT2"@,
        "LPT3"@,
        "LPT4"@,
        "LPT5"@,
        "LPT6"@,
        "LPT7"@,
        "LPT8"@,
        "LPT9"@,
    ]
}

/// A desktop-OS-style target with the given replacement and pad
/// characters. Folder sanitization is not supported.
pub struct Windows {
    pub replacement: char,
    pub pad: char,
}

impl Default for Windows {
    /// The target with the replacement character U+FFFD and the pad
    /// character `_`.
    fn default() -> (r: Self)
        ensures
            r.replacement == '\u{FFFD}',
            r.pad == '_',
    {
        Windows { replacement: '\u{FFFD}', pad: '_' }
    }
}

impl Windows {
    /// The target with the given replacement and pad characters.
    pub fn new(replacement: char, pad: char) -> (r: Self)
        ensures
            r.replacement == replacement,
            r.pad == pad,
    {
        Windows { replacement, pad }
    }

    /// The reserved characters, each paired with the replacement.
    fn reserved_pairs(&self) -> (pairs: Vec<(char, char)>)
        ensures
            pairs@ == windows_pairs(self.replacement),
    {
        let mut pairs: Vec<(char, char)> = Vec::new();
        pairs.push(('<', self.replacement));
        pairs.push(('>', self.replacement));
        pairs.push((':', self.replacement));
        pairs.push(('"', self.replacement));
        pairs.push(('/', self.replacement));
        pairs.push(('\\', self.replacement));
        pairs.push(('|', self.replacement));
        pairs.push(('?', self.replacement));
        pairs.push(('*', self.replacement));
        pairs.push(('\u{0000}', self.replacement));
        proof {
            assert(pairs@ =~= windows_pairs(self.replacement));
        }
        pairs
    }

    /// The reserved device names, as character vectors.
    fn reserved_names() -> (names: Vec<Vec<char>>)
        ensures
            views_of(names@) == windows_reserved_names(),
    {
        let mut names: Vec<Vec<char>> = Vec::new();
        names.push(chars_of("CON"));
        names.push(chars_of("PRN"));
        names.push(chars_of("AUX"));
        names.push(chars_of("NUL"));
        names.push(chars_of("COM0"));
        names.push(chars_of("COM1"));
        names.push(chars_of("COM2"));
        names.push(chars_of("COM3"));
        names.push(chars_of("COM4"));
        names.push(chars_of("COM5"));
        names.push(chars_of("COM6"));
        names.push(chars_of("COM7"));
        names.push(chars_of("COM8"));
        names.push(chars_of("COM9"));
        names.push(chars_of("LPT0"));
        names.push(chars_of("LPT1"));
        names.push(chars_of("LPT2"));
        names.push(chars_of("LPT3"));
        names.push(chars_of("LPT4"));
        names.push(chars_of("LPT5"));
        names.push(chars_of("LPT6"));
        names.push(chars_of("LPT7"));
        names.push(chars_of("LPT8"));
        names.push(chars_of("LPT9"));
        proof {
            assert(views_of(names@) =~= windows_reserved_names());
        }
        names
    }
}

impl Platform for Windows {
    type FilenameSanitizer = Then<
        Then<Then<Replacer<Vec<(char, char)>>, Control>, PrefixStripper<IsWhitespace>>,
        Padder,
    >;

    type FolderSanitizer = Replacer<Vec<(char, char)>>;

    /// Reserved characters are replaced first, then control characters,
    /// then leading whitespace is stripped, and the already-normalized
    /// name is padded if it equals a reserved device name.
    open spec fn spec_filename_output(&self, input: Seq<char>) -> Seq<char> {
        padder_output(
            windows_reserved_names(),
            None,
            self.pad,
            strip_prefix_chars(
                (IsWhitespace {  }),
                normalize_control(
                    self.replacement,
                    replace_with_pairs(windows_pairs(self.replacement), input),
                ),
            ),
        )
    }

    open spec fn spec_folder_output(&self, input: Seq<char>) -> Seq<char> {
        input
    }

    open spec fn folder_supported(&self) -> bool {
        false
    }

    fn filename_sanitizer(&self) -> (s: Self::FilenameSanitizer) {
        let pairs = self.reserved_pairs();
        let names = Self::reserved_names();
        let r0 = Replacer::new(pairs);
        let r1 = r0.replace_control(self.replacement);
        let r2 = r1.strip_prefix(IsWhitespace {  });
        let s = r2.padding(names, self.pad);
        proof {
            assert forall|input: Seq<char>| #[trigger] s.spec_output(input)
                == self.spec_filename_output(input) by {
                lemma_replacer_vec_spec(r0.0, input);
                let x0 = replace_with_pairs(windows_pairs(self.replacement), input);
                assert(r0.spec_output(input) == x0);
                let x1 = normalize_control(self.replacement, x0);
                assert(r1.spec_output(input) == x1);
                let x2 = strip_prefix_chars((IsWhitespace {  }), x1);
                assert(r2.spec_output(input) == x2);
                assert(s.spec_output(input) == padder_output(
                    windows_reserved_names(),
                    None,
                    self.pad,
                    x2,
                ));
            }
        }
        s
    }

    /// The underlying service defines no folder-naming rules for this
    /// target, so there is nothing correct to return: the operation is
    /// statically ruled out, and an unverified caller fails loudly.
    fn folder_sanitizer(&self) -> (s: Self::FolderSanitizer) {
        unreached()
    }
}

} // verus!
