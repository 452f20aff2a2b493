//! The cloud-storage target: distinct forbidden character sets for files
//! and folders, a leading tilde and leading whitespace stripped, and an
//! extended reserved-name list padded with boundary-character awareness
//! at the extension separator.
//!
//! The service also forbids a certain name fragment anywhere inside a
//! name; only the whole-name match is enforced here, as in the service's
//! published whole-name list.

use vstd::prelude::*;

use crate::chars::IsChar;
use crate::chars::IsWhitespace;
use crate::platform::Platform;
use crate::sanitizer::Sanitizer;
use crate::sanitizer_ext::SanitizerExt;
use crate::sanitizers::Padder;
use crate::sanitizers::PrefixStripper;
use crate::sanitizers::Replacer;
use crate::sanitizers::Then;
use crate::sanitizers::padder::boundary_compatible;
use crate::sanitizers::padder::is_reserved;
use crate::sanitizers::padder::lemma_padder_length;
use crate::sanitizers::padder::padder_output;
use crate::sanitizers::padder::views_of;
use crate::sanitizers::prefix_stripper::strip_prefix_chars;
use crate::sanitizers::replacer::lemma_replacer_vec_spec;
use crate::sanitizers::replacer::replace_with_pairs;
use crate::utils::text::chars_of;

verus! {

/// The characters this target forbids in folder names, each paired with
/// the configured replacement character.
pub open spec fn onedrive_folder_pairs(replacement: char) -> Seq<(char, char)> {
    seq![
        ('"', replacement),
        ('*', replacement),
        (':', replacement),
        ('<', replacement),
        ('>', replacement),
        ('?', replacement),
        ('/', replacement),
        ('\\', replacement),
        ('|', replacement),
    ]
}

/// The characters this target forbids in filenames, each paired with the
/// configured replacement character.
pub open spec fn onedrive_file_pairs(replacement: char) -> Seq<(char, char)> {
    seq![
        ('~', replacement),
        ('"', replacement),
        ('#', replacement),
        ('%', replacement),
        ('&', replacement),
        ('*', replacement),
        (':', replacement),
        ('<', replacement),
        ('>', replacement),
        ('?', replacement),
        ('/', replacement),
        ('\\', replacement),
        ('{', replacement),
        ('|', replacement),
        ('}', replacement),
    ]
}

/// The names this target reserves, for files and folders alike.
pub open spec fn onedrive_reserved_names() -> Seq<Seq<char>> {
    seq![
        ".lock"@,
        "CON"@,
        "PRN"@,
        "AUX"@,
        "NUL"@,
        "COM0"@,
        "COM1"@,
        "COM2"@,
        "COM3"@,
        "COM4"@,
        "COM5"@,
        "COM6"@,
        "COM7"@,
        "COM8"@,
        "COM9"@,
        "LPT0"@,
        "LPT1"@,
        "LPT2"@,
        "LPT3"@,
        "LPT4"@,
        "LPT5"@,
        "LPT6"@,
        "LPT7"@,
        "LPT8"@,
        "LPT9"@,
        "_vti_"@,
        "desktop.ini"@,
    ]
}

/// This target's reserved names are compatible with the extension
/// separator as boundary character: although `.lock` and `desktop.ini`
/// contain a dot, no reserved name begins with another reserved name
/// followed by one, so at most one pad point can fire on any input.
#[verifier::rlimit(50)]
pub proof fn lemma_onedrive_boundary_compatible()
    ensures
        boundary_compatible(onedrive_reserved_names(), Some('.')),
{
    reveal_strlit(".lock");
    reveal_strlit("CON");
    reveal_strlit("PRN");
    reveal_strlit("AUX");
    reveal_strlit("NUL");
    reveal_strlit("COM0");
    reveal_strlit("COM1");
    reveal_strlit("COM2");
    reveal_strlit("COM3");
    reveal_strlit("COM4");
    reveal_strlit("COM5");
    reveal_strlit("COM6");
    reveal_strlit("COM7");
    reveal_strlit("COM8");
    reveal_strlit("COM9");
    reveal_strlit("LPT0");
    reveal_strlit("LPT1");
    reveal_strlit("LPT2");
    reveal_strlit("LPT3");
    reveal_strlit("LPT4");
    reveal_strlit("LPT5");
    reveal_strlit("LPT6");
    reveal_strlit("LPT7");
    reveal_strlit("LPT8");
    reveal_strlit("LPT9");
    reveal_strlit("_vti_");
    reveal_strlit("desktop.ini");
    let names = onedrive_reserved_names();
    assert forall|k: int, j: int|
        0 <= k < names.len() && 1 <= j < names[k].len() && names[k][j] == '.'
        implies !is_reserved(names, names[k].take(j)) by {
        assert(k == 26 && j == 7);
        assert(names[26].take(7).len() == 7);
        assert forall|k2: int| 0 <= k2 < names.len() implies #[trigger] names[k2] != names[26].take(7) by {
            assert(names[k2].len() != 7);
        }
    }
}

/// Length bound for this target's padding stage: on any input it inserts
/// at most one pad character, even though two of its reserved names
/// contain the boundary character.
pub proof fn lemma_onedrive_padder_length(pad: char, input: Seq<char>)
    ensures
        ({
            let out = padder_output(onedrive_reserved_names(), Some('.'), pad, input);
            out.len() == input.len() || out.len() == input.len() + 1
        }),
{
    lemma_onedrive_boundary_compatible();
    lemma_padder_length(onedrive_reserved_names(), Some('.'), pad, input);
}

/// The pipeline both operations of this target assemble: replacement
/// first, then a leading tilde and leading whitespace stripped, then the
/// reserved names padded with boundary-character awareness at the
/// extension separator, so that a reserved name is broken up whether the
/// stream ends right after it or an extension follows it.
pub open spec fn onedrive_output(
    pairs: Seq<(char, char)>,
    pad: char,
    input: Seq<char>,
) -> Seq<char> {
    padder_output(
        onedrive_reserved_names(),
        Some('.'),
        pad,
        strip_prefix_chars(
            (IsWhitespace {  }),
            strip_prefix_chars((IsChar { target: '~' }), replace_with_pairs(pairs, input)),
        ),
    )
}

/// A cloud-storage-style target with the given replacement and pad
/// characters.
pub struct OneDrive {
    pub replacement: char,
    pub pad: char,
}

/// The pipeline type both operations of this target build.
pub type OneDrivePipeline = Then<
    Then<Then<Replacer<Vec<(char, char)>>, PrefixStripper<IsChar>>, PrefixStripper<IsWhitespace>>,
    Padder,
>;

impl Default for OneDrive {
    /// The target with the replacement character U+FFFD and the pad
    /// character `_`.
    fn default() -> (r: Self)
        ensures
            r.replacement == '\u{FFFD}',
            r.pad == '_',
    {
        OneDrive { replacement: '\u{FFFD}', pad: '_' }
    }
}

impl OneDrive {
    /// The target with the given replacement and pad characters.
    pub fn new(replacement: char, pad: char) -> (r: Self)
        ensures
            r.replacement == replacement,
            r.pad == pad,
    {
        OneDrive { replacement, pad }
    }

    /// The characters forbidden in folder names, each paired with the
    /// replacement.
    fn folder_pairs(&self) -> (pairs: Vec<(char, char)>)
        ensures
            pairs@ == onedrive_folder_pairs(self.replacement),
    {
        let mut pairs: Vec<(char, char)> = Vec::new();
        pairs.push(('"', self.replacement));
        pairs.push(('*', self.replacement));
        pairs.push((':', self.replacement));
        pairs.push(('<', self.replacement));
        pairs.push(('>', self.replacement));
        pairs.push(('?', self.replacement));
        pairs.push(('/', self.replacement));
        pairs.push(('\\', self.replacement));
        pairs.push(('|', self.replacement));
        proof {
            assert(pairs@ =~= onedrive_folder_pairs(self.replacement));
        }
        pairs
    }

    /// The characters forbidden in filenames, each paired with the
    /// replacement.
    fn file_pairs(&self) -> (pairs: Vec<(char, char)>)
        ensures
            pairs@ == onedrive_file_pairs(self.replacement),
    {
        let mut pairs: Vec<(char, char)> = Vec::new();
        pairs.push(('~', self.replacement));
        pairs.push(('"', self.replacement));
        pairs.push(('#', self.replacement));
        pairs.push(('%', self.replacement));
        pairs.push(('&', self.replacement));
        pairs.push(('*', self.replacement));
        pairs.push((':', self.replacement));
        pairs.push(('<', self.replacement));
        pairs.push(('>', self.replacement));
        pairs.push(('?', self.replacement));
        pairs.push(('/', self.replacement));
        pairs.push(('\\', self.replacement));
        pairs.push(('{', self.replacement));
        pairs.push(('|', self.replacement));
        pairs.push(('}', self.replacement));
        proof {
            assert(pairs@ =~= onedrive_file_pairs(self.replacement));
        }
        pairs
    }

    /// The reserved names, as character vectors.
    fn reserved_names() -> (names: Vec<Vec<char>>)
        ensures
            views_of(names@) == onedrive_reserved_names(),
    {
        let mut names: Vec<Vec<char>> = Vec::new();
        names.push(chars_of(".lock"));
        names.push(chars_of("CON"));
        names.push(chars_of("PRN"));
        names.push(chars_of("AUX"));
        names.push(chars_of("NUL"));
        names.push(chars_of("COM0"));
        names.push(chars_of("COM1"));
        names.push(chars_of("COM2"));
        names.push(chars_of("COM3"));
        names.push(chars_of("COM4"));
        names.push(chars_of("COM5"));
        names.push(chars_of("COM6"));
        names.push(chars_of("COM7"));
        names.push(chars_of("COM8"));
        names.push(chars_of("COM9"));
        names.push(chars_of("LPT0"));
        names.push(chars_of("LPT1"));
        names.push(chars_of("LPT2"));
        names.push(chars_of("LPT3"));
        names.push(chars_of("LPT4"));
        names.push(chars_of("LPT5"));
        names.push(chars_of("LPT6"));
        names.push(chars_of("LPT7"));
        names.push(chars_of("LPT8"));
        names.push(chars_of("LPT9"));
        names.push(chars_of("_vti_"));
        names.push(chars_of("desktop.ini"));
        proof {
            assert(views_of(names@) =~= onedrive_reserved_names());
        }
        names
    }

    /// Assembles the pipeline over the given replacement pairs.
    fn pipeline(&self, pairs: Vec<(char, char)>) -> (s: OneDrivePipeline)
        ensures
            forall|input: Seq<char>| #[trigger]
                s.spec_output(input) == onedrive_output(pairs@, self.pad, input),
    {
        let names = Self::reserved_names();
        let r0 = Replacer::new(pairs);
        let r1 = r0.strip_prefix(IsChar { target: '~' });
        let r2 = r1.strip_prefix(IsWhitespace {  });
        let s = Then::new(r2, Padder::new(names, Some('.'), self.pad));
        proof {
            assert forall|input: Seq<char>| #[trigger] s.spec_output(input) == onedrive_output(
                r0.0@,
                self.pad,
                input,
            ) by {
                lemma_replacer_vec_spec(r0.0, input);
                let x0 = replace_with_pairs(r0.0@, input);
                assert(r0.spec_output(input) == x0);
                let x1 = strip_prefix_chars((IsChar { target: '~' }), x0);
                assert(r1.spec_output(input) == x1);
                let x2 = strip_prefix_chars((IsWhitespace {  }), x1);
                assert(r2.spec_output(input) == x2);
                assert(s.spec_output(input) == padder_output(
                    onedrive_reserved_names(),
                    Some('.'),
                    self.pad,
                    x2,
                ));
            }
        }
        s
    }
}

impl Platform for OneDrive {
    type FilenameSanitizer = OneDrivePipeline;

    type FolderSanitizer = OneDrivePipeline;

    open spec fn spec_filename_output(&self, input: Seq<char>) -> Seq<char> {
        onedrive_output(onedrive_file_pairs(self.replacement), self.pad, input)
    }

    open spec fn spec_folder_output(&self, input: Seq<char>) -> Seq<char> {
        onedrive_output(onedrive_folder_pairs(self.replacement), self.pad, input)
    }

    open spec fn folder_supported(&self) -> bool {
        true
    }

    fn filename_sanitizer(&self) -> (s: Self::FilenameSanitizer) {
        let pairs = self.file_pairs();
        self.pipeline(pairs)
    }

    fn folder_sanitizer(&self) -> (s: Self::FolderSanitizer) {
        let pairs = self.folder_pairs();
        self.pipeline(pairs)
    }
}

} // verus!
