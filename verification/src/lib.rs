//! Sanitization of filenames and folder names for specific target
//! filesystems and services.
//!
//! The heart of the crate is a small algebra of character-stream
//! transformers — character replacement, control- and whitespace
//! normalization, run deduplication, prefix stripping and reserved-name
//! padding — together with a combinator that chains two transformers into
//! a pipeline. Per-target policies assemble these primitives with the
//! target's constants: its forbidden characters, reserved names,
//! replacement character and pad character.
//!
//! Every transformer carries a specification function that states its
//! whole output sequence as a function of its whole input sequence, and
//! every executable function is verified against that statement. The
//! streaming automata behind the transformers hand their output out one
//! character per pull, through the `CharStream` interface.

use vstd::prelude::*;

mod chars;
mod platform;
pub mod platforms;
mod sanitizer;
mod sanitizer_ext;
pub mod sanitizers;
mod utils;

pub use chars::CharPredicate;
pub use chars::IsChar;
pub use chars::IsWhitespace;
pub use platform::Platform;
pub use sanitizer::BoolClosureAdapter;
pub use sanitizer::CharStream;
pub use sanitizer::Sanitizer;
pub use sanitizer_ext::SanitizerExt;
pub use utils::map::CharLookup;

verus! {

/// Sanitizes a string through the given transformer: the result holds
/// exactly the characters the transformer's specification produces from
/// the input's characters.
pub fn sanitize<S: Sanitizer>(string: &str, sanitizer: S) -> (out: String)
    ensures
        out@ == sanitizer.spec_output(string@),
{
    let chars = utils::text::chars_of(string);
    let result = sanitizer.sanitize(&chars);
    utils::text::string_of(&result)
}

/// Sanitizes a filename by the given target's rules.
pub fn sanitize_filename<P: Platform>(string: &str, platform: P) -> (out: String)
    ensures
        out@ == platform.spec_filename_output(string@),
{
    sanitize(string, platform.filename_sanitizer())
}

/// Sanitizes a folder name by the given target's rules. The target must
/// support folder sanitization; one that does not refuses the call.
pub fn sanitize_folder<P: Platform>(string: &str, platform: P) -> (out: String)
    requires
        platform.folder_supported(),
    ensures
        out@ == platform.spec_folder_output(string@),
{
    sanitize(string, platform.folder_sanitizer())
}

} // verus!
