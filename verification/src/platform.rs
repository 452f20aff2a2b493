//! The per-target policy interface: a platform knows how to build a
//! filename transformer and a folder transformer from its constants.

use vstd::prelude::*;

use crate::sanitizer::Sanitizer;

verus! {

/// A target's naming rules, expressed as assembled pipelines.
///
/// `spec_filename_output` and `spec_folder_output` state, per target, what
/// the assembled pipelines compute. A target whose underlying service has
/// no folder-naming rules of its own reports `folder_supported() == false`
/// and refuses `folder_sanitizer` loudly instead of guessing.
pub trait Platform: Sized {
    /// The pipeline type this target builds for filenames.
    type FilenameSanitizer: Sanitizer;

    /// The pipeline type this target builds for folder names.
    type FolderSanitizer: Sanitizer;

    /// The sanitized filename this target's rules produce from `input`.
    spec fn spec_filename_output(&self, input: Seq<char>) -> Seq<char>;

    /// The sanitized folder name this target's rules produce from `input`.
    spec fn spec_folder_output(&self, input: Seq<char>) -> Seq<char>;

    /// Does this target define folder sanitization at all?
    spec fn folder_supported(&self) -> bool;

    /// Builds the filename pipeline.
    fn filename_sanitizer(&self) -> (s: Self::FilenameSanitizer)
        ensures
            forall|input: Seq<char>| #[trigger]
                s.spec_output(input) == self.spec_filename_output(input),
    ;

    /// Builds the folder pipeline. Calling this on a target that does not
    /// support folder sanitization is a caller error.
    fn folder_sanitizer(&self) -> (s: Self::FolderSanitizer)
        requires
            self.folder_supported(),
        ensures
            forall|input: Seq<char>| #[trigger]
                s.spec_output(input) == self.spec_folder_output(input),
    ;
}

} // verus!
