//! The primitive transformers and the sequencing combinator.

pub mod control;
pub mod deduplicator;
pub mod padder;
pub mod prefix_stripper;
pub mod replacer;
pub mod then;
pub mod whitespace;

pub use control::Control;
pub use deduplicator::Deduplicator;
pub use deduplicator::DeduplicatorIter;
pub use padder::Padder;
pub use padder::PadderIter;
pub use prefix_stripper::PrefixStripper;
pub use prefix_stripper::PrefixStripperIter;
pub use replacer::Replacer;
pub use replacer::ReplacerIter;
pub use then::Then;
pub use whitespace::Whitespace;
