use filename_sanitizer::sanitize;
use filename_sanitizer::sanitizers::Control;
use filename_sanitizer::sanitizers::Deduplicator;
use filename_sanitizer::sanitizers::Padder;
use filename_sanitizer::sanitizers::PrefixStripper;
use filename_sanitizer::sanitizers::Replacer;
use filename_sanitizer::sanitizers::Then;
use filename_sanitizer::sanitizers::Whitespace;
use filename_sanitizer::IsWhitespace;

fn name_list(names: &[&str]) -> Vec<Vec<char>> {
    names.iter().map(|n| n.chars().collect()).collect()
}

#[test]
fn length_preserved_by_pointwise_transformers() {
    let input = "a\tb\0c/d  e";
    let replaced = sanitize(input, Replacer::new(vec![('/', '_')]));
    assert_eq!(replaced.chars().count(), input.chars().count());
    let controlled = sanitize(input, Control::new('_'));
    assert_eq!(controlled.chars().count(), input.chars().count());
    let whitespaced = sanitize(input, Whitespace::new('_'));
    assert_eq!(whitespaced.chars().count(), input.chars().count());
}

#[test]
fn length_never_grows_when_dropping() {
    let input = "  a  b  ";
    let deduplicated = sanitize(input, Deduplicator::new(IsWhitespace {}));
    assert!(deduplicated.chars().count() <= input.chars().count());
    let stripped = sanitize(input, PrefixStripper::new(IsWhitespace {}));
    assert!(stripped.chars().count() <= input.chars().count());
}

#[test]
fn padder_length_grows_by_at_most_one() {
    let names = name_list(&["foo", "bar"]);
    let padded = sanitize("foo", Padder::new(names.clone(), None, '_'));
    assert_eq!(padded.chars().count(), 4);
    let unpadded = sanitize("fox", Padder::new(names, None, '_'));
    assert_eq!(unpadded.chars().count(), 3);
}

#[test]
fn replacer_twice_is_replacer_once() {
    // The replacement characters are not themselves keys.
    let input = "banana band";
    let once = sanitize(input, Replacer::new(vec![('a', 'x'), ('b', 'y')]));
    let twice = sanitize(&once, Replacer::new(vec![('a', 'x'), ('b', 'y')]));
    assert_eq!(twice, once);
    assert_eq!(once, "yxnxnx yxnd");
}

#[test]
fn deduplicated_output_has_no_consecutive_collapsible_pair() {
    let input = " \t a \u{00A0}\u{2008} b \n\r ";
    let out = sanitize(input, Deduplicator::new(IsWhitespace {}));
    let chars: Vec<char> = out.chars().collect();
    for pair in chars.windows(2) {
        assert!(!(pair[0].is_whitespace() && pair[1].is_whitespace()));
    }
}

#[test]
fn stripped_output_starts_outside_the_class() {
    let out = sanitize("\t hi", PrefixStripper::new(IsWhitespace {}));
    assert!(!out.chars().next().unwrap().is_whitespace());
}

#[test]
fn composition_equals_sanitizing_in_sequence() {
    let input = "a b\tc\0d";
    let composed = sanitize(
        input,
        Then::new(Whitespace::new('_'), Control::new('!')),
    );
    let first = sanitize(input, Whitespace::new('_'));
    let sequenced = sanitize(&first, Control::new('!'));
    assert_eq!(composed, sequenced);
}

#[test]
fn padder_pads_exactly_when_whole_stream_is_reserved() {
    let names = name_list(&["NUL"]);
    assert_eq!(sanitize("NUL", Padder::new(names.clone(), None, '_')), "NUL_");
    assert_eq!(sanitize("NULL", Padder::new(names.clone(), None, '_')), "NULL");
    assert_eq!(sanitize("NU", Padder::new(names, None, '_')), "NU");
}
