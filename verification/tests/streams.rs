use filename_sanitizer::sanitize;
use filename_sanitizer::sanitizers::DeduplicatorIter;
use filename_sanitizer::sanitizers::PrefixStripperIter;
use filename_sanitizer::sanitizers::Replacer;
use filename_sanitizer::sanitizers::ReplacerIter;
use filename_sanitizer::CharStream;
use filename_sanitizer::IsWhitespace;
use filename_sanitizer::SanitizerExt;

#[test]
fn replacer_stream_pulls_in_order() {
    let input: Vec<char> = "a/b".chars().collect();
    let mut iter = ReplacerIter::new(vec![('/', '_')], input);
    assert_eq!(iter.next(), Some('a'));
    assert_eq!(iter.next(), Some('_'));
    assert_eq!(iter.next(), Some('b'));
    assert_eq!(iter.next(), None);
}

#[test]
fn deduplicator_stream_skips_run_tails() {
    let input: Vec<char> = "a  b".chars().collect();
    let mut iter = DeduplicatorIter::new(IsWhitespace {}, input);
    assert_eq!(iter.next(), Some('a'));
    assert_eq!(iter.next(), Some(' '));
    assert_eq!(iter.next(), Some('b'));
    assert_eq!(iter.next(), None);
}

#[test]
fn prefix_stripper_stream_drops_leading_class() {
    let input: Vec<char> = " a b".chars().collect();
    let mut iter = PrefixStripperIter::new(input, IsWhitespace {});
    assert_eq!(iter.next(), Some('a'));
    assert_eq!(iter.next(), Some(' '));
    assert_eq!(iter.next(), Some('b'));
    assert_eq!(iter.next(), None);
}

#[test]
fn builder_methods_assemble_a_pipeline() {
    let pipeline = Replacer::new(vec![('/', '_')])
        .deduplicate(IsWhitespace {})
        .strip_prefix(IsWhitespace {})
        .replace_whitespace('.')
        .replace_control('x')
        .padding(vec!["a_b.xc".chars().collect()], '!');
    assert_eq!(sanitize("  a/b \0c", pipeline), "a_b.xc!");
}

#[test]
fn builder_then_matches_direct_composition() {
    let chained = Replacer::new(('a', 'b')).then(Replacer::new(('b', 'c')));
    assert_eq!(sanitize("aba", chained), "ccc");
}
