use filename_sanitizer::sanitize;
use filename_sanitizer::sanitizers::Control;
use filename_sanitizer::sanitizers::Deduplicator;
use filename_sanitizer::sanitizers::Padder;
use filename_sanitizer::sanitizers::PadderIter;
use filename_sanitizer::sanitizers::PrefixStripper;
use filename_sanitizer::sanitizers::Replacer;
use filename_sanitizer::sanitizers::Then;
use filename_sanitizer::sanitizers::Whitespace;
use filename_sanitizer::BoolClosureAdapter;
use filename_sanitizer::CharStream;
use filename_sanitizer::IsChar;
use filename_sanitizer::IsWhitespace;

fn name_list(names: &[&str]) -> Vec<Vec<char>> {
    names.iter().map(|n| n.chars().collect()).collect()
}

#[test]
fn deduplicator_test_sanitize() {
    let string = "1aa\u{00A0}\u{2008}\u{00A0}\t 47 \n\r";
    let sanitizer = Deduplicator::new(IsWhitespace {});
    assert_eq!(sanitize(string, sanitizer), "1aa\u{00A0}47 ");
}

#[test]
fn test_chaining() {
    let control = Control::new('ü');
    let whitespace = Whitespace::new(' ');

    let input = "ha\nl\r\t\0lo";
    let chained = Then::new(whitespace, control);
    assert_eq!(sanitize(input, chained), "ha l  ülo");
}

#[test]
fn padder_test_simple() {
    let names = name_list(&["foo", "barin", "bazing"]);
    let input: Vec<char> = "foo".chars().collect();
    let mut iter = PadderIter::new(input, names, None, '\u{FFFD}');

    assert_eq!(iter.next(), Some('f'));
    assert_eq!(iter.next(), Some('o'));
    assert_eq!(iter.next(), Some('o'));
    assert_eq!(iter.next(), Some('\u{FFFD}'));
    assert_eq!(iter.next(), None);
}

#[test]
fn test_with_multiple_match() {
    let names = name_list(&["foob", "foo", "fo"]);
    let input: Vec<char> = "foob".chars().collect();
    let mut iter = PadderIter::new(input, names, None, '\u{FFFD}');

    assert_eq!(iter.next(), Some('f'));
    assert_eq!(iter.next(), Some('o'));
    assert_eq!(iter.next(), Some('o'));
    assert_eq!(iter.next(), Some('b'));
    assert_eq!(iter.next(), Some('\u{FFFD}'));
    assert_eq!(iter.next(), None);
}

#[test]
fn test_with_insert_before() {
    let names = name_list(&["foo", "barin", "bazing"]);
    let input: Vec<char> = "foo.txt.txt".chars().collect();
    let mut iter = PadderIter::new(input, names, Some('.'), '\u{FFFD}');

    assert_eq!(iter.next(), Some('f'));
    assert_eq!(iter.next(), Some('o'));
    assert_eq!(iter.next(), Some('o'));
    assert_eq!(iter.next(), Some('\u{FFFD}'));
    assert_eq!(iter.next(), Some('.'));
    assert_eq!(iter.next(), Some('t'));
    assert_eq!(iter.next(), Some('x'));
    assert_eq!(iter.next(), Some('t'));
    assert_eq!(iter.next(), Some('.'));
    assert_eq!(iter.next(), Some('t'));
    assert_eq!(iter.next(), Some('x'));
    assert_eq!(iter.next(), Some('t'));
    assert_eq!(iter.next(), None);
}

#[test]
fn test_strip_prefix() {
    let string = "  \n \r\t   Hel l\to  ";
    let sanitizer = PrefixStripper::new(IsWhitespace {});
    assert_eq!(sanitize(string, sanitizer), "Hel l\to  ");
}

#[test]
fn then_test_sanitize() {
    let string = "1aa4aa7aa";
    let sanitizer = Then::new(
        Replacer::new(vec![('a', 'b')]),
        Replacer::new(vec![('b', 'd')]),
    );
    assert_eq!(sanitize(string, sanitizer), "1dd4dd7dd");
}

#[test]
fn whitespace_test_simple() {
    let sanitizer = Whitespace::new('\u{FFFD}');
    assert_eq!(
        sanitize("a\t\n1 \r\t\nr0", sanitizer),
        "a\u{FFFD}\u{FFFD}1\u{FFFD}\u{FFFD}\u{FFFD}\u{FFFD}r0"
    );
}

#[test]
fn whitespace_single_tab() {
    assert_eq!(sanitize("a\tb", Whitespace::new('_')), "a_b");
}

#[test]
fn strip_prefix_keeps_trailing_whitespace() {
    let sanitizer = PrefixStripper::new(IsWhitespace {});
    assert_eq!(sanitize("  \tHello  ", sanitizer), "Hello  ");
}

#[test]
fn strip_prefix_all_whitespace_gives_empty() {
    let sanitizer = PrefixStripper::new(IsWhitespace {});
    assert_eq!(sanitize(" \t\n", sanitizer), "");
}

#[test]
fn padder_no_match_passes_through() {
    let names = name_list(&["foo"]);
    let padder = Padder::new(names, None, '_');
    assert_eq!(sanitize("bar", padder), "bar");
}

#[test]
fn padder_partial_prefix_is_no_match() {
    let names = name_list(&["foo"]);
    let padder = Padder::new(names, None, '_');
    assert_eq!(sanitize("fo", padder), "fo");
}

#[test]
fn padder_longer_input_is_no_match() {
    let names = name_list(&["foo"]);
    let padder = Padder::new(names, None, '_');
    assert_eq!(sanitize("foox", padder), "foox");
}

#[test]
fn padder_dead_candidate_never_revives() {
    // "xfoo" never matches "foo": matching is from the stream's start only.
    let names = name_list(&["foo"]);
    let padder = Padder::new(names, None, '_');
    assert_eq!(sanitize("xfoo", padder), "xfoo");
}

#[test]
fn padder_boundary_still_pads_at_end() {
    let names = name_list(&["foo"]);
    let padder = Padder::new(names, Some('.'), '_');
    assert_eq!(sanitize("foo", padder), "foo_");
}

#[test]
fn padder_boundary_pads_before_extension() {
    let names = name_list(&["foo"]);
    let padder = Padder::new(names, Some('.'), '_');
    assert_eq!(sanitize("foo.txt", padder), "foo_.txt");
}

#[test]
fn padder_without_boundary_skips_extension() {
    // With no boundary configured, "foo.txt" does not equal "foo" at the
    // stream's end, so no pad is inserted.
    let names = name_list(&["foo"]);
    let padder = Padder::new(names, None, '_');
    assert_eq!(sanitize("foo.txt", padder), "foo.txt");
}

#[test]
fn padder_empty_input_stays_empty() {
    let names = name_list(&["foo"]);
    let padder = Padder::new(names, None, '_');
    assert_eq!(sanitize("", padder), "");
}

#[test]
fn control_replaces_control_characters() {
    assert_eq!(sanitize("a\0b\x07c", Control::new('_')), "a_b_c");
}

#[test]
fn replacer_leaves_unknown_characters() {
    let replacer = Replacer::new(vec![('/', '_'), ('\0', '_')]);
    assert_eq!(sanitize("a/b\0c", replacer), "a_b_c");
}

#[test]
fn replacer_single_pair_lookup() {
    let replacer = Replacer::new(('a', 'b'));
    assert_eq!(sanitize("banana", replacer), "bbnbnb");
}

#[test]
fn unit_sanitizer_is_identity() {
    assert_eq!(sanitize("hello world", ()), "hello world");
}

#[test]
fn bool_closure_adapter_filters() {
    let adapter = BoolClosureAdapter::new(IsChar { target: 'a' });
    assert_eq!(sanitize("abcab", adapter), "aa");
}

#[test]
fn deduplicator_example_runs() {
    let sanitizer = Deduplicator::new(IsWhitespace {});
    assert_eq!(sanitize("a b  c", sanitizer), "a b c");
}
