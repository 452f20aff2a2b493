use filename_sanitizer::platforms::Linux;
use filename_sanitizer::platforms::OneDrive;
use filename_sanitizer::platforms::Windows;
use filename_sanitizer::sanitize_filename;
use filename_sanitizer::sanitize_folder;

#[test]
fn test_filename_reserved() {
    let platform = Windows::new('\u{FFFD}', '_');
    assert_eq!(sanitize_filename("NUL", platform), "NUL_");
}

#[test]
fn windows_filename_with_extension_not_padded() {
    // With no boundary character configured, only the whole name matches.
    let platform = Windows::new('\u{FFFD}', '_');
    assert_eq!(sanitize_filename("NUL.txt", platform), "NUL.txt");
}

#[test]
fn windows_reserved_characters_replaced() {
    let platform = Windows::new('\u{FFFD}', '_');
    assert_eq!(
        sanitize_filename("a<b>c:d\"e", platform),
        "a\u{FFFD}b\u{FFFD}c\u{FFFD}d\u{FFFD}e"
    );
}

#[test]
fn windows_control_and_leading_whitespace() {
    let platform = Windows::new('\u{FFFD}', '_');
    assert_eq!(sanitize_filename("  a\0b", platform), "a\u{FFFD}b");
}

#[test]
fn windows_replacement_can_create_reserved_name() {
    // Replacement happens before padding, so a name that becomes reserved
    // only through replacement is still padded.
    let platform = Windows::new('L', '_');
    assert_eq!(sanitize_filename("NU\\", platform), "NUL_");
}

#[test]
fn linux_replaces_slash() {
    let platform = Linux::new('\u{FFFD}');
    assert_eq!(sanitize_filename("/", platform), "\u{FFFD}");
}

#[test]
fn linux_replaces_nul_and_keeps_the_rest() {
    let platform = Linux::new('_');
    assert_eq!(sanitize_filename("a/b\0c d", platform), "a_b_c d");
}

#[test]
fn linux_folder_same_rule() {
    let platform = Linux::new('_');
    assert_eq!(sanitize_folder("a/b", platform), "a_b");
}

#[test]
fn onedrive_filename_replaces_and_strips() {
    // '~' is forbidden in filenames, so it is replaced, not stripped.
    let platform = OneDrive::new('_', '\u{FFFD}');
    assert_eq!(sanitize_filename("~a#b%c", platform), "_a_b_c");
}

#[test]
fn onedrive_folder_strips_leading_tilde() {
    // '~' is allowed in folder names but stripped at the front.
    let platform = OneDrive::new('_', '\u{FFFD}');
    assert_eq!(sanitize_folder("~abc", platform), "abc");
}

#[test]
fn onedrive_folder_strips_tilde_then_whitespace() {
    let platform = OneDrive::new('_', '\u{FFFD}');
    assert_eq!(sanitize_folder("~  abc", platform), "abc");
}

#[test]
fn onedrive_reserved_names_padded() {
    let platform = OneDrive::new('_', '\u{FFFD}');
    assert_eq!(sanitize_filename("NUL", platform), "NUL\u{FFFD}");
    let platform = OneDrive::new('_', '\u{FFFD}');
    assert_eq!(sanitize_filename(".lock", platform), ".lock\u{FFFD}");
    let platform = OneDrive::new('_', '\u{FFFD}');
    assert_eq!(sanitize_filename("desktop.ini", platform), "desktop.ini\u{FFFD}");
    let platform = OneDrive::new('_', '\u{FFFD}');
    assert_eq!(sanitize_filename("_vti_", platform), "_vti_\u{FFFD}");
}

#[test]
fn onedrive_reserved_name_with_extension_padded() {
    // The boundary character is the extension separator: the pad lands
    // after the reserved name and before the extension.
    let platform = OneDrive::new('_', '\u{FFFD}');
    assert_eq!(sanitize_filename("NUL.txt", platform), "NUL\u{FFFD}.txt");
    let platform = OneDrive::new('_', '\u{FFFD}');
    assert_eq!(sanitize_filename(".lock.txt", platform), ".lock\u{FFFD}.txt");
    let platform = OneDrive::new('_', '\u{FFFD}');
    assert_eq!(sanitize_folder("AUX.d", platform), "AUX\u{FFFD}.d");
}

#[test]
fn onedrive_default_pads_before_extension() {
    assert_eq!(sanitize_filename("NUL.txt", OneDrive::default()), "NUL_.txt");
}

#[test]
fn onedrive_pads_at_most_once() {
    // "desktop.ini" holds the boundary character itself, but "desktop" is
    // not reserved, so only the whole-name match fires.
    let platform = OneDrive::new('_', '\u{FFFD}');
    assert_eq!(
        sanitize_filename("desktop.ini.bak", platform),
        "desktop.ini\u{FFFD}.bak"
    );
}

#[test]
fn platform_defaults_use_replacement_and_underscore() {
    assert_eq!(sanitize_filename("NUL", Windows::default()), "NUL_");
    assert_eq!(sanitize_filename("/", Linux::default()), "\u{FFFD}");
}

#[test]
fn linux_target_is_comparable_and_copiable() {
    let a = Linux::new('_');
    let b = a;
    assert_eq!(a, b.clone());
    assert_eq!(format!("{:?}", a), format!("{:?}", b));
}

#[test]
fn onedrive_fragment_inside_name_not_padded() {
    // The service's rule that this fragment must not appear anywhere in a
    // name is a known gap: only the whole-name match is enforced.
    let platform = OneDrive::new('_', '\u{FFFD}');
    assert_eq!(sanitize_filename("a_vti_b", platform), "a_vti_b");
}

#[test]
fn empty_name_stays_empty() {
    let platform = Windows::new('\u{FFFD}', '_');
    assert_eq!(sanitize_filename("", platform), "");
}
