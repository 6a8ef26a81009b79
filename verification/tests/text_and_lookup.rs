use last_beacon::text::{concatenated, str_eq, to_ascii_lowercase, trim};
use last_beacon::vehicle::lookup::format_name_list;

#[test]
fn trimming_removes_unicode_white_space_at_both_ends() {
    assert_eq!(trim("  a b \t\n"), "a b");
    assert_eq!(trim("\u{3000}x\u{a0}"), "x");
    assert_eq!(trim("   "), "");
}

#[test]
fn ascii_lower_casing_leaves_other_characters_alone() {
    assert_eq!(to_ascii_lowercase("PriMARY-Ä1"), "primary-Ä1");
}

#[test]
fn strings_compare_and_join_by_characters() {
    assert!(str_eq("héllo", "héllo"));
    assert!(!str_eq("hello", "hell"));
    assert_eq!(concatenated("ab", "cd"), "abcd");
}

#[test]
fn name_lists_read_none_when_empty() {
    assert_eq!(format_name_list(&Vec::new()), "none");
    assert_eq!(format_name_list(&vec!["a".to_string()]), "a");
    assert_eq!(
        format_name_list(&vec!["a".to_string(), "b".to_string(), "c".to_string()]),
        "a, b, c"
    );
}
