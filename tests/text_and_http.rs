use client_core::content_type::get_extension_from_content_type;
use client_core::greeting::{greet, greet_name};
use client_core::http::{is_success_status, parse_u64};
use client_core::text::{decimal_text, has_char, same_text, split_text};

#[test]
fn extension_for_known_types() {
    assert_eq!(get_extension_from_content_type("application/pdf"), ".pdf");
    assert_eq!(get_extension_from_content_type("image/jpeg"), ".jpg");
    assert_eq!(get_extension_from_content_type("image/jpg"), ".jpg");
    assert_eq!(get_extension_from_content_type("image/png"), ".png");
    assert_eq!(get_extension_from_content_type("application/x-7z-compressed"), ".7z");
    assert_eq!(
        get_extension_from_content_type(
            "application/vnd.openxmlformats-officedocument.presentationml.presentation"
        ),
        ".pptx"
    );
    assert_eq!(get_extension_from_content_type("application/epub+zip"), ".epub");
}

#[test]
fn extension_for_unknown_types_is_bin() {
    assert_eq!(get_extension_from_content_type(""), ".bin");
    assert_eq!(get_extension_from_content_type("image/PNG"), ".bin");
    assert_eq!(get_extension_from_content_type("text/plain; charset=utf-8"), ".bin");
}

#[test]
fn split_matches_std_split() {
    for (s, sep) in [
        ("Control + Shift + KeyA", " + "),
        ("", " + "),
        (" + + ", " + "),
        ("a/b/c", "/"),
        ("https://host/", "/"),
        ("no separator", "/"),
        ("aaa", "aa"),
    ] {
        let expected: Vec<String> = s.split(sep).map(|p| p.to_string()).collect();
        assert_eq!(split_text(s, sep), expected);
    }
}

#[test]
fn text_helpers() {
    assert!(same_text("abc", "abc"));
    assert!(!same_text("abc", "abd"));
    assert!(has_char("file.zip", '.'));
    assert!(!has_char("file", '.'));
    assert_eq!(decimal_text(0), "0");
    assert_eq!(decimal_text(1234), "1234");
    assert_eq!(decimal_text(u64::MAX), u64::MAX.to_string());
}

#[test]
fn parse_u64_matches_std() {
    for s in [
        "0", "123", "+5", "+", "", "-1", "12a", " 1", "007",
        "18446744073709551615", "18446744073709551616", "99999999999999999999999",
    ] {
        assert_eq!(parse_u64(s), s.parse::<u64>().ok(), "input {:?}", s);
    }
}

#[test]
fn success_statuses() {
    assert!(is_success_status(200));
    assert!(is_success_status(299));
    assert!(!is_success_status(199));
    assert!(!is_success_status(300));
    assert!(!is_success_status(404));
}

#[test]
fn greeting_text() {
    assert_eq!(greet_name("Ann"), "Hello, Ann! You've been greeted from Rust!");
    assert_eq!(greet(""), "Hello, ! You've been greeted from Rust!");
}

#[test]
fn split_non_ascii_text() {
    let s = "快捷键 + 键";
    let expected: Vec<String> = s.split(" + ").map(|p| p.to_string()).collect();
    assert_eq!(split_text(s, " + "), expected);
    assert!(same_text("文件", "文件"));
    assert!(has_char("文件.txt", '.'));
}
