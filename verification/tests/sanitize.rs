use datadog_mcp::sanitize::{
    sanitize_message, sanitize_name, sanitize_optional, sanitize_query, sanitize_string,
    sanitize_tags, MAX_MESSAGE_LENGTH, MAX_NAME_LENGTH, MAX_QUERY_LENGTH,
};
use datadog_mcp::text::{is_control, is_whitespace};

#[test]
fn test_sanitize_name_basic() {
    assert_eq!(sanitize_name("Test Monitor"), "Test Monitor");
}

#[test]
fn test_sanitize_name_trims_whitespace() {
    assert_eq!(sanitize_name("  Test Monitor  "), "Test Monitor");
}

#[test]
fn test_sanitize_name_removes_control_chars() {
    assert_eq!(sanitize_name("Test\x00Monitor\x1F"), "TestMonitor");
}

#[test]
fn test_sanitize_name_preserves_newlines_tabs() {
    assert_eq!(sanitize_name("Line1\nLine2\tTabbed"), "Line1\nLine2\tTabbed");
}

#[test]
fn test_sanitize_name_truncates_long_input() {
    let long_name = "a".repeat(500);
    let result = sanitize_name(&long_name);
    assert_eq!(result.len(), MAX_NAME_LENGTH);
}

#[test]
fn test_sanitize_message_respects_length() {
    let long_message = "x".repeat(5000);
    let result = sanitize_message(&long_message);
    assert_eq!(result.len(), MAX_MESSAGE_LENGTH);
}

#[test]
fn test_sanitize_query_respects_length() {
    let long_query = "q".repeat(10000);
    let result = sanitize_query(&long_query);
    assert_eq!(result.len(), MAX_QUERY_LENGTH);
}

#[test]
fn test_sanitize_optional_none() {
    assert_eq!(sanitize_optional(None, 100), None);
}

#[test]
fn test_sanitize_optional_some() {
    assert_eq!(
        sanitize_optional(Some("test".into()), 100),
        Some("test".into())
    );
}

#[test]
fn test_sanitize_optional_empty_becomes_none() {
    assert_eq!(sanitize_optional(Some("   ".into()), 100), None);
}

#[test]
fn test_sanitize_tags() {
    let tags = vec![
        "env:prod".into(),
        "  service:api  ".into(),
        "".into(),
        "valid".into(),
    ];
    let result = sanitize_tags(tags);
    assert_eq!(result, vec!["env:prod", "service:api", "valid"]);
}

#[test]
fn test_sanitize_tags_limits_count() {
    let tags: Vec<String> = (0..150).map(|i| format!("tag:{}", i)).collect();
    let result = sanitize_tags(tags);
    assert_eq!(result.len(), 100);
}

#[test]
fn test_sanitize_unicode() {
    assert_eq!(sanitize_name("日本語モニター"), "日本語モニター");
    assert_eq!(sanitize_name("Émoji 🎉 test"), "Émoji 🎉 test");
}

#[test]
fn test_sanitize_empty_string() {
    assert_eq!(sanitize_name(""), "");
    assert_eq!(sanitize_message("   "), "");
}

#[test]
fn sanitize_truncates_by_characters_not_bytes() {
    let long = "é".repeat(300);
    let result = sanitize_name(&long);
    assert_eq!(result.chars().count(), MAX_NAME_LENGTH);
    assert_eq!(result.len(), 2 * MAX_NAME_LENGTH);
}

#[test]
fn sanitize_trims_before_removing_control_characters() {
    // The leading space survives: trimming stops at the control character,
    // which is removed only afterwards.
    assert_eq!(sanitize_string("\u{0}  x \u{7f}", 10), "  x ");
}

#[test]
fn sanitize_trims_unicode_white_space() {
    assert_eq!(sanitize_string("\u{3000}\u{a0}name\u{2028}", 10), "name");
}

#[test]
fn sanitize_removes_c1_controls_but_keeps_tabs() {
    assert_eq!(sanitize_string("a\u{85}b\u{9f}c\td", 10), "abc\td");
}

#[test]
fn sanitize_zero_limit_gives_empty() {
    assert_eq!(sanitize_string("abc", 0), "");
}

#[test]
fn sanitize_tags_truncates_each_tag() {
    let result = sanitize_tags(vec!["t".repeat(250)]);
    assert_eq!(result[0].chars().count(), 200);
}

#[test]
fn sanitize_tags_counts_only_non_empty_tags() {
    let mut tags: Vec<String> = vec!["   ".to_string(); 20];
    tags.extend((0..100).map(|i| format!("k{}", i)));
    let result = sanitize_tags(tags);
    assert_eq!(result.len(), 100);
    assert_eq!(result[0], "k0");
    assert_eq!(result[99], "k99");
}

#[test]
fn sanitized_output_never_exceeds_limit_and_has_no_controls() {
    let inputs = ["", " a ", "\u{1}\u{2}x", &"z".repeat(9000)];
    for input in inputs {
        let out = sanitize_query(input);
        assert!(out.chars().count() <= MAX_QUERY_LENGTH);
        assert!(out.chars().all(|c| !c.is_control() || c == '\n' || c == '\t'));
    }
}

#[test]
fn character_classes_agree_with_std() {
    for code in 0u32..=0x10FFFF {
        if let Some(c) = char::from_u32(code) {
            assert_eq!(is_whitespace(c), c.is_whitespace(), "{:#x}", code);
            assert_eq!(is_control(c), c.is_control(), "{:#x}", code);
        }
    }
}

#[test]
fn sanitizing_trims_like_std() {
    let samples = [
        "\u{2003}name\u{3000}",
        "\u{85}x\u{a0}",
        "\t\n text \r\n",
        "\u{200b}zero width stays\u{200b}",
        "",
        "   ",
    ];
    for s in samples {
        let expected: String = s
            .trim()
            .chars()
            .filter(|c| !c.is_control() || *c == '\n' || *c == '\t')
            .take(MAX_NAME_LENGTH)
            .collect();
        assert_eq!(sanitize_name(s), expected, "{:?}", s);
    }
}
