use gstreamer_mcp::error::{prefixed, GStreamerMcpError};
use gstreamer_mcp::pipeline::PipelineState;
use gstreamer_mcp::text::{
    chars_of, comes_before, find_non_whitespace, find_occurrence, find_whitespace,
    is_whitespace, join, parse_truth, parse_unsigned, same_text, signed_decimal, sorted_order,
    split_words, text_contains, unsigned_decimal,
};

#[test]
fn white_space_is_what_the_standard_library_says() {
    for code in 0u32..0x11000 {
        if let Some(c) = char::from_u32(code) {
            assert_eq!(is_whitespace(c), c.is_whitespace(), "U+{:04X}", code);
        }
    }
}

#[test]
fn decimal_renderings() {
    assert_eq!(unsigned_decimal(0), "0");
    assert_eq!(unsigned_decimal(7), "7");
    assert_eq!(unsigned_decimal(10), "10");
    assert_eq!(unsigned_decimal(1_234_567_890), "1234567890");
    assert_eq!(unsigned_decimal(u64::MAX), "18446744073709551615");
    assert_eq!(signed_decimal(0), "0");
    assert_eq!(signed_decimal(-1), "-1");
    assert_eq!(signed_decimal(105), "105");
    assert_eq!(signed_decimal(i64::MAX), "9223372036854775807");
    assert_eq!(signed_decimal(i64::MIN), "-9223372036854775808");
}

#[test]
fn characters_and_comparison() {
    assert_eq!(chars_of("a\u{e9}!"), vec!['a', '\u{e9}', '!']);
    assert!(chars_of("").is_empty());
    assert!(same_text("abc", "abc"));
    assert!(!same_text("abc", "abd"));
    assert!(!same_text("abc", "ab"));
    assert!(same_text("", ""));
}

#[test]
fn scanning() {
    let chars = chars_of("ab  c=d");
    assert_eq!(find_whitespace(&chars, 0), 2);
    assert_eq!(find_whitespace(&chars, 2), 2);
    assert_eq!(find_whitespace(&chars, 4), 7);
    assert_eq!(find_non_whitespace(&chars, 2), 4);
    assert_eq!(find_non_whitespace(&chars, 0), 0);
    assert_eq!(find_non_whitespace(&chars, 7), 7);
    assert_eq!(find_occurrence(&chars, 0, '='), 5);
    assert_eq!(find_occurrence(&chars, 6, '='), 7);
    assert_eq!(find_occurrence(&chars, 0, 'z'), 7);
}

#[test]
fn words_and_joining() {
    assert_eq!(split_words("  launch  videotestsrc !\tfakesink \n"), vec![
        "launch",
        "videotestsrc",
        "!",
        "fakesink"
    ]);
    assert_eq!(split_words(""), Vec::<String>::new());
    assert_eq!(split_words(" \t "), Vec::<String>::new());
    assert_eq!(split_words("one"), vec!["one"]);
    let words = split_words("launch a ! b");
    assert_eq!(join(&words, 1, " "), "a ! b");
    assert_eq!(join(&words, 0, " "), "launch a ! b");
    assert_eq!(join(&words, 3, " "), "b");
    assert_eq!(join(&words, 4, " "), "");
}

#[test]
fn every_error_has_its_text_and_code() {
    let cases: Vec<(GStreamerMcpError, &str, i32)> = vec![
        (
            GStreamerMcpError::GStreamerInit("no plugins".to_string()),
            "GStreamer initialization failed: no plugins",
            -32004,
        ),
        (
            GStreamerMcpError::ElementNotFound("foo".to_string()),
            "Element not found: foo",
            -32001,
        ),
        (GStreamerMcpError::PluginNotFound("bar".to_string()), "Plugin not found: bar", -32002),
        (
            GStreamerMcpError::InvalidElementName("a b".to_string()),
            "Invalid element name: a b",
            -32003,
        ),
        (
            GStreamerMcpError::RegistryError("locked".to_string()),
            "Registry access failed: locked",
            -32005,
        ),
        (
            GStreamerMcpError::PropertyError("odd".to_string()),
            "Property inspection failed: odd",
            -32006,
        ),
        (GStreamerMcpError::Io("gone".to_string()), "IO error: gone", -32000),
        (
            GStreamerMcpError::Serialization("eof".to_string()),
            "Serialization error: eof",
            -32000,
        ),
        (GStreamerMcpError::Other("what".to_string()), "Other error: what", -32000),
        (
            GStreamerMcpError::CapacityExceeded(10),
            "Maximum pipeline limit (10) reached",
            -32000,
        ),
        (GStreamerMcpError::NotFound("p1".to_string()), "Pipeline 'p1' not found", -32000),
        (
            GStreamerMcpError::ParseError("Failed to parse pipeline: no element".to_string()),
            "Failed to parse pipeline: no element",
            -32000,
        ),
        (GStreamerMcpError::GraphTypeError, "Failed to cast to Pipeline", -32000),
        (
            GStreamerMcpError::StateChangeError(PipelineState::Playing),
            "Failed to change pipeline state to Playing",
            -32000,
        ),
    ];
    for (error, text, code) in cases {
        assert_eq!(error.message(), text);
        assert_eq!(error.code(), code);
    }
    assert_eq!(prefixed("a", "b"), "ab");
}

#[test]
fn numbers_are_read_as_the_standard_library_reads_them() {
    let cases = [
        "0", "7", "007", "+5", "+", "", "-0", "-1", " 1", "1 ", "1_000", "12a", "a",
        "18446744073709551615", "18446744073709551616", "99999999999999999999999", "+0",
        "++1", "1+", "\u{663}", "0x10",
    ];
    for case in cases {
        assert_eq!(parse_unsigned(case), case.parse::<u64>().ok(), "{:?}", case);
    }
    assert_eq!(parse_unsigned("300"), Some(300));
}

#[test]
fn truth_values_are_read_as_the_standard_library_reads_them() {
    for case in ["true", "false", "True", "1", "", " true", "falsey"] {
        assert_eq!(parse_truth(case), case.parse::<bool>().ok(), "{:?}", case);
    }
}

#[test]
fn containment_and_order_are_those_of_the_standard_library() {
    let words = ["", "a", "ab", "abc", "b", "ba", "B", "\u{e9}", "z\u{10000}", "zz", "aab"];
    for a in words {
        for b in words {
            assert_eq!(text_contains(&chars_of(a), &chars_of(b)), a.contains(b), "{:?} {:?}", a, b);
            assert_eq!(comes_before(&chars_of(a), &chars_of(b)), a < b, "{:?} {:?}", a, b);
        }
    }
    assert!(text_contains(&chars_of("videotestsrc"), &chars_of("test")));
    assert!(!text_contains(&chars_of("videotestsrc"), &chars_of("testy")));
    let names: Vec<String> =
        ["pear", "apple", "fig", "apple", "Zebra", ""].iter().map(|s| s.to_string()).collect();
    assert_eq!(sorted_order(&names), vec![5, 4, 1, 3, 2, 0]);
    assert_eq!(sorted_order(&Vec::new()), Vec::<usize>::new());
}
