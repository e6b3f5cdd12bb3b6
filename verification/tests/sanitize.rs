use user_service::sanitize::{
    clean_checked, clean_html, clean_optional, fits_cleaner, CLEAN_MAX_LEN,
};

#[test]
fn tags_are_removed_and_their_text_kept() {
    assert_eq!(clean_html("<b>bold</b> text"), "bold text");
    assert_eq!(clean_html("<p>one</p><p>two</p>"), "onetwo");
    assert_eq!(clean_html("<a href=\"http://example.com\">link</a>"), "link");
}

#[test]
fn script_and_style_go_with_their_content() {
    assert_eq!(clean_html("<script>alert(1)</script>hi"), "hi");
    assert_eq!(clean_html("a<style>b { color: red }</style>c"), "ac");
}

#[test]
fn comments_are_removed() {
    assert_eq!(clean_html("<!-- note -->visible"), "visible");
}

#[test]
fn text_without_markup_is_unchanged() {
    assert_eq!(clean_html("plain text"), "plain text");
    assert_eq!(clean_html(""), "");
    assert_eq!(clean_html("alice_01"), "alice_01");
    assert_eq!(clean_html("caf\u{e9} \u{4f60}\u{597d}"), "caf\u{e9} \u{4f60}\u{597d}");
}

#[test]
fn loose_delimiters_become_entities() {
    assert_eq!(clean_html("a > b"), "a &gt; b");
    assert_eq!(clean_html("1 < 2"), "1 &lt; 2");
    assert_eq!(clean_html("a & b"), "a &amp; b");
    assert_eq!(clean_html("&lt;b&gt;"), "&lt;b&gt;");
}

#[test]
fn output_never_holds_a_tag_delimiter() {
    let inputs = [
        "<b>bold</b>",
        "<<b>>",
        "<img src=x onerror=alert(1)>",
        "a < b > c",
        "<unclosed",
        "closing>",
        "<xmp><b>raw</b></xmp>",
        "<plaintext><b>",
        "<svg><script>x</script></svg>",
        "<math><mi><b>x</b></mi></math>",
        "<!DOCTYPE html><html><body>x</body></html>",
        "<?php echo 1 ?>",
        "<textarea></textarea><b>",
        "&lt;script&gt;",
        "<noscript><p>x</p></noscript>",
    ];
    for input in inputs {
        let cleaned = clean_html(input);
        assert!(!cleaned.contains('<'), "{:?} gave {:?}", input, cleaned);
        assert!(!cleaned.contains('>'), "{:?} gave {:?}", input, cleaned);
    }
}

#[test]
fn cleaning_is_a_function_of_the_text() {
    assert_eq!(clean_html("<i>x</i> & y"), clean_html("<i>x</i> & y"));
}

#[test]
fn absent_field_stays_absent() {
    assert_eq!(clean_optional(None), None);
    assert_eq!(clean_optional(Some("<em>hello</em>")), Some(String::from("hello")));
    assert_eq!(clean_optional(Some("")), Some(String::new()));
}

#[test]
fn every_plain_ascii_character_is_handed_on() {
    for code in 1u8..128 {
        let c = code as char;
        if matches!(c, '<' | '>' | '&' | '\r') {
            continue;
        }
        let text = format!("a{}b", c);
        assert_eq!(clean_html(&text), text, "U+{:04X}", code);
        let alone = c.to_string();
        assert_eq!(clean_html(&alone), alone, "U+{:04X}", code);
    }
}

#[test]
fn plain_text_of_many_scripts_is_unchanged() {
    let mut text = String::new();
    for code in 0x1u32..0x3000 {
        if let Some(c) = char::from_u32(code) {
            if !matches!(c, '<' | '>' | '&' | '\r' | '\u{a0}') {
                text.push(c);
            }
        }
    }
    text.push_str("\u{4f60}\u{597d} \u{1f600} \u{fffd} \u{10ffff} \"quoted\" 'single' a=b; {x} [y] #z");
    assert_eq!(clean_html(&text), text);
}

#[test]
fn whitespace_around_plain_text_is_kept() {
    assert_eq!(clean_html("\n  two words \t\n"), "\n  two words \t\n");
    assert_eq!(clean_html(" "), " ");
    assert_eq!(clean_html("line one\nline two"), "line one\nline two");
}

#[test]
fn characters_that_the_cleaner_rewrites_do_not_come_back() {
    assert_eq!(clean_html("a\u{a0}b"), "a&nbsp;b");
    assert_eq!(clean_html("a\rb"), "a\nb");
    assert_eq!(clean_html("a\r\nb"), "a\nb");
    assert_eq!(clean_html("\u{feff}abc"), "abc");
    assert_ne!(clean_html("a\0b"), "a\0b");
}

#[test]
fn byte_order_mark_is_dropped_from_the_start_only() {
    assert_eq!(clean_html("a\u{feff}b"), "a\u{feff}b");
    assert_eq!(clean_html("ab\u{feff}"), "ab\u{feff}");
    assert_eq!(clean_html("\u{feff}\u{feff}b"), "\u{feff}b");
}

#[test]
fn long_text_appended_to_a_text_node_is_cleaned() {
    let wide = 1usize << 26;
    let mut text = String::with_capacity(4 * wide);
    text.push('\n');
    for _ in 1..wide {
        text.push('\u{1f600}');
    }
    assert_eq!(text.len(), 4 * wide - 3);
    let cleaned = clean_html(&text);
    assert!(cleaned == text);
}

#[test]
fn long_text_after_an_entity_is_cleaned() {
    let mut text = String::from("&amp;");
    text.push_str(&"\u{20ac}".repeat(1 << 25));
    let cleaned = clean_html(&text);
    assert_eq!(cleaned.len(), text.len());
    assert!(cleaned == text);
}

#[test]
fn checked_cleaning_cleans_what_fits() {
    assert_eq!(clean_checked("<b>bold</b>"), Some(String::from("bold")));
    assert_eq!(clean_checked(""), Some(String::new()));
    assert!(fits_cleaner("short"));
    assert_eq!(CLEAN_MAX_LEN, 0x2000_0000);
}

#[test]
fn checked_cleaning_refuses_overlong_text() {
    let long = "a".repeat(CLEAN_MAX_LEN + 1);
    assert!(!fits_cleaner(&long));
    assert_eq!(clean_checked(&long), None);
    let longest = &long[..CLEAN_MAX_LEN];
    assert!(fits_cleaner(longest));
}
