use std::borrow::Cow;

use uxum::util::str::{as_slice, copied, escape_http_quoted, joined};

#[test]
fn escape_empty() {
    assert_eq!(escape_http_quoted(""), Cow::Borrowed(""));
    assert!(matches!(escape_http_quoted(""), Cow::Borrowed(_)));
}

#[test]
fn escape_nothing() {
    assert_eq!(escape_http_quoted("test string!"), Cow::Borrowed("test string!"));
    assert!(matches!(escape_http_quoted("test string!"), Cow::Borrowed(_)));
}

#[test]
fn escape_quote() {
    let output = escape_http_quoted("symbol \" is escaped");
    assert_eq!(output, "symbol \\\" is escaped");
    assert!(matches!(output, Cow::Owned(_)));
}

#[test]
fn escape_backslash() {
    let output = escape_http_quoted("symbol \\ is escaped");
    assert_eq!(output, "symbol \\\\ is escaped");
    assert!(matches!(output, Cow::Owned(_)));
}

#[test]
fn escape_keeps_other_characters() {
    assert_eq!(escape_http_quoted("ä\"ö\\"), "ä\\\"ö\\\\");
}

fn unescape(text: &str) -> String {
    let mut out = String::new();
    let mut chars = text.chars();
    while let Some(ch) = chars.next() {
        match ch {
            '\\' => out.push(chars.next().unwrap_or('\\')),
            ch => out.push(ch),
        }
    }
    out
}

#[test]
fn unescaping_gives_the_text_back() {
    for text in ["", "\\", "\"", "\\\"", "a\\b\"c", "\\\\\\"] {
        assert_eq!(unescape(&escape_http_quoted(text)), text);
    }
}

#[test]
fn different_texts_are_escaped_differently() {
    assert_ne!(escape_http_quoted("\\\""), escape_http_quoted("\""));
    assert_ne!(escape_http_quoted("\\\\"), escape_http_quoted("\\"));
}

#[test]
fn escaped_text_does_not_close_the_quote() {
    let text = "a\" b\\";
    let quoted = format!("{}\" rest \"", escape_http_quoted(text));
    let mut closing = None;
    let mut skip = false;
    for (index, ch) in quoted.chars().enumerate() {
        if skip {
            skip = false;
        } else if ch == '\\' {
            skip = true;
        } else if ch == '"' {
            closing = Some(index);
            break;
        }
    }
    assert_eq!(closing, Some(escape_http_quoted(text).chars().count()));
}

#[test]
fn optional_texts() {
    assert_eq!(joined("a: ", "b"), "a: b");
    assert_eq!(as_slice(&Some("text".to_string())), Some("text"));
    assert_eq!(as_slice(&None), None);
    assert_eq!(copied(&Some("text".to_string())), Some("text".to_string()));
    assert_eq!(copied(&None), None);
}
