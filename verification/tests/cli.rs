use pyttch::cli::{message_from_input, parse_parse_mode};
use pyttch::{Error, ParseMode};

#[test]
fn parse_mode_names_in_any_case() {
    assert!(matches!(parse_parse_mode("html"), Ok(ParseMode::Html)));
    assert!(matches!(parse_parse_mode("HTML"), Ok(ParseMode::Html)));
    assert!(matches!(parse_parse_mode("MarkDown"), Ok(ParseMode::Markdown)));
    assert!(matches!(parse_parse_mode("markdownV2"), Ok(ParseMode::MarkdownV2)));
}

#[test]
fn parse_mode_names_read_back() {
    for mode in [ParseMode::Html, ParseMode::Markdown, ParseMode::MarkdownV2] {
        let back = parse_parse_mode(mode.as_str()).unwrap();
        assert_eq!(back.as_str(), mode.as_str());
    }
}

#[test]
fn unknown_parse_mode_is_named_lowercased() {
    let e = parse_parse_mode("Bold").unwrap_err();
    assert!(matches!(&e, Error::UnknownParseMode(s) if s == "bold"));
    assert_eq!(e.message(), "unknown parse mode: bold");
    assert!(parse_parse_mode("").is_err());
    assert!(parse_parse_mode(" html").is_err());
}

#[test]
fn stdin_message_is_trimmed() {
    assert_eq!(message_from_input("  deploy done \n").unwrap(), "deploy done");
    assert!(matches!(message_from_input(" \n\t "), Err(Error::NoMessage)));
    assert!(matches!(message_from_input(""), Err(Error::NoMessage)));
}

#[test]
fn parse_mode_names_read_back_in_any_case() {
    for mode in [ParseMode::Html, ParseMode::Markdown, ParseMode::MarkdownV2] {
        for name in [
            mode.as_str().to_string(),
            mode.as_str().to_uppercase(),
            mode.as_str().to_lowercase(),
        ] {
            let back = parse_parse_mode(&name).unwrap();
            assert_eq!(back.as_str(), mode.as_str());
        }
    }
    assert!(matches!(parse_parse_mode("Html"), Ok(ParseMode::Html)));
}

#[test]
fn stdin_message_trims_unicode_white_space_only() {
    assert_eq!(
        message_from_input("\u{3000}\u{a0}hi there\u{2009}\u{85}").unwrap(),
        "hi there"
    );
    assert_eq!(message_from_input("\u{200b}x").unwrap(), "\u{200b}x");
    assert!(matches!(message_from_input("\u{2028}\u{1680}"), Err(Error::NoMessage)));
}
