//! The command line's own rules: naming a parse mode, and taking the message from
//! standard input.
use vstd::prelude::*;

use crate::api::{mode_name, ParseMode};
use crate::http::result_view;
use crate::error::{Error, ErrorView};

verus! {

/// The lowercase of a text as `str::to_lowercase` gives it.
pub uninterp spec fn lowercased(s: Seq<char>) -> Seq<char>;

/// Whether every character is ASCII.
pub open spec fn is_ascii_text(s: Seq<char>) -> bool {
    forall|i: int| 0 <= i < s.len() ==> (s[i] as u32) < 128
}

/// An ASCII character lowered: `A`–`Z` become `a`–`z`, the rest stay.
pub open spec fn ascii_lower(c: char) -> char {
    if 65 <= (c as u32) <= 90 {
        ((c as u32) + 32) as char
    } else {
        c
    }
}

/// Calls `str::to_lowercase`. Trusted: the result is `lowercased` of the text, a
/// function of the text alone; on ASCII text it lowers `A`–`Z` and keeps every other
/// character, which is what Unicode's lowercase mapping (the one std documents it
/// applies) does to ASCII. Nothing more is claimed of non-ASCII text.
#[verifier::external_body]
fn to_lowercase(s: &str) -> (lower: String)
    ensures
        lower@ == lowercased(s@),
        is_ascii_text(s@) ==> lower@ == s@.map_values(|c: char| ascii_lower(c)),
{
    s.to_lowercase()
}

/// Whether a character has Unicode's `White_Space` property: U+0009 to U+000D, U+0020,
/// U+0085, U+00A0, U+1680, U+2000 to U+200A, U+2028, U+2029, U+202F, U+205F, U+3000.
pub open spec fn is_white_space(c: char) -> bool {
    let v = c as u32;
    ||| 9 <= v <= 13
    ||| v == 0x20
    ||| v == 0x85
    ||| v == 0xA0
    ||| v == 0x1680
    ||| 0x2000 <= v <= 0x200A
    ||| v == 0x2028
    ||| v == 0x2029
    ||| v == 0x202F
    ||| v == 0x205F
    ||| v == 0x3000
}

/// The text with its leading and trailing white space removed.
pub open spec fn trimmed(s: Seq<char>) -> Seq<char>
    decreases s.len(),
{
    if s.len() > 0 && is_white_space(s[0]) {
        trimmed(s.drop_first())
    } else if s.len() > 0 && is_white_space(s.last()) {
        trimmed(s.drop_last())
    } else {
        s
    }
}

/// Calls `str::trim`. Trusted: the result is `trimmed` of the text, leading and
/// trailing characters with Unicode's `White_Space` property removed, as std documents
/// it.
#[verifier::external_body]
fn trim(s: &str) -> (t: &str)
    ensures
        t@ == trimmed(s@),
{
    s.trim()
}

/// A text with its ASCII capitals lowered and every other character kept.
pub open spec fn ascii_lowered(s: Seq<char>) -> Seq<char> {
    s.map_values(|c: char| ascii_lower(c))
}

/// The parse mode an already lowercased name stands for: `html`, `markdown` or
/// `markdownv2`; otherwise the error names the text.
pub open spec fn mode_of_lowered(lower: Seq<char>) -> Result<ParseMode, ErrorView> {
    if lower == "html"@ {
        Ok(ParseMode::Html)
    } else if lower == "markdown"@ {
        Ok(ParseMode::Markdown)
    } else if lower == "markdownv2"@ {
        Ok(ParseMode::MarkdownV2)
    } else {
        Err(ErrorView::UnknownParseMode(lower))
    }
}

/// The parse mode a command-line name stands for, any case: the name lowercased as
/// `str::to_lowercase` does, read by [`mode_of_lowered`].
pub open spec fn mode_named(s: Seq<char>) -> Result<ParseMode, ErrorView> {
    mode_of_lowered(lowercased(s))
}

/// The lowercase name of each mode, and that it is ASCII.
proof fn lowered_mode_name(m: ParseMode)
    ensures
        is_ascii_text(ascii_lowered(mode_name(m))),
        mode_of_lowered(ascii_lowered(mode_name(m))) == Ok::<ParseMode, ErrorView>(m),
{
    reveal_strlit("HTML");
    reveal_strlit("Markdown");
    reveal_strlit("MarkdownV2");
    reveal_strlit("html");
    reveal_strlit("markdown");
    reveal_strlit("markdownv2");
    assert("markdownv2"@.len() != "markdown"@.len());
    assert("html"@.len() != "markdown"@.len());
    assert("html"@.len() != "markdownv2"@.len());
    match m {
        ParseMode::Html => {
            assert(ascii_lowered(mode_name(m)) =~= "html"@);
        },
        ParseMode::Markdown => {
            assert(ascii_lowered(mode_name(m)) =~= "markdown"@);
        },
        ParseMode::MarkdownV2 => {
            assert(ascii_lowered(mode_name(m)) =~= "markdownv2"@);
        },
    }
}

/// A text whose ASCII lowering is ASCII is ASCII itself.
proof fn ascii_if_lowered_ascii(s: Seq<char>)
    requires
        is_ascii_text(ascii_lowered(s)),
    ensures
        is_ascii_text(s),
{
    assert forall|i: int| 0 <= i < s.len() implies (s[i] as u32) < 128 by {
        assert(ascii_lowered(s)[i] == ascii_lower(s[i]));
    }
}

/// Reads a parse mode's name as the command line takes it, in any case. A mode's name
/// as `as_str` gives it, or that name with any of its letters in the other case, reads
/// back as that mode.
pub fn parse_parse_mode(s: &str) -> (r: Result<ParseMode, Error>)
    ensures
        result_view(r) == mode_named(s@),
        is_ascii_text(s@) ==> result_view(r) == mode_of_lowered(ascii_lowered(s@)),
        forall|m: ParseMode| #[trigger]
            ascii_lowered(mode_name(m)) == ascii_lowered(s@) ==> r == Ok::<ParseMode, Error>(m),
{
    let lower = to_lowercase(s);
    proof {
        reveal_strlit("html");
        reveal_strlit("markdown");
        reveal_strlit("markdownv2");
        assert forall|m: ParseMode| #[trigger]
            ascii_lowered(mode_name(m)) == ascii_lowered(s@) implies mode_named(s@) == Ok::<
            ParseMode,
            ErrorView,
        >(m) by {
            lowered_mode_name(m);
            ascii_if_lowered_ascii(s@);
        }
    }
    if lower == "html".to_owned() {
        Ok(ParseMode::Html)
    } else if lower == "markdown".to_owned() {
        Ok(ParseMode::Markdown)
    } else if lower == "markdownv2".to_owned() {
        Ok(ParseMode::MarkdownV2)
    } else {
        Err(Error::UnknownParseMode(lower))
    }
}

/// The message taken from standard input: the input trimmed, refused when nothing is
/// left.
pub fn message_from_input(input: &str) -> (r: Result<String, Error>)
    ensures
        match r {
            Ok(message) => message@ == trimmed(input@) && message@.len() > 0,
            Err(e) => e.deep_view() == ErrorView::NoMessage && trimmed(input@).len() == 0,
        },
{
    let t = trim(input);
    if t.is_empty() {
        Err(Error::NoMessage)
    } else {
        Ok(t.to_owned())
    }
}

} // verus!
