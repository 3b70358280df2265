//! JSON in both directions: reading Telegram's answers one level at a time through
//! serde_json, and writing request bodies with serde_json's string quoting.
use vstd::prelude::*;

verus! {

/// One level of a JSON text as serde_json reads it: the kind of the value and, for
/// arrays and objects, the text of each element or member value.
pub enum JsonNode {
    /// The text is not exactly one JSON value.
    Invalid,
    Null,
    Bool(bool),
    /// A number: `Some` when it is an integer that fits in an `i64`.
    Number(Option<i64>),
    Str(String),
    /// The elements, each written back out as compact JSON text.
    Array(Vec<String>),
    /// The members in serde_json's map order (keys are distinct), each value written
    /// back out as compact JSON text.
    Object(Vec<(String, String)>),
}

/// The mathematical value of a [`JsonNode`].
pub enum JsonNodeView {
    Invalid,
    Null,
    Bool(bool),
    Number(Option<i64>),
    Str(Seq<char>),
    Array(Seq<Seq<char>>),
    Object(Seq<(Seq<char>, Seq<char>)>),
}

impl DeepView for JsonNode {
    type V = JsonNodeView;

    open spec fn deep_view(&self) -> JsonNodeView {
        match self {
            JsonNode::Invalid => JsonNodeView::Invalid,
            JsonNode::Null => JsonNodeView::Null,
            JsonNode::Bool(b) => JsonNodeView::Bool(*b),
            JsonNode::Number(n) => JsonNodeView::Number(*n),
            JsonNode::Str(s) => JsonNodeView::Str(s@),
            JsonNode::Array(items) => JsonNodeView::Array(items.deep_view()),
            JsonNode::Object(members) => JsonNodeView::Object(members.deep_view()),
        }
    }
}

/// What `serde_json::from_str::<serde_json::Value>` makes of `text`, one level deep.
pub uninterp spec fn json_node(text: Seq<char>) -> JsonNodeView;

/// Calls `serde_json::from_str::<serde_json::Value>` on `text` and describes the top
/// level of the value it gives (nested values as serde_json's compact text of them,
/// numbers through `Number::as_i64`). Trusted: the result depends on the text alone,
/// and is named `json_node`; nothing more is claimed of serde_json's parser.
#[verifier::external_body]
pub(crate) fn parse_node(text: &str) -> (node: JsonNode)
    ensures
        node.deep_view() == json_node(text@),
{
    match serde_json::from_str::<serde_json::Value>(text) {
        Ok(serde_json::Value::Null) => JsonNode::Null,
        Ok(serde_json::Value::Bool(b)) => JsonNode::Bool(b),
        Ok(serde_json::Value::Number(n)) => JsonNode::Number(n.as_i64()),
        Ok(serde_json::Value::String(s)) => JsonNode::Str(s),
        Ok(serde_json::Value::Array(a)) => JsonNode::Array(a.iter().map(|v| v.to_string()).collect()),
        Ok(serde_json::Value::Object(m)) => JsonNode::Object(
            m.iter().map(|(k, v)| (k.clone(), v.to_string())).collect(),
        ),
        Err(_) => JsonNode::Invalid,
    }
}

/// What `serde_json::from_slice::<serde_json::Value>` makes of `bytes`, one level deep.
pub uninterp spec fn json_node_of_bytes(bytes: Seq<u8>) -> JsonNodeView;

/// Calls `serde_json::from_slice::<serde_json::Value>` on `bytes` and describes the
/// top level of the value it gives, as [`parse_node`] does for a text. Trusted: the
/// result depends on the bytes alone, and is named `json_node_of_bytes`.
#[verifier::external_body]
pub(crate) fn parse_node_bytes(bytes: &[u8]) -> (node: JsonNode)
    ensures
        node.deep_view() == json_node_of_bytes(bytes@),
{
    match serde_json::from_slice::<serde_json::Value>(bytes) {
        Ok(serde_json::Value::Null) => JsonNode::Null,
        Ok(serde_json::Value::Bool(b)) => JsonNode::Bool(b),
        Ok(serde_json::Value::Number(n)) => JsonNode::Number(n.as_i64()),
        Ok(serde_json::Value::String(s)) => JsonNode::Str(s),
        Ok(serde_json::Value::Array(a)) => JsonNode::Array(a.iter().map(|v| v.to_string()).collect()),
        Ok(serde_json::Value::Object(m)) => JsonNode::Object(
            m.iter().map(|(k, v)| (k.clone(), v.to_string())).collect(),
        ),
        Err(_) => JsonNode::Invalid,
    }
}

/// A lowercase hexadecimal digit.
pub open spec fn hex_digit(d: int) -> char {
    if d < 10 {
        ((d + 48) as u32) as char
    } else {
        ((d + 87) as u32) as char
    }
}

/// How serde_json writes one character inside a JSON string: `"` and `\` behind a
/// backslash, backspace, tab, line feed, form feed and carriage return as `\b`, `\t`,
/// `\n`, `\f`, `\r`, every other character below U+0020 as `\u00` and two lowercase
/// hex digits, and every other character as itself.
pub open spec fn escaped_char(c: char) -> Seq<char> {
    let v = c as u32;
    if c == '"' {
        seq!['\\', '"']
    } else if c == '\\' {
        seq!['\\', '\\']
    } else if v == 8 {
        seq!['\\', 'b']
    } else if v == 9 {
        seq!['\\', 't']
    } else if v == 10 {
        seq!['\\', 'n']
    } else if v == 12 {
        seq!['\\', 'f']
    } else if v == 13 {
        seq!['\\', 'r']
    } else if v < 32 {
        seq!['\\', 'u', '0', '0', hex_digit((v / 16) as int), hex_digit((v % 16) as int)]
    } else {
        seq![c]
    }
}

/// The characters of `s`, each written as [`escaped_char`] writes it.
pub open spec fn escaped(s: Seq<char>) -> Seq<char>
    decreases s.len(),
{
    if s.len() == 0 {
        seq![]
    } else {
        escaped(s.drop_last()) + escaped_char(s.last())
    }
}

/// serde_json's text for a JSON string that holds `s`: the escaped characters between
/// double quotes.
pub open spec fn json_quoted(s: Seq<char>) -> Seq<char> {
    seq!['"'] + escaped(s) + seq!['"']
}

/// Calls `serde_json::to_string` on a `&str`. Trusted: the result is `json_quoted` of
/// the string, as serde_json's `format_escaped_str` writes it (its `ESCAPE` table and
/// `write_char_escape`). serde_json documents failure only for values whose `Serialize` impl
/// fails or maps with non-string keys; a `str` is neither, so the error arm is unused.
#[verifier::external_body]
pub(crate) fn quote(s: &str) -> (text: String)
    ensures
        text@ == json_quoted(s@),
{
    serde_json::to_string(s).unwrap_or_default()
}

// ---------------------------------------------------------------------------------
// Reading: what serde's derived `Deserialize` reads from a node.
// ---------------------------------------------------------------------------------

/// The value of the first member named `key`.
pub open spec fn member_text(members: Seq<(Seq<char>, Seq<char>)>, key: Seq<char>) -> Option<
    Seq<char>,
>
    decreases members.len(),
{
    if members.len() == 0 {
        None
    } else if members[0].0 == key {
        Some(members[0].1)
    } else {
        member_text(members.drop_first(), key)
    }
}

/// Whether serde reads a struct of `arity` fields from the node: from an object, or
/// from an array of at most `arity` elements (the fields in declaration order).
pub open spec fn struct_shaped(node: JsonNodeView, arity: int) -> bool {
    match node {
        JsonNodeView::Object(_) => true,
        JsonNodeView::Array(items) => items.len() <= arity,
        _ => false,
    }
}

/// The text of the field declared at `index` and named `key` of a struct read from
/// `node`: by name from an object, by position from an array; `None` when absent.
pub open spec fn field_text(node: JsonNodeView, index: int, key: Seq<char>) -> Option<Seq<char>> {
    match node {
        JsonNodeView::Object(members) => member_text(members, key),
        JsonNodeView::Array(items) => if 0 <= index < items.len() {
            Some(items[index])
        } else {
            None
        },
        _ => None,
    }
}

/// An `i64` read from a JSON text.
pub open spec fn read_i64(text: Seq<char>) -> Option<i64> {
    match json_node(text) {
        JsonNodeView::Number(Some(i)) => Some(i),
        _ => None,
    }
}

/// A `bool` read from a JSON text.
pub open spec fn read_bool(text: Seq<char>) -> Option<bool> {
    match json_node(text) {
        JsonNodeView::Bool(b) => Some(b),
        _ => None,
    }
}

/// A `String` read from a JSON text.
pub open spec fn read_string(text: Seq<char>) -> Option<Seq<char>> {
    match json_node(text) {
        JsonNodeView::Str(s) => Some(s),
        _ => None,
    }
}

/// A field without a default: absent is an error, present is read with `read`.
pub open spec fn required<T>(field: Option<Seq<char>>, read: spec_fn(Seq<char>) -> Option<T>) -> Option<T> {
    match field {
        Some(t) => read(t),
        None => None,
    }
}

/// An `Option<T>` field with `#[serde(default)]`: absent or `null` is `None`, anything
/// else is read with `read` (outer `None`: the field does not read).
pub open spec fn optional<T>(field: Option<Seq<char>>, read: spec_fn(Seq<char>) -> Option<T>) -> Option<
    Option<T>,
> {
    match field {
        None => Some(None),
        Some(t) => if json_node(t) is Null {
            Some(None)
        } else {
            match read(t) {
                Some(v) => Some(Some(v)),
                None => None,
            }
        },
    }
}

/// Whether the node is one serde reads a struct of `arity` fields from.
pub(crate) fn is_struct_shaped(node: &JsonNode, arity: usize) -> (b: bool)
    ensures
        b == struct_shaped(node.deep_view(), arity as int),
{
    match node {
        JsonNode::Object(_) => true,
        JsonNode::Array(items) => items.len() <= arity,
        _ => false,
    }
}

/// The text of a struct's field: see [`field_text`].
pub(crate) fn field_of(node: &JsonNode, index: usize, key: &str) -> (field: Option<String>)
    ensures
        field.deep_view() == field_text(node.deep_view(), index as int, key@),
{
    match node {
        JsonNode::Object(members) => {
            let wanted = key.to_owned();
            let ghost all = members.deep_view();
            assert(node.deep_view() == JsonNodeView::Object(all));
            let mut i: usize = 0;
            assert(all.skip(0) =~= all);
            while i < members.len()
                invariant
                    i <= members.len(),
                    all == members.deep_view(),
                    node.deep_view() == JsonNodeView::Object(all),
                    wanted@ == key@,
                    member_text(all, key@) == member_text(all.skip(i as int), key@),
                decreases members.len() - i,
            {
                assert(all.skip(i as int)[0] == all[i as int]);
                assert(all.skip(i as int).drop_first() =~= all.skip(i + 1));
                if members[i].0 == wanted {
                    assert(all[i as int].0 == key@);
                    let found = members[i].1.clone();
                    assert(found@ == all[i as int].1);
                    return Some(found);
                }
                i = i + 1;
            }
            assert(all.skip(i as int).len() == 0);
            None
        },
        JsonNode::Array(items) => {
            if index < items.len() {
                Some(items[index].clone())
            } else {
                None
            }
        },
        _ => None,
    }
}

/// Reads an `i64` from a JSON text: see [`read_i64`].
pub(crate) fn i64_of(text: &str) -> (v: Option<i64>)
    ensures
        v == read_i64(text@),
{
    match parse_node(text) {
        JsonNode::Number(n) => n,
        _ => None,
    }
}

/// Reads a `bool` from a JSON text: see [`read_bool`].
pub(crate) fn bool_of(text: &str) -> (v: Option<bool>)
    ensures
        v == read_bool(text@),
{
    match parse_node(text) {
        JsonNode::Bool(b) => Some(b),
        _ => None,
    }
}

/// Reads a `String` from a JSON text: see [`read_string`].
pub(crate) fn string_of(text: &str) -> (v: Option<String>)
    ensures
        v.deep_view() == read_string(text@),
{
    match parse_node(text) {
        JsonNode::Str(s) => Some(s),
        _ => None,
    }
}

/// Whether a JSON text is `null`.
pub(crate) fn is_null(text: &str) -> (b: bool)
    ensures
        b == (json_node(text@) is Null),
{
    match parse_node(text) {
        JsonNode::Null => true,
        _ => false,
    }
}

/// A required `i64` field.
pub(crate) fn required_i64(node: &JsonNode, index: usize, key: &str) -> (v: Option<i64>)
    ensures
        v == required(field_text(node.deep_view(), index as int, key@), |t| read_i64(t)),
{
    match field_of(node, index, key) {
        Some(t) => i64_of(t.as_str()),
        None => None,
    }
}

/// A required `bool` field.
pub(crate) fn required_bool(node: &JsonNode, index: usize, key: &str) -> (v: Option<bool>)
    ensures
        v == required(field_text(node.deep_view(), index as int, key@), |t| read_bool(t)),
{
    match field_of(node, index, key) {
        Some(t) => bool_of(t.as_str()),
        None => None,
    }
}

/// A required `String` field.
pub(crate) fn required_string(node: &JsonNode, index: usize, key: &str) -> (v: Option<String>)
    ensures
        v.deep_view() == required(
            field_text(node.deep_view(), index as int, key@),
            |t| read_string(t),
        ),
{
    match field_of(node, index, key) {
        Some(t) => string_of(t.as_str()),
        None => None,
    }
}

/// An `Option<String>` field with a default.
pub(crate) fn optional_string(node: &JsonNode, index: usize, key: &str) -> (v: Option<Option<String>>)
    ensures
        v.deep_view() == optional(
            field_text(node.deep_view(), index as int, key@),
            |t| read_string(t),
        ),
{
    match field_of(node, index, key) {
        None => Some(None),
        Some(t) => {
            if is_null(t.as_str()) {
                Some(None)
            } else {
                match string_of(t.as_str()) {
                    Some(s) => Some(Some(s)),
                    None => None,
                }
            }
        },
    }
}

/// A `Vec<T>` read from a JSON text: an array whose every element reads with `read`.
pub open spec fn read_list<T>(text: Seq<char>, read: spec_fn(Seq<char>) -> Option<T>) -> Option<
    Seq<T>,
> {
    match json_node(text) {
        JsonNodeView::Array(items) => if forall|i: int|
            0 <= i < items.len() ==> (#[trigger] read(items[i])) is Some {
            Some(items.map_values(|t: Seq<char>| read(t)->0))
        } else {
            None
        },
        _ => None,
    }
}

/// Reads a `Vec<T>` from a JSON text, each element with `read`: see [`read_list`].
pub(crate) fn list_of<T: DeepView, F: Fn(&str) -> Option<T>>(
    text: &str,
    read: F,
    Ghost(spec_read): Ghost<spec_fn(Seq<char>) -> Option<T::V>>,
) -> (v: Option<Vec<T>>)
    requires
        forall|t: &str| #[trigger] call_requires(read, (t,)),
        forall|t: &str, r: Option<T>| call_ensures(read, (t,), r) ==> r.deep_view() == spec_read(t@),
    ensures
        v.deep_view() == read_list(text@, spec_read),
{
    match parse_node(text) {
        JsonNode::Array(items) => {
            let ghost texts = items.deep_view();
            let mut out: Vec<T> = Vec::new();
            let mut i: usize = 0;
            while i < items.len()
                invariant
                    i <= items.len(),
                    texts == items.deep_view(),
                    json_node(text@) == JsonNodeView::Array(texts),
                    out@.len() == i,
                    forall|t: &str| #[trigger] call_requires(read, (t,)),
                    forall|t: &str, r: Option<T>|
                        call_ensures(read, (t,), r) ==> r.deep_view() == spec_read(t@),
                    forall|j: int|
                        0 <= j < i ==> spec_read(texts[j]) == Some(#[trigger] out@[j].deep_view()),
                decreases items.len() - i,
            {
                let r = read(items[i].as_str());
                match r {
                    Some(x) => {
                        out.push(x);
                    },
                    None => {
                        assert(spec_read(texts[i as int]) is None);
                        return None;
                    },
                }
                i = i + 1;
            }
            assert forall|j: int| 0 <= j < texts.len() implies (#[trigger] spec_read(
                texts[j],
            )) is Some by {
                assert(spec_read(texts[j]) == Some(out@[j].deep_view()));
            }
            assert(out.deep_view() =~= texts.map_values(|t: Seq<char>| spec_read(t)->0));
            Some(out)
        },
        _ => None,
    }
}

/// Reads a field without a default with `read`: see [`required`].
pub(crate) fn required_of<T: DeepView, F: Fn(&str) -> Option<T>>(
    node: &JsonNode,
    index: usize,
    key: &str,
    read: F,
    Ghost(spec_read): Ghost<spec_fn(Seq<char>) -> Option<T::V>>,
) -> (v: Option<T>)
    requires
        forall|t: &str| #[trigger] call_requires(read, (t,)),
        forall|t: &str, r: Option<T>| call_ensures(read, (t,), r) ==> r.deep_view() == spec_read(t@),
    ensures
        v.deep_view() == required(field_text(node.deep_view(), index as int, key@), spec_read),
{
    match field_of(node, index, key) {
        Some(t) => read(t.as_str()),
        None => None,
    }
}

/// Reads an `Option<T>` field with a default with `read`: see [`optional`].
pub(crate) fn optional_of<T: DeepView, F: Fn(&str) -> Option<T>>(
    node: &JsonNode,
    index: usize,
    key: &str,
    read: F,
    Ghost(spec_read): Ghost<spec_fn(Seq<char>) -> Option<T::V>>,
) -> (v: Option<Option<T>>)
    requires
        forall|t: &str| #[trigger] call_requires(read, (t,)),
        forall|t: &str, r: Option<T>| call_ensures(read, (t,), r) ==> r.deep_view() == spec_read(t@),
    ensures
        v.deep_view() == optional(field_text(node.deep_view(), index as int, key@), spec_read),
{
    match field_of(node, index, key) {
        None => Some(None),
        Some(t) => {
            if is_null(t.as_str()) {
                Some(None)
            } else {
                match read(t.as_str()) {
                    Some(x) => Some(Some(x)),
                    None => None,
                }
            }
        },
    }
}

// ---------------------------------------------------------------------------------
// Writing.
// ---------------------------------------------------------------------------------

/// The character of a decimal digit.
pub open spec fn digit_char(d: nat) -> char {
    if d == 0 {
        '0'
    } else if d == 1 {
        '1'
    } else if d == 2 {
        '2'
    } else if d == 3 {
        '3'
    } else if d == 4 {
        '4'
    } else if d == 5 {
        '5'
    } else if d == 6 {
        '6'
    } else if d == 7 {
        '7'
    } else if d == 8 {
        '8'
    } else {
        '9'
    }
}

/// The decimal digits of `n`, most significant first, without leading zeros.
pub open spec fn decimal_digits(n: nat) -> Seq<char>
    decreases n,
{
    if n < 10 {
        seq![digit_char(n)]
    } else {
        decimal_digits(n / 10).push(digit_char(n % 10))
    }
}

/// The decimal text of an integer, as serde_json writes numbers.
pub open spec fn decimal(n: int) -> Seq<char> {
    if n < 0 {
        seq!['-'] + decimal_digits((-n) as nat)
    } else {
        decimal_digits(n as nat)
    }
}

fn digit_str(d: u64) -> (s: &'static str)
    requires
        d < 10,
    ensures
        s@ == seq![digit_char(d as nat)],
{
    if d == 0 {
        proof { reveal_strlit("0"); }
        assert("0"@ =~= seq!['0']);
        "0"
    } else if d == 1 {
        proof { reveal_strlit("1"); }
        assert("1"@ =~= seq!['1']);
        "1"
    } else if d == 2 {
        proof { reveal_strlit("2"); }
        assert("2"@ =~= seq!['2']);
        "2"
    } else if d == 3 {
        proof { reveal_strlit("3"); }
        assert("3"@ =~= seq!['3']);
        "3"
    } else if d == 4 {
        proof { reveal_strlit("4"); }
        assert("4"@ =~= seq!['4']);
        "4"
    } else if d == 5 {
        proof { reveal_strlit("5"); }
        assert("5"@ =~= seq!['5']);
        "5"
    } else if d == 6 {
        proof { reveal_strlit("6"); }
        assert("6"@ =~= seq!['6']);
        "6"
    } else if d == 7 {
        proof { reveal_strlit("7"); }
        assert("7"@ =~= seq!['7']);
        "7"
    } else if d == 8 {
        proof { reveal_strlit("8"); }
        assert("8"@ =~= seq!['8']);
        "8"
    } else {
        proof { reveal_strlit("9"); }
        assert("9"@ =~= seq!['9']);
        "9"
    }
}

/// Appends the decimal digits of `n`.
pub(crate) fn push_digits(out: &mut String, n: u64)
    ensures
        final(out)@ == old(out)@ + decimal_digits(n as nat),
    decreases n,
{
    if n >= 10 {
        push_digits(out, n / 10);
    }
    out.append(digit_str(n % 10));
    assert(out@ =~= old(out)@ + decimal_digits(n as nat));
}

/// Appends the decimal text of `n`.
pub(crate) fn push_i64(out: &mut String, n: i64)
    ensures
        final(out)@ == old(out)@ + decimal(n as int),
{
    if n < 0 {
        proof { reveal_strlit("-"); }
        assert("-"@ =~= seq!['-']);
        out.append("-");
        let magnitude: u64 = (0i128 - n as i128) as u64;
        push_digits(out, magnitude);
        assert(out@ =~= old(out)@ + decimal(n as int));
    } else {
        push_digits(out, n as u64);
    }
}

/// Appends serde_json's quoted text of `s`.
pub(crate) fn push_quoted(out: &mut String, s: &str)
    ensures
        final(out)@ == old(out)@ + json_quoted(s@),
{
    let q = quote(s);
    out.append(q.as_str());
}

} // verus!
