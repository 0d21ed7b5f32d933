//! JSON text framing for the small, fixed-shape payloads the agent emits.
//!
//! Quoting of arbitrary text is delegated to `serde_json`; the library only
//! frames the surrounding object syntax.

use vstd::prelude::*;

verus! {

/// The lower-case hexadecimal digit for `n` below sixteen.
pub open spec fn hex_digit(n: int) -> char {
    seq!['0', '1', '2', '3', '4', '5', '6', '7', '8', '9', 'a', 'b', 'c', 'd', 'e', 'f'][n]
}

/// How one character is written inside a JSON string literal: a quote and a
/// backslash behind a backslash, backspace, tab, line feed, form feed and
/// carriage return as their short escapes, any other character below
/// U+0020 as `\u00` and two lower-case hexadecimal digits, anything else as
/// it is.
pub open spec fn json_escape_char(c: char) -> Seq<char> {
    if c == '"' {
        seq!['\\', '"']
    } else if c == '\\' {
        seq!['\\', '\\']
    } else if c == '\u{8}' {
        seq!['\\', 'b']
    } else if c == '\t' {
        seq!['\\', 't']
    } else if c == '\n' {
        seq!['\\', 'n']
    } else if c == '\u{c}' {
        seq!['\\', 'f']
    } else if c == '\r' {
        seq!['\\', 'r']
    } else if (c as u32) < 0x20 {
        seq!['\\', 'u', '0', '0', hex_digit((c as int) / 16), hex_digit((c as int) % 16)]
    } else {
        seq![c]
    }
}

/// The characters of `s`, each written as inside a JSON string literal.
pub open spec fn json_escaped(s: Seq<char>) -> Seq<char>
    decreases s.len(),
{
    if s.len() == 0 {
        Seq::empty()
    } else {
        json_escaped(s.drop_last()) + json_escape_char(s.last())
    }
}

/// The JSON string literal for the text `s`, surrounding quotes included.
pub open spec fn json_string_literal(s: Seq<char>) -> Seq<char> {
    seq!['"'] + json_escaped(s) + seq!['"']
}

/// A character written verbatim inside a string literal: anything but a
/// quote, a backslash or a control character below U+0020.
pub open spec fn json_plain_char(c: char) -> bool {
    c != '"' && c != '\\' && (c as u32) >= 0x20
}

/// Text made only of characters that need no escaping.
pub open spec fn json_plain_text(s: Seq<char>) -> bool {
    forall|i: int| 0 <= i < s.len() ==> json_plain_char(#[trigger] s[i])
}

/// Text without quotes, backslashes or control characters is written
/// between two quotes, unchanged.
pub proof fn lemma_plain_text_literal(s: Seq<char>)
    requires
        json_plain_text(s),
    ensures
        json_string_literal(s) == seq!['"'] + s + seq!['"'],
    decreases s.len(),
{
    lemma_plain_text_escaped(s);
}

proof fn lemma_plain_text_escaped(s: Seq<char>)
    requires
        json_plain_text(s),
    ensures
        json_escaped(s) == s,
    decreases s.len(),
{
    if s.len() > 0 {
        let init = s.drop_last();
        assert forall|i: int| 0 <= i < init.len() implies json_plain_char(#[trigger] init[i]) by {
            assert(init[i] == s[i]);
        }
        lemma_plain_text_escaped(init);
        assert(json_plain_char(s[s.len() - 1]));
        assert(json_escape_char(s.last()) == seq![s.last()]);
        assert(init.push(s.last()) =~= s);
        assert(init + seq![s.last()] =~= s);
    }
}

/// Quotes `s` as a JSON string literal.
///
/// Calls `serde_json::to_string` on the text. The contract states what the
/// serializer's escape table and its `write_char_escape` do: the text between
/// two quotes, each character escaped as `json_escape_char` says. Serializing
/// a `str` cannot fail.
#[verifier::external_body]
pub(crate) fn quote_json_string(s: &str) -> (r: String)
    ensures
        r@ == json_string_literal(s@),
{
    serde_json::to_string(s).unwrap_or_default()
}

} // verus!
