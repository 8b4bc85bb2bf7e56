//! Text helpers that std provides.

use vstd::prelude::*;

verus! {

/// A text as std's `Debug` prints it: in double quotes, with what needs it
/// escaped.
pub uninterp spec fn quoted_text(text: Seq<char>) -> Seq<char>;

/// An integer in decimal digits, as std's `Display` prints it.
pub uninterp spec fn integer_text(n: int) -> Seq<char>;

/// A text in `UpperCamelCase`, as the `heck` crate writes it.
pub uninterp spec fn upper_camel_case(text: Seq<char>) -> Seq<char>;

/// A text in `SHOUTY_SNAKE_CASE`, as the `heck` crate writes it.
pub uninterp spec fn shouty_snake_case(text: Seq<char>) -> Seq<char>;

/// A text as a JSON string, as `serde_json` writes it: in double quotes, with
/// what needs it escaped.
pub uninterp spec fn json_string_text(text: Seq<char>) -> Seq<char>;

/// An ASCII capital letter as its small letter; any other character as it is.
pub open spec fn ascii_lower(c: char) -> char {
    if 'A' <= c <= 'Z' {
        ((c as u8) + 32) as char
    } else {
        c
    }
}

/// Whether two texts are the same but for the case of their ASCII letters.
pub open spec fn same_ignoring_ascii_case(a: Seq<char>, b: Seq<char>) -> bool {
    a.len() == b.len() && forall|i: int|
        0 <= i < a.len() ==> ascii_lower(#[trigger] a[i]) == ascii_lower(b[i])
}

/// A text in double quotes, as std's `Debug` prints a string.
#[verifier::external_body]
pub(crate) fn quoted(text: &str) -> (r: String)
    ensures
        r@ == quoted_text(text@),
{
    format!("{:?}", text)
}

/// `heck::ToUpperCamelCase::to_upper_camel_case`: the words of a text, each
/// with a capital first letter, without anything between them.
#[verifier::external_body]
pub(crate) fn to_upper_camel_case(text: &str) -> (r: String)
    ensures
        r@ == upper_camel_case(text@),
{
    heck::ToUpperCamelCase::to_upper_camel_case(text)
}

/// `heck::ToShoutySnakeCase::to_shouty_snake_case`: the words of a text in
/// capital letters, with underscores between them.
#[verifier::external_body]
pub(crate) fn to_shouty_snake_case(text: &str) -> (r: String)
    ensures
        r@ == shouty_snake_case(text@),
{
    heck::ToShoutySnakeCase::to_shouty_snake_case(text)
}

/// `serde_json::to_string` on a `str`: the text as a JSON string. Writing a
/// string into memory cannot fail.
#[verifier::external_body]
pub(crate) fn json_string(text: &str) -> (r: String)
    ensures
        r@ == json_string_text(text@),
{
    serde_json::to_string(text).unwrap_or_default()
}

/// std's `Display` for an `i64`.
#[verifier::external_body]
pub(crate) fn integer_to_text(n: i64) -> (r: String)
    ensures
        r@ == integer_text(n as int),
{
    n.to_string()
}

/// std's `str::eq_ignore_ascii_case`: whether two texts match when the ASCII
/// letters `A` to `Z` are taken as `a` to `z`.
#[verifier::external_body]
pub(crate) fn eq_ignore_ascii_case(a: &str, b: &str) -> (r: bool)
    ensures
        r == same_ignoring_ascii_case(a@, b@),
{
    a.eq_ignore_ascii_case(b)
}

} // verus!
