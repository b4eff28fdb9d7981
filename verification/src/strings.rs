//! Text fields: byte strings that are meant to be UTF-8, and the quoted form
//! in which a list shows its text entries.

use vstd::prelude::*;
use vstd::string::*;
use vstd::utf8::{decode_utf8, encode_utf8_decode_utf8, valid_utf8};
use crate::text::{comma_list, join, join_next};

verus! {

/// The error type of `core::str::from_utf8`. Nothing is read from it.
#[verifier::external_type_specification]
#[verifier::external_body]
pub struct ExUtf8Error(core::str::Utf8Error);

/// `core::str::from_utf8` is believed, not proved: it accepts exactly the
/// byte sequences that are well-formed UTF-8, and the string it returns is
/// made of the very bytes it was given.
pub assume_specification[ core::str::from_utf8 ](v: &[u8]) -> (r: Result<
    &str,
    core::str::Utf8Error,
>)
    ensures
        r is Ok <==> valid_utf8(v@),
        r matches Ok(s) ==> s.spec_bytes() == v@,
;

/// What `{:?}` writes for a string: the string between double quotes, with
/// the escapes that `<str as core::fmt::Debug>::fmt` applies to quotes,
/// backslashes and characters that do not print.
pub uninterp spec fn debug_quoted(s: Seq<char>) -> Seq<char>;

/// `<str as core::fmt::Debug>::fmt`, reached through `format!`, is believed,
/// not proved: what it writes depends on the characters of `s` alone.
#[verifier::external_body]
pub(crate) fn quote(s: &str) -> (r: String)
    ensures
        r@ == debug_quoted(s@),
{
    format!("{:?}", s)
}

/// What stands in place of a text field whose bytes are not UTF-8.
pub open spec fn placeholder() -> Seq<char> {
    "<error decoding utf8 string>"@
}

/// The text of a field: its characters where the bytes are well-formed
/// UTF-8, the placeholder where they are not.
pub open spec fn field_text(bytes: Seq<u8>) -> Seq<char> {
    if valid_utf8(bytes) {
        decode_utf8(bytes)
    } else {
        placeholder()
    }
}

/// Each text in its quoted form.
pub open spec fn quoted_items(items: Seq<Seq<char>>) -> Seq<Seq<char>> {
    Seq::new(items.len(), |i: int| debug_quoted(items[i]))
}

/// Two texts as a pair: in parentheses, separated by a comma and a space.
pub open spec fn pair_text(first: Seq<char>, second: Seq<char>) -> Seq<char> {
    "("@ + first + ", "@ + second + ")"@
}

/// Decodes a text field, and never fails: bytes that are not UTF-8 give the
/// placeholder.
pub fn decode_field<'a>(bytes: &'a [u8]) -> (s: &'a str)
    ensures
        s@ == field_text(bytes@),
{
    match core::str::from_utf8(bytes) {
        Ok(s) => {
            proof {
                encode_utf8_decode_utf8(s@);
            }
            s
        },
        Err(_) => "<error decoding utf8 string>",
    }
}

/// Writes texts as a bracketed list, separated by a comma and a space.
pub fn write_comma_list(parts: &Vec<String>) -> (s: String)
    ensures
        s@ == comma_list(parts.deep_view()),
{
    let ghost items = parts.deep_view();
    let ghost sep = seq![',', ' '];
    proof {
        reveal_strlit("[");
        reveal_strlit(", ");
        reveal_strlit("]");
        assert(", "@ =~= sep);
    }
    let mut out = String::new();
    out.append("[");
    let n = parts.len();
    let mut i: usize = 0;
    while i < n
        invariant
            i <= n,
            n == parts@.len(),
            items == parts.deep_view(),
            sep == seq![',', ' '],
            ", "@ == sep,
            out@ == seq!['['] + join(items.take(i as int), sep),
        decreases n - i,
    {
        if i > 0 {
            out.append(", ");
        }
        out.append(parts[i].as_str());
        proof {
            assert(items[i as int] == parts@[i as int]@);
            join_next(items, sep, i as int);
        }
        i += 1;
    }
    out.append("]");
    assert(items.take(n as int) =~= items);
    out
}

/// Writes two texts as a pair.
pub fn write_pair(first: &str, second: &str) -> (s: String)
    ensures
        s@ == pair_text(first@, second@),
{
    let mut out = String::new();
    out.append("(");
    out.append(first);
    out.append(", ");
    out.append(second);
    out.append(")");
    assert(out@ =~= pair_text(first@, second@));
    out
}

/// Writes texts as a bracketed list of quoted entries.
pub fn write_quoted_list(items: &Vec<String>) -> (s: String)
    ensures
        s@ == comma_list(quoted_items(items.deep_view())),
{
    let mut quoted: Vec<String> = Vec::new();
    let n = items.len();
    let mut i: usize = 0;
    while i < n
        invariant
            i <= n,
            n == items@.len(),
            quoted@.len() == i,
            forall|k: int| 0 <= k < i ==> (#[trigger] quoted@[k])@ == debug_quoted(items@[k]@),
        decreases n - i,
    {
        let q = quote(items[i].as_str());
        quoted.push(q);
        i += 1;
    }
    assert(quoted.deep_view() =~= quoted_items(items.deep_view()));
    write_comma_list(&quoted)
}

} // verus!
