//! Scalars and byte sequences in hexadecimal.

use vstd::prelude::*;
use vstd::string::*;
use crate::text::{
    digit_char, digit_reads_back, digit_value, hex2, hex4, hex_items, hex_list, join, push_hex2,
    push_hex4, push_hex_list,
};

verus! {

/// `0x` and the two hexadecimal digits of a byte.
pub open spec fn hex_u8_text(v: u8) -> Seq<char> {
    seq!['0', 'x'] + hex2(v)
}

/// `0x` and the four hexadecimal digits of a 16-bit value.
pub open spec fn hex_u16_text(v: u16) -> Seq<char> {
    seq!['0', 'x'] + hex4(v)
}

/// The text of a byte is `0x` and exactly two lowercase hexadecimal digits,
/// and the digits read back as the byte.
pub proof fn hex_u8_reads_back(v: u8)
    ensures
        hex_u8_text(v).len() == 4,
        hex_u8_text(v)[0] == '0',
        hex_u8_text(v)[1] == 'x',
        forall|i: int| 2 <= i < 4 ==> 0 <= digit_value(#[trigger] hex_u8_text(v)[i]) < 16,
        digit_value(hex_u8_text(v)[2]) * 16 + digit_value(hex_u8_text(v)[3]) == v,
{
    let t = hex_u8_text(v);
    let high = v as int / 16;
    let low = v as int % 16;
    digit_reads_back(high);
    digit_reads_back(low);
    assert(t[2] == digit_char(high) && t[3] == digit_char(low));
}

/// The text of a 16-bit value is `0x` and exactly four lowercase hexadecimal
/// digits, and the digits read back as the value.
pub proof fn hex_u16_reads_back(v: u16)
    ensures
        hex_u16_text(v).len() == 6,
        hex_u16_text(v)[0] == '0',
        hex_u16_text(v)[1] == 'x',
        forall|i: int| 2 <= i < 6 ==> 0 <= digit_value(#[trigger] hex_u16_text(v)[i]) < 16,
        digit_value(hex_u16_text(v)[2]) * 4096 + digit_value(hex_u16_text(v)[3]) * 256
            + digit_value(hex_u16_text(v)[4]) * 16 + digit_value(hex_u16_text(v)[5]) == v,
{
    let t = hex_u16_text(v);
    let d3 = v as int / 4096;
    let d2 = v as int / 256 % 16;
    let d1 = v as int / 16 % 16;
    let d0 = v as int % 16;
    digit_reads_back(d3);
    digit_reads_back(d2);
    digit_reads_back(d1);
    digit_reads_back(d0);
    assert(t[2] == digit_char(d3) && t[3] == digit_char(d2));
    assert(t[4] == digit_char(d1) && t[5] == digit_char(d0));
    assert(d3 * 4096 + d2 * 256 + d1 * 16 + d0 == v);
}

/// The empty byte sequence is written as `[]`.
pub proof fn hex_list_of_nothing()
    ensures
        hex_list(Seq::<u8>::empty()) == seq!['[', ']'],
{
    assert(hex_list(Seq::<u8>::empty()) =~= seq!['[', ']']);
}

/// The two characters at the place of byte `k` in a hexadecimal list.
pub open spec fn digits_at(list: Seq<char>, k: int) -> Seq<char> {
    list.subrange(3 * k + 1, 3 * k + 3)
}

/// The character that stands before the digits of byte `k` in a hexadecimal list.
pub open spec fn mark_before(list: Seq<char>, k: int) -> char {
    list[3 * k]
}

/// The layout of a list before its closing bracket.
proof fn open_list_layout(bytes: Seq<u8>)
    requires
        bytes.len() > 0,
    ensures
        (seq!['['] + join(hex_items(bytes), seq![' '])).len() == 3 * bytes.len(),
        forall|k: int|
            0 <= k < bytes.len() ==> #[trigger] digits_at(
                seq!['['] + join(hex_items(bytes), seq![' ']),
                k,
            ) == hex2(bytes[k]),
        forall|k: int|
            1 <= k < bytes.len() ==> #[trigger] mark_before(
                seq!['['] + join(hex_items(bytes), seq![' ']),
                k,
            ) == ' ',
    decreases bytes.len(),
{
    let items = hex_items(bytes);
    let sep = seq![' '];
    let list = seq!['['] + join(items, sep);
    if bytes.len() == 1 {
        assert(digits_at(list, 0) =~= hex2(bytes[0]));
    } else {
        let front = bytes.drop_last();
        let last = bytes.len() - 1;
        assert(items.drop_last() =~= hex_items(front));
        open_list_layout(front);
        let shorter = seq!['['] + join(hex_items(front), sep);
        assert(list =~= shorter + sep + hex2(bytes[last]));
        assert forall|k: int| 0 <= k < bytes.len() implies #[trigger] digits_at(list, k) == hex2(
            bytes[k],
        ) by {
            if k < last {
                assert(digits_at(list, k) =~= digits_at(shorter, k));
                assert(front[k] == bytes[k]);
            } else {
                assert(digits_at(list, k) =~= hex2(bytes[last]));
            }
        }
        assert forall|k: int| 1 <= k < bytes.len() implies #[trigger] mark_before(list, k)
            == ' ' by {
            if k < last {
                assert(mark_before(list, k) == mark_before(shorter, k));
            }
        }
    }
}

/// A byte sequence that is not empty takes three characters per byte and one
/// more: the brackets stand first and last, each byte has its two digits at
/// its place, in order, and a single space stands before every byte but the
/// first.
pub proof fn hex_list_layout(bytes: Seq<u8>)
    requires
        bytes.len() > 0,
    ensures
        hex_list(bytes).len() == 3 * bytes.len() + 1,
        hex_list(bytes).first() == '[',
        hex_list(bytes).last() == ']',
        forall|k: int|
            0 <= k < bytes.len() ==> #[trigger] digits_at(hex_list(bytes), k) == hex2(bytes[k]),
        forall|k: int| 1 <= k < bytes.len() ==> #[trigger] mark_before(hex_list(bytes), k) == ' ',
{
    open_list_layout(bytes);
    let open = seq!['['] + join(hex_items(bytes), seq![' ']);
    let list = hex_list(bytes);
    assert(list =~= open + seq![']']);
    assert forall|k: int| 0 <= k < bytes.len() implies #[trigger] digits_at(list, k) == hex2(
        bytes[k],
    ) by {
        assert(digits_at(list, k) =~= digits_at(open, k));
    }
    assert forall|k: int| 1 <= k < bytes.len() implies #[trigger] mark_before(list, k) == ' ' by {
        assert(mark_before(list, k) == mark_before(open, k));
    }
}

/// An 8-bit value, shown as `0x` and two digits.
pub struct HexU8 {
    pub d: u8,
}

impl HexU8 {
    /// The text of this value, character by character.
    pub open spec fn text(&self) -> Seq<char> {
        hex_u8_text(self.d)
    }

    /// Writes the text of this value.
    pub fn render(&self) -> (s: String)
        ensures
            s@ == self.text(),
    {
        let mut out = String::new();
        push_hex_u8(&mut out, self.d);
        out
    }
}

/// A 16-bit value, shown as `0x` and four digits.
pub struct HexU16 {
    pub d: u16,
}

impl HexU16 {
    /// The text of this value, character by character.
    pub open spec fn text(&self) -> Seq<char> {
        hex_u16_text(self.d)
    }

    /// Writes the text of this value.
    pub fn render(&self) -> (s: String)
        ensures
            s@ == self.text(),
    {
        let mut out = String::new();
        push_hex_u16(&mut out, self.d);
        out
    }
}

/// A byte sequence, shown as a bracketed list of two-digit values.
pub struct HexSlice<'a> {
    pub d: &'a [u8],
}

impl<'a> HexSlice<'a> {
    /// The text of this value, character by character.
    pub open spec fn text(&self) -> Seq<char> {
        hex_list(self.d@)
    }

    /// Writes the text of this value.
    pub fn render(&self) -> (s: String)
        ensures
            s@ == self.text(),
    {
        let mut out = String::new();
        push_hex_list(&mut out, self.d);
        out
    }
}

/// Appends `0x` and two digits.
pub(crate) fn push_hex_u8(out: &mut String, v: u8)
    ensures
        final(out)@ == old(out)@ + hex_u8_text(v),
{
    proof {
        reveal_strlit("0x");
    }
    out.append("0x");
    push_hex2(out, v);
    assert(out@ =~= old(out)@ + hex_u8_text(v));
}

/// Appends `0x` and four digits.
pub(crate) fn push_hex_u16(out: &mut String, v: u16)
    ensures
        final(out)@ == old(out)@ + hex_u16_text(v),
{
    proof {
        reveal_strlit("0x");
    }
    out.append("0x");
    push_hex4(out, v);
    assert(out@ =~= old(out)@ + hex_u16_text(v));
}

} // verus!
