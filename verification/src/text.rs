//! The notation shared by all renderers: digits, numbers of fixed and of
//! minimal width, separated lists, and the writers that produce them.

use vstd::prelude::*;
use vstd::string::*;

verus! {

/// The sixteen digits, in order of their value.
pub open spec fn digit_table() -> Seq<char> {
    seq!['0', '1', '2', '3', '4', '5', '6', '7', '8', '9', 'a', 'b', 'c', 'd', 'e', 'f']
}

/// The lowercase digit that stands for `d`, for `0 <= d < 16`.
pub open spec fn digit_char(d: int) -> char
    recommends
        0 <= d < 16,
{
    digit_table()[d]
}

/// The value of a lowercase hexadecimal digit, and `-1` for any other character.
pub open spec fn digit_value(c: char) -> int {
    if '0' <= c <= '9' {
        c as int - '0' as int
    } else if 'a' <= c <= 'f' {
        c as int - 'a' as int + 10
    } else {
        -1
    }
}

/// A byte as exactly two hexadecimal digits, the high one first.
pub open spec fn hex2(v: u8) -> Seq<char> {
    seq![digit_char(v as int / 16), digit_char(v as int % 16)]
}

/// A 16-bit value as exactly four hexadecimal digits, the highest first.
pub open spec fn hex4(v: u16) -> Seq<char> {
    seq![
        digit_char(v as int / 4096),
        digit_char(v as int / 256 % 16),
        digit_char(v as int / 16 % 16),
        digit_char(v as int % 16),
    ]
}

/// A number in hexadecimal with no leading zero; zero itself is `0`.
pub open spec fn hex(n: nat) -> Seq<char>
    decreases n,
{
    if n < 16 {
        seq![digit_char(n as int)]
    } else {
        hex(n / 16).push(digit_char((n % 16) as int))
    }
}

/// `0x` and a number in hexadecimal with no leading zero.
pub open spec fn short_hex(n: nat) -> Seq<char> {
    seq!['0', 'x'] + hex(n)
}

/// A number in decimal with no leading zero; zero itself is `0`.
pub open spec fn decimal(n: nat) -> Seq<char>
    decreases n,
{
    if n < 10 {
        seq![digit_char(n as int)]
    } else {
        decimal(n / 10).push(digit_char((n % 10) as int))
    }
}

/// The number that a run of digits stands for in the given base, the highest
/// digit first.
pub open spec fn number_of(digits: Seq<char>, base: int) -> int
    decreases digits.len(),
{
    if digits.len() == 0 {
        0
    } else {
        number_of(digits.drop_last(), base) * base + digit_value(digits.last())
    }
}

/// The parts in order, with `sep` between each two neighbours.
pub open spec fn join(parts: Seq<Seq<char>>, sep: Seq<char>) -> Seq<char>
    decreases parts.len(),
{
    if parts.len() == 0 {
        Seq::empty()
    } else if parts.len() == 1 {
        parts[0]
    } else {
        join(parts.drop_last(), sep) + sep + parts.last()
    }
}

/// The parts separated by a comma and a space, inside square brackets.
pub open spec fn comma_list(parts: Seq<Seq<char>>) -> Seq<char> {
    seq!['['] + join(parts, seq![',', ' ']) + seq![']']
}

/// Each byte as two hexadecimal digits.
pub open spec fn hex_items(bytes: Seq<u8>) -> Seq<Seq<char>> {
    Seq::new(bytes.len(), |i: int| hex2(bytes[i]))
}

/// A byte sequence as two digits per byte, separated by single spaces,
/// inside square brackets.
pub open spec fn hex_list(bytes: Seq<u8>) -> Seq<char> {
    seq!['['] + join(hex_items(bytes), seq![' ']) + seq![']']
}

/// The bytes behind an optional slice.
pub open spec fn bytes_of(field: Option<&[u8]>) -> Option<Seq<u8>> {
    match field {
        Some(b) => Some(b@),
        None => None,
    }
}

/// An optional byte sequence: `None` when absent, else the hexadecimal list
/// inside `Some(..)`.
pub open spec fn opt_hex_list(bytes: Option<Seq<u8>>) -> Seq<char> {
    match bytes {
        Some(b) => "Some("@ + hex_list(b) + ")"@,
        None => "None"@,
    }
}

/// `needle` occurs in `hay` as a contiguous run of characters.
pub open spec fn occurs_in(needle: Seq<char>, hay: Seq<char>) -> bool {
    exists|i: int|
        0 <= i && i + needle.len() <= hay.len() && #[trigger] hay.subrange(
            i,
            i + needle.len(),
        ) == needle
}

/// Whatever stands before and after it, the middle of three pieces occurs in
/// their concatenation.
pub proof fn occurs_in_middle(before: Seq<char>, needle: Seq<char>, after: Seq<char>)
    ensures
        occurs_in(needle, before + needle + after),
{
    let hay = before + needle + after;
    let i = before.len() as int;
    assert(hay.subrange(i, i + needle.len()) =~= needle);
}

/// What occurs in a text occurs in every text around it.
pub proof fn occurs_in_wider(
    needle: Seq<char>,
    before: Seq<char>,
    hay: Seq<char>,
    after: Seq<char>,
)
    requires
        occurs_in(needle, hay),
    ensures
        occurs_in(needle, before + hay + after),
{
    let i = choose|i: int|
        0 <= i && i + needle.len() <= hay.len() && #[trigger] hay.subrange(i, i + needle.len())
            == needle;
    let wide = before + hay + after;
    let j = before.len() + i;
    assert(wide.subrange(j, j + needle.len()) =~= hay.subrange(i, i + needle.len()));
}

/// What occurs in a piece of a text occurs in the text.
pub proof fn occurs_in_chain(needle: Seq<char>, piece: Seq<char>, hay: Seq<char>)
    requires
        occurs_in(needle, piece),
        occurs_in(piece, hay),
    ensures
        occurs_in(needle, hay),
{
    let i = choose|i: int|
        0 <= i && i + needle.len() <= piece.len() && #[trigger] piece.subrange(
            i,
            i + needle.len(),
        ) == needle;
    let j = choose|j: int|
        0 <= j && j + piece.len() <= hay.len() && #[trigger] hay.subrange(j, j + piece.len())
            == piece;
    let k = j + i;
    assert(hay.subrange(k, k + needle.len()) =~= hay.subrange(j, j + piece.len()).subrange(
        i,
        i + needle.len(),
    ));
}

/// Every part occurs in the joined text.
pub proof fn part_occurs_in_join(parts: Seq<Seq<char>>, sep: Seq<char>, i: int)
    requires
        0 <= i < parts.len(),
    ensures
        occurs_in(parts[i], join(parts, sep)),
    decreases parts.len(),
{
    let empty = Seq::<char>::empty();
    if parts.len() == 1 {
        occurs_in_middle(empty, parts[0], empty);
        assert(join(parts, sep) =~= empty + parts[0] + empty);
    } else if i == parts.len() - 1 {
        occurs_in_middle(join(parts.drop_last(), sep) + sep, parts[i], empty);
        assert(join(parts, sep) =~= join(parts.drop_last(), sep) + sep + parts[i] + empty);
    } else {
        let front = parts.drop_last();
        assert(front[i] == parts[i]);
        part_occurs_in_join(front, sep, i);
        occurs_in_wider(parts[i], empty, join(front, sep), sep + parts.last());
        assert(join(parts, sep) =~= empty + join(front, sep) + (sep + parts.last()));
    }
}

/// Every part occurs in the bracketed list of the parts.
pub proof fn part_occurs_in_list(parts: Seq<Seq<char>>, i: int)
    requires
        0 <= i < parts.len(),
    ensures
        occurs_in(parts[i], comma_list(parts)),
{
    part_occurs_in_join(parts, seq![',', ' '], i);
    occurs_in_wider(parts[i], seq!['['], join(parts, seq![',', ' ']), seq![']']);
}

/// Every digit is a lowercase hexadecimal character that reads back as its value.
pub proof fn digit_reads_back(d: int)
    requires
        0 <= d < 16,
    ensures
        digit_value(digit_char(d)) == d,
        '0' <= digit_char(d) <= '9' || 'a' <= digit_char(d) <= 'f',
{
}

/// The decimal form keeps the number: its digits are decimal digits, the
/// first is `0` for zero only, and they read back as the number.
pub proof fn decimal_reads_back(n: nat)
    ensures
        decimal(n).len() >= 1,
        forall|i: int|
            0 <= i < decimal(n).len() ==> 0 <= digit_value(#[trigger] decimal(n)[i]) < 10,
        n == 0 ==> decimal(n) == seq!['0'],
        n > 0 ==> decimal(n)[0] != '0',
        number_of(decimal(n), 10) == n,
    decreases n,
{
    if n < 10 {
        digit_reads_back(n as int);
        assert(decimal(n).drop_last() =~= Seq::<char>::empty());
        assert(number_of(decimal(n).drop_last(), 10) == 0);
        assert(decimal(0) =~= seq!['0']);
    } else {
        decimal_reads_back(n / 10);
        digit_reads_back((n % 10) as int);
        assert(decimal(n).drop_last() =~= decimal(n / 10));
        assert(decimal(n)[0] == decimal(n / 10)[0]);
    }
}

/// The hexadecimal form keeps the number: its digits are hexadecimal digits,
/// the first is `0` for zero only, and they read back as the number.
pub proof fn hex_reads_back(n: nat)
    ensures
        hex(n).len() >= 1,
        forall|i: int| 0 <= i < hex(n).len() ==> 0 <= digit_value(#[trigger] hex(n)[i]) < 16,
        n == 0 ==> hex(n) == seq!['0'],
        n > 0 ==> hex(n)[0] != '0',
        number_of(hex(n), 16) == n,
    decreases n,
{
    if n < 16 {
        digit_reads_back(n as int);
        assert(hex(n).drop_last() =~= Seq::<char>::empty());
        assert(number_of(hex(n).drop_last(), 16) == 0);
        assert(hex(0) =~= seq!['0']);
    } else {
        hex_reads_back(n / 16);
        digit_reads_back((n % 16) as int);
        assert(hex(n).drop_last() =~= hex(n / 16));
        assert(hex(n)[0] == hex(n / 16)[0]);
    }
}

/// Taking one more part appends the separator, unless it is the first, and the part.
pub proof fn join_next(parts: Seq<Seq<char>>, sep: Seq<char>, i: int)
    requires
        0 <= i < parts.len(),
    ensures
        join(parts.take(i + 1), sep) == if i == 0 {
            parts[i]
        } else {
            join(parts.take(i), sep) + sep + parts[i]
        },
{
    let head = parts.take(i + 1);
    assert(head.last() == parts[i]);
    assert(head.drop_last() =~= parts.take(i));
    if i == 0 {
        assert(head[0] == parts[i]);
    }
}

/// Appends the digit for `d`.
pub(crate) fn push_digit(out: &mut String, d: u8)
    requires
        d < 16,
    ensures
        final(out)@ == old(out)@.push(digit_char(d as int)),
{
    let table = "0123456789abcdef";
    proof {
        reveal_strlit("0123456789abcdef");
        assert(table@ =~= digit_table());
    }
    let start: usize = d as usize;
    let digit = table.substring_ascii(start, start + 1);
    assert(digit@ =~= seq![digit_char(d as int)]);
    out.append(digit);
    assert(out@ =~= old(out)@.push(digit_char(d as int)));
}

/// Appends a byte as two hexadecimal digits.
pub(crate) fn push_hex2(out: &mut String, v: u8)
    ensures
        final(out)@ == old(out)@ + hex2(v),
{
    push_digit(out, v / 16);
    push_digit(out, v % 16);
    assert(out@ =~= old(out)@ + hex2(v));
}

/// Appends a 16-bit value as four hexadecimal digits.
pub(crate) fn push_hex4(out: &mut String, v: u16)
    ensures
        final(out)@ == old(out)@ + hex4(v),
{
    push_digit(out, (v / 4096) as u8);
    push_digit(out, (v / 256 % 16) as u8);
    push_digit(out, (v / 16 % 16) as u8);
    push_digit(out, (v % 16) as u8);
    assert(out@ =~= old(out)@ + hex4(v));
}

/// Appends a number in hexadecimal without leading zeros.
fn push_hex(out: &mut String, n: u16)
    ensures
        final(out)@ == old(out)@ + hex(n as nat),
    decreases n,
{
    if n >= 16 {
        push_hex(out, n / 16);
    }
    push_digit(out, (n % 16) as u8);
    assert(out@ =~= old(out)@ + hex(n as nat));
}

/// Appends `0x` and a number in hexadecimal without leading zeros.
pub(crate) fn push_short_hex(out: &mut String, n: u16)
    ensures
        final(out)@ == old(out)@ + short_hex(n as nat),
{
    proof {
        reveal_strlit("0x");
    }
    out.append("0x");
    push_hex(out, n);
    assert(out@ =~= old(out)@ + short_hex(n as nat));
}

/// Appends a number in decimal without leading zeros.
pub(crate) fn push_decimal(out: &mut String, n: u128)
    ensures
        final(out)@ == old(out)@ + decimal(n as nat),
    decreases n,
{
    if n >= 10 {
        push_decimal(out, n / 10);
    }
    push_digit(out, (n % 10) as u8);
    assert(out@ =~= old(out)@ + decimal(n as nat));
}

/// Appends a byte sequence as a bracketed list of two-digit values.
pub(crate) fn push_hex_list(out: &mut String, bytes: &[u8])
    ensures
        final(out)@ == old(out)@ + hex_list(bytes@),
{
    let ghost items = hex_items(bytes@);
    let ghost sep = seq![' '];
    proof {
        reveal_strlit("[");
        reveal_strlit(" ");
        reveal_strlit("]");
    }
    out.append("[");
    let n = bytes.len();
    let mut i: usize = 0;
    while i < n
        invariant
            i <= n,
            n == bytes@.len(),
            items == hex_items(bytes@),
            sep == seq![' '],
            " "@ == sep,
            out@ == old(out)@ + seq!['['] + join(items.take(i as int), sep),
        decreases n - i,
    {
        if i > 0 {
            out.append(" ");
        }
        push_hex2(out, bytes[i]);
        proof {
            join_next(items, sep, i as int);
        }
        i += 1;
    }
    out.append("]");
    assert(items.take(n as int) =~= items);
}

/// Appends an optional byte sequence.
pub(crate) fn push_opt_hex_list(out: &mut String, bytes: Option<&[u8]>)
    ensures
        final(out)@ == old(out)@ + opt_hex_list(bytes_of(bytes)),
{
    match bytes {
        Some(b) => {
            out.append("Some(");
            push_hex_list(out, b);
            out.append(")");
            assert(out@ =~= old(out)@ + ("Some("@ + hex_list(b@) + ")"@));
        },
        None => {
            out.append("None");
        },
    }
}

} // verus!
