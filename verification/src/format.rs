//! Text forms of numbers: lowercase hexadecimal of bytes, the hyphenated
//! form of 128-bit identifiers, and decimal.

use vstd::prelude::*;
use crate::text::push_char;

verus! {

/// The lowercase hexadecimal digit of `n` (`0 <= n < 16`).
pub open spec fn hex_digit(n: int) -> char {
    if n < 10 { (n + 48) as char } else { (n + 87) as char }
}

/// The two hexadecimal digits of a byte, high nibble first.
pub open spec fn byte_hex(b: u8) -> Seq<char> {
    seq![hex_digit((b / 16) as int), hex_digit((b % 16) as int)]
}

/// Lowercase hexadecimal of a byte string, two digits per byte.
pub open spec fn hex_lower(bs: Seq<u8>) -> Seq<char>
    decreases bs.len(),
{
    if bs.len() == 0 {
        Seq::empty()
    } else {
        hex_lower(bs.drop_last()) + byte_hex(bs.last())
    }
}

/// Byte `i` (0 = most significant) of a 128-bit value.
pub open spec fn be_byte(u: u128, i: int) -> u8 {
    ((u >> ((120 - 8 * i) as u32)) & 0xffu128) as u8
}

/// The 16 bytes of a 128-bit value, most significant first.
pub open spec fn be_bytes(u: u128) -> Seq<u8> {
    Seq::new(16, |i: int| be_byte(u, i))
}

/// The hyphenated form of the first `k` bytes: lowercase hex, with a hyphen
/// before bytes 4, 6, 8 and 10.
pub open spec fn hyphenated_prefix(bs: Seq<u8>, k: int) -> Seq<char>
    decreases k,
{
    if k <= 0 {
        Seq::empty()
    } else {
        hyphenated_prefix(bs, k - 1)
            + (if k - 1 == 4 || k - 1 == 6 || k - 1 == 8 || k - 1 == 10 { seq!['-'] } else { Seq::empty() })
            + byte_hex(bs[k - 1])
    }
}

/// The hyphenated text of a 128-bit identifier (8-4-4-4-12 hex digits).
pub open spec fn uuid_text(u: u128) -> Seq<char> {
    hyphenated_prefix(be_bytes(u), 16)
}

/// Decimal digits of `n`, without leading zeros.
pub open spec fn dec_text(n: nat) -> Seq<char>
    decreases n,
{
    if n < 10 {
        seq![(n + 48) as char]
    } else {
        dec_text(n / 10).push(((n % 10) + 48) as char)
    }
}

fn hex_char(n: u8) -> (c: char)
    requires
        n < 16,
    ensures
        c == hex_digit(n as int),
{
    if n < 10 { (n + 48) as char } else { (n + 87) as char }
}

fn push_byte_hex(s: &mut String, b: u8)
    ensures
        final(s)@ == old(s)@ + byte_hex(b),
{
    push_char(s, hex_char(b / 16));
    push_char(s, hex_char(b % 16));
    assert(final(s)@ =~= old(s)@ + byte_hex(b));
}

/// Lowercase hexadecimal of `bytes`.
pub fn to_hex(bytes: &[u8]) -> (r: String)
    ensures
        r@ == hex_lower(bytes@),
{
    let mut s = String::new();
    let mut i: usize = 0;
    while i < bytes.len()
        invariant
            i <= bytes@.len(),
            s@ == hex_lower(bytes@.take(i as int)),
        decreases bytes@.len() - i,
    {
        let ghost before = bytes@.take(i as int);
        push_byte_hex(&mut s, bytes[i]);
        assert(bytes@.take(i as int + 1).drop_last() =~= before);
        i = i + 1;
    }
    assert(bytes@.take(bytes@.len() as int) =~= bytes@);
    s
}

fn byte_of(u: u128, i: usize) -> (b: u8)
    requires
        i < 16,
    ensures
        b == be_byte(u, i as int),
{
    let shift: u32 = (120 - 8 * i) as u32;
    let x: u128 = (u >> shift) & 0xffu128;
    assert(x < 256) by (bit_vector)
        requires
            x == (u >> shift) & 0xffu128,
    ;
    x as u8
}

/// The hyphenated text of a 128-bit identifier.
pub fn uuid_string(u: u128) -> (r: String)
    ensures
        r@ == uuid_text(u),
{
    let mut s = String::new();
    let mut i: usize = 0;
    while i < 16
        invariant
            i <= 16,
            s@ == hyphenated_prefix(be_bytes(u), i as int),
        decreases 16 - i,
    {
        if i == 4 || i == 6 || i == 8 || i == 10 {
            push_char(&mut s, '-');
        }
        push_byte_hex(&mut s, byte_of(u, i));
        i = i + 1;
    }
    s
}

/// Decimal text of `n`.
pub fn decimal(n: u64) -> (r: String)
    ensures
        r@ == dec_text(n as nat),
    decreases n,
{
    if n < 10 {
        let mut s = String::new();
        push_char(&mut s, ((n as u8) + 48) as char);
        assert(s@ =~= dec_text(n as nat));
        s
    } else {
        let mut s = decimal(n / 10);
        push_char(&mut s, (((n % 10) as u8) + 48) as char);
        s
    }
}

} // verus!
