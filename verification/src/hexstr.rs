//! Lowercase hex encoding of byte strings, and its inverse at the
//! specification level: raw transactions travel hex-encoded inside JSON.

use vstd::prelude::*;
use vstd::string::StrSliceExecFns;

verus! {

use vstd::arithmetic::div_mod::lemma_fundamental_div_mod;

/// The hex digit character for a nibble value; `'?'` outside `0..16`.
pub open spec fn hex_digit(n: int) -> char {
    if n == 0 {
        '0'
    } else if n == 1 {
        '1'
    } else if n == 2 {
        '2'
    } else if n == 3 {
        '3'
    } else if n == 4 {
        '4'
    } else if n == 5 {
        '5'
    } else if n == 6 {
        '6'
    } else if n == 7 {
        '7'
    } else if n == 8 {
        '8'
    } else if n == 9 {
        '9'
    } else if n == 10 {
        'a'
    } else if n == 11 {
        'b'
    } else if n == 12 {
        'c'
    } else if n == 13 {
        'd'
    } else if n == 14 {
        'e'
    } else if n == 15 {
        'f'
    } else {
        '?'
    }
}

/// The nibble value of a hex digit character, upper or lower case; 16 for
/// any character that is not a hex digit.
pub open spec fn hex_val(c: char) -> int {
    if c == '0' {
        0
    } else if c == '1' {
        1
    } else if c == '2' {
        2
    } else if c == '3' {
        3
    } else if c == '4' {
        4
    } else if c == '5' {
        5
    } else if c == '6' {
        6
    } else if c == '7' {
        7
    } else if c == '8' {
        8
    } else if c == '9' {
        9
    } else if c == 'a' || c == 'A' {
        10
    } else if c == 'b' || c == 'B' {
        11
    } else if c == 'c' || c == 'C' {
        12
    } else if c == 'd' || c == 'D' {
        13
    } else if c == 'e' || c == 'E' {
        14
    } else if c == 'f' || c == 'F' {
        15
    } else {
        16
    }
}

pub open spec fn is_hex_digit(c: char) -> bool {
    hex_val(c) < 16
}

/// The two lowercase hex digits of one byte, high nibble first.
pub open spec fn hex_of_byte(b: u8) -> Seq<char> {
    seq![hex_digit(b as int / 16), hex_digit(b as int % 16)]
}

/// The lowercase hex encoding of a byte string.
pub open spec fn hex_of_bytes(bs: Seq<u8>) -> Seq<char>
    decreases bs.len(),
{
    if bs.len() == 0 {
        Seq::empty()
    } else {
        hex_of_byte(bs.first()) + hex_of_bytes(bs.drop_first())
    }
}

/// A well-formed hex string: even length, hex digits throughout.
pub open spec fn is_hex_seq(s: Seq<char>) -> bool {
    s.len() % 2 == 0 && forall|i: int| 0 <= i < s.len() ==> is_hex_digit(#[trigger] s[i])
}

/// The byte string a hex string stands for (meaningful on well-formed input).
pub open spec fn bytes_of_hex(s: Seq<char>) -> Seq<u8>
    decreases s.len(),
{
    if s.len() < 2 {
        Seq::empty()
    } else {
        seq![(hex_val(s[0]) * 16 + hex_val(s[1])) as u8] + bytes_of_hex(s.skip(2))
    }
}

/// Law: hex decoding inverts hex encoding, over every byte string.
pub proof fn lemma_hex_round_trip(bs: Seq<u8>)
    ensures
        is_hex_seq(hex_of_bytes(bs)),
        bytes_of_hex(hex_of_bytes(bs)) == bs,
    decreases bs.len(),
{
    if bs.len() == 0 {
        assert(bytes_of_hex(hex_of_bytes(bs)) =~= bs);
    } else {
        let b = bs.first();
        let rest = bs.drop_first();
        let s = hex_of_bytes(bs);
        lemma_hex_round_trip(rest);
        lemma_fundamental_div_mod(b as int, 16);
        assert(s == hex_of_byte(b) + hex_of_bytes(rest));
        assert(0 <= b as int / 16 < 16 && 0 <= b as int % 16 < 16);
        assert(s[0] == hex_digit(b as int / 16) && s[1] == hex_digit(b as int % 16));
        assert(is_hex_digit(s[0]) && is_hex_digit(s[1]));
        assert forall|i: int| 0 <= i < s.len() implies is_hex_digit(#[trigger] s[i]) by {
            if i >= 2 {
                assert(s[i] == hex_of_bytes(rest)[i - 2]);
            }
        }
        assert(s.skip(2) =~= hex_of_bytes(rest));
        assert(hex_val(s[0]) == b as int / 16 && hex_val(s[1]) == b as int % 16);
        assert((hex_val(s[0]) * 16 + hex_val(s[1])) as u8 == b);
        assert(bs =~= seq![b] + rest);
        assert(bytes_of_hex(s) =~= bs);
    }
}

/// The hex digit character for one nibble.
pub fn hex_digit_char(n: u8) -> (c: char)
    requires
        n < 16,
    ensures
        c == hex_digit(n as int),
{
    if n == 0 {
        '0'
    } else if n == 1 {
        '1'
    } else if n == 2 {
        '2'
    } else if n == 3 {
        '3'
    } else if n == 4 {
        '4'
    } else if n == 5 {
        '5'
    } else if n == 6 {
        '6'
    } else if n == 7 {
        '7'
    } else if n == 8 {
        '8'
    } else if n == 9 {
        '9'
    } else if n == 10 {
        'a'
    } else if n == 11 {
        'b'
    } else if n == 12 {
        'c'
    } else if n == 13 {
        'd'
    } else if n == 14 {
        'e'
    } else {
        'f'
    }
}

/// The nibble value of a hex digit character; 16 for any other character.
pub fn hex_val_u8(c: char) -> (v: u8)
    ensures
        v as int == hex_val(c),
{
    if c == '0' {
        0
    } else if c == '1' {
        1
    } else if c == '2' {
        2
    } else if c == '3' {
        3
    } else if c == '4' {
        4
    } else if c == '5' {
        5
    } else if c == '6' {
        6
    } else if c == '7' {
        7
    } else if c == '8' {
        8
    } else if c == '9' {
        9
    } else if c == 'a' || c == 'A' {
        10
    } else if c == 'b' || c == 'B' {
        11
    } else if c == 'c' || c == 'C' {
        12
    } else if c == 'd' || c == 'D' {
        13
    } else if c == 'e' || c == 'E' {
        14
    } else if c == 'f' || c == 'F' {
        15
    } else {
        16
    }
}

/// Relies on std's `String::push`: appends exactly one character.
#[verifier::external_body]
pub(crate) fn push_char(s: &mut String, c: char)
    ensures
        final(s)@ == old(s)@ + seq![c],
{
    s.push(c);
}

/// Encodes a byte string as lowercase hex.
pub fn hex_encode(bytes: &[u8]) -> (r: String)
    ensures
        r@ == hex_of_bytes(bytes@),
{
    let mut r = String::new();
    let n = bytes.len();
    assert(bytes@.skip(0) =~= bytes@);
    for i in 0..n
        invariant
            n == bytes@.len(),
            hex_of_bytes(bytes@) =~= r@ + hex_of_bytes(bytes@.skip(i as int)),
    {
        let b = bytes[i];
        assert(b >> 4 == b / 16 && (b & 0x0f) == b % 16 && b >> 4 < 16 && (b & 0x0f)
            < 16) by (bit_vector);
        push_char(&mut r, hex_digit_char(b >> 4));
        push_char(&mut r, hex_digit_char(b & 0x0f));
        proof {
            let rest = bytes@.skip(i as int);
            assert(rest.first() == bytes@[i as int]);
            assert(rest.drop_first() =~= bytes@.skip(i + 1));
        }
    }
    assert(bytes@.skip(n as int) =~= Seq::<u8>::empty());
    r
}

/// Decodes a hex string, accepting upper and lower case digits; `None`
/// exactly when the input is not a well-formed hex string.
pub fn hex_decode(s: &str) -> (r: Option<Vec<u8>>)
    ensures
        match r {
            Some(v) => is_hex_seq(s@) && v@ == bytes_of_hex(s@),
            None => !is_hex_seq(s@),
        },
{
    let n = s.unicode_len();
    if n % 2 != 0 {
        return None;
    }
    let mut out: Vec<u8> = Vec::new();
    let mut i: usize = 0;
    assert(s@.skip(0) =~= s@);
    while i < n
        invariant
            i % 2 == 0,
            i <= n,
            n == s@.len(),
            n % 2 == 0,
            forall|j: int| 0 <= j < i ==> is_hex_digit(#[trigger] s@[j]),
            bytes_of_hex(s@) =~= out@ + bytes_of_hex(s@.skip(i as int)),
        decreases n - i,
    {
        proof {
            assert(i + 2 <= n);
        }
        let hi = hex_val_u8(s.get_char(i));
        let lo = hex_val_u8(s.get_char(i + 1));
        if hi >= 16 || lo >= 16 {
            return None;
        }
        out.push(hi * 16 + lo);
        proof {
            let rest = s@.skip(i as int);
            assert(rest[0] == s@[i as int] && rest[1] == s@[i + 1]);
            assert(rest.skip(2) =~= s@.skip(i + 2));
        }
        i = i + 2;
    }
    assert(s@.skip(n as int) =~= Seq::<char>::empty());
    Some(out)
}

} // verus!
