//! The raw key formatter: SHA3-256 over the stretched secret's text,
//! emitted as 64 lowercase hex characters.

use sha3::Digest;
use vstd::prelude::*;

verus! {

/// The SHA3-256 digest of a byte string: 32 bytes, a function of the input
/// alone.
pub uninterp spec fn sha3_256_of(bytes: Seq<u8>) -> Seq<u8>;

/// Relies on sha3's Sha3_256 (through the digest traits): the digest is 32
/// bytes and depends on the input bytes alone.
#[verifier::external_body]
pub(crate) fn sha3_256(input: &[u8]) -> (r: Vec<u8>)
    ensures
        r@ == sha3_256_of(input@),
        r@.len() == 32,
{
    sha3::Sha3_256::digest(input).to_vec()
}

/// A lowercase hex digit character.
pub open spec fn is_hex_char(c: char) -> bool {
    ('0' <= c && c <= '9') || ('a' <= c && c <= 'f')
}

/// The lowercase hex character for one value below 16.
pub open spec fn hex_digit(v: u8) -> char
    recommends
        v < 16,
{
    if v == 0 {
        '0'
    } else if v == 1 {
        '1'
    } else if v == 2 {
        '2'
    } else if v == 3 {
        '3'
    } else if v == 4 {
        '4'
    } else if v == 5 {
        '5'
    } else if v == 6 {
        '6'
    } else if v == 7 {
        '7'
    } else if v == 8 {
        '8'
    } else if v == 9 {
        '9'
    } else if v == 10 {
        'a'
    } else if v == 11 {
        'b'
    } else if v == 12 {
        'c'
    } else if v == 13 {
        'd'
    } else if v == 14 {
        'e'
    } else {
        'f'
    }
}

/// The lowercase hex encoding of a byte string: two characters per byte,
/// high nibble first.
pub open spec fn hex_of(bytes: Seq<u8>) -> Seq<char>
    decreases bytes.len(),
{
    if bytes.len() == 0 {
        Seq::empty()
    } else {
        hex_of(bytes.drop_last()) + seq![
            hex_digit(bytes.last() / 16),
            hex_digit(bytes.last() % 16),
        ]
    }
}

/// Hex encoding yields two characters per byte, all of them lowercase hex
/// digits.
pub proof fn lemma_hex_of_shape(bytes: Seq<u8>)
    ensures
        hex_of(bytes).len() == 2 * bytes.len(),
        forall|i: int| 0 <= i < hex_of(bytes).len() ==> is_hex_char(#[trigger] hex_of(bytes)[i]),
    decreases bytes.len(),
{
    if bytes.len() == 0 {
    } else {
        lemma_hex_of_shape(bytes.drop_last());
        assert(hex_digit(bytes.last() / 16) == hex_of(bytes)[2 * bytes.len() - 2]);
        assert(hex_digit(bytes.last() % 16) == hex_of(bytes)[2 * bytes.len() - 1]);
        assert(is_hex_char(hex_digit(bytes.last() / 16)));
        assert(is_hex_char(hex_digit(bytes.last() % 16)));
    }
}

/// A one-character string holding the hex character for `v`.
fn hex_digit_str(v: u8) -> (r: &'static str)
    requires
        v < 16,
    ensures
        r@ =~= seq![hex_digit(v)],
{
    let r: &'static str = if v == 0 {
        "0"
    } else if v == 1 {
        "1"
    } else if v == 2 {
        "2"
    } else if v == 3 {
        "3"
    } else if v == 4 {
        "4"
    } else if v == 5 {
        "5"
    } else if v == 6 {
        "6"
    } else if v == 7 {
        "7"
    } else if v == 8 {
        "8"
    } else if v == 9 {
        "9"
    } else if v == 10 {
        "a"
    } else if v == 11 {
        "b"
    } else if v == 12 {
        "c"
    } else if v == 13 {
        "d"
    } else if v == 14 {
        "e"
    } else {
        "f"
    };
    proof {
        reveal_strlit("0");
        reveal_strlit("1");
        reveal_strlit("2");
        reveal_strlit("3");
        reveal_strlit("4");
        reveal_strlit("5");
        reveal_strlit("6");
        reveal_strlit("7");
        reveal_strlit("8");
        reveal_strlit("9");
        reveal_strlit("a");
        reveal_strlit("b");
        reveal_strlit("c");
        reveal_strlit("d");
        reveal_strlit("e");
        reveal_strlit("f");
    }
    r
}

/// Encodes a byte string as lowercase hex, two characters per byte.
pub fn to_hex(input: &[u8]) -> (r: String)
    ensures
        r@ == hex_of(input@),
{
    let mut out = String::new();
    let mut i: usize = 0;
    while i < input.len()
        invariant
            i <= input@.len(),
            out@ == hex_of(input@.take(i as int)),
        decreases input@.len() - i,
    {
        let b = input[i];
        out.append(hex_digit_str(b / 16));
        out.append(hex_digit_str(b % 16));
        proof {
            let t = input@.take(i + 1 as int);
            assert(t.drop_last() =~= input@.take(i as int));
            assert(t.last() == input@[i as int]);
            assert(out@ =~= hex_of(t));
        }
        i = i + 1;
    }
    proof {
        assert(input@.take(input@.len() as int) =~= input@);
    }
    out
}

/// Formats a stretched secret as the raw key: the SHA3-256 digest of its
/// bytes, hex-encoded as exactly 64 lowercase hex characters.
pub fn raw_key_from_stretched(stretched: &[u8]) -> (r: String)
    ensures
        r@ == hex_of(sha3_256_of(stretched@)),
        r@.len() == 64,
        forall|i: int| 0 <= i < r@.len() ==> is_hex_char(#[trigger] r@[i]),
{
    let digest = sha3_256(stretched);
    let r = to_hex(digest.as_slice());
    proof {
        lemma_hex_of_shape(digest@);
    }
    r
}

} // verus!
