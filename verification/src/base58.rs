//! The Base58 character-set check that both secrets must pass.
//!
//! Only decodability matters to the pipeline: the decoded bytes are
//! discarded. A string decodes under the Bitcoin Base58 alphabet exactly when
//! every one of its characters is one of the 58 alphabet characters
//! (digits without `0`, upper case without `I` and `O`, lower case without
//! `l`); any other character, ASCII or not, makes decoding fail.

use vstd::prelude::*;
use vstd::utf8::{encode_utf8, is_ascii_chars, is_ascii_chars_encode_utf8};

verus! {

/// One character of the Bitcoin Base58 alphabet.
pub open spec fn is_base58_char(c: char) -> bool {
    ('1' <= c && c <= '9') || ('A' <= c && c <= 'H') || ('J' <= c && c <= 'N') || ('P' <= c && c
        <= 'Z') || ('a' <= c && c <= 'k') || ('m' <= c && c <= 'z')
}

/// A string made only of Bitcoin Base58 alphabet characters: exactly the
/// strings that Base58 decoding accepts.
pub open spec fn is_base58(s: Seq<char>) -> bool {
    forall|i: int| 0 <= i < s.len() ==> is_base58_char(#[trigger] s[i])
}

/// Base58 characters are ASCII, so such a string has one byte per character.
pub proof fn lemma_base58_is_ascii(s: Seq<char>)
    requires
        is_base58(s),
    ensures
        is_ascii_chars(s),
        encode_utf8(s).len() == s.len(),
{
    assert forall|i: int| 0 <= i < s.len() implies '\0' <= #[trigger] s[i] <= '\u{7f}' by {
        assert(is_base58_char(s[i]));
    }
    is_ascii_chars_encode_utf8(s);
}

/// Relies on bs58::decode with its default (Bitcoin) alphabet: decoding
/// fails exactly on the first input byte that is not one of the 58 alphabet
/// bytes (non-ASCII bytes included), and the `Vec` target never reports its
/// buffer too small; so decoding succeeds if and only if every character of
/// the string is an alphabet character.
#[verifier::external_body]
pub(crate) fn decodes_as_base58(s: &str) -> (r: bool)
    ensures
        r == is_base58(s@),
{
    bs58::decode(s).into_vec().is_ok()
}

} // verus!
