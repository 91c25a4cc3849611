//! Content hashes: the BLAKE3 digest of an archive, written in lowercase hexadecimal.

use vstd::prelude::*;
use vstd::string::*;
use crate::error::{HubError, HubErrorView};
use crate::strings::str_eq;

verus! {

/// The BLAKE3 digest of `bytes`.
pub uninterp spec fn blake3_digest(bytes: Seq<u8>) -> Seq<u8>;

/// Hashes `bytes` with `blake3::hash` and copies the digest out of the
/// `Hash` (`Hash::as_bytes`). The digest depends on the bytes alone and is
/// 32 bytes long.
#[verifier::external_body]
fn blake3_hash(bytes: &[u8]) -> (digest: Vec<u8>)
    ensures
        digest@ == blake3_digest(bytes@),
        digest@.len() == 32,
{
    blake3::hash(bytes).as_bytes().to_vec()
}

/// The lowercase hexadecimal digit of a value below 16.
pub open spec fn hex_digit(value: int) -> char {
    if value == 0 {
        '0'
    } else if value == 1 {
        '1'
    } else if value == 2 {
        '2'
    } else if value == 3 {
        '3'
    } else if value == 4 {
        '4'
    } else if value == 5 {
        '5'
    } else if value == 6 {
        '6'
    } else if value == 7 {
        '7'
    } else if value == 8 {
        '8'
    } else if value == 9 {
        '9'
    } else if value == 10 {
        'a'
    } else if value == 11 {
        'b'
    } else if value == 12 {
        'c'
    } else if value == 13 {
        'd'
    } else if value == 14 {
        'e'
    } else {
        'f'
    }
}

/// Whether `c` is a lowercase hexadecimal digit.
pub open spec fn is_hex_digit(c: char) -> bool {
    exists|value: int| 0 <= value < 16 && c == #[trigger] hex_digit(value)
}

/// `bytes` in lowercase hexadecimal: two digits for every byte, the high one first.
pub open spec fn hex_of(bytes: Seq<u8>) -> Seq<char>
    decreases bytes.len(),
{
    if bytes.len() == 0 {
        Seq::empty()
    } else {
        hex_of(bytes.drop_last()).push(hex_digit(bytes.last() as int / 16)).push(
            hex_digit(bytes.last() as int % 16),
        )
    }
}

/// The content hash of `bytes`: their BLAKE3 digest in lowercase hexadecimal.
pub open spec fn content_hash(bytes: Seq<u8>) -> Seq<char> {
    hex_of(blake3_digest(bytes))
}

/// The lowercase hexadecimal digit of a value below 16.
fn digit(value: u8) -> (c: char)
    requires
        value < 16,
    ensures
        c == hex_digit(value as int),
{
    match value {
        0 => '0',
        1 => '1',
        2 => '2',
        3 => '3',
        4 => '4',
        5 => '5',
        6 => '6',
        7 => '7',
        8 => '8',
        9 => '9',
        10 => 'a',
        11 => 'b',
        12 => 'c',
        13 => 'd',
        14 => 'e',
        _ => 'f',
    }
}

/// `bytes` in lowercase hexadecimal.
pub fn to_hex(bytes: &[u8]) -> (hex: String)
    ensures
        hex@ == hex_of(bytes@),
{
    let mut hex = String::new();
    let mut i: usize = 0;
    assert(bytes@.take(0) =~= Seq::<u8>::empty());
    while i < bytes.len()
        invariant
            i <= bytes.len(),
            hex@ == hex_of(bytes@.take(i as int)),
        decreases bytes.len() - i,
    {
        let b = bytes[i];
        proof {
            assert(bytes@.take(i + 1).drop_last() =~= bytes@.take(i as int));
            assert(bytes@.take(i + 1).last() == b);
        }
        hex.push(digit(b / 16));
        hex.push(digit(b % 16));
        i += 1;
    }
    assert(bytes@.take(i as int) =~= bytes@);
    hex
}

/// The content hash of `bytes`: 64 lowercase hexadecimal digits.
pub fn hash_hex(bytes: &[u8]) -> (hash: String)
    ensures
        hash@ == content_hash(bytes@),
        hash@.len() == 64,
        forall|i: int| 0 <= i < 64 ==> is_hex_digit(#[trigger] hash@[i]),
{
    let digest = blake3_hash(bytes);
    proof {
        lemma_hex_shape(digest@);
    }
    to_hex(digest.as_slice())
}

/// Holds the digest that some bytes really have against the hash that was
/// announced for them: a mismatch is an error that names both.
pub fn check_digest(expected: &str, found: String) -> (r: Result<(), HubError>)
    ensures
        r is Ok <==> found@ == expected@,
        r matches Err(e) ==> e@ == HubErrorView::HashNotMatch(expected@, found@),
{
    if str_eq(found.as_str(), expected) {
        Ok(())
    } else {
        Err(HubError::HashNotMatch(expected.to_owned(), found))
    }
}

/// Accepts `bytes` as the archive with the announced `hash` exactly where
/// their content hash is `hash`.
pub fn verify_archive(hash: &str, bytes: &[u8]) -> (r: Result<(), HubError>)
    ensures
        r is Ok <==> content_hash(bytes@) == hash@,
        r matches Err(e) ==> e@ == HubErrorView::HashNotMatch(hash@, content_hash(bytes@)),
{
    check_digest(hash, hash_hex(bytes))
}

/// Hexadecimal text has two digits for every byte, and nothing but digits.
pub proof fn lemma_hex_shape(bytes: Seq<u8>)
    ensures
        hex_of(bytes).len() == 2 * bytes.len(),
        forall|i: int| 0 <= i < hex_of(bytes).len() ==> is_hex_digit(#[trigger] hex_of(bytes)[i]),
    decreases bytes.len(),
{
    if bytes.len() > 0 {
        lemma_hex_shape(bytes.drop_last());
        let before = hex_of(bytes.drop_last());
        let high = bytes.last() as int / 16;
        let low = bytes.last() as int % 16;
        assert forall|i: int| 0 <= i < hex_of(bytes).len() implies is_hex_digit(
            #[trigger] hex_of(bytes)[i],
        ) by {
            if i < before.len() {
                assert(hex_of(bytes)[i] == before[i]);
            } else if i == before.len() {
                assert(hex_of(bytes)[i] == hex_digit(high));
            } else {
                assert(hex_of(bytes)[i] == hex_digit(low));
            }
        }
    }
}

} // verus!
