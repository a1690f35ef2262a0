//! Credential codec: reversible obfuscation of a secret string.
//!
//! The transform is a byte-wise keystream XOR with a fixed key followed by
//! base64 text encoding.  It is obfuscation, not confidentiality: anyone who
//! knows the key (or reads this source) can invert it.

use base64::Engine;
use vstd::prelude::*;

verus! {

use vstd::utf8::{decode_utf8, encode_utf8, valid_utf8};

/// Failure to invert the obfuscation: the text encoding is invalid or the
/// recovered bytes are not valid text.  Callers treat this as "no stored
/// credential".
#[derive(Debug, PartialEq, Eq, Structural, Clone, Copy)]
pub struct DecodeError;

/// The canonical base64 text of a byte sequence, as produced by the base64
/// crate's standard alphabet with padding.
pub uninterp spec fn b64_of(bytes: Seq<u8>) -> Seq<char>;

/// Relies on base64's `general_purpose::STANDARD` engine: `encode` maps any
/// byte sequence to its canonical padded base64 text.
#[verifier::external_body]
pub(crate) fn b64_encode(bytes: &Vec<u8>) -> (r: String)
    ensures
        r@ == b64_of(bytes@),
{
    base64::engine::general_purpose::STANDARD.encode(bytes)
}

/// Relies on base64's `general_purpose::STANDARD` engine: `decode` is strict
/// (canonical padding required, no trailing bits allowed), so it accepts
/// exactly the texts that `encode` produces and inverts `encode` on them.
#[verifier::external_body]
fn b64_decode(text: &str) -> (r: Result<Vec<u8>, DecodeError>)
    ensures
        forall|bs: Seq<u8>| text@ == b64_of(bs) ==> r is Ok && r->Ok_0@ == bs,
        r is Ok ==> text@ == b64_of(r->Ok_0@),
{
    match base64::engine::general_purpose::STANDARD.decode(text) {
        Ok(b) => Ok(b),
        Err(_) => Err(DecodeError),
    }
}

/// Relies on `String::from_utf8`: returns the UTF-8 decoding of the bytes and
/// fails exactly on byte sequences that are not valid UTF-8.
#[verifier::external_body]
fn string_from_utf8(bytes: Vec<u8>) -> (r: Result<String, DecodeError>)
    ensures
        match r {
            Ok(s) => valid_utf8(bytes@) && s@ == decode_utf8(bytes@),
            Err(_) => !valid_utf8(bytes@),
        },
{
    match String::from_utf8(bytes) {
        Ok(s) => Ok(s),
        Err(_) => Err(DecodeError),
    }
}

/// Each data byte XORed with the key byte at its index, the key repeating.
pub open spec fn xor_seq(data: Seq<u8>, key: Seq<u8>) -> Seq<u8>
    recommends
        key.len() > 0,
{
    Seq::new(data.len(), |i: int| data[i] ^ key[i % (key.len() as int)])
}

/// Applying the keystream twice gives the data back.
pub proof fn lemma_xor_involution(data: Seq<u8>, key: Seq<u8>)
    requires
        key.len() > 0,
    ensures
        xor_seq(xor_seq(data, key), key) =~= data,
{
    assert forall|i: int| 0 <= i < data.len() implies xor_seq(xor_seq(data, key), key)[i]
        == data[i] by {
        let k = key[i % (key.len() as int)];
        let d = data[i];
        assert((d ^ k) ^ k == d) by (bit_vector);
    }
}

fn xor_with_key(data: &Vec<u8>, key: &Vec<u8>) -> (r: Vec<u8>)
    requires
        key@.len() > 0,
    ensures
        r@ == xor_seq(data@, key@),
{
    let mut out: Vec<u8> = Vec::new();
    let mut i: usize = 0;
    while i < data.len()
        invariant
            key@.len() > 0,
            i <= data@.len(),
            out@.len() == i,
            forall|j: int| 0 <= j < i ==> out@[j] == data@[j] ^ key@[j % (key@.len() as int)],
        decreases data@.len() - i,
    {
        let b = data[i] ^ key[i % key.len()];
        out.push(b);
        i = i + 1;
    }
    assert(out@ =~= xor_seq(data@, key@));
    out
}

/// UTF-8 encodes at least one byte per character.
proof fn lemma_encode_utf8_len(chars: Seq<char>)
    ensures
        encode_utf8(chars).len() >= chars.len(),
    decreases chars.len(),
{
    if chars.len() > 0 {
        lemma_encode_utf8_len(chars.drop_first());
    }
}

/// The obfuscated text of a secret under a key: the secret's UTF-8 bytes,
/// XORed with the key's UTF-8 bytes as a repeating keystream, in base64.
pub open spec fn obfuscate_spec(secret: Seq<char>, key: Seq<char>) -> Seq<char> {
    b64_of(xor_seq(encode_utf8(secret), encode_utf8(key)))
}

/// Obfuscate a secret with a keystream XOR and encode the result as base64
/// text safe to store on disk.  Reversible by `xor_decrypt` with the same
/// key; this is obfuscation, not confidentiality.
pub fn xor_encrypt_decrypt(data: &str, key: &str) -> (r: String)
    requires
        key@.len() > 0,
    ensures
        r@ == obfuscate_spec(data@, key@),
{
    proof {
        lemma_encode_utf8_len(key@);
    }
    let data_bytes = data.as_bytes_vec();
    let key_bytes = key.as_bytes_vec();
    let mixed = xor_with_key(&data_bytes, &key_bytes);
    b64_encode(&mixed)
}

/// Invert `xor_encrypt_decrypt`: decode the base64 text, undo the keystream
/// XOR, and recover the secret.  Returns `Ok(s)` exactly when the input is
/// the obfuscation of `s` under the key; any corrupted input yields
/// `DecodeError`, never a panic.
pub fn xor_decrypt(encrypted_data: &str, key: &str) -> (r: Result<String, DecodeError>)
    requires
        key@.len() > 0,
    ensures
        forall|orig: Seq<char>|
            encrypted_data@ == obfuscate_spec(orig, key@) ==> (r matches Ok(s) && s@ == orig),
        r is Ok ==> encrypted_data@ == obfuscate_spec((r->Ok_0)@, key@),
{
    proof {
        lemma_encode_utf8_len(key@);
    }
    let key_bytes = key.as_bytes_vec();
    match b64_decode(encrypted_data) {
        Ok(mixed) => {
            let plain = xor_with_key(&mixed, &key_bytes);
            let r = string_from_utf8(plain);
            proof {
                broadcast use vstd::utf8::group_utf8_lib;

                assert forall|orig: Seq<char>|
                    encrypted_data@ == obfuscate_spec(orig, key@) implies (r matches Ok(s)
                    && s@ == orig) by {
                    let bs = xor_seq(encode_utf8(orig), encode_utf8(key@));
                    assert(mixed@ == bs);
                    lemma_xor_involution(encode_utf8(orig), encode_utf8(key@));
                    assert(plain@ == encode_utf8(orig));
                }
                if r is Ok {
                    let s = r->Ok_0;
                    assert(encode_utf8(s@) == plain@);
                    lemma_xor_involution(mixed@, encode_utf8(key@));
                    assert(xor_seq(plain@, encode_utf8(key@)) =~= mixed@);
                }
            }
            r
        },
        Err(e) => {
            proof {
                assert forall|orig: Seq<char>|
                    encrypted_data@ != obfuscate_spec(orig, key@) by {
                    let bs = xor_seq(encode_utf8(orig), encode_utf8(key@));
                    if encrypted_data@ == b64_of(bs) {
                        assert(false);
                    }
                }
            }
            Err(e)
        },
    }
}

/// The obfuscation round-trips: revealing what was obfuscated under the
/// same key gives the secret back, for every secret and every non-empty
/// key.  Proved from the contracts of the two transforms alone.
pub fn obfuscate_then_reveal(data: &str, key: &str) -> (r: Result<String, DecodeError>)
    requires
        key@.len() > 0,
    ensures
        r matches Ok(s) && s@ == data@,
{
    let encoded = xor_encrypt_decrypt(data, key);
    xor_decrypt(encoded.as_str(), key)
}

} // verus!
