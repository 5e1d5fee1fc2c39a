//! The outside primitives the vault is built on: Argon2 key derivation,
//! AES-256-CBC, base64, random bytes and the JSON form of the entry table.
//!
//! Nothing in this file is proved. Each function hands its arguments to one
//! outside function, and its contract is taken on trust.

use crate::string_map::StringMap;
use openssl::error::ErrorStack;
use std::collections::HashMap;
use std::string::FromUtf8Error;
use vstd::prelude::*;
use vstd::utf8::*;

verus! {

/// Length of a derived key: the key size of AES-256.
pub const KEY_LEN: usize = 32;

/// Length of an initialisation vector: one AES block.
pub const IV_LEN: usize = 16;

/// The longest input the base64 encoder takes: its output, with a
/// terminator, has to fit a signed 32-bit length.
pub const ENCODE_MAX: usize = 1_610_612_732;

/// The longest buffer the OpenSSL bindings take: a signed 32-bit length.
pub const C_INT_MAX: usize = 0x7fff_ffff;

/// The largest password and salt length Argon2 admits.
pub const ARGON2_MAX: usize = 0xffff_ffff;

/// The shortest salt Argon2 admits.
pub const ARGON2_MIN_SALT: usize = 8;

#[verifier::external_type_specification]
#[verifier::external_body]
pub struct ExErrorStack(openssl::error::ErrorStack);

#[verifier::external_type_specification]
#[verifier::external_body]
pub struct ExArgon2Error(argon2::Error);

#[verifier::external_type_specification]
#[verifier::external_body]
pub struct ExJsonError(serde_json::Error);

#[verifier::external_type_specification]
#[verifier::external_body]
pub struct ExFromUtf8Error(std::string::FromUtf8Error);

/// The 32 bytes that `argon2::hash_raw` computes from a password and a salt
/// under the crate's default configuration.
pub uninterp spec fn argon2_hash_raw(pass: Seq<u8>, salt: Seq<u8>) -> Seq<u8>;

/// What `openssl::symm::encrypt` returns under AES-256-CBC with padding:
/// the ciphertext, or `None` where it reports an error.
pub uninterp spec fn aes_256_cbc_encrypted(key: Seq<u8>, iv: Seq<u8>, data: Seq<u8>) -> Option<
    Seq<u8>,
>;

/// What `openssl::symm::decrypt` returns under AES-256-CBC with padding:
/// the plaintext, or `None` where it reports an error (a length that is no
/// multiple of the block, a padding that is not valid).
pub uninterp spec fn aes_256_cbc_decrypted(key: Seq<u8>, iv: Seq<u8>, data: Seq<u8>) -> Option<
    Seq<u8>,
>;

/// The text that `openssl::base64::encode_block` returns.
pub uninterp spec fn base64_encoded(bytes: Seq<u8>) -> Seq<char>;

/// What `openssl::base64::decode_block` returns: the bytes, or `None` where
/// it reports an error.
pub uninterp spec fn base64_decoded(text: Seq<char>) -> Option<Seq<u8>>;

/// The table that `serde_json::from_str` reads from a JSON object of
/// strings, or `None` where the text is not such an object.
pub uninterp spec fn json_entries(text: Seq<char>) -> Option<Map<Seq<char>, Seq<char>>>;

/// Whether Argon2 accepts this password and salt: the only two inputs whose
/// lengths the default configuration leaves open.
pub open spec fn derivable(pass: Seq<u8>, salt: Seq<u8>) -> bool {
    pass.len() <= ARGON2_MAX && ARGON2_MIN_SALT <= salt.len() <= ARGON2_MAX
}

/// Calls `openssl::rand::rand_bytes` on a fresh buffer of `len` bytes.
/// Trusted: on success the buffer still has `len` bytes. Nothing is said of
/// their values.
#[verifier::external_body]
pub(crate) fn rand_bytes(len: usize) -> (r: Result<Vec<u8>, ErrorStack>)
    requires
        len <= C_INT_MAX,
    ensures
        r matches Ok(buf) ==> buf@.len() == len,
{
    let mut buf = vec![0u8; len];
    openssl::rand::rand_bytes(&mut buf)?;
    Ok(buf)
}

/// Calls `argon2::hash_raw` with `argon2::Config::default()`.
/// Trusted: it fails exactly where the password is longer than 2^32 - 1
/// bytes or the salt is shorter than 8 or longer than 2^32 - 1 bytes, and
/// otherwise returns the 32-byte hash of the two.
#[verifier::external_body]
pub(crate) fn key(pass: &[u8], salt: &[u8]) -> (r: Result<Vec<u8>, argon2::Error>)
    ensures
        r is Ok <==> derivable(pass@, salt@),
        r matches Ok(k) ==> k@ == argon2_hash_raw(pass@, salt@) && k@.len() == KEY_LEN,
{
    argon2::hash_raw(pass, salt, &argon2::Config::default())
}

/// Calls `openssl::symm::encrypt` with `Cipher::aes_256_cbc()`.
/// Trusted: the outcome is a function of key, vector and data, and what it
/// returns decrypts under the same key and vector to the data.
#[verifier::external_body]
pub(crate) fn encrypt(key: &[u8], iv: &[u8], data: &[u8]) -> (r: Result<Vec<u8>, ErrorStack>)
    requires
        key@.len() == KEY_LEN,
        iv@.len() == IV_LEN,
        data@.len() <= C_INT_MAX,
    ensures
        r is Ok <==> aes_256_cbc_encrypted(key@, iv@, data@) is Some,
        r matches Ok(c) ==> aes_256_cbc_encrypted(key@, iv@, data@) == Some(c@)
            && aes_256_cbc_decrypted(key@, iv@, c@) == Some(data@),
{
    openssl::symm::encrypt(openssl::symm::Cipher::aes_256_cbc(), key, Some(iv), data)
}

/// Calls `openssl::symm::decrypt` with `Cipher::aes_256_cbc()`.
/// Trusted: the outcome is a function of key, vector and data.
#[verifier::external_body]
pub(crate) fn decrypt(key: &[u8], iv: &[u8], data: &[u8]) -> (r: Result<Vec<u8>, ErrorStack>)
    requires
        key@.len() == KEY_LEN,
        iv@.len() == IV_LEN,
        data@.len() <= C_INT_MAX,
    ensures
        r is Ok <==> aes_256_cbc_decrypted(key@, iv@, data@) is Some,
        r matches Ok(p) ==> aes_256_cbc_decrypted(key@, iv@, data@) == Some(p@),
{
    openssl::symm::decrypt(openssl::symm::Cipher::aes_256_cbc(), key, Some(iv), data)
}

/// Calls `openssl::base64::encode_block`.
/// Trusted: the text is a function of the bytes, decodes back to them, and
/// its length fits a signed 32-bit integer.
#[verifier::external_body]
pub(crate) fn encode(bytes: &[u8]) -> (r: String)
    requires
        bytes@.len() <= ENCODE_MAX,
    ensures
        r@ == base64_encoded(bytes@),
        base64_decoded(r@) == Some(bytes@),
        encode_utf8(r@).len() <= C_INT_MAX,
{
    openssl::base64::encode_block(bytes)
}

/// Calls `openssl::base64::decode_block`.
/// Trusted: the outcome is a function of the text.
#[verifier::external_body]
pub(crate) fn decode(text: &str) -> (r: Result<Vec<u8>, ErrorStack>)
    requires
        encode_utf8(text@).len() <= C_INT_MAX,
    ensures
        r is Ok <==> base64_decoded(text@) is Some,
        r matches Ok(bytes) ==> base64_decoded(text@) == Some(bytes@),
{
    openssl::base64::decode_block(text)
}

/// Calls `String::from_utf8`.
/// Trusted: it succeeds exactly on well-formed UTF-8, with the text those
/// bytes encode.
#[verifier::external_body]
pub(crate) fn utf8(bytes: Vec<u8>) -> (r: Result<String, FromUtf8Error>)
    ensures
        r is Ok <==> valid_utf8(bytes@),
        r matches Ok(text) ==> text@ == decode_utf8(bytes@),
{
    String::from_utf8(bytes)
}

/// Calls `serde_json::to_string_pretty` on the table as a map of strings.
/// Trusted: the text it writes reads back, by `serde_json::from_str`, as
/// the same table. The order of the members is left open.
#[verifier::external_body]
pub(crate) fn entries_to_json(table: &StringMap) -> (r: Result<String, serde_json::Error>)
    ensures
        r matches Ok(text) ==> json_entries(text@) == Some(table@),
{
    let map: HashMap<&String, &String> = table.list.iter().map(|p| (&p.0, &p.1)).collect();
    serde_json::to_string_pretty(&map)
}

/// Calls `serde_json::from_str` for a map of strings.
/// Trusted: the outcome is a function of the text; the table holds each
/// member of the object once.
#[verifier::external_body]
pub(crate) fn entries_from_json(text: &str) -> (r: Result<StringMap, serde_json::Error>)
    ensures
        r is Ok <==> json_entries(text@) is Some,
        r matches Ok(table) ==> json_entries(text@) == Some(table@),
{
    let map: HashMap<String, String> = serde_json::from_str(text)?;
    Ok(StringMap { list: map.into_iter().collect() })
}

} // verus!
