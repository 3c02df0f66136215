//! The credential cipher: authenticated encryption of a secret under a key
//! derived from the operator's master key.
//!
//! A stored blob is the hexadecimal text of `nonce || ciphertext || tag`, with
//! a 12-byte nonce that is drawn afresh for every encryption.

use aes_gcm::aead::{Aead, KeyInit, OsRng};
use aes_gcm::{Aes256Gcm, Key, Nonce};
use rand::RngCore;
use vstd::prelude::*;
use vstd::slice::{slice_subrange, slice_to_vec};
use vstd::utf8::{decode_utf8, encode_utf8, valid_utf8};

use crate::hex_text::{decode_hex, encode_hex, hex_decode, hex_encode, is_hex_text, lemma_hex_round_trip};

verus! {

/// Bytes in a nonce.
pub const NONCE_LEN: usize = 12;

/// Bytes in a derived key.
pub const KEY_LEN: usize = 32;

/// Bytes in an authentication tag.
pub const TAG_LEN: usize = 16;

/// The longest plaintext, in bytes, that one encryption accepts.
pub const MAX_PLAINTEXT_LEN: u64 = 0x10_0000_0000;

/// Why the cipher refused.
#[derive(Clone, Copy, Debug, PartialEq, Eq, Structural)]
pub enum CipherError {
    /// The blob is not hexadecimal text, or decodes to fewer bytes than a
    /// nonce and a tag take.
    MalformedBlob,
    /// The tag does not verify: wrong key, or the blob was altered.
    AuthenticationFailure,
    /// The tag verified, but the plaintext is not UTF-8.
    InvalidUtf8,
    /// The secret is longer than one encryption accepts.
    PlaintextTooLong,
    /// The operating system gave no random bytes for a nonce.
    EntropyUnavailable,
}

impl CipherError {
    /// The reason in words.  It names the kind of failure and neither the
    /// key nor anything that was decrypted.
    pub fn reason(&self) -> (words: &'static str)
        ensures
            words@ == self.reason_text(),
    {
        match self {
            CipherError::MalformedBlob => "Ciphertext too short or not hexadecimal",
            CipherError::AuthenticationFailure => "Authentication failed",
            CipherError::InvalidUtf8 => "Secret is not valid text",
            CipherError::PlaintextTooLong => "Secret too long",
            CipherError::EntropyUnavailable => "No random bytes available",
        }
    }

    /// The reason in words.
    pub open spec fn reason_text(&self) -> Seq<char> {
        match self {
            CipherError::MalformedBlob => "Ciphertext too short or not hexadecimal"@,
            CipherError::AuthenticationFailure => "Authentication failed"@,
            CipherError::InvalidUtf8 => "Secret is not valid text"@,
            CipherError::PlaintextTooLong => "Secret too long"@,
            CipherError::EntropyUnavailable => "No random bytes available"@,
        }
    }
}

/// The BLAKE3 hash of `input`, 32 bytes: what `blake3::hash` returns.
pub uninterp spec fn blake3_digest(input: Seq<u8>) -> Seq<u8>;

/// AES-256-GCM without associated data: the ciphertext of `plaintext` under
/// `key` and `nonce`, followed by its tag.  It is what `Aes256Gcm::encrypt`
/// returns.
pub uninterp spec fn aes256_gcm_seal(key: Seq<u8>, nonce: Seq<u8>, plaintext: Seq<u8>) -> Seq<u8>;

/// AES-256-GCM without associated data: the plaintext behind `sealed` under
/// `key` and `nonce`, or `None` where the tag does not verify.  It is what
/// `Aes256Gcm::decrypt` returns.
pub uninterp spec fn aes256_gcm_open(key: Seq<u8>, nonce: Seq<u8>, sealed: Seq<u8>) -> Option<
    Seq<u8>,
>;

/// `aes_gcm::Error`, which says nothing but that the cipher refused.
#[verifier::external_type_specification]
#[verifier::external_body]
pub struct ExAeadError(aes_gcm::Error);

/// Calls `blake3::hash` and copies the 32 bytes of the digest.
#[verifier::external_body]
fn digest(input: &[u8]) -> (out: Vec<u8>)
    ensures
        out@ == blake3_digest(input@),
        out@.len() == KEY_LEN,
{
    blake3::hash(input).as_bytes().to_vec()
}

/// Calls `try_fill_bytes` of the operating system's generator on `buffer`,
/// and says whether it gave the bytes.  Nothing is promised of them.
#[verifier::external_body]
fn fill_random(buffer: &mut [u8; 12]) -> (filled: bool) {
    match OsRng.try_fill_bytes(buffer) {
        Ok(()) => true,
        Err(_) => false,
    }
}

/// Calls `Aes256Gcm::encrypt` with no associated data.  It refuses a
/// plaintext above the length limit and nothing else; the result is the
/// plaintext's length plus a 16-byte tag, and `Aes256Gcm::decrypt` under the
/// same key and nonce gives the plaintext back.
#[verifier::external_body]
fn seal(key: &[u8], nonce: &[u8], plaintext: &[u8]) -> (sealed: Result<Vec<u8>, aes_gcm::Error>)
    requires
        key@.len() == KEY_LEN,
        nonce@.len() == NONCE_LEN,
    ensures
        sealed is Ok <==> plaintext@.len() <= MAX_PLAINTEXT_LEN,
        sealed matches Ok(bytes) ==> {
            &&& bytes@ == aes256_gcm_seal(key@, nonce@, plaintext@)
            &&& bytes@.len() == plaintext@.len() + TAG_LEN
            &&& aes256_gcm_open(key@, nonce@, bytes@) == Some(plaintext@)
        },
{
    let cipher = Aes256Gcm::new(Key::<Aes256Gcm>::from_slice(key));
    cipher.encrypt(Nonce::from_slice(nonce), plaintext)
}

/// Calls `Aes256Gcm::decrypt` with no associated data.
#[verifier::external_body]
fn open(key: &[u8], nonce: &[u8], sealed: &[u8]) -> (opened: Result<Vec<u8>, aes_gcm::Error>)
    requires
        key@.len() == KEY_LEN,
        nonce@.len() == NONCE_LEN,
    ensures
        (match opened {
            Ok(bytes) => aes256_gcm_open(key@, nonce@, sealed@) == Some(bytes@),
            Err(_) => aes256_gcm_open(key@, nonce@, sealed@) is None,
        }),
{
    let cipher = Aes256Gcm::new(Key::<Aes256Gcm>::from_slice(key));
    cipher.decrypt(Nonce::from_slice(nonce), sealed)
}

/// Calls `String::from_utf8`, which accepts exactly the valid UTF-8 and keeps
/// the bytes.
#[verifier::external_body]
fn string_from_utf8(bytes: Vec<u8>) -> (text: Option<String>)
    ensures
        text is Some <==> valid_utf8(bytes@),
        text matches Some(s) ==> encode_utf8(s@) == bytes@,
{
    match String::from_utf8(bytes) {
        Ok(s) => Some(s),
        Err(_) => None,
    }
}

/// The key that `master_key` stands for.
pub open spec fn derived_key(master_key: Seq<char>) -> Seq<u8> {
    blake3_digest(encode_utf8(master_key))
}

/// Whether one encryption accepts `plaintext`.
pub open spec fn fits(plaintext: Seq<char>) -> bool {
    encode_utf8(plaintext).len() <= MAX_PLAINTEXT_LEN
}

/// The blob that holds `plaintext` under `master_key`, sealed with `nonce`.
pub open spec fn sealed_blob(plaintext: Seq<char>, master_key: Seq<char>, nonce: Seq<u8>) -> Seq<
    char,
> {
    hex_encode(nonce + aes256_gcm_seal(derived_key(master_key), nonce, encode_utf8(plaintext)))
}

/// What a blob's bytes hold once authentication has spoken: `opened` is the
/// verified plaintext, or `None` where the tag did not verify.
pub open spec fn secret_of(opened: Option<Seq<u8>>) -> Result<Seq<char>, CipherError> {
    match opened {
        None => Err(CipherError::AuthenticationFailure),
        Some(bytes) => if valid_utf8(bytes) {
            Ok(decode_utf8(bytes))
        } else {
            Err(CipherError::InvalidUtf8)
        },
    }
}

/// Whether `blob` has the shape of a stored blob: hexadecimal text of at
/// least a nonce and a tag.
pub open spec fn well_formed(blob: Seq<char>) -> bool {
    is_hex_text(blob) && hex_decode(blob).len() >= NONCE_LEN + TAG_LEN
}

/// What decrypting `blob` under `master_key` gives.
pub open spec fn opened_secret(blob: Seq<char>, master_key: Seq<char>) -> Result<
    Seq<char>,
    CipherError,
> {
    if !well_formed(blob) {
        Err(CipherError::MalformedBlob)
    } else {
        let data = hex_decode(blob);
        secret_of(
            aes256_gcm_open(
                derived_key(master_key),
                data.take(NONCE_LEN as int),
                data.skip(NONCE_LEN as int),
            ),
        )
    }
}

/// Whether `text` is what `outcome` describes.
pub open spec fn text_matches(text: Result<String, CipherError>, outcome: Result<
    Seq<char>,
    CipherError,
>) -> bool {
    match outcome {
        Ok(chars) => text matches Ok(s) && s@ == chars,
        Err(e) => text matches Err(f) && f == e,
    }
}

/// Derives the 256-bit key from the master key.  The same master key always
/// gives the same key.
pub fn derive_key(master_key: &str) -> (key: Vec<u8>)
    ensures
        key@ == derived_key(master_key@),
        key@.len() == KEY_LEN,
{
    digest(master_key.as_bytes())
}

/// Splits a stored blob into its nonce and the sealed remainder, or refuses
/// it as malformed before anything is decrypted.
pub fn split_blob(encrypted_hex: &str) -> (parts: Result<(Vec<u8>, Vec<u8>), CipherError>)
    ensures
        (match parts {
            Ok((nonce, sealed)) => {
                &&& well_formed(encrypted_hex@)
                &&& nonce@ == hex_decode(encrypted_hex@).take(NONCE_LEN as int)
                &&& sealed@ == hex_decode(encrypted_hex@).skip(NONCE_LEN as int)
            },
            Err(e) => e == CipherError::MalformedBlob && !well_formed(encrypted_hex@),
        }),
{
    match decode_hex(encrypted_hex) {
        Err(_) => Err(CipherError::MalformedBlob),
        Ok(data) => {
            if data.len() < NONCE_LEN + TAG_LEN {
                return Err(CipherError::MalformedBlob);
            }
            let nonce = slice_to_vec(slice_subrange(data.as_slice(), 0, NONCE_LEN));
            let sealed = slice_to_vec(slice_subrange(data.as_slice(), NONCE_LEN, data.len()));
            Ok((nonce, sealed))
        },
    }
}

/// Turns the verified plaintext into the secret, or says why there is none.
pub fn secret_from_plaintext(opened: Option<Vec<u8>>) -> (secret: Result<String, CipherError>)
    ensures
        text_matches(
            secret,
            secret_of(
                match opened {
                    Some(bytes) => Some(bytes@),
                    None => None,
                },
            ),
        ),
{
    match opened {
        None => Err(CipherError::AuthenticationFailure),
        Some(bytes) => {
            match string_from_utf8(bytes) {
                None => Err(CipherError::InvalidUtf8),
                Some(s) => {
                    proof {
                        vstd::utf8::encode_utf8_decode_utf8(s@);
                    }
                    Ok(s)
                },
            }
        },
    }
}

/// Decrypts a stored blob under the master key.
///
/// A blob that is not hexadecimal text, or that decodes to fewer bytes than
/// a nonce and a tag take, is `MalformedBlob`, and nothing is decrypted.  One
/// whose tag does not verify is `AuthenticationFailure`.
pub fn decrypt_secret(encrypted_hex: &str, master_key: &str) -> (secret: Result<
    String,
    CipherError,
>)
    ensures
        text_matches(secret, opened_secret(encrypted_hex@, master_key@)),
        !well_formed(encrypted_hex@) ==> secret == Err::<String, CipherError>(
            CipherError::MalformedBlob,
        ),
{
    match split_blob(encrypted_hex) {
        Err(e) => Err(e),
        Ok((nonce, sealed)) => {
            let key = derive_key(master_key);
            let opened = match open(key.as_slice(), nonce.as_slice(), sealed.as_slice()) {
                Ok(bytes) => Some(bytes),
                Err(_) => None,
            };
            secret_from_plaintext(opened)
        },
    }
}

/// Writes a nonce and what was sealed under it as one stored blob.
pub fn assemble_blob(nonce: &[u8], sealed: &[u8]) -> (blob: String)
    ensures
        blob@ == hex_encode(nonce@ + sealed@),
{
    let mut data: Vec<u8> = Vec::new();
    data.extend_from_slice(nonce);
    data.extend_from_slice(sealed);
    assert(data@ =~= nonce@ + sealed@);
    encode_hex(data.as_slice())
}

/// Encrypts a secret under the master key with the nonce given.
///
/// The nonce must never be used twice with one master key.  `encrypt_secret`
/// draws it at random; whoever calls this function instead answers for that.
/// The blob that comes back decrypts to the secret under the same master key.
pub fn encrypt_with_nonce(plain_secret: &str, master_key: &str, nonce: &[u8; 12]) -> (blob: Result<
    String,
    CipherError,
>)
    ensures
        (match blob {
            Ok(text) => {
                &&& fits(plain_secret@)
                &&& text@ == sealed_blob(plain_secret@, master_key@, nonce@)
                &&& text@.len() == 2 * (NONCE_LEN + encode_utf8(plain_secret@).len() + TAG_LEN)
                &&& opened_secret(text@, master_key@) == Ok::<Seq<char>, CipherError>(plain_secret@)
            },
            Err(e) => e == CipherError::PlaintextTooLong && !fits(plain_secret@),
        }),
{
    let key = derive_key(master_key);
    match seal(key.as_slice(), nonce.as_slice(), plain_secret.as_bytes()) {
        Err(_) => Err(CipherError::PlaintextTooLong),
        Ok(sealed) => {
            let text = assemble_blob(nonce.as_slice(), sealed.as_slice());
            proof {
                let data = nonce@ + sealed@;
                lemma_hex_round_trip(data);
                assert(data.take(NONCE_LEN as int) =~= nonce@);
                assert(data.skip(NONCE_LEN as int) =~= sealed@);
                vstd::utf8::encode_utf8_valid_utf8(plain_secret@);
                vstd::utf8::encode_utf8_decode_utf8(plain_secret@);
            }
            Ok(text)
        },
    }
}

/// Encrypts a secret under the master key, with a nonce drawn from the
/// operating system's generator.
///
/// A secret above the length limit is refused before any random byte is
/// drawn.  Whatever nonce was drawn, the blob decrypts to the secret under
/// the same master key.
pub fn encrypt_secret(plain_secret: &str, master_key: &str) -> (blob: Result<String, CipherError>)
    ensures
        (match blob {
            Ok(text) => {
                &&& fits(plain_secret@)
                &&& exists|nonce: Seq<u8>|
                    nonce.len() == NONCE_LEN && text@ == #[trigger] sealed_blob(
                        plain_secret@,
                        master_key@,
                        nonce,
                    )
                &&& text@.len() == 2 * (NONCE_LEN + encode_utf8(plain_secret@).len() + TAG_LEN)
                &&& opened_secret(text@, master_key@) == Ok::<Seq<char>, CipherError>(plain_secret@)
            },
            Err(e) => {
                &&& e == CipherError::PlaintextTooLong || e == CipherError::EntropyUnavailable
                &&& e == CipherError::PlaintextTooLong <==> !fits(plain_secret@)
            },
        }),
{
    if plain_secret.as_bytes().len() as u64 > MAX_PLAINTEXT_LEN {
        return Err(CipherError::PlaintextTooLong);
    }
    let mut nonce: [u8; 12] = [0u8; 12];
    if !fill_random(&mut nonce) {
        return Err(CipherError::EntropyUnavailable);
    }
    encrypt_with_nonce(plain_secret, master_key, &nonce)
}

} // verus!
