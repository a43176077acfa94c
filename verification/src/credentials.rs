//! Encryption of stored git secrets with AES-256-GCM under a hex key from the
//! configuration. A stored secret is the Base64 text of a random 12-byte nonce
//! followed by the ciphertext.

use vstd::prelude::*;
use vstd::utf8::{decode_utf8, encode_utf8, encode_utf8_decode_utf8, encode_utf8_valid_utf8, valid_utf8};

use crate::text::{is_ws, lemma_trim_no_ws, trim};

verus! {

/// Why a key could not be loaded or a secret not be sealed or opened.
#[derive(Debug, Clone, Copy, PartialEq, Eq)]
pub enum CredentialError {
    InvalidKeyHex,
    InvalidKeyLength,
    EncryptFailed,
    InvalidPayload,
    PayloadTooShort,
    DecryptFailed,
    NotUtf8,
}

pub open spec fn credential_error_message(e: CredentialError) -> Seq<char> {
    match e {
        CredentialError::InvalidKeyHex => "invalid credentials encryption key hex"@,
        CredentialError::InvalidKeyLength => "credentials encryption key must be 32 bytes / 64 hex chars"@,
        CredentialError::EncryptFailed => "failed to encrypt credential secret"@,
        CredentialError::InvalidPayload => "invalid encrypted credential payload"@,
        CredentialError::PayloadTooShort => "encrypted credential payload is too short"@,
        CredentialError::DecryptFailed => "failed to decrypt credential secret"@,
        CredentialError::NotUtf8 => "decrypted credential secret was not utf-8"@,
    }
}

impl CredentialError {
    /// The human-readable message of the error.
    pub fn message(&self) -> (r: String)
        ensures
            r@ == credential_error_message(*self),
    {
        match self {
            CredentialError::InvalidKeyHex => "invalid credentials encryption key hex".to_owned(),
            CredentialError::InvalidKeyLength => "credentials encryption key must be 32 bytes / 64 hex chars".to_owned(),
            CredentialError::EncryptFailed => "failed to encrypt credential secret".to_owned(),
            CredentialError::InvalidPayload => "invalid encrypted credential payload".to_owned(),
            CredentialError::PayloadTooShort => "encrypted credential payload is too short".to_owned(),
            CredentialError::DecryptFailed => "failed to decrypt credential secret".to_owned(),
            CredentialError::NotUtf8 => "decrypted credential secret was not utf-8".to_owned(),
        }
    }
}

/// The longest plaintext AES-GCM seals, in bytes (`aes_gcm::P_MAX`, 2^36).
pub const AES_GCM_MAX_PLAINTEXT: u64 = 68_719_476_736;

/// The value of a hexadecimal digit, either case.
pub open spec fn hex_digit(c: char) -> Option<int> {
    if '0' <= c && c <= '9' {
        Some(c as int - '0' as int)
    } else if 'a' <= c && c <= 'f' {
        Some(c as int - 'a' as int + 10)
    } else if 'A' <= c && c <= 'F' {
        Some(c as int - 'A' as int + 10)
    } else {
        None
    }
}

/// The bytes that `hex::decode` reads from `s`: one byte per pair of hex
/// digits, high digit first; nothing when the length is odd or a character
/// is not a hex digit.
pub open spec fn hex_decoded(s: Seq<char>) -> Option<Seq<u8>> {
    if s.len() % 2 == 0 && forall|i: int| 0 <= i < s.len() ==> (#[trigger] hex_digit(s[i])) is Some {
        Some(Seq::new(
            (s.len() / 2) as nat,
            |k: int| (16 * hex_digit(s[2 * k])->Some_0 + hex_digit(s[2 * k + 1])->Some_0) as u8,
        ))
    } else {
        None
    }
}

/// The text that the standard Base64 engine writes for `b`.
pub uninterp spec fn base64_text(b: Seq<u8>) -> Seq<char>;

/// The bytes that the standard Base64 engine reads from `s`, if it is valid Base64.
pub uninterp spec fn base64_decoded(s: Seq<char>) -> Option<Seq<u8>>;

/// AES-256-GCM encryption of `plaintext` under `key` and `nonce`, tag appended.
pub uninterp spec fn aes_sealed(key: Seq<u8>, nonce: Seq<u8>, plaintext: Seq<u8>) -> Option<Seq<u8>>;

/// AES-256-GCM decryption of `ciphertext` under `key` and `nonce`, if the tag verifies.
pub uninterp spec fn aes_opened(key: Seq<u8>, nonce: Seq<u8>, ciphertext: Seq<u8>) -> Option<Seq<u8>>;

/// `hex::decode` on the string's bytes: it refuses an odd length and any
/// byte that is not a hex digit of either case (a non-ASCII character is
/// never one), and otherwise packs each pair of digits into a byte.
#[verifier::external_body]
fn hex_decode(s: &str) -> (r: Option<Vec<u8>>)
    ensures
        match r {
            Some(b) => hex_decoded(s@) == Some(b@),
            None => hex_decoded(s@) is None,
        },
{
    hex::decode(s).ok()
}

/// `hex::encode`: lowercase hex digits, two per byte, which `hex::decode`
/// reads back as the same bytes.
#[verifier::external_body]
fn hex_encode(b: &[u8]) -> (r: String)
    ensures
        hex_decoded(r@) == Some(b@),
        forall|i: int| 0 <= i < r@.len() ==> !is_ws(#[trigger] r@[i]),
{
    hex::encode(b)
}

/// `Engine::encode` of the standard Base64 engine. Its output is made of the
/// standard alphabet and `=` padding, four characters for every started
/// group of three bytes, and decoding it gives the bytes back.
#[verifier::external_body]
fn base64_encode(b: &[u8]) -> (r: String)
    ensures
        r@ == base64_text(b@),
        base64_decoded(r@) == Some(b@),
        forall|i: int| 0 <= i < r@.len() ==> !is_ws(#[trigger] r@[i]),
        b@.len() > 0 ==> r@.len() > 0,
{
    base64::Engine::encode(&base64::engine::general_purpose::STANDARD, b)
}

/// `Engine::decode` of the standard Base64 engine.
#[verifier::external_body]
fn base64_decode(s: &str) -> (r: Option<Vec<u8>>)
    ensures
        match r {
            Some(b) => base64_decoded(s@) == Some(b@),
            None => base64_decoded(s@) is None,
        },
{
    base64::Engine::decode(&base64::engine::general_purpose::STANDARD, s).ok()
}

/// Random bytes from the operating system (`OsRng::fill_bytes`); nothing is
/// stated of their values.
#[verifier::external_body]
fn random_bytes(n: usize) -> (r: Vec<u8>)
    ensures
        r@.len() == n,
{
    let mut bytes = vec![0_u8; n];
    aes_gcm::aead::rand_core::RngCore::fill_bytes(&mut aes_gcm::aead::OsRng, &mut bytes);
    bytes
}

/// `Aes256Gcm::new_from_slice` then `Aead::encrypt` with a 12-byte nonce.
/// The ciphertext carries the 16-byte tag after the encrypted bytes, and
/// `Aead::decrypt` under the same key and nonce gives the plaintext back.
/// `new_from_slice` refuses only a key that is not 32 bytes long, and
/// `encrypt_in_place_detached` refuses only a plaintext longer than
/// `P_MAX` (2^36 bytes; there is no associated data), so a 32-byte key and
/// a plaintext within that bound are always sealed.
#[verifier::external_body]
fn aes_seal(key: &[u8], nonce: &[u8], plaintext: &[u8]) -> (r: Option<Vec<u8>>)
    requires
        nonce@.len() == 12,
    ensures
        match r {
            Some(c) => aes_sealed(key@, nonce@, plaintext@) == Some(c@)
                && c@.len() == plaintext@.len() + 16
                && aes_opened(key@, nonce@, c@) == Some(plaintext@),
            None => aes_sealed(key@, nonce@, plaintext@) is None,
        },
        key@.len() == 32 && plaintext@.len() <= AES_GCM_MAX_PLAINTEXT ==> r is Some,
{
    let cipher = <aes_gcm::Aes256Gcm as aes_gcm::KeyInit>::new_from_slice(key).ok()?;
    aes_gcm::aead::Aead::encrypt(&cipher, aes_gcm::Nonce::from_slice(nonce), plaintext).ok()
}

/// `Aes256Gcm::new_from_slice` then `Aead::decrypt` with a 12-byte nonce.
#[verifier::external_body]
fn aes_open(key: &[u8], nonce: &[u8], ciphertext: &[u8]) -> (r: Option<Vec<u8>>)
    requires
        nonce@.len() == 12,
    ensures
        match r {
            Some(p) => aes_opened(key@, nonce@, ciphertext@) == Some(p@),
            None => aes_opened(key@, nonce@, ciphertext@) is None,
        },
{
    let cipher = <aes_gcm::Aes256Gcm as aes_gcm::KeyInit>::new_from_slice(key).ok()?;
    aes_gcm::aead::Aead::decrypt(&cipher, aes_gcm::Nonce::from_slice(nonce), ciphertext).ok()
}

/// `String::from_utf8`: the text of valid UTF-8 bytes.
#[verifier::external_body]
fn utf8_string(b: Vec<u8>) -> (r: Option<String>)
    ensures
        match r {
            Some(s) => valid_utf8(b@) && s@ == decode_utf8(b@),
            None => !valid_utf8(b@),
        },
{
    String::from_utf8(b).ok()
}

/// The secret stored as `text` under `key`, if it opens.
pub open spec fn opened_secret(key: Seq<u8>, text: Seq<char>) -> Option<Seq<char>> {
    match base64_decoded(trim(text)) {
        None => None,
        Some(d) => {
            if d.len() < 13 {
                None
            } else {
                match aes_opened(key, d.take(12), d.skip(12)) {
                    None => None,
                    Some(p) => if valid_utf8(p) { Some(decode_utf8(p)) } else { None },
                }
            }
        },
    }
}

/// The step at which opening `text` under `key` fails: Base64 decoding, the
/// length check, authenticated decryption, or UTF-8 decoding.
pub open spec fn open_failure(key: Seq<u8>, text: Seq<char>) -> CredentialError {
    match base64_decoded(trim(text)) {
        None => CredentialError::InvalidPayload,
        Some(d) => {
            if d.len() < 13 {
                CredentialError::PayloadTooShort
            } else {
                match aes_opened(key, d.take(12), d.skip(12)) {
                    None => CredentialError::DecryptFailed,
                    Some(_) => CredentialError::NotUtf8,
                }
            }
        },
    }
}

/// What opening `text` under `key` answers: the secret when it opens,
/// otherwise the step at which it failed.
pub open spec fn opens_to(key: Seq<u8>, text: Seq<char>, r: Result<String, CredentialError>) -> bool {
    match r {
        Ok(p) => opened_secret(key, text) == Some(p@),
        Err(e) => opened_secret(key, text) is None && e == open_failure(key, text),
    }
}

/// What was sealed opens to the secret: opening a text that `encrypt`
/// produced for `secret`, under the same key, answers exactly that secret.
pub proof fn lemma_sealed_secret_opens(key: Seq<u8>, text: Seq<char>, secret: Seq<char>, r: Result<String, CredentialError>)
    requires
        opened_secret(key, text) == Some(secret),
        opens_to(key, text, r),
    ensures
        r matches Ok(p) && p@ == secret,
{
}

/// A stored text too short to hold a nonce and a tag is refused as such.
pub proof fn lemma_short_payload_refused(key: Seq<u8>, text: Seq<char>, r: Result<String, CredentialError>)
    requires
        base64_decoded(trim(text)) matches Some(d) && d.len() < 13,
        opens_to(key, text, r),
    ensures
        r == Err::<String, CredentialError>(CredentialError::PayloadTooShort),
{
}

/// The 32-byte key used to seal and open stored git secrets.
pub struct CredentialCipher {
    key: Vec<u8>,
}

impl CredentialCipher {
    #[verifier::type_invariant]
    spec fn key_is_aes256(self) -> bool {
        self.key@.len() == 32
    }

    /// The key bytes.
    pub closed spec fn key(self) -> Seq<u8> {
        self.key@
    }

    /// Loads the key from 64 hex characters; surrounding whitespace is ignored.
    pub fn from_hex_key(hex_key: &str) -> (r: Result<Self, CredentialError>)
        ensures
            match r {
                Ok(c) => hex_decoded(trim(hex_key@)) == Some(c.key()) && c.key().len() == 32,
                Err(CredentialError::InvalidKeyHex) => hex_decoded(trim(hex_key@)) is None,
                Err(CredentialError::InvalidKeyLength) => hex_decoded(trim(hex_key@)) matches Some(k)
                    && k.len() != 32,
                Err(_) => false,
            },
    {
        let trimmed = crate::text::trimmed(hex_key);
        match hex_decode(trimmed.as_str()) {
            None => Err(CredentialError::InvalidKeyHex),
            Some(key) => {
                if key.len() != 32 {
                    Err(CredentialError::InvalidKeyLength)
                } else {
                    Ok(CredentialCipher { key })
                }
            },
        }
    }

    /// Seals a secret for storage. What is stored opens again to the
    /// secret, and is never blank. Sealing fails only for a secret whose
    /// UTF-8 encoding is longer than AES-GCM accepts.
    pub fn encrypt(&self, plaintext: &str) -> (r: Result<String, CredentialError>)
        ensures
            match r {
                Ok(text) => opened_secret(self.key(), text@) == Some(plaintext@) && !crate::text::is_blank(text@),
                Err(e) => e == CredentialError::EncryptFailed && encode_utf8(plaintext@).len() > AES_GCM_MAX_PLAINTEXT,
            },
    {
        proof {
            use_type_invariant(self);
        }
        let nonce = random_bytes(12);
        let bytes = plaintext.as_bytes();
        match aes_seal(self.key.as_slice(), nonce.as_slice(), bytes) {
            None => Err(CredentialError::EncryptFailed),
            Some(sealed) => {
                let mut output = nonce;
                let mut i: usize = 0;
                let ghost n = output@;
                while i < sealed.len()
                    invariant
                        i <= sealed.len(),
                        n.len() == 12,
                        output@ == n + sealed@.take(i as int),
                    decreases sealed.len() - i,
                {
                    output.push(sealed[i]);
                    i = i + 1;
                    assert(sealed@.take(i as int) =~= sealed@.take(i - 1).push(sealed@[i - 1]));
                }
                assert(sealed@.take(sealed.len() as int) =~= sealed@);
                let text = base64_encode(output.as_slice());
                proof {
                    lemma_trim_no_ws(text@);
                    assert(output@.take(12) =~= n);
                    assert(output@.skip(12) =~= sealed@);
                    encode_utf8_valid_utf8(plaintext@);
                    encode_utf8_decode_utf8(plaintext@);
                }
                Ok(text)
            },
        }
    }

    /// Opens a stored secret; the error says which step failed.
    pub fn decrypt(&self, ciphertext: &str) -> (r: Result<String, CredentialError>)
        ensures
            opens_to(self.key(), ciphertext@, r),
    {
        proof {
            use_type_invariant(self);
        }
        let trimmed = crate::text::trimmed(ciphertext);
        let decoded = match base64_decode(trimmed.as_str()) {
            None => return Err(CredentialError::InvalidPayload),
            Some(d) => d,
        };
        if decoded.len() < 13 {
            return Err(CredentialError::PayloadTooShort);
        }
        let mut nonce: Vec<u8> = Vec::new();
        let mut body: Vec<u8> = Vec::new();
        let mut i: usize = 0;
        while i < decoded.len()
            invariant
                i <= decoded.len(),
                decoded.len() >= 13,
                i <= 12 ==> nonce@ == decoded@.take(i as int) && body@.len() == 0,
                i > 12 ==> nonce@ == decoded@.take(12) && body@ == decoded@.subrange(12, i as int),
            decreases decoded.len() - i,
        {
            if i < 12 {
                nonce.push(decoded[i]);
                assert(nonce@ =~= decoded@.take(i + 1));
            } else {
                body.push(decoded[i]);
                assert(body@ =~= decoded@.subrange(12, i + 1));
            }
            i = i + 1;
        }
        assert(body@ =~= decoded@.skip(12));
        match aes_open(self.key.as_slice(), nonce.as_slice(), body.as_slice()) {
            None => Err(CredentialError::DecryptFailed),
            Some(p) => match utf8_string(p) {
                None => Err(CredentialError::NotUtf8),
                Some(s) => Ok(s),
            },
        }
    }
}

/// A fresh random key, as 64 lowercase hex characters.
pub fn generate_encryption_key_hex() -> (r: String)
    ensures
        hex_decoded(trim(r@)) matches Some(k) && k.len() == 32,
{
    let key = random_bytes(32);
    let r = hex_encode(key.as_slice());
    proof {
        lemma_trim_no_ws(r@);
    }
    r
}

} // verus!
