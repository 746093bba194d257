//! Symmetric encryption of secrets: AES-256-GCM under a 32-byte key with a random
//! 12-byte nonce, the nonce and the ciphertext together in standard Base64.

use aes_gcm::aead::{Aead, KeyInit, OsRng};
use aes_gcm::{Aes256Gcm, Nonce};
use base64::engine::general_purpose;
use base64::Engine;
use rand::RngCore;
use vstd::prelude::*;
use vstd::string::StringSliceAdditionalSpecFns;
use vstd::utf8::{
    decode_utf8, decode_utf8_encode_utf8, encode_utf8, encode_utf8_decode_utf8, encode_utf8_valid_utf8,
    valid_utf8,
};

use crate::text::{string_from_utf8, utf8_error_text};

verus! {

/// Why encryption or decryption failed.
#[derive(Debug, Clone, PartialEq, Eq)]
pub enum CryptoError {
    /// No key is configured.
    MissingKey,
    /// The key given for encryption does not have 32 bytes.
    KeyLength,
    /// The operating system's random source gave no nonce.
    RandomSource,
    /// The cipher refused the plaintext.
    Encryption,
    /// The encrypted text is not standard Base64; the decoder's message.
    Base64(String),
    /// The decoded data is shorter than a nonce.
    TooShort,
    /// The key given for decryption does not have 32 bytes.
    InvalidKey,
    /// The ciphertext does not authenticate under the key.
    Decryption,
    /// The decrypted bytes are not UTF-8; the conversion's message.
    Utf8(String),
}

/// A `CryptoError` with its texts as character sequences.
pub enum CryptoFailure {
    MissingKey,
    KeyLength,
    RandomSource,
    Encryption,
    Base64(Seq<char>),
    TooShort,
    InvalidKey,
    Decryption,
    Utf8(Seq<char>),
}

impl View for CryptoError {
    type V = CryptoFailure;

    open spec fn view(&self) -> CryptoFailure {
        match self {
            CryptoError::MissingKey => CryptoFailure::MissingKey,
            CryptoError::KeyLength => CryptoFailure::KeyLength,
            CryptoError::RandomSource => CryptoFailure::RandomSource,
            CryptoError::Encryption => CryptoFailure::Encryption,
            CryptoError::Base64(t) => CryptoFailure::Base64(t@),
            CryptoError::TooShort => CryptoFailure::TooShort,
            CryptoError::InvalidKey => CryptoFailure::InvalidKey,
            CryptoError::Decryption => CryptoFailure::Decryption,
            CryptoError::Utf8(t) => CryptoFailure::Utf8(t@),
        }
    }
}

/// The message each error is reported with. Key-length refusals of the cipher
/// report the `Display` text of `crypto_common::InvalidLength`; Base64 and UTF-8
/// failures report the text their decoder gave.
pub open spec fn crypto_error_message(e: CryptoFailure) -> Seq<char> {
    match e {
        CryptoFailure::MissingKey => "ENCRYPTION_KEY must be set in .env (32 bytes)"@,
        CryptoFailure::KeyLength => "Encryption key must be exactly 32 bytes"@,
        CryptoFailure::RandomSource => "Random number generator failed"@,
        CryptoFailure::Encryption => "Encryption error: Error"@,
        CryptoFailure::Base64(t) => t,
        CryptoFailure::TooShort => "Invalid encrypted data: too short"@,
        CryptoFailure::InvalidKey => "Invalid Length"@,
        CryptoFailure::Decryption => "Decryption error: Error"@,
        CryptoFailure::Utf8(t) => t,
    }
}

impl CryptoError {
    /// The message the error is reported with.
    pub fn message(&self) -> (m: String)
        ensures
            m@ == crypto_error_message(self@),
    {
        match self {
            CryptoError::MissingKey => "ENCRYPTION_KEY must be set in .env (32 bytes)".to_owned(),
            CryptoError::KeyLength => "Encryption key must be exactly 32 bytes".to_owned(),
            CryptoError::RandomSource => "Random number generator failed".to_owned(),
            CryptoError::Encryption => "Encryption error: Error".to_owned(),
            CryptoError::Base64(t) => t.clone(),
            CryptoError::TooShort => "Invalid encrypted data: too short".to_owned(),
            CryptoError::InvalidKey => "Invalid Length".to_owned(),
            CryptoError::Decryption => "Decryption error: Error".to_owned(),
            CryptoError::Utf8(t) => t.clone(),
        }
    }
}

/// The longest plaintext that AES-GCM encrypts, in bytes.
pub const AES_GCM_P_MAX: u64 = 68719476736;

/// The AES-256-GCM ciphertext, tag appended, of `plaintext` under `key` and `nonce`,
/// with no associated data.
pub uninterp spec fn aes256gcm_seal(key: Seq<u8>, nonce: Seq<u8>, plaintext: Seq<u8>) -> Seq<u8>;

/// The plaintext of an AES-256-GCM ciphertext (tag appended) under `key` and `nonce`,
/// or `None` when it does not authenticate.
pub uninterp spec fn aes256gcm_open(key: Seq<u8>, nonce: Seq<u8>, ciphertext: Seq<u8>) -> Option<Seq<u8>>;

/// `Aead::encrypt` of `aes_gcm::Aes256Gcm` (made with `KeyInit::new`): the sealed
/// plaintext, 16 bytes longer than it, or `None` when the plaintext exceeds
/// `AES_GCM_P_MAX` bytes (the crate's only refusal). The ciphertext itself is named,
/// not stated.
#[verifier::external_body]
fn aes256gcm_encrypt(key: &[u8; 32], nonce: &[u8; 12], plaintext: &[u8]) -> (r: Option<Vec<u8>>)
    ensures
        r is Some <==> plaintext@.len() <= AES_GCM_P_MAX,
        r matches Some(c) ==> c@ == aes256gcm_seal(key@, nonce@, plaintext@),
        r matches Some(c) ==> c@.len() == plaintext@.len() + 16,
{
    Aes256Gcm::new(key.into()).encrypt(Nonce::from_slice(nonce), plaintext).ok()
}

/// `Aead::decrypt` of `aes_gcm::Aes256Gcm` (made with `KeyInit::new`): the named
/// opening of the ciphertext. Claims besides that AES-GCM opens what it sealed under
/// the same key and nonce.
#[verifier::external_body]
fn aes256gcm_decrypt(key: &[u8; 32], nonce: &[u8; 12], ciphertext: &[u8]) -> (r: Option<Vec<u8>>)
    ensures
        match aes256gcm_open(key@, nonce@, ciphertext@) {
            Some(p) => r matches Some(v) && v@ == p,
            None => r is None,
        },
        r is Some || forall|p: Seq<u8>|
            !(p.len() <= AES_GCM_P_MAX && #[trigger] aes256gcm_seal(key@, nonce@, p) == ciphertext@),
        r matches Some(v) ==> forall|p: Seq<u8>|
            p.len() <= AES_GCM_P_MAX && #[trigger] aes256gcm_seal(key@, nonce@, p) == ciphertext@
                ==> v@ == p,
{
    Aes256Gcm::new(key.into()).decrypt(Nonce::from_slice(nonce), ciphertext).ok()
}

/// The character of the standard Base64 alphabet (`A`-`Z`, `a`-`z`, `0`-`9`, `+`,
/// `/`) for a six-bit value.
pub open spec fn base64_digit(v: int) -> char {
    if v < 26 {
        (65 + v) as char
    } else if v < 52 {
        (71 + v) as char
    } else if v < 62 {
        (v - 4) as char
    } else if v == 62 {
        '+'
    } else {
        '/'
    }
}

/// The four characters that stand for a group of one to three bytes, read as a
/// 24-bit number, high bits first; a short group is padded with `=`.
pub open spec fn base64_quad(b: Seq<u8>) -> Seq<char> {
    let n = b[0] * 65536 + (if b.len() > 1 {
        b[1] * 256
    } else {
        0int
    }) + (if b.len() > 2 {
        b[2] as int
    } else {
        0int
    });
    seq![
        base64_digit(n / 262144),
        base64_digit((n / 4096) % 64),
        if b.len() > 1 { base64_digit((n / 64) % 64) } else { '=' },
        if b.len() > 2 { base64_digit(n % 64) } else { '=' },
    ]
}

/// Standard padded Base64 of a byte string: each group of three bytes as four
/// characters.
pub open spec fn spec_base64_encode(b: Seq<u8>) -> Seq<char>
    decreases b.len(),
{
    if b.len() == 0 {
        Seq::empty()
    } else if b.len() <= 3 {
        base64_quad(b)
    } else {
        base64_quad(b.take(3)) + spec_base64_encode(b.skip(3))
    }
}

/// A byte group read as the 24-bit number whose digits `base64_quad` writes.
proof fn lemma_group_digits(x0: u8, x1: u8, x2: u8, y0: u8, y1: u8, y2: u8)
    requires
        (x0 * 65536 + x1 * 256 + x2) / 262144 == (y0 * 65536 + y1 * 256 + y2) / 262144,
        ((x0 * 65536 + x1 * 256 + x2) / 4096) % 64 == ((y0 * 65536 + y1 * 256 + y2) / 4096) % 64,
        ((x0 * 65536 + x1 * 256 + x2) / 64) % 64 == ((y0 * 65536 + y1 * 256 + y2) / 64) % 64,
        (x0 * 65536 + x1 * 256 + x2) % 64 == (y0 * 65536 + y1 * 256 + y2) % 64,
    ensures
        x0 == y0,
        x1 == y1,
        x2 == y2,
{
    assert(x0 == y0 && x1 == y1 && x2 == y2) by (bit_vector)
        requires
            (x0 * 65536 + x1 * 256 + x2) / 262144 == (y0 * 65536 + y1 * 256 + y2) / 262144,
            ((x0 * 65536 + x1 * 256 + x2) / 4096) % 64 == ((y0 * 65536 + y1 * 256 + y2) / 4096) % 64,
            ((x0 * 65536 + x1 * 256 + x2) / 64) % 64 == ((y0 * 65536 + y1 * 256 + y2) / 64) % 64,
            (x0 * 65536 + x1 * 256 + x2) % 64 == (y0 * 65536 + y1 * 256 + y2) % 64,
    ;
}

/// Equal groups of four characters stand for equal byte groups.
proof fn lemma_quad_injective(g: Seq<u8>, h: Seq<u8>)
    requires
        1 <= g.len() <= 3,
        1 <= h.len() <= 3,
        base64_quad(g) == base64_quad(h),
    ensures
        g == h,
{
    let x0 = g[0];
    let x1: u8 = if g.len() > 1 { g[1] } else { 0 };
    let x2: u8 = if g.len() > 2 { g[2] } else { 0 };
    let y0 = h[0];
    let y1: u8 = if h.len() > 1 { h[1] } else { 0 };
    let y2: u8 = if h.len() > 2 { h[2] } else { 0 };
    let n = x0 * 65536 + x1 * 256 + x2;
    let m = y0 * 65536 + y1 * 256 + y2;
    assert(base64_quad(g)[0] == base64_quad(h)[0]);
    assert(base64_quad(g)[1] == base64_quad(h)[1]);
    assert(base64_quad(g)[2] == base64_quad(h)[2]);
    assert(base64_quad(g)[3] == base64_quad(h)[3]);
    assert(0 <= n < 0x1000000 && 0 <= m < 0x1000000);
    if g.len() <= 2 {
        assert(x2 == 0u8);
        assert((x0 * 65536 + x1 * 256 + x2) % 64 == 0) by (bit_vector)
            requires
                x2 == 0u8,
        ;
    }
    if h.len() <= 2 {
        assert((y0 * 65536 + y1 * 256 + y2) % 64 == 0) by (bit_vector)
            requires
                y2 == 0u8,
        ;
    }
    if g.len() == 1 {
        assert(((x0 * 65536 + x1 * 256 + x2) / 64) % 64 == 0) by (bit_vector)
            requires
                x1 == 0u8,
                x2 == 0u8,
        ;
    }
    if h.len() == 1 {
        assert(((y0 * 65536 + y1 * 256 + y2) / 64) % 64 == 0) by (bit_vector)
            requires
                y1 == 0u8,
                y2 == 0u8,
        ;
    }
    assert(g.len() == h.len());
    lemma_group_digits(x0, x1, x2, y0, y1, y2);
    assert(g =~= h);
}

/// How long the encoding is: nothing for nothing, one group for up to three bytes,
/// more for more.
proof fn lemma_encode_len(b: Seq<u8>)
    ensures
        b.len() == 0 ==> spec_base64_encode(b).len() == 0,
        1 <= b.len() <= 3 ==> spec_base64_encode(b).len() == 4,
        b.len() > 3 ==> spec_base64_encode(b).len() > 4,
    decreases b.len(),
{
    if b.len() > 3 {
        lemma_encode_len(b.skip(3));
    }
}

/// Standard Base64 is one-to-one: a text is the encoding of at most one byte
/// string, so the encoded bytes can be read back from it.
pub proof fn base64_encoding_is_injective(a: Seq<u8>, b: Seq<u8>)
    requires
        spec_base64_encode(a) == spec_base64_encode(b),
    ensures
        a == b,
    decreases a.len(),
{
    lemma_encode_len(a);
    lemma_encode_len(b);
    if a.len() == 0 {
        assert(b =~= a);
    } else if a.len() <= 3 {
        lemma_quad_injective(a, b);
    } else {
        let ea = spec_base64_encode(a);
        assert(ea.take(4) =~= base64_quad(a.take(3)));
        assert(ea.take(4) =~= base64_quad(b.take(3)));
        lemma_quad_injective(a.take(3), b.take(3));
        assert(ea.skip(4) =~= spec_base64_encode(a.skip(3)));
        assert(ea.skip(4) =~= spec_base64_encode(b.skip(3)));
        base64_encoding_is_injective(a.skip(3), b.skip(3));
        assert(a =~= a.take(3) + a.skip(3));
        assert(b =~= b.take(3) + b.skip(3));
    }
}

/// Decoding of standard padded Base64 in its canonical form, or the decoder's
/// message for text that is not.
pub uninterp spec fn base64_standard_decode(text: Seq<char>) -> Result<Seq<u8>, Seq<char>>;

/// Whether the crate can size the Base64 text of `n` bytes in a `usize`; it
/// panics otherwise.
pub open spec fn base64_fits(n: int) -> bool {
    (n / 3) * 4 + (if n % 3 > 0 {
        4int
    } else {
        0
    }) <= usize::MAX
}

/// `general_purpose::STANDARD.encode` of the `base64` crate: standard padded
/// Base64.
#[verifier::external_body]
fn base64_encode(bytes: &[u8]) -> (text: String)
    requires
        base64_fits(bytes@.len() as int),
    ensures
        text@ == spec_base64_encode(bytes@),
{
    general_purpose::STANDARD.encode(bytes)
}

/// `general_purpose::STANDARD.decode` of the `base64` crate: the named decoding, the
/// error as its `Display` text. Claims besides that it decodes every standard
/// encoding back to its bytes.
#[verifier::external_body]
fn base64_decode(text: &str) -> (r: Result<Vec<u8>, String>)
    ensures
        match base64_standard_decode(text@) {
            Ok(b) => r matches Ok(v) && v@ == b,
            Err(m) => r matches Err(t) && t@ == m,
        },
        r is Ok || forall|b: Seq<u8>| #[trigger] spec_base64_encode(b) != text@,
        r matches Ok(v) ==> forall|b: Seq<u8>| #[trigger] spec_base64_encode(b) == text@ ==> v@ == b,
{
    match general_purpose::STANDARD.decode(text) {
        Ok(v) => Ok(v),
        Err(e) => Err(e.to_string()),
    }
}

/// Twelve bytes from the operating system's random source (`OsRng` of `aes_gcm`,
/// through `rand_core`'s `RngCore::try_fill_bytes`), or `None` when the source
/// fails. Nothing is claimed of the bytes.
#[verifier::external_body]
fn random_nonce() -> (nonce: Option<[u8; 12]>) {
    let mut nonce = [0u8; 12];
    match OsRng.try_fill_bytes(&mut nonce) {
        Ok(()) => Some(nonce),
        Err(_) => None,
    }
}

/// What encrypting the UTF-8 bytes `data` under `key` with `nonce` gives.
pub open spec fn spec_encrypt(key: Seq<u8>, nonce: Seq<u8>, data: Seq<u8>) -> Result<Seq<char>, CryptoFailure> {
    if key.len() != 32 {
        Err(CryptoFailure::KeyLength)
    } else if data.len() > AES_GCM_P_MAX {
        Err(CryptoFailure::Encryption)
    } else {
        Ok(spec_base64_encode(nonce + aes256gcm_seal(key, nonce, data)))
    }
}

/// `r` is what encrypting `data` under `key` with `nonce` gives: on success the
/// standard Base64 of the nonce followed by the sealed data, which is 16 bytes
/// longer than the data.
pub open spec fn encrypts_to(key: Seq<u8>, nonce: Seq<u8>, data: Seq<u8>, r: Result<String, CryptoError>) -> bool {
    &&& match spec_encrypt(key, nonce, data) {
        Ok(t) => r matches Ok(s) && s@ == t,
        Err(e) => r matches Err(f) && f@ == e,
    }
    &&& r is Ok ==> aes256gcm_seal(key, nonce, data).len() == data.len() + 16
}

/// What decrypting `text` under `key` gives.
pub open spec fn spec_decrypt(key: Seq<u8>, text: Seq<char>) -> Result<Seq<char>, CryptoFailure> {
    match base64_standard_decode(text) {
        Err(m) => Err(CryptoFailure::Base64(m)),
        Ok(combined) => if combined.len() < 12 {
            Err(CryptoFailure::TooShort)
        } else if key.len() != 32 {
            Err(CryptoFailure::InvalidKey)
        } else {
            match aes256gcm_open(key, combined.take(12), combined.skip(12)) {
                None => Err(CryptoFailure::Decryption),
                Some(plain) => if valid_utf8(plain) {
                    Ok(decode_utf8(plain))
                } else {
                    Err(CryptoFailure::Utf8(utf8_error_text(plain)))
                },
            }
        },
    }
}

fn key_array(key: &[u8]) -> (k: [u8; 32])
    requires
        key@.len() == 32,
    ensures
        k@ == key@,
{
    let mut k = [0u8; 32];
    let mut i: usize = 0;
    while i < 32
        invariant
            i <= 32,
            key@.len() == 32,
            forall|j: int| 0 <= j < i ==> k@[j] == key@[j],
        decreases 32 - i,
    {
        k[i] = key[i];
        i = i + 1;
    }
    assert(k@ =~= key@);
    k
}

/// Encrypts `data` under `key` with the given nonce.
pub fn encrypt_with_nonce(key: &str, nonce: [u8; 12], data: &str) -> (r: Result<String, CryptoError>)
    requires
        base64_fits(data.spec_bytes().len() + 28int),
    ensures
        encrypts_to(key.spec_bytes(), nonce@, data.spec_bytes(), r),
        r matches Ok(s) ==> s@ == spec_base64_encode(
            nonce@ + aes256gcm_seal(key.spec_bytes(), nonce@, data.spec_bytes()),
        ),
{
    let key_bytes = key.as_bytes();
    if key_bytes.len() != 32 {
        return Err(CryptoError::KeyLength);
    }
    let k = key_array(key_bytes);
    let ciphertext = match aes256gcm_encrypt(&k, &nonce, data.as_bytes()) {
        Some(c) => c,
        None => {
            return Err(CryptoError::Encryption);
        },
    };
    let mut combined: Vec<u8> = Vec::new();
    let mut i: usize = 0;
    while i < 12
        invariant
            i <= 12,
            combined@ == nonce@.take(i as int),
        decreases 12 - i,
    {
        combined.push(nonce[i]);
        i = i + 1;
        assert(combined@ =~= nonce@.take(i as int));
    }
    let mut j: usize = 0;
    while j < ciphertext.len()
        invariant
            j <= ciphertext@.len(),
            combined@ == nonce@ + ciphertext@.take(j as int),
        decreases ciphertext@.len() - j,
    {
        combined.push(ciphertext[j]);
        j = j + 1;
        assert(combined@ =~= nonce@ + ciphertext@.take(j as int));
    }
    assert(ciphertext@.take(ciphertext@.len() as int) =~= ciphertext@);
    Ok(base64_encode(combined.as_slice()))
}

/// Encrypts `data` under `key` with a fresh random nonce: the result is what
/// `encrypt_with_nonce` gives for some nonce, unless the key has 32 bytes and the
/// random source fails.
pub fn encrypt(key: &str, data: &str) -> (r: Result<String, CryptoError>)
    requires
        base64_fits(data.spec_bytes().len() + 28int),
    ensures
        r == Err::<String, CryptoError>(CryptoError::RandomSource) ==> key.spec_bytes().len() == 32,
        r == Err::<String, CryptoError>(CryptoError::RandomSource) || exists|nonce: Seq<u8>|
            nonce.len() == 12 && #[trigger] encrypts_to(key.spec_bytes(), nonce, data.spec_bytes(), r),
{
    if key.as_bytes().len() != 32 {
        let r = Err(CryptoError::KeyLength);
        assert(encrypts_to(key.spec_bytes(), seq![0u8; 12], data.spec_bytes(), r));
        return r;
    }
    let nonce = match random_nonce() {
        Some(n) => n,
        None => {
            return Err(CryptoError::RandomSource);
        },
    };
    let r = encrypt_with_nonce(key, nonce, data);
    assert(nonce@.len() == 12);
    r
}

/// The standard Base64 of a nonce followed by the AES-256-GCM seal, under that
/// same nonce, of a text's UTF-8 bytes.
pub open spec fn sealed_text(key: Seq<u8>, nonce: Seq<u8>, data: Seq<char>) -> Seq<char> {
    spec_base64_encode(nonce + aes256gcm_seal(key, nonce, encode_utf8(data)))
}

/// An encryption's text is the sealed text under its nonce.
proof fn lemma_encryption_is_sealed_text(key: Seq<u8>, nonce: Seq<u8>, data: Seq<char>, text: Seq<char>)
    requires
        spec_encrypt(key, nonce, encode_utf8(data)) == Ok::<Seq<char>, CryptoFailure>(text),
    ensures
        key.len() == 32,
        encode_utf8(data).len() <= AES_GCM_P_MAX,
        sealed_text(key, nonce, data) == text,
{
}

/// An encrypted text holds the nonce exactly as given, byte for byte, followed by
/// the seal of the data under that same nonce: whatever bytes the text is the
/// standard Base64 of, they start with the nonce and go on with that seal.
pub proof fn encrypted_text_holds_nonce_then_seal(
    key: Seq<u8>,
    nonce: Seq<u8>,
    data: Seq<u8>,
    encoded: Seq<u8>,
)
    requires
        spec_encrypt(key, nonce, data) is Ok,
        spec_base64_encode(encoded) == spec_encrypt(key, nonce, data)->Ok_0,
    ensures
        key.len() == 32,
        encoded.take(nonce.len() as int) == nonce,
        encoded.skip(nonce.len() as int) == aes256gcm_seal(key, nonce, data),
{
    let sealed = aes256gcm_seal(key, nonce, data);
    base64_encoding_is_injective(encoded, nonce + sealed);
    assert((nonce + sealed).take(nonce.len() as int) =~= nonce);
    assert((nonce + sealed).skip(nonce.len() as int) =~= sealed);
}

/// Decryption takes the first twelve decoded bytes, unchanged, as the nonce and
/// opens the rest with them: it succeeds exactly when that opening gives UTF-8,
/// and then gives the text those bytes spell.
pub proof fn decryption_opens_with_leading_nonce(
    key: Seq<u8>,
    text: Seq<char>,
    nonce: Seq<u8>,
    sealed: Seq<u8>,
)
    requires
        key.len() == 32,
        nonce.len() == 12,
        base64_standard_decode(text) == Ok::<Seq<u8>, Seq<char>>(nonce + sealed),
    ensures
        spec_decrypt(key, text) is Ok <==> (aes256gcm_open(key, nonce, sealed) matches Some(p)
            && valid_utf8(p)),
        spec_decrypt(key, text) matches Ok(d) ==> (aes256gcm_open(key, nonce, sealed) matches Some(p)
            && p == encode_utf8(d)),
        aes256gcm_open(key, nonce, sealed) is None ==> spec_decrypt(key, text)
            == Err::<Seq<char>, CryptoFailure>(CryptoFailure::Decryption),
{
    assert((nonce + sealed).take(12) =~= nonce);
    assert((nonce + sealed).skip(12) =~= sealed);
    if let Some(p) = aes256gcm_open(key, nonce, sealed) {
        if valid_utf8(p) {
            decode_utf8_encode_utf8(p);
        }
    }
}

/// Decrypts what `encrypt` produced. Text that an encryption under the same key
/// produced decrypts back to the encrypted text.
pub fn decrypt(key: &str, encrypted_data: &str) -> (r: Result<String, CryptoError>)
    ensures
        match spec_decrypt(key.spec_bytes(), encrypted_data@) {
            Ok(t) => r matches Ok(s) && s@ == t,
            Err(e) => r matches Err(f) && f@ == e,
        },
        forall|nonce: Seq<u8>, data: Seq<char>|
            nonce.len() == 12 && #[trigger] spec_encrypt(key.spec_bytes(), nonce, encode_utf8(data))
                == Ok::<Seq<char>, CryptoFailure>(encrypted_data@) ==> (r matches Ok(s) && s@ == data),
        forall|nonce: Seq<u8>, data: Seq<char>|
            nonce.len() == 12 && key.spec_bytes().len() == 32 && encode_utf8(data).len() <= AES_GCM_P_MAX
                && #[trigger] sealed_text(key.spec_bytes(), nonce, data) == encrypted_data@ ==> (r matches Ok(s)
                && s@ == data),
{
    let ghost kb = key.spec_bytes();
    let ghost text = encrypted_data@;
    let combined = match base64_decode(encrypted_data) {
        Ok(c) => c,
        Err(m) => {
            proof {
                assert forall|n: Seq<u8>, d: Seq<char>|
                    n.len() == 12 && kb.len() == 32 && encode_utf8(d).len() <= AES_GCM_P_MAX
                        && #[trigger] sealed_text(kb, n, d) == text implies false by {
                    assert(spec_base64_encode(n + aes256gcm_seal(kb, n, encode_utf8(d))) == text);
                }
                assert forall|n: Seq<u8>, d: Seq<char>|
                    n.len() == 12 && #[trigger] spec_encrypt(kb, n, encode_utf8(d))
                        == Ok::<Seq<char>, CryptoFailure>(text) implies false by {
                    lemma_encryption_is_sealed_text(kb, n, d, text);
                }
            }
            return Err(CryptoError::Base64(m));
        },
    };
    // Every sealed text of this key decodes to its nonce followed by its seal.
    proof {
        assert forall|n: Seq<u8>, d: Seq<char>|
            n.len() == 12 && kb.len() == 32 && encode_utf8(d).len() <= AES_GCM_P_MAX
                && #[trigger] sealed_text(kb, n, d) == text implies combined@ == n + aes256gcm_seal(
            kb,
            n,
            encode_utf8(d),
        ) by {
            assert(spec_base64_encode(n + aes256gcm_seal(kb, n, encode_utf8(d))) == text);
        }
    }
    if combined.len() < 12 {
        proof {
            assert forall|n: Seq<u8>, d: Seq<char>|
                n.len() == 12 && #[trigger] spec_encrypt(kb, n, encode_utf8(d))
                    == Ok::<Seq<char>, CryptoFailure>(text) implies false by {
                lemma_encryption_is_sealed_text(kb, n, d, text);
            }
        }
        return Err(CryptoError::TooShort);
    }
    let key_bytes = key.as_bytes();
    if key_bytes.len() != 32 {
        proof {
            assert forall|n: Seq<u8>, d: Seq<char>|
                n.len() == 12 && #[trigger] spec_encrypt(kb, n, encode_utf8(d))
                    == Ok::<Seq<char>, CryptoFailure>(text) implies false by {
                lemma_encryption_is_sealed_text(kb, n, d, text);
            }
        }
        return Err(CryptoError::InvalidKey);
    }
    let k = key_array(key_bytes);
    let mut nonce = [0u8; 12];
    let mut i: usize = 0;
    while i < 12
        invariant
            i <= 12,
            combined@.len() >= 12,
            forall|j: int| 0 <= j < i ==> nonce@[j] == combined@[j],
        decreases 12 - i,
    {
        nonce[i] = combined[i];
        i = i + 1;
    }
    assert(nonce@ =~= combined@.take(12));
    let mut ciphertext: Vec<u8> = Vec::new();
    let mut j: usize = 12;
    while j < combined.len()
        invariant
            12 <= j <= combined@.len(),
            ciphertext@ == combined@.subrange(12, j as int),
        decreases combined@.len() - j,
    {
        ciphertext.push(combined[j]);
        j = j + 1;
        assert(ciphertext@ =~= combined@.subrange(12, j as int));
    }
    assert(ciphertext@ =~= combined@.skip(12));
    // A sealed text's nonce and seal are what is opened.
    proof {
        assert forall|n: Seq<u8>, d: Seq<char>|
            n.len() == 12 && kb.len() == 32 && encode_utf8(d).len() <= AES_GCM_P_MAX
                && #[trigger] sealed_text(kb, n, d) == text implies nonce@ == n && ciphertext@
            == aes256gcm_seal(kb, n, encode_utf8(d)) by {
            let sealed = aes256gcm_seal(kb, n, encode_utf8(d));
            assert(combined@ == n + sealed);
            assert(nonce@ =~= n);
            assert(ciphertext@ =~= sealed);
        }
    }
    let plaintext = match aes256gcm_decrypt(&k, &nonce, ciphertext.as_slice()) {
        Some(p) => p,
        None => {
            proof {
                assert forall|n: Seq<u8>, d: Seq<char>|
                    n.len() == 12 && kb.len() == 32 && encode_utf8(d).len() <= AES_GCM_P_MAX
                        && #[trigger] sealed_text(kb, n, d) == text implies false by {
                    assert(nonce@ == n && ciphertext@ == aes256gcm_seal(kb, n, encode_utf8(d)));
                }
                assert forall|n: Seq<u8>, d: Seq<char>|
                    n.len() == 12 && #[trigger] spec_encrypt(kb, n, encode_utf8(d))
                        == Ok::<Seq<char>, CryptoFailure>(text) implies false by {
                    lemma_encryption_is_sealed_text(kb, n, d, text);
                }
            }
            return Err(CryptoError::Decryption);
        },
    };
    let ghost plain = plaintext@;
    proof {
        assert forall|n: Seq<u8>, d: Seq<char>|
            n.len() == 12 && kb.len() == 32 && encode_utf8(d).len() <= AES_GCM_P_MAX
                && #[trigger] sealed_text(kb, n, d) == text implies plain == encode_utf8(d) by {
            assert(nonce@ == n && ciphertext@ == aes256gcm_seal(kb, n, encode_utf8(d)));
        }
    }
    match string_from_utf8(plaintext) {
        Ok(s) => {
            proof {
                assert forall|n: Seq<u8>, d: Seq<char>|
                    n.len() == 12 && kb.len() == 32 && encode_utf8(d).len() <= AES_GCM_P_MAX
                        && #[trigger] sealed_text(kb, n, d) == text implies s@ == d by {
                    assert(plain == encode_utf8(d));
                    encode_utf8_decode_utf8(d);
                }
                assert forall|n: Seq<u8>, d: Seq<char>|
                    n.len() == 12 && #[trigger] spec_encrypt(kb, n, encode_utf8(d))
                        == Ok::<Seq<char>, CryptoFailure>(text) implies s@ == d by {
                    lemma_encryption_is_sealed_text(kb, n, d, text);
                }
            }
            Ok(s)
        },
        Err(m) => {
            proof {
                assert forall|n: Seq<u8>, d: Seq<char>|
                    n.len() == 12 && kb.len() == 32 && encode_utf8(d).len() <= AES_GCM_P_MAX
                        && #[trigger] sealed_text(kb, n, d) == text implies false by {
                    assert(plain == encode_utf8(d));
                    encode_utf8_valid_utf8(d);
                }
                assert forall|n: Seq<u8>, d: Seq<char>|
                    n.len() == 12 && #[trigger] spec_encrypt(kb, n, encode_utf8(d))
                        == Ok::<Seq<char>, CryptoFailure>(text) implies false by {
                    lemma_encryption_is_sealed_text(kb, n, d, text);
                }
            }
            Err(CryptoError::Utf8(m))
        },
    }
}

} // verus!
