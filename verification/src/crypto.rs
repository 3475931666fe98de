//! Hashing, HMAC signing, hex encoding, key derivation and the XOR
//! obfuscation used for data at rest.

use vstd::prelude::*;
use vstd::utf8::{encode_utf8, encode_scalar, valid_utf8, decode_utf8};
use crate::text::owned;

verus! {

// ============================================
// SPECIFICATION
// ============================================

/// What `ring::digest::digest(&SHA256, data)` returns.
pub uninterp spec fn sha256(data: Seq<u8>) -> Seq<u8>;

/// What `ring::hmac::sign` returns for an HMAC-SHA256 key made from `key`.
pub uninterp spec fn hmac_sha256(key: Seq<u8>, data: Seq<u8>) -> Seq<u8>;

/// Inputs to SHA-256 and HMAC-SHA256 stay below 2^60 bytes; ring panics on
/// inputs whose bit length does not fit in 64 bits.
pub open spec fn hash_byte_limit() -> int {
    0x1000_0000_0000_0000
}

/// Text hashed as UTF-8 stays below 2^56 characters (at most 2^58 bytes).
pub open spec fn hash_char_limit() -> int {
    0x0100_0000_0000_0000
}

/// The lowercase hex digit for a nibble.
pub open spec fn hex_digit(n: int) -> char {
    if n < 10 { (('0' as int) + n) as char } else { (('a' as int) + n - 10) as char }
}

/// Lowercase hex encoding, two characters per byte, high nibble first.
pub open spec fn hex_lower(bytes: Seq<u8>) -> Seq<char>
    decreases bytes.len(),
{
    if bytes.len() == 0 {
        Seq::empty()
    } else {
        seq![hex_digit(bytes[0] as int / 16), hex_digit(bytes[0] as int % 16)] + hex_lower(bytes.drop_first())
    }
}

/// A character `hex::decode` accepts, and its value.
pub open spec fn hex_value(c: char) -> Option<u8> {
    if '0' <= c && c <= '9' {
        Some(((c as int) - ('0' as int)) as u8)
    } else if 'a' <= c && c <= 'f' {
        Some(((c as int) - ('a' as int) + 10) as u8)
    } else if 'A' <= c && c <= 'F' {
        Some(((c as int) - ('A' as int) + 10) as u8)
    } else {
        None
    }
}

/// `s` decodes as hex: even length and only hex digits (either case).
pub open spec fn is_hex(s: Seq<char>) -> bool {
    s.len() % 2 == 0 && forall|i: int| 0 <= i < s.len() ==> #[trigger] hex_value(s[i]) is Some
}

/// The bytes a valid hex string decodes to.
pub open spec fn hex_decoded(s: Seq<char>) -> Seq<u8> {
    Seq::new((s.len() / 2) as nat, |i: int|
        (hex_value(s[2 * i])->0 as int * 16 + hex_value(s[2 * i + 1])->0 as int) as u8)
}

/// `data` XORed with `key`, the key repeating every `key.len()` bytes.
pub open spec fn xor_with(data: Seq<u8>, key: Seq<u8>) -> Seq<u8> {
    Seq::new(data.len(), |i: int| data[i] ^ key[i % key.len() as int])
}

/// The bytes of a key label.
pub open spec fn derive_key(master: Seq<u8>, label: Seq<char>) -> Seq<u8> {
    sha256(master + encode_utf8(label))
}

/// UTF-8 takes at most four bytes per character.
pub(crate) proof fn lemma_encode_len(s: Seq<char>)
    ensures
        encode_utf8(s).len() <= 4 * s.len(),
    decreases s.len(),
{
    if s.len() > 0 {
        lemma_encode_len(s.drop_first());
        let c = s[0] as u32;
        assert(encode_scalar(c).len() <= 4);
    }
}

// ============================================
// TRUSTED WRAPPERS
// ============================================

/// `ring::digest::digest(&SHA256, data)`: the SHA-256 digest of `data`,
/// named `sha256`; its output is 32 bytes long.
#[verifier::external_body]
fn sha256_bytes(data: &[u8]) -> (r: Vec<u8>)
    requires
        data@.len() < hash_byte_limit(),
    ensures
        r@ == sha256(data@),
        r@.len() == 32,
{
    ring::digest::digest(&ring::digest::SHA256, data).as_ref().to_vec()
}

/// `ring::hmac::sign` with `ring::hmac::Key::new(HMAC_SHA256, key)`: the
/// HMAC-SHA256 tag of `data`, named `hmac_sha256`; 32 bytes long.
#[verifier::external_body]
fn hmac_sign_bytes(key: &[u8], data: &[u8]) -> (r: Vec<u8>)
    requires
        data@.len() < hash_byte_limit(),
    ensures
        r@ == hmac_sha256(key@, data@),
        r@.len() == 32,
{
    let k = ring::hmac::Key::new(ring::hmac::HMAC_SHA256, key);
    ring::hmac::sign(&k, data).as_ref().to_vec()
}

/// `ring::hmac::verify`: recomputes the tag of `data` and accepts exactly
/// when it equals `tag` (so an accepted tag is 32 bytes long).
#[verifier::external_body]
fn hmac_verify_bytes(key: &[u8], data: &[u8], tag: &[u8]) -> (r: bool)
    requires
        data@.len() < hash_byte_limit(),
    ensures
        r == (tag@ == hmac_sha256(key@, data@)),
        r ==> tag@.len() == 32,
{
    let k = ring::hmac::Key::new(ring::hmac::HMAC_SHA256, key);
    ring::hmac::verify(&k, data, tag).is_ok()
}

/// `hex::encode`: lowercase hex, two characters per byte.
#[verifier::external_body]
pub(crate) fn hex_encode(bytes: &[u8]) -> (r: String)
    ensures
        r@ == hex_lower(bytes@),
{
    hex::encode(bytes)
}

/// `hex::decode`: the decoded bytes, or `None` for odd length or a non-hex character.
#[verifier::external_body]
fn hex_decode(s: &str) -> (r: Option<Vec<u8>>)
    ensures
        r is Some == is_hex(s@),
        r matches Some(b) ==> b@ == hex_decoded(s@),
{
    hex::decode(s).ok()
}

/// `String::from_utf8`: the string the bytes encode, or `None` when they
/// are not valid UTF-8.
#[verifier::external_body]
fn string_from_utf8(bytes: Vec<u8>) -> (r: Option<String>)
    ensures
        r is Some == valid_utf8(bytes@),
        r matches Some(s) ==> s@ == decode_utf8(bytes@),
{
    String::from_utf8(bytes).ok()
}

// ============================================
// HASHING
// ============================================

/// SHA-256 of the UTF-8 bytes of `s`.
pub fn sha256_of_str(s: &str) -> (r: Vec<u8>)
    requires
        s@.len() < hash_char_limit(),
    ensures
        r@ == sha256(encode_utf8(s@)),
        r@.len() == 32,
{
    proof {
        lemma_encode_len(s@);
    }
    sha256_bytes(s.as_bytes())
}

/// Lowercase hex of the SHA-256 of the UTF-8 bytes of `s`.
pub fn sha256_hex(s: &str) -> (r: String)
    requires
        s@.len() < hash_char_limit(),
    ensures
        r@ == hex_lower(sha256(encode_utf8(s@))),
{
    let d = sha256_of_str(s);
    hex_encode(d.as_slice())
}

// ============================================
// KEY DERIVATION
// ============================================

fn to_key(v: &Vec<u8>) -> (k: [u8; 32])
    requires
        v@.len() == 32,
    ensures
        k@ == v@,
{
    let mut k = [0u8; 32];
    let mut i: usize = 0;
    while i < 32
        invariant
            v@.len() == 32,
            i <= 32,
            forall|j: int| 0 <= j < i ==> k@[j] == v@[j],
        decreases 32 - i,
    {
        k[i] = v[i];
        i = i + 1;
    }
    proof {
        assert(k@ =~= v@);
    }
    k
}

fn derive(master: &[u8; 32], label: &str) -> (k: [u8; 32])
    requires
        label@.len() < 16,
    ensures
        k@ == derive_key(master@, label@),
{
    let mut data: Vec<u8> = Vec::new();
    let mut i: usize = 0;
    while i < 32
        invariant
            i <= 32,
            data@ == master@.subrange(0, i as int),
        decreases 32 - i,
    {
        data.push(master[i]);
        i = i + 1;
        proof {
            assert(data@ =~= master@.subrange(0, i as int));
        }
    }
    let lb = label.as_bytes();
    proof {
        lemma_encode_len(label@);
    }
    let mut j: usize = 0;
    while j < lb.len()
        invariant
            lb@ == encode_utf8(label@),
            lb@.len() <= 64,
            j <= lb@.len(),
            data@ == master@ + lb@.subrange(0, j as int),
        decreases lb@.len() - j,
    {
        data.push(lb[j]);
        j = j + 1;
        proof {
            assert(data@ =~= master@ + lb@.subrange(0, j as int));
        }
    }
    proof {
        assert(lb@.subrange(0, lb@.len() as int) =~= lb@);
        assert(master@.subrange(0, 32) =~= master@);
    }
    let d = sha256_bytes(data.as_slice());
    to_key(&d)
}

/// The HMAC key: SHA-256 of the master key followed by "hmac-key".
pub fn get_hmac_key(master: &[u8; 32]) -> (k: [u8; 32])
    ensures
        k@ == derive_key(master@, "hmac-key"@),
{
    proof {
        reveal_strlit("hmac-key");
    }
    derive(master, "hmac-key")
}

/// The obfuscation key: SHA-256 of the master key followed by "xor-key".
pub fn get_xor_key(master: &[u8; 32]) -> (k: [u8; 32])
    ensures
        k@ == derive_key(master@, "xor-key"@),
{
    proof {
        reveal_strlit("xor-key");
    }
    derive(master, "xor-key")
}

// ============================================
// HMAC SIGNING
// ============================================

/// Lowercase hex of the HMAC-SHA256 tag of `data` under `key`.
pub fn hmac_sign(key: &[u8; 32], data: &[u8]) -> (sig: String)
    requires
        data@.len() < hash_byte_limit(),
    ensures
        sig@ == hex_lower(hmac_sha256(key@, data@)),
{
    let tag = hmac_sign_bytes(key.as_slice(), data);
    hex_encode(tag.as_slice())
}

/// Whether `signature` is the hex of the HMAC-SHA256 tag of `data` under
/// `key`; a signature that is not valid hex is checked as an empty tag.
pub fn hmac_verify(key: &[u8; 32], data: &[u8], signature: &str) -> (ok: bool)
    requires
        data@.len() < hash_byte_limit(),
    ensures
        ok == ((if is_hex(signature@) { hex_decoded(signature@) } else { Seq::<u8>::empty() })
            == hmac_sha256(key@, data@)),
{
    let expected = match hex_decode(signature) {
        Some(b) => b,
        None => Vec::new(),
    };
    hmac_verify_bytes(key.as_slice(), data, expected.as_slice())
}

// ============================================
// XOR OBFUSCATION
// ============================================

/// XORs `data` with `key`, repeating the key.
pub fn encrypt_data(data: &[u8], key: &[u8; 32]) -> (r: Vec<u8>)
    ensures
        r@ == xor_with(data@, key@),
{
    let mut r: Vec<u8> = Vec::new();
    let mut i: usize = 0;
    while i < data.len()
        invariant
            i <= data@.len(),
            r@.len() == i,
            forall|j: int| 0 <= j < i ==> #[trigger] r@[j] == data@[j] ^ key@[j % 32],
        decreases data@.len() - i,
    {
        r.push(data[i] ^ key[i % 32]);
        i = i + 1;
    }
    proof {
        assert(r@ =~= xor_with(data@, key@));
    }
    r
}

/// The inverse of `encrypt_data`; it never fails.
pub fn decrypt_data(encrypted: &[u8], key: &[u8; 32]) -> (r: Result<Vec<u8>, String>)
    ensures
        r matches Ok(v) && v@ == xor_with(encrypted@, key@),
{
    Ok(encrypt_data(encrypted, key))
}

/// Obfuscates the UTF-8 bytes of a serialized baseline.
pub fn encrypt_baseline(data: &str, xor_key: &[u8; 32]) -> (r: Vec<u8>)
    ensures
        r@ == xor_with(encode_utf8(data@), xor_key@),
{
    encrypt_data(data.as_bytes(), xor_key)
}

/// Recovers a serialized baseline; fails with "Invalid UTF-8" when the
/// de-obfuscated bytes are not UTF-8.
pub fn decrypt_baseline(encrypted: &[u8], xor_key: &[u8; 32]) -> (r: Result<String, String>)
    ensures
        valid_utf8(xor_with(encrypted@, xor_key@)) ==> (r matches Ok(s) && s@ == decode_utf8(xor_with(encrypted@, xor_key@))),
        !valid_utf8(xor_with(encrypted@, xor_key@)) ==> (r matches Err(e) && e@ == "Invalid UTF-8"@),
{
    let decrypted = match decrypt_data(encrypted, xor_key) {
        Ok(d) => d,
        Err(e) => return Err(e),
    };
    match string_from_utf8(decrypted) {
        Some(s) => Ok(s),
        None => Err(owned("Invalid UTF-8")),
    }
}

/// Obfuscates the UTF-8 bytes of a consent record.
pub fn encrypt_consent(data: &str, xor_key: &[u8; 32]) -> (r: Vec<u8>)
    ensures
        r@ == xor_with(encode_utf8(data@), xor_key@),
{
    encrypt_data(data.as_bytes(), xor_key)
}

// ============================================
// LAWS
// ============================================

/// XOR obfuscation is its own inverse: decrypting what was encrypted with
/// the same key gives back the original bytes.
pub proof fn law_xor_round_trip(data: Seq<u8>, key: Seq<u8>)
    requires
        key.len() == 32,
    ensures
        xor_with(xor_with(data, key), key) == data,
{
    assert forall|i: int| 0 <= i < data.len() implies #[trigger] xor_with(xor_with(data, key), key)[i] == data[i] by {
        let k = key[i % 32];
        let d = data[i];
        assert((d ^ k) ^ k == d) by (bit_vector);
    }
    assert(xor_with(xor_with(data, key), key) =~= data);
}

/// A baseline obfuscated and then recovered with the same key comes back unchanged.
pub proof fn law_baseline_round_trip(data: Seq<char>, key: Seq<u8>)
    requires
        key.len() == 32,
    ensures
        valid_utf8(xor_with(xor_with(encode_utf8(data), key), key)),
        decode_utf8(xor_with(xor_with(encode_utf8(data), key), key)) == data,
{
    law_xor_round_trip(encode_utf8(data), key);
    vstd::utf8::encode_utf8_valid_utf8(data);
    vstd::utf8::encode_utf8_decode_utf8(data);
}

// ============================================
// MASTER KEY SOURCE
// ============================================

/// The length of the master key in bytes.
pub const MASTER_KEY_LEN: usize = 32;

/// What reading the stored master key gave: nothing, or the stored bytes'
/// length together with the length DPAPI unprotected (if it could).
#[derive(Debug, Clone, Copy, PartialEq, Eq, Structural)]
pub enum KeyFile {
    Unreadable,
    Read { unprotected_len: Option<usize>, stored_len: usize },
}

/// Where the master key comes from.
#[derive(Debug, Clone, Copy, PartialEq, Eq, Structural)]
pub enum KeySource {
    /// The DPAPI-protected key.
    Protected,
    /// A raw key from an older install, re-stored protected.
    Legacy,
    /// A fresh random key: the stored one could not be read.
    Regenerate,
}

pub open spec fn key_source_spec(f: KeyFile) -> KeySource {
    match f {
        KeyFile::Read { unprotected_len: Some(n), stored_len: _ } =>
            if n == MASTER_KEY_LEN { KeySource::Protected } else { KeySource::Regenerate },
        KeyFile::Read { unprotected_len: None, stored_len: m } =>
            if m == MASTER_KEY_LEN { KeySource::Legacy } else { KeySource::Regenerate },
        KeyFile::Unreadable => KeySource::Regenerate,
    }
}

/// Decides which master key to use from what reading the key file gave.
pub fn master_key_source(f: KeyFile) -> (s: KeySource)
    ensures
        s == key_source_spec(f),
{
    match f {
        KeyFile::Read { unprotected_len: Some(n), stored_len: _ } => {
            if n == MASTER_KEY_LEN { KeySource::Protected } else { KeySource::Regenerate }
        },
        KeyFile::Read { unprotected_len: None, stored_len: m } => {
            if m == MASTER_KEY_LEN { KeySource::Legacy } else { KeySource::Regenerate }
        },
        KeyFile::Unreadable => KeySource::Regenerate,
    }
}

/// Whether the last key read found the real key (and not a temporary one).
pub struct KeyHealth {
    pub healthy: bool,
}

impl KeyHealth {
    /// Healthy until a read says otherwise.
    pub fn new() -> (h: KeyHealth)
        ensures
            h.healthy,
    {
        KeyHealth { healthy: true }
    }

    /// Records the outcome of a key read.
    pub fn record(&mut self, source: KeySource)
        ensures
            final(self).healthy == (source != KeySource::Regenerate),
    {
        self.healthy = match source {
            KeySource::Regenerate => false,
            _ => true,
        };
    }
}

pub fn key_read_healthy(h: &KeyHealth) -> (b: bool)
    ensures
        b == h.healthy,
{
    h.healthy
}

} // verus!
