use vstd::prelude::*;
use vstd::string::*;
use wireguard_keys::{Privkey, Pubkey};

use crate::text::{
    is_white_space, lemma_trim_ignores_appended_white_space,
    lemma_trim_keeps_text_without_trailing_space, trim_end_white, trim_white_end,
};

verus! {

/// The 32 key bytes that `Privkey::parse` reads from a text, or `None`
/// where it rejects the text.
pub uninterp spec fn parsed_privkey(text: Seq<char>) -> Option<Seq<u8>>;

/// The x25519 public key that `Privkey::pubkey` derives from private key bytes.
pub uninterp spec fn derived_pubkey(private: Seq<u8>) -> Seq<u8>;

/// The text that `Privkey::to_base64` gives for private key bytes.
pub uninterp spec fn privkey_base64(private: Seq<u8>) -> Seq<char>;

/// The text that `Pubkey::to_base64` gives for public key bytes.
pub uninterp spec fn pubkey_base64(public: Seq<u8>) -> Seq<char>;

/// Whether private key bytes are clamped as x25519 key generation leaves
/// them: the low three bits of the first byte clear, the top bit of the last
/// byte clear and the bit below it set.
pub open spec fn clamped(b: Seq<u8>) -> bool {
    &&& b.len() == 32
    &&& b[0] & 7u8 == 0u8
    &&& b[31] & 0x80u8 == 0u8
    &&& b[31] & 0x40u8 == 0x40u8
}

/// The value of a hexadecimal digit, either case.
pub open spec fn hex_value(c: char) -> int {
    let v = c as u32;
    if 0x30 <= v && v <= 0x39 {
        v - 0x30
    } else if 0x61 <= v && v <= 0x66 {
        v - 0x61 + 10
    } else if 0x41 <= v && v <= 0x46 {
        v - 0x41 + 10
    } else {
        -1
    }
}

/// Whether a text is a key written as 64 hexadecimal digits.
pub open spec fn is_hex_key_text(s: Seq<char>) -> bool {
    s.len() == 64 && forall|i: int| 0 <= i < 64 ==> hex_value(#[trigger] s[i]) >= 0
}

/// The 32 bytes that 64 hexadecimal digits spell, two digits to a byte.
pub open spec fn hex_key_bytes(s: Seq<char>) -> Seq<u8> {
    Seq::new(32, |i: int| (hex_value(s[2 * i]) * 16 + hex_value(s[2 * i + 1])) as u8)
}

/// Whether a character belongs to the standard base64 alphabet or is its
/// padding character.
pub open spec fn is_base64_char(c: char) -> bool {
    ('A' <= c && c <= 'Z') || ('a' <= c && c <= 'z') || ('0' <= c && c <= '9') || c == '+' || c
        == '/' || c == '='
}

/// Relies on `wireguard_keys::Privkey::parse`: the result depends on the
/// text alone; a text whose UTF-8 length is neither 44 (base64) nor 64 (hex)
/// is rejected, and one of 64 bytes is read as hex digits by `hex::decode`.
#[verifier::external_body]
fn parse_key_bytes(text: &str) -> (r: Option<[u8; 32]>)
    ensures
        parsed_privkey(text@) == (match r {
            Some(b) => Some(b@),
            None => None::<Seq<u8>>,
        }),
        text.spec_bytes().len() != 44 && text.spec_bytes().len() != 64 ==> r is None,
        is_hex_key_text(text@) ==> r is Some && r->0@ == hex_key_bytes(text@),
        text.spec_bytes().len() == 64 && !is_hex_key_text(text@) ==> r is None,
{
    match Privkey::parse(text) {
        Ok(k) => Some(*k),
        Err(_) => None,
    }
}

/// Relies on `wireguard_keys::Privkey::generate`: 32 bytes drawn from the
/// operating system's random source and clamped by x25519-dalek's
/// `StaticSecret::new`; nothing else is known of them.
#[verifier::external_body]
fn random_key_bytes() -> (r: [u8; 32])
    ensures
        clamped(r@),
{
    *Privkey::generate()
}

/// Relies on `wireguard_keys::Privkey::pubkey`: the x25519 public key of
/// the private key bytes, a function of those bytes alone.
#[verifier::external_body]
fn pubkey_bytes(private: &[u8; 32]) -> (r: [u8; 32])
    ensures
        r@ == derived_pubkey(private@),
{
    *Privkey::new(*private).pubkey()
}

/// Relies on `wireguard_keys::Privkey::to_base64`: the standard padded
/// base64 text of the key bytes, 44 characters, which `Privkey::parse`
/// reads back to the same bytes.
#[verifier::external_body]
fn privkey_text(private: &[u8; 32]) -> (r: String)
    ensures
        r@ == privkey_base64(private@),
        r@.len() == 44,
        forall|i: int| 0 <= i < r@.len() ==> is_base64_char(#[trigger] r@[i]),
        parsed_privkey(r@) == Some(private@),
{
    Privkey::new(*private).to_base64()
}

/// Relies on `wireguard_keys::Pubkey::to_base64`: the standard base64
/// text of the key bytes.
#[verifier::external_body]
fn pubkey_text(public: &[u8; 32]) -> (r: String)
    ensures
        r@ == pubkey_base64(public@),
{
    Pubkey::new(*public).to_base64()
}

/// A private key that was rejected.
#[derive(Debug, PartialEq, Eq, Structural)]
pub enum KeyError {
    /// The text is not a private key in base64 or hex.
    Malformed,
}

/// A WireGuard private key, as its 32 bytes.
#[derive(Clone, Copy)]
pub struct PrivateKey {
    pub bytes: [u8; 32],
}

/// A WireGuard public key, as its 32 bytes.
pub struct PublicKey {
    pub bytes: [u8; 32],
}

impl PrivateKey {
    /// Reads a private key written in base64 (44 characters) or hex (64).
    pub fn parse(text: &str) -> (r: Result<PrivateKey, KeyError>)
        ensures
            match r {
                Ok(k) => parsed_privkey(text@) == Some(k.bytes@),
                Err(e) => parsed_privkey(text@) is None && e == KeyError::Malformed,
            },
            is_hex_key_text(text@) ==> (r matches Ok(k) && k.bytes@ == hex_key_bytes(text@)),
            text.spec_bytes().len() != 44 && text.spec_bytes().len() != 64 ==> r is Err,
    {
        match parse_key_bytes(text) {
            Some(bytes) => Ok(PrivateKey { bytes }),
            None => Err(KeyError::Malformed),
        }
    }

    /// A fresh random private key.
    pub fn generate() -> (r: PrivateKey)
        ensures
            clamped(r.bytes@),
    {
        PrivateKey { bytes: random_key_bytes() }
    }

    /// The public key that belongs to this private key.
    pub fn public_key(&self) -> (r: PublicKey)
        ensures
            r.bytes@ == derived_pubkey(self.bytes@),
    {
        PublicKey { bytes: pubkey_bytes(&self.bytes) }
    }

    /// The key in base64, as a tunnel configuration writes it; reading the
    /// text back, also as a pasted line, gives this key again.
    pub fn to_base64(&self) -> (r: String)
        ensures
            r@ == privkey_base64(self.bytes@),
            r@.len() == 44,
            parsed_privkey(r@) == Some(self.bytes@),
            key_of_line(r@) == Some(self.bytes@),
    {
        let r = privkey_text(&self.bytes);
        proof {
            assert(is_base64_char(r@.last()));
            lemma_trim_keeps_text_without_trailing_space(r@);
        }
        r
    }
}

impl PublicKey {
    /// The key in base64, as the enrollment service reads it.
    pub fn to_base64(&self) -> (r: String)
        ensures
            r@ == pubkey_base64(self.bytes@),
    {
        pubkey_text(&self.bytes)
    }
}

/// The private key that a line pasted by the operator holds, trailing
/// whitespace (the line break) set aside.
pub open spec fn key_of_line(line: Seq<char>) -> Option<Seq<u8>> {
    parsed_privkey(trim_white_end(line))
}

/// The private key of a run: read from the pasted line where `prompt` is
/// set, generated afresh otherwise (the line is then not read).
pub fn get_wg_privkey(prompt: bool, line: &str) -> (r: Result<PrivateKey, KeyError>)
    ensures
        prompt ==> match r {
            Ok(k) => key_of_line(line@) == Some(k.bytes@),
            Err(e) => key_of_line(line@) is None && e == KeyError::Malformed,
        },
        !prompt ==> (r matches Ok(k) && clamped(k.bytes@)),
{
    if prompt {
        PrivateKey::parse(trim_end_white(line))
    } else {
        Ok(PrivateKey::generate())
    }
}

/// Reading the same key text twice gives the same private key, and so the
/// same public key: the derived public key depends on the text alone.
pub proof fn lemma_parsed_key_determines_public_key(a: Seq<char>, b: Seq<char>)
    requires
        trim_white_end(a) == trim_white_end(b),
        key_of_line(a) is Some,
    ensures
        key_of_line(b) == key_of_line(a),
        derived_pubkey(key_of_line(a)->0) == derived_pubkey(key_of_line(b)->0),
{
}

/// A pasted line and the same line followed by white space (a line break)
/// give the same key.
pub proof fn lemma_trailing_white_space_keeps_key(line: Seq<char>, w: Seq<char>)
    requires
        forall|i: int| 0 <= i < w.len() ==> is_white_space(#[trigger] w[i]),
    ensures
        key_of_line(line + w) == key_of_line(line),
{
    lemma_trim_ignores_appended_white_space(line, w);
}

} // verus!
