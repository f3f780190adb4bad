//! Parsing of secret keys and account addresses from their base-58 text forms.
use solana_sdk::pubkey::Pubkey;
use solana_sdk::signature::Keypair;
use vstd::prelude::*;

verus! {

/// Length in bytes of an encoded keypair: a 32-byte secret followed by its 32-byte public key.
pub const KEYPAIR_LENGTH: usize = 64;

/// The bytes that a base-58 text decodes to, or `None` where it is not base-58.
pub uninterp spec fn base58_decoded(s: Seq<char>) -> Option<Seq<u8>>;

/// Whether 64 bytes form an ed25519 keypair whose public half matches its secret half.
pub uninterp spec fn keypair_bytes_accepted(b: Seq<u8>) -> bool;

/// The 32 bytes of the account address written as `s`, or `None` where `s` is no address.
pub uninterp spec fn pubkey_parsed(s: Seq<char>) -> Option<Seq<u8>>;

/// A character of the Bitcoin base-58 alphabet: digits and letters except
/// `0`, `O`, `I` and `l`.
pub open spec fn is_base58_char(c: char) -> bool {
    ('1' <= c <= '9') || ('A' <= c <= 'H') || ('J' <= c <= 'N') || ('P' <= c <= 'Z')
        || ('a' <= c <= 'k') || ('m' <= c <= 'z')
}

/// Relies on `bs58::decode(..).into_vec()` with the default Bitcoin alphabet:
/// the bytes of a base-58 text, or an error; any character outside the
/// alphabet is an error, and the empty text decodes to no bytes.
#[verifier::external_body]
fn base58_decode(s: &str) -> (r: Option<Vec<u8>>)
    ensures
        match r {
            Some(b) => base58_decoded(s@) == Some(b@),
            None => base58_decoded(s@) is None,
        },
        (exists|i: int| 0 <= i < s@.len() && !is_base58_char(#[trigger] s@[i])) ==> r is None,
        s@.len() == 0 ==> r is Some && r->Some_0@.len() == 0,
{
    bs58::decode(s).into_vec().ok()
}

/// Relies on `Keypair::from_bytes`: accepts a secret key followed by the public
/// key derived from it, and nothing else.
#[verifier::external_body]
fn keypair_bytes_valid(b: &[u8]) -> (r: bool)
    ensures
        r == keypair_bytes_accepted(b@),
{
    Keypair::from_bytes(b).is_ok()
}

/// Relies on `Pubkey::from_str` (through `five8::decode_32`): base-58 text of
/// at most 44 bytes that decodes to exactly 32 bytes, which are the address; a
/// character outside the alphabet is rejected.
#[verifier::external_body]
fn pubkey_from_str(s: &str) -> (r: Option<[u8; 32]>)
    ensures
        match r {
            Some(a) => pubkey_parsed(s@) == Some(a@) && base58_decoded(s@) == Some(a@),
            None => pubkey_parsed(s@) is None,
        },
        (exists|i: int| 0 <= i < s@.len() && !is_base58_char(#[trigger] s@[i])) ==> r is None,
{
    <Pubkey as std::str::FromStr>::from_str(s).ok().map(|p| p.to_bytes())
}

/// Why a secret key or an address could not be parsed.
#[derive(Clone, Copy, Debug, PartialEq, Eq, Structural)]
pub enum CodecError {
    /// The text is not valid base-58.
    Encoding,
    /// The decoded secret key has the wrong number of bytes.
    Length { expected: usize, actual: usize },
    /// The 64 bytes do not form a consistent ed25519 keypair.
    InvalidKey,
    /// The text is not an account address.
    InvalidAddress,
}

impl CodecError {
    /// A human-readable description of the error.
    pub fn message(&self) -> (r: String)
        ensures
            r@ == (match self {
                CodecError::Encoding => "invalid base-58 encoding"@,
                CodecError::Length { .. } => "invalid private key length: expected 64 bytes"@,
                CodecError::InvalidKey => "keypair bytes do not match"@,
                CodecError::InvalidAddress => "invalid account address"@,
            }),
    {
        match self {
            CodecError::Encoding => String::from_str("invalid base-58 encoding"),
            CodecError::Length { .. } => String::from_str("invalid private key length: expected 64 bytes"),
            CodecError::InvalidKey => String::from_str("keypair bytes do not match"),
            CodecError::InvalidAddress => String::from_str("invalid account address"),
        }
    }
}

/// A 32-byte account identifier.
#[derive(Clone, Copy, Debug, PartialEq, Eq, Hash)]
pub struct Address {
    pub bytes: [u8; 32],
}

/// A validated ed25519 keypair: a 32-byte secret followed by its public key.
#[derive(Clone, Debug)]
pub struct SenderKeypair {
    pub bytes: Vec<u8>,
}

impl SenderKeypair {
    /// The bytes form a keypair that signing accepts.
    pub open spec fn wf(&self) -> bool {
        self.bytes@.len() == KEYPAIR_LENGTH && keypair_bytes_accepted(self.bytes@)
    }
}

/// What parsing a secret key text gives: the first failing check, or success.
pub open spec fn keypair_outcome(s: Seq<char>) -> Result<(), CodecError> {
    match base58_decoded(s) {
        None => Err(CodecError::Encoding),
        Some(b) => if b.len() != KEYPAIR_LENGTH {
            Err(CodecError::Length { expected: KEYPAIR_LENGTH, actual: b.len() as usize })
        } else if !keypair_bytes_accepted(b) {
            Err(CodecError::InvalidKey)
        } else {
            Ok(())
        },
    }
}

/// Decodes a base-58 secret key into a signing keypair.
pub fn parse_keypair(private_key_base58: &str) -> (r: Result<SenderKeypair, CodecError>)
    ensures
        match r {
            Ok(k) => keypair_outcome(private_key_base58@) is Ok && k.wf()
                && base58_decoded(private_key_base58@) == Some(k.bytes@),
            Err(e) => keypair_outcome(private_key_base58@) == Err::<(), CodecError>(e),
        },
{
    let bytes = match base58_decode(private_key_base58) {
        Some(b) => b,
        None => return Err(CodecError::Encoding),
    };
    if bytes.len() != KEYPAIR_LENGTH {
        return Err(CodecError::Length { expected: KEYPAIR_LENGTH, actual: bytes.len() });
    }
    if keypair_bytes_valid(bytes.as_slice()) {
        Ok(SenderKeypair { bytes })
    } else {
        Err(CodecError::InvalidKey)
    }
}

/// Parses the base-58 text form of an account address.
pub fn parse_address(text: &str) -> (r: Result<Address, CodecError>)
    ensures
        match r {
            Ok(a) => pubkey_parsed(text@) == Some(a.bytes@) && base58_decoded(text@) == Some(a.bytes@),
            Err(e) => e == CodecError::InvalidAddress && pubkey_parsed(text@) is None,
        },
        (exists|i: int| 0 <= i < text@.len() && !is_base58_char(#[trigger] text@[i])) ==> r is Err,
{
    match pubkey_from_str(text) {
        Some(bytes) => Ok(Address { bytes }),
        None => Err(CodecError::InvalidAddress),
    }
}

} // verus!
