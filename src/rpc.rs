//! JSON-RPC calls as values, and the interpretation of their responses.
use vstd::prelude::*;

verus! {

/// The `error` object of a JSON-RPC response.
#[derive(Clone, Debug, PartialEq, Eq)]
pub struct RpcErrorObject {
    pub code: i32,
    pub message: String,
}

/// Why a remote call produced no result.
#[derive(Clone, Debug, PartialEq, Eq)]
pub enum RpcFailure {
    /// The server answered with an error object.
    Protocol { code: i32, message: String },
    /// The request could not be sent, or the response could not be decoded.
    Transport(String),
    /// The response held neither a result nor an error.
    EmptyResult,
}

/// A remote call that the transfer pipeline makes.
#[derive(Clone, Debug, PartialEq, Eq)]
pub enum RpcCall {
    /// Fetch the latest blockhash at the "confirmed" commitment level.
    GetLatestBlockhash,
    /// Submit a base64-encoded signed transaction with preflight checks.
    SendTransaction { encoded: String },
    /// Look up the status of a submitted transaction, searching its history.
    GetSignatureStatus { signature: String },
}

/// The `value` of a `getLatestBlockhash` result.
#[derive(Clone, Debug, PartialEq, Eq)]
pub struct BlockhashValue {
    pub blockhash: String,
    pub last_valid_block_height: u64,
}

/// The confirmation status of a submitted transaction as reported by a node.
#[derive(Clone, Debug, PartialEq, Eq)]
pub struct SignatureStatus {
    pub slot: u64,
    pub confirmations: Option<u64>,
    /// The on-chain error, as JSON text, where the transaction failed.
    pub err: Option<String>,
    /// The confirmation tier: "processed", "confirmed" or "finalized".
    pub confirmation_status: Option<String>,
}

/// A recent blockhash that transactions of one batch are bound to.
#[derive(Clone, Copy, Debug, PartialEq, Eq)]
pub struct FreshnessToken {
    pub blockhash: [u8; 32],
    pub last_valid_block_height: u64,
}

/// Why no freshness token could be obtained.
#[derive(Clone, Debug, PartialEq, Eq)]
pub enum TokenError {
    /// The `getLatestBlockhash` call failed.
    Rpc(RpcFailure),
    /// The returned blockhash is not a base-58 32-byte hash.
    InvalidHash,
}

/// The 32 bytes of the hash written as `s`, or `None` where `s` is no hash.
pub uninterp spec fn hash_parsed(s: Seq<char>) -> Option<Seq<u8>>;

/// Relies on `Hash::from_str` (through `five8::decode_32`): base-58 text of at
/// most 44 bytes that decodes to exactly 32 bytes, which are the hash; a
/// character outside the alphabet is rejected.
#[verifier::external_body]
fn hash_from_str(s: &str) -> (r: Option<[u8; 32]>)
    ensures
        match r {
            Some(a) => hash_parsed(s@) == Some(a@) && crate::codec::base58_decoded(s@) == Some(a@),
            None => hash_parsed(s@) is None,
        },
        (exists|i: int| 0 <= i < s@.len() && !crate::codec::is_base58_char(#[trigger] s@[i])) ==> r is None,
{
    <solana_sdk::hash::Hash as std::str::FromStr>::from_str(s).ok().map(|h| h.to_bytes())
}

impl RpcCall {
    /// The JSON-RPC method name of the call.
    pub fn method_name(&self) -> (r: &'static str)
        ensures
            r@ == self.spec_method_name(),
    {
        match self {
            RpcCall::GetLatestBlockhash => "getLatestBlockhash",
            RpcCall::SendTransaction { .. } => "sendTransaction",
            RpcCall::GetSignatureStatus { .. } => "getSignatureStatus",
        }
    }

    pub open spec fn spec_method_name(&self) -> Seq<char> {
        match self {
            RpcCall::GetLatestBlockhash => "getLatestBlockhash"@,
            RpcCall::SendTransaction { .. } => "sendTransaction"@,
            RpcCall::GetSignatureStatus { .. } => "getSignatureStatus"@,
        }
    }
}

/// Turns the `result` and `error` members of a response into the call's
/// outcome. An error object wins over a result.
pub fn interpret_response<T>(result: Option<T>, error: Option<RpcErrorObject>) -> (r: Result<T, RpcFailure>)
    ensures
        match error {
            Some(e) => r == Err::<T, RpcFailure>(RpcFailure::Protocol { code: e.code, message: e.message }),
            None => match result {
                Some(v) => r == Ok::<T, RpcFailure>(v),
                None => r == Err::<T, RpcFailure>(RpcFailure::EmptyResult),
            },
        },
{
    match error {
        Some(e) => Err(RpcFailure::Protocol { code: e.code, message: e.message }),
        None => match result {
            Some(v) => Ok(v),
            None => Err(RpcFailure::EmptyResult),
        },
    }
}

/// The response carries a valid blockhash.
pub open spec fn token_available(response: Result<BlockhashValue, RpcFailure>) -> bool {
    response matches Ok(v) && hash_parsed(v.blockhash@) is Some
}

/// Builds the batch's freshness token from the `getLatestBlockhash` response.
pub fn freshness_token(response: Result<BlockhashValue, RpcFailure>) -> (r: Result<FreshnessToken, TokenError>)
    ensures
        r is Ok <==> token_available(response),
        match r {
            Ok(t) => response matches Ok(v) && hash_parsed(v.blockhash@) == Some(t.blockhash@)
                && t.last_valid_block_height == v.last_valid_block_height,
            Err(e) => match response {
                Err(f) => e == TokenError::Rpc(f),
                Ok(v) => e == TokenError::InvalidHash && hash_parsed(v.blockhash@) is None,
            },
        },
{
    match response {
        Err(f) => Err(TokenError::Rpc(f)),
        Ok(v) => match hash_from_str(v.blockhash.as_str()) {
            None => Err(TokenError::InvalidHash),
            Some(h) => Ok(FreshnessToken { blockhash: h, last_valid_block_height: v.last_valid_block_height }),
        },
    }
}

} // verus!
