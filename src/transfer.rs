//! The per-transfer state machine: parse, build and sign, submit, then check
//! the confirmation status once.
//!
//! The network steps are performed by the caller, which feeds their outcomes
//! back as events; every decision is taken here.
use crate::codec::{base58_decoded, keypair_outcome, parse_address, parse_keypair, pubkey_parsed, CodecError};
use crate::rpc::{FreshnessToken, RpcFailure, SignatureStatus};
use crate::transaction::{base64_of, create_transfer_transaction, encode_transaction, signed_transfer_bytes};
use vstd::prelude::*;

verus! {

/// Milliseconds to wait after a submission before the status is checked.
pub const CONFIRMATION_DELAY_MS: u64 = 2000;

/// A sending account: its address and its base-58 encoded secret key.
#[derive(Clone, Debug)]
pub struct SenderWallet {
    pub address: String,
    pub private_key: String,
}

/// Why a transfer ended without being accepted by the network.
#[derive(Clone, Debug, PartialEq, Eq)]
pub enum TransferError {
    /// The sender's secret key could not be parsed.
    Keypair(CodecError),
    /// The recipient's address could not be parsed.
    Recipient(CodecError),
    /// The submission call failed.
    Submit(RpcFailure),
}

impl TransferError {
    /// A human-readable summary of the error.
    pub fn message(&self) -> (r: String)
        ensures
            r@ == (match self {
                TransferError::Keypair(_) => "Failed to parse keypair"@,
                TransferError::Recipient(_) => "Invalid recipient address"@,
                TransferError::Submit(_) => "Failed to send transaction"@,
            }),
    {
        match self {
            TransferError::Keypair(_) => String::from_str("Failed to parse keypair"),
            TransferError::Recipient(_) => String::from_str("Invalid recipient address"),
            TransferError::Submit(_) => String::from_str("Failed to send transaction"),
        }
    }
}

/// Where one transfer stands.
#[derive(Clone, Debug)]
pub enum TransferPhase {
    /// The signed transaction, base64-encoded, waits to be submitted.
    Submitting { encoded: String },
    /// The transaction was accepted; its status is to be checked after
    /// `CONFIRMATION_DELAY_MS`.
    Confirming { signature: String },
    /// The transfer is over.
    Done { signature: String, status: Option<SignatureStatus>, error: Option<TransferError> },
}

/// The outcome of the network step that a phase asked for.
#[derive(Debug)]
pub enum TransferEvent {
    /// The outcome of `sendTransaction`.
    Submitted(Result<String, RpcFailure>),
    /// The outcome of `getSignatureStatus`.
    StatusChecked(Result<Option<SignatureStatus>, RpcFailure>),
}

/// The terminal record of one (sender, recipient) transfer.
#[derive(Clone, Debug)]
pub struct TransferResult {
    pub from_address: String,
    pub to_address: String,
    /// The submission signature; empty where nothing was submitted.
    pub signature: String,
    pub status: Option<SignatureStatus>,
    pub processing_time_ms: u64,
    pub error: Option<TransferError>,
}

/// The phase ended before submission with error `e`.
pub open spec fn failed_with(phase: TransferPhase, e: TransferError) -> bool {
    phase matches TransferPhase::Done { signature, status, error }
        && signature@.len() == 0 && status is None && error == Some(e)
}

/// The phase that a transfer of `lamports` bound to `blockhash` starts in, given
/// the sender's secret key text and the recipient's address text: a parse
/// failure ends it, otherwise the base64 text of the signed transfer waits to
/// be submitted.
pub open spec fn begun(
    private_key: Seq<char>,
    recipient: Seq<char>,
    lamports: u64,
    blockhash: Seq<u8>,
    phase: TransferPhase,
) -> bool {
    match keypair_outcome(private_key) {
        Err(e) => failed_with(phase, TransferError::Keypair(e)),
        Ok(_) => match pubkey_parsed(recipient) {
            None => failed_with(phase, TransferError::Recipient(CodecError::InvalidAddress)),
            Some(to) => phase matches TransferPhase::Submitting { encoded } && encoded@ == base64_of(
                signed_transfer_bytes(base58_decoded(private_key)->Some_0, to, lamports, blockhash),
            ),
        },
    }
}

/// The phase that follows `phase` on `event`; an event that the phase did not
/// ask for leaves it unchanged.
pub open spec fn advanced(phase: TransferPhase, event: TransferEvent, next: TransferPhase) -> bool {
    match (phase, event) {
        (TransferPhase::Submitting { .. }, TransferEvent::Submitted(Ok(sig))) =>
            next == TransferPhase::Confirming { signature: sig },
        (TransferPhase::Submitting { .. }, TransferEvent::Submitted(Err(f))) =>
            failed_with(next, TransferError::Submit(f)),
        (TransferPhase::Confirming { signature }, TransferEvent::StatusChecked(Ok(st))) =>
            next == TransferPhase::Done { signature, status: st, error: None },
        (TransferPhase::Confirming { signature }, TransferEvent::StatusChecked(Err(_))) =>
            next == TransferPhase::Done { signature, status: None, error: None },
        _ => next == phase,
    }
}

/// A submitted transfer is over once the submission outcome and then the status
/// outcome have been taken, whatever they were; only a failed submission makes
/// it a failure, and a failed status check leaves its status unknown.
pub proof fn lemma_transfer_ends(
    encoded: String,
    submitted: Result<String, RpcFailure>,
    checked: Result<Option<SignatureStatus>, RpcFailure>,
    after_submit: TransferPhase,
    after_check: TransferPhase,
)
    requires
        advanced(TransferPhase::Submitting { encoded }, TransferEvent::Submitted(submitted), after_submit),
        advanced(after_submit, TransferEvent::StatusChecked(checked), after_check),
    ensures
        after_check matches TransferPhase::Done { signature, status, error } && {
            &&& (error is Some <==> submitted is Err)
            &&& (submitted is Ok && checked is Err ==> status is None)
            &&& (submitted matches Ok(sig) ==> signature == sig)
        },
{
}

/// Starting the same transfer twice gives the same phase: the same parse
/// error, or the same text to submit.
pub proof fn lemma_begin_deterministic(
    private_key: Seq<char>,
    recipient: Seq<char>,
    lamports: u64,
    blockhash: Seq<u8>,
    first: TransferPhase,
    second: TransferPhase,
)
    requires
        begun(private_key, recipient, lamports, blockhash, first),
        begun(private_key, recipient, lamports, blockhash, second),
    ensures
        match (first, second) {
            (TransferPhase::Submitting { encoded: a }, TransferPhase::Submitting { encoded: b }) => a@ == b@,
            (
                TransferPhase::Done { signature: s1, status: t1, error: e1 },
                TransferPhase::Done { signature: s2, status: t2, error: e2 },
            ) => s1@ == s2@ && t1 == t2 && e1 == e2,
            _ => false,
        },
{
}

fn failure(e: TransferError) -> (r: TransferPhase)
    ensures
        failed_with(r, e),
{
    TransferPhase::Done { signature: String::new(), status: None, error: Some(e) }
}

/// Parses the sender's key and the recipient's address, then builds, signs and
/// encodes the transfer of `lamports` bound to `token`.
pub fn begin_transfer(private_key: &str, recipient: &str, lamports: u64, token: &FreshnessToken) -> (r: TransferPhase)
    ensures
        begun(private_key@, recipient@, lamports, token.blockhash@, r),
{
    let keypair = match parse_keypair(private_key) {
        Ok(k) => k,
        Err(e) => return failure(TransferError::Keypair(e)),
    };
    let to = match parse_address(recipient) {
        Ok(a) => a,
        Err(e) => return failure(TransferError::Recipient(e)),
    };
    let transaction = create_transfer_transaction(&keypair, &to, lamports, token);
    TransferPhase::Submitting { encoded: encode_transaction(transaction.as_slice()) }
}

/// Takes the outcome of the network step that `phase` asked for. A failed
/// status check is no failure of the transfer: its status stays unknown.
pub fn advance(phase: TransferPhase, event: TransferEvent) -> (r: TransferPhase)
    ensures
        advanced(phase, event, r),
{
    match (phase, event) {
        (TransferPhase::Submitting { .. }, TransferEvent::Submitted(Ok(sig))) =>
            TransferPhase::Confirming { signature: sig },
        (TransferPhase::Submitting { .. }, TransferEvent::Submitted(Err(f))) =>
            failure(TransferError::Submit(f)),
        (TransferPhase::Confirming { signature }, TransferEvent::StatusChecked(Ok(st))) =>
            TransferPhase::Done { signature, status: st, error: None },
        (TransferPhase::Confirming { signature }, TransferEvent::StatusChecked(Err(_))) =>
            TransferPhase::Done { signature, status: None, error: None },
        (p, _) => p,
    }
}

impl TransferResult {
    /// The record of a finished transfer between the two addresses, which took
    /// `processing_time_ms` from start to end.
    pub fn from_phase(from_address: String, to_address: String, phase: TransferPhase, processing_time_ms: u64) -> (r: TransferResult)
        requires
            phase is Done,
        ensures
            phase matches TransferPhase::Done { signature, status, error } && r == (TransferResult {
                from_address, to_address, signature, status, processing_time_ms, error,
            }),
    {
        match phase {
            TransferPhase::Done { signature, status, error } =>
                TransferResult { from_address, to_address, signature, status, processing_time_ms, error },
            _ => {
                proof { assert(false); }
                TransferResult { from_address, to_address, signature: String::new(), status: None, processing_time_ms, error: None }
            },
        }
    }
}

} // verus!
