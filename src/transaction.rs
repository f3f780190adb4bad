//! Construction, signing and wire encoding of transfer transactions.
use crate::codec::{keypair_bytes_accepted, Address, SenderKeypair, KEYPAIR_LENGTH};
use crate::rpc::FreshnessToken;
use base64::Engine;
use solana_sdk::pubkey::Pubkey;
use solana_sdk::signature::Keypair;
use solana_sdk::signer::Signer;
use solana_sdk::transaction::Transaction;
use vstd::prelude::*;

verus! {

/// The binary form of the transaction that moves `lamports` from the account
/// of keypair `key` to `to`, paid for by that account, bound to `blockhash` and
/// signed with `key`. Ed25519 signing is deterministic, so these values fix it.
pub uninterp spec fn signed_transfer_bytes(key: Seq<u8>, to: Seq<u8>, lamports: u64, blockhash: Seq<u8>) -> Seq<u8>;

/// The standard, padded base64 text of some bytes.
pub uninterp spec fn base64_of(b: Seq<u8>) -> Seq<char>;

/// Relies on `Keypair::from_bytes`, `system_instruction::transfer`,
/// `Transaction::new_signed_with_payer` and `bincode::serialize`: the keypair
/// bytes are accepted, the keypair is the only required signer (so signing does
/// not panic), and a one-instruction transaction always serializes.
#[verifier::external_body]
fn signed_transfer(key: &[u8], to: &[u8; 32], lamports: u64, blockhash: &[u8; 32]) -> (r: Option<Vec<u8>>)
    requires
        key@.len() == KEYPAIR_LENGTH,
        keypair_bytes_accepted(key@),
    ensures
        r is Some,
        r->Some_0@ == signed_transfer_bytes(key@, to@, lamports, blockhash@),
{
    let keypair = Keypair::from_bytes(key).ok()?;
    let from = keypair.pubkey();
    let instruction = solana_sdk::system_instruction::transfer(&from, &Pubkey::new_from_array(*to), lamports);
    let blockhash = solana_sdk::hash::Hash::new_from_array(*blockhash);
    let transaction = Transaction::new_signed_with_payer(&[instruction], Some(&from), &[&keypair], blockhash);
    bincode::serialize(&transaction).ok()
}

/// Relies on base64's standard engine `encode`: padded base64 text of the bytes.
#[verifier::external_body]
fn base64_encode(b: &[u8]) -> (r: String)
    ensures
        r@ == base64_of(b@),
{
    base64::engine::general_purpose::STANDARD.encode(b)
}

/// Builds the transfer of `lamports` from the keypair's account to `recipient`,
/// bound to the batch's blockhash, signs it with the sender's key and returns
/// its binary form.
pub fn create_transfer_transaction(
    sender_keypair: &SenderKeypair,
    recipient: &Address,
    lamports: u64,
    token: &FreshnessToken,
) -> (r: Vec<u8>)
    requires
        sender_keypair.wf(),
    ensures
        r@ == signed_transfer_bytes(sender_keypair.bytes@, recipient.bytes@, lamports, token.blockhash@),
{
    match signed_transfer(sender_keypair.bytes.as_slice(), &recipient.bytes, lamports, &token.blockhash) {
        Some(bytes) => bytes,
        None => {
            proof { assert(false); }
            Vec::new()
        },
    }
}

/// The text submitted to a node for a transaction's binary form: base64.
pub fn encode_transaction(transaction: &[u8]) -> (r: String)
    ensures
        r@ == base64_of(transaction@),
{
    base64_encode(transaction)
}

} // verus!
