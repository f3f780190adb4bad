//! Fan-out of one batch: every sender paired with every recipient, all bound
//! to one freshness token.
use crate::rpc::{freshness_token, hash_parsed, token_available, BlockhashValue, RpcFailure};
use crate::transfer::{begin_transfer, begun, SenderWallet, TransferPhase};
use vstd::prelude::*;

verus! {

/// One transfer of a batch, from its sender to its recipient.
#[derive(Clone, Debug)]
pub struct BatchJob {
    pub from_address: String,
    pub to_address: String,
    pub phase: TransferPhase,
}

/// `job` is the transfer of `lamports` bound to `blockhash` from `sender` to
/// `recipient`, started.
pub open spec fn job_for(job: BatchJob, sender: SenderWallet, recipient: String, lamports: u64, blockhash: Seq<u8>) -> bool {
    &&& job.from_address@ == sender.address@
    &&& job.to_address@ == recipient@
    &&& begun(sender.private_key@, recipient@, lamports, blockhash, job.phase)
}

/// The blockhash bytes of a `getLatestBlockhash` response that carries a valid one.
pub open spec fn response_blockhash(response: Result<BlockhashValue, RpcFailure>) -> Seq<u8> {
    hash_parsed(response->Ok_0.blockhash@)->Some_0
}

/// `jobs` is the sender-major cross product of `senders` and `recipients`,
/// each transfer started.
pub open spec fn cross_product(
    jobs: Seq<BatchJob>,
    senders: Seq<SenderWallet>,
    recipients: Seq<String>,
    lamports: u64,
    blockhash: Seq<u8>,
) -> bool {
    &&& jobs.len() == senders.len() * recipients.len()
    &&& forall|k: int| 0 <= k < jobs.len() ==>
        job_for(#[trigger] jobs[k], senders[k / recipients.len() as int], recipients[k % recipients.len() as int], lamports, blockhash)
}

/// A batch holds the transfer of every (sender, recipient) pair exactly once:
/// the pair of sender `a` and recipient `b` stands at position
/// `a * recipients.len() + b`, and the batch has no other position.
pub proof fn lemma_batch_covers_every_pair(
    jobs: Seq<BatchJob>,
    senders: Seq<SenderWallet>,
    recipients: Seq<String>,
    lamports: u64,
    blockhash: Seq<u8>,
)
    requires
        cross_product(jobs, senders, recipients, lamports, blockhash),
    ensures
        jobs.len() == senders.len() * recipients.len(),
        forall|a: int, b: int| 0 <= a < senders.len() && 0 <= b < recipients.len() ==>
            #[trigger] job_for(jobs[a * recipients.len() + b], senders[a], recipients[b], lamports, blockhash),
{
    let n = recipients.len() as int;
    assert forall|a: int, b: int| 0 <= a < senders.len() && 0 <= b < recipients.len() implies
        #[trigger] job_for(jobs[a * recipients.len() + b], senders[a], recipients[b], lamports, blockhash) by {
        let k = a * n + b;
        vstd::arithmetic::div_mod::lemma_fundamental_div_mod_converse(k, n, a, b);
        assert(k < senders.len() * n) by (nonlinear_arith)
            requires a < senders.len(), 0 <= b < n, k == a * n + b;
        assert(0 <= k) by (nonlinear_arith) requires 0 <= a, 0 <= b, 0 < n, k == a * n + b;
    }
}

/// Starts the transfers of a batch from the `getLatestBlockhash` response.
/// Without a valid blockhash nothing is started; otherwise every sender is
/// paired with every recipient, sender-major.
pub fn start_batch(
    blockhash: Result<BlockhashValue, RpcFailure>,
    senders: &Vec<SenderWallet>,
    recipients: &Vec<String>,
    amount_lamports: u64,
) -> (r: Vec<BatchJob>)
    requires
        senders.len() * recipients.len() <= usize::MAX,
    ensures
        !token_available(blockhash) ==> r.len() == 0,
        token_available(blockhash) ==> cross_product(r@, senders@, recipients@, amount_lamports, response_blockhash(blockhash)),
{
    let token = match freshness_token(blockhash) {
        Ok(t) => t,
        Err(_) => return Vec::new(),
    };
    assert(token.blockhash@ == response_blockhash(blockhash));
    let n_recipients = recipients.len();
    let mut jobs: Vec<BatchJob> = Vec::new();
    let mut i: usize = 0;
    while i < senders.len()
        invariant
            i <= senders.len(),
            n_recipients == recipients.len(),
            senders.len() * n_recipients <= usize::MAX,
            jobs.len() == i * n_recipients,
            forall|k: int| 0 <= k < jobs.len() ==>
                job_for(#[trigger] jobs@[k], senders@[k / n_recipients as int], recipients@[k % n_recipients as int], amount_lamports, token.blockhash@),
        decreases senders.len() - i,
    {
        let sender = &senders[i];
        let mut j: usize = 0;
        while j < n_recipients
            invariant
                i < senders.len(),
                j <= n_recipients,
                n_recipients == recipients.len(),
                senders.len() * n_recipients <= usize::MAX,
                *sender == senders@[i as int],
                jobs.len() == i * n_recipients + j,
                forall|k: int| 0 <= k < jobs.len() ==>
                    job_for(#[trigger] jobs@[k], senders@[k / n_recipients as int], recipients@[k % n_recipients as int], amount_lamports, token.blockhash@),
            decreases n_recipients - j,
        {
            let recipient = &recipients[j];
            let phase = begin_transfer(sender.private_key.as_str(), recipient.as_str(), amount_lamports, &token);
            let job = BatchJob { from_address: sender.address.clone(), to_address: recipient.clone(), phase };
            proof {
                vstd::arithmetic::div_mod::lemma_fundamental_div_mod_converse(
                    i * n_recipients + j,
                    n_recipients as int,
                    i as int,
                    j as int,
                );
                assert(i * n_recipients + j < senders.len() * n_recipients) by (nonlinear_arith)
                    requires i < senders.len(), j < n_recipients;
            }
            jobs.push(job);
            j = j + 1;
        }
        proof {
            assert(i * n_recipients + n_recipients == (i + 1) * n_recipients) by (nonlinear_arith);
        }
        i = i + 1;
    }
    jobs
}

} // verus!
