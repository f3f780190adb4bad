//! Success and failure counts and processing-time summaries of a batch.
use crate::transfer::TransferResult;
use vstd::prelude::*;

verus! {

/// The coarse status of a transfer that was submitted.
#[derive(Clone, Copy, Debug, PartialEq, Eq, Structural)]
pub enum StatusLabel {
    /// The node reported the transaction without an error.
    Success,
    /// The node reported the transaction with an on-chain error.
    OnChainFailure,
    /// No status was observed.
    Pending,
}

/// Aggregate figures over the results of a batch.
#[derive(Clone, Copy, Debug, PartialEq, Eq, Structural)]
pub struct Statistics {
    pub successful: usize,
    pub failed: usize,
    /// Sum of the processing times of the successful transfers.
    pub total_time_ms: u128,
    pub min_time_ms: Option<u64>,
    pub max_time_ms: Option<u64>,
    /// Mean processing time of the successful transfers, rounded down; absent
    /// where none succeeded.
    pub average_time_ms: Option<u64>,
}

/// A transfer succeeded when it carries no error.
pub open spec fn succeeded(r: TransferResult) -> bool {
    r.error is None
}

pub open spec fn count_successful(s: Seq<TransferResult>) -> nat
    decreases s.len(),
{
    if s.len() == 0 { 0 } else { count_successful(s.drop_last()) + if succeeded(s.last()) { 1nat } else { 0nat } }
}

pub open spec fn count_failed(s: Seq<TransferResult>) -> nat
    decreases s.len(),
{
    if s.len() == 0 { 0 } else { count_failed(s.drop_last()) + if succeeded(s.last()) { 0nat } else { 1nat } }
}

/// Sum of the processing times of the successful transfers.
pub open spec fn total_time(s: Seq<TransferResult>) -> nat
    decreases s.len(),
{
    if s.len() == 0 {
        0
    } else {
        total_time(s.drop_last()) + if succeeded(s.last()) { s.last().processing_time_ms as nat } else { 0nat }
    }
}

/// Least processing time among the successful transfers.
pub open spec fn min_time(s: Seq<TransferResult>) -> Option<u64>
    decreases s.len(),
{
    if s.len() == 0 {
        None
    } else if !succeeded(s.last()) {
        min_time(s.drop_last())
    } else {
        let t = s.last().processing_time_ms;
        match min_time(s.drop_last()) {
            None => Some(t),
            Some(m) => Some(if t < m { t } else { m }),
        }
    }
}

/// Greatest processing time among the successful transfers.
pub open spec fn max_time(s: Seq<TransferResult>) -> Option<u64>
    decreases s.len(),
{
    if s.len() == 0 {
        None
    } else if !succeeded(s.last()) {
        max_time(s.drop_last())
    } else {
        let t = s.last().processing_time_ms;
        match max_time(s.drop_last()) {
            None => Some(t),
            Some(m) => Some(if t > m { t } else { m }),
        }
    }
}

/// Every result counts either as successful or as failed, never both.
pub proof fn lemma_counts_partition(s: Seq<TransferResult>)
    ensures
        count_successful(s) + count_failed(s) == s.len(),
    decreases s.len(),
{
    if s.len() > 0 {
        lemma_counts_partition(s.drop_last());
    }
}

proof fn lemma_total_bounded(s: Seq<TransferResult>)
    ensures
        total_time(s) <= count_successful(s) * (u64::MAX as nat),
    decreases s.len(),
{
    if s.len() > 0 {
        lemma_total_bounded(s.drop_last());
        let c = count_successful(s.drop_last());
        assert(c * (u64::MAX as nat) + (u64::MAX as nat) == (c + 1) * (u64::MAX as nat)) by (nonlinear_arith);
    }
}

/// The coarse status of a submitted transfer.
pub fn status_label(result: &TransferResult) -> (r: StatusLabel)
    ensures
        r == (match result.status {
            None => StatusLabel::Pending,
            Some(st) => if st.err is Some { StatusLabel::OnChainFailure } else { StatusLabel::Success },
        }),
{
    match &result.status {
        None => StatusLabel::Pending,
        Some(st) => if st.err.is_some() { StatusLabel::OnChainFailure } else { StatusLabel::Success },
    }
}

/// Reduces the results of a batch to its statistics.
pub fn compute_statistics(results: &[TransferResult]) -> (r: Statistics)
    ensures
        r.successful == count_successful(results@),
        r.failed == count_failed(results@),
        r.successful + r.failed == results@.len(),
        r.total_time_ms == total_time(results@),
        r.min_time_ms == min_time(results@),
        r.max_time_ms == max_time(results@),
        r.successful == 0 ==> r.average_time_ms is None,
        r.successful > 0 ==> r.average_time_ms == Some((total_time(results@) / (r.successful as nat)) as u64),
{
    let mut successful: usize = 0;
    let mut failed: usize = 0;
    let mut total: u128 = 0;
    let mut min_t: Option<u64> = None;
    let mut max_t: Option<u64> = None;
    let mut i: usize = 0;
    while i < results.len()
        invariant
            i <= results@.len(),
            successful == count_successful(results@.take(i as int)),
            failed == count_failed(results@.take(i as int)),
            successful + failed == i,
            total == total_time(results@.take(i as int)),
            total <= successful * (u64::MAX as nat),
            min_t == min_time(results@.take(i as int)),
            max_t == max_time(results@.take(i as int)),
        decreases results@.len() - i,
    {
        let res = &results[i];
        proof {
            assert(results@.take(i + 1).drop_last() == results@.take(i as int));
            lemma_total_bounded(results@.take(i + 1));
            lemma_counts_partition(results@.take(i + 1));
        }
        if res.error.is_some() {
            failed = failed + 1;
        } else {
            let t = res.processing_time_ms;
            proof {
                assert(successful * (u64::MAX as nat) + (u64::MAX as nat) <= (usize::MAX as nat + 1) * (u64::MAX as nat))
                    by (nonlinear_arith) requires successful < usize::MAX;
            }
            successful = successful + 1;
            total = total + t as u128;
            min_t = match min_t {
                None => Some(t),
                Some(m) => Some(if t < m { t } else { m }),
            };
            max_t = match max_t {
                None => Some(t),
                Some(m) => Some(if t > m { t } else { m }),
            };
        }
        i = i + 1;
    }
    proof {
        assert(results@.take(results@.len() as int) == results@);
    }
    let average_time_ms = if successful > 0 {
        proof {
            assert((total as int) / (successful as int) <= u64::MAX as int) by (nonlinear_arith)
                requires total <= successful * (u64::MAX as nat), successful > 0;
        }
        Some((total / successful as u128) as u64)
    } else {
        None
    };
    Statistics { successful, failed, total_time_ms: total, min_time_ms: min_t, max_time_ms: max_t, average_time_ms }
}

} // verus!
