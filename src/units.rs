//! Conversions between whole SOL and lamports, the smallest unit of value.
use vstd::prelude::*;

verus! {

/// Number of lamports in one SOL.
pub const LAMPORTS_PER_SOL: u64 = 1_000_000_000;

/// An amount of SOL written as whole units plus the fractional part in lamports.
#[derive(Clone, Copy, Debug, PartialEq, Eq, Structural)]
pub struct SolAmount {
    pub whole: u64,
    pub lamports: u64,
}

impl SolAmount {
    /// The fractional part is strictly below one whole unit.
    pub open spec fn wf(&self) -> bool {
        self.lamports < LAMPORTS_PER_SOL
    }

    /// The amount expressed in lamports, as a mathematical integer.
    pub open spec fn total(&self) -> int {
        self.whole * LAMPORTS_PER_SOL + self.lamports
    }
}

/// Converts an amount of SOL to lamports; `None` when the result exceeds `u64`.
pub fn sol_to_lamports(amount: SolAmount) -> (r: Option<u64>)
    ensures
        match r {
            Some(l) => l == amount.total(),
            None => amount.total() > u64::MAX,
        },
{
    match amount.whole.checked_mul(LAMPORTS_PER_SOL) {
        Some(base) => base.checked_add(amount.lamports),
        None => {
            assert(amount.whole * LAMPORTS_PER_SOL + amount.lamports > u64::MAX) by (nonlinear_arith)
                requires amount.whole * LAMPORTS_PER_SOL > u64::MAX, amount.lamports >= 0;
            None
        },
    }
}

/// Converts a whole number of SOL to lamports; `None` on overflow.
pub fn whole_sol_to_lamports(whole: u64) -> (r: Option<u64>)
    ensures
        match r {
            Some(l) => l == whole * LAMPORTS_PER_SOL,
            None => whole * LAMPORTS_PER_SOL > u64::MAX,
        },
{
    whole.checked_mul(LAMPORTS_PER_SOL)
}

/// Splits a lamport count into whole SOL and the remaining lamports,
/// truncating toward zero.
pub fn lamports_to_sol(lamports: u64) -> (r: SolAmount)
    ensures
        r.wf(),
        r.whole == lamports / LAMPORTS_PER_SOL,
        r.lamports == lamports % LAMPORTS_PER_SOL,
        r.total() == lamports,
{
    let r = SolAmount { whole: lamports / LAMPORTS_PER_SOL, lamports: lamports % LAMPORTS_PER_SOL };
    assert(r.total() == lamports) by {
        vstd::arithmetic::div_mod::lemma_fundamental_div_mod(lamports as int, LAMPORTS_PER_SOL as int);
    }
    r
}

/// Whole SOL converted to lamports and back gives the same whole amount with
/// no fractional part.
pub proof fn lemma_whole_round_trip(whole: u64)
    requires
        whole * LAMPORTS_PER_SOL <= u64::MAX,
    ensures
        (whole * LAMPORTS_PER_SOL) / (LAMPORTS_PER_SOL as int) == whole,
        (whole * LAMPORTS_PER_SOL) % (LAMPORTS_PER_SOL as int) == 0,
{
    vstd::arithmetic::div_mod::lemma_fundamental_div_mod_converse(
        whole * LAMPORTS_PER_SOL,
        LAMPORTS_PER_SOL as int,
        whole as int,
        0,
    );
}

/// A lamport count split into SOL and converted back is unchanged, and a
/// well-formed SOL amount converted to lamports and split again is unchanged.
pub proof fn lemma_amount_round_trip(lamports: u64, amount: SolAmount)
    requires
        amount.wf(),
        amount.total() <= u64::MAX,
    ensures
        ({
            let s = SolAmount {
                whole: (lamports / LAMPORTS_PER_SOL) as u64,
                lamports: (lamports % LAMPORTS_PER_SOL) as u64,
            };
            s.wf() && s.total() == lamports
        }),
        amount.total() / (LAMPORTS_PER_SOL as int) == amount.whole,
        amount.total() % (LAMPORTS_PER_SOL as int) == amount.lamports,
{
    vstd::arithmetic::div_mod::lemma_fundamental_div_mod(lamports as int, LAMPORTS_PER_SOL as int);
    vstd::arithmetic::div_mod::lemma_fundamental_div_mod_converse(
        amount.total(),
        LAMPORTS_PER_SOL as int,
        amount.whole as int,
        amount.lamports as int,
    );
}

} // verus!
