use vstd::prelude::*;

verus! {

/// The denominator of a rate in basis points.
pub const BPS_DENOMINATOR: u64 = 10000;

/// The platform's cut of a bounty: rounded down, so that the remainder goes to
/// the agent.
pub open spec fn fee_of(bounty: int, fee_bps: int) -> int {
    bounty * fee_bps / BPS_DENOMINATOR as int
}

/// What the agent receives: the bounty less the platform's cut.
pub open spec fn payout_of(bounty: int, fee_bps: int) -> int {
    bounty - fee_of(bounty, fee_bps)
}

/// Splits a bounty into `(fee, payout)`.
pub fn split_bounty(bounty: u64, fee_bps: u16) -> (r: (u64, u64))
    requires
        fee_bps <= 10000,
    ensures
        r.0 == fee_of(bounty as int, fee_bps as int),
        r.1 == payout_of(bounty as int, fee_bps as int),
        r.0 + r.1 == bounty,
        r.0 <= bounty,
{
    proof {
        lemma_fee_bounded(bounty as int, fee_bps as int);
    }
    let product: u128 = (bounty as u128) * (fee_bps as u128);
    let fee: u128 = product / (BPS_DENOMINATOR as u128);
    let fee: u64 = fee as u64;
    (fee, bounty - fee)
}

/// The fee never exceeds the bounty, and is never negative.
pub proof fn lemma_fee_bounded(bounty: int, fee_bps: int)
    requires
        0 <= bounty,
        0 <= fee_bps <= 10000,
    ensures
        0 <= fee_of(bounty, fee_bps) <= bounty,
        0 <= payout_of(bounty, fee_bps) <= bounty,
{
    assert(0 <= bounty * fee_bps <= bounty * 10000) by (nonlinear_arith)
        requires
            0 <= bounty,
            0 <= fee_bps <= 10000,
    ;
    assert(bounty * fee_bps / 10000 <= bounty) by (nonlinear_arith)
        requires
            0 <= bounty * fee_bps <= bounty * 10000,
    ;
    assert(0 <= bounty * fee_bps / 10000) by (nonlinear_arith)
        requires
            0 <= bounty * fee_bps,
    ;
}

/// Fee conservation: the payout and the fee add up to the bounty exactly, and
/// the fee is the bounty times the rate, divided by 10000 and rounded down.
pub proof fn fee_conservation(bounty: u64, fee_bps: u16)
    requires
        fee_bps <= 10000,
    ensures
        payout_of(bounty as int, fee_bps as int) + fee_of(bounty as int, fee_bps as int)
            == bounty,
        fee_of(bounty as int, fee_bps as int) == (bounty as int) * (fee_bps as int) / 10000,
        0 <= fee_of(bounty as int, fee_bps as int) <= bounty,
{
    lemma_fee_bounded(bounty as int, fee_bps as int);
}

} // verus!
