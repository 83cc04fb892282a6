use vstd::prelude::*;
use crate::error::AttestError;
use crate::ledger::{total_reserves_of, total_reserves_usd, ReserveEntry, ReserveTotal};

verus! {

/// One basis point is 1/10,000; a ratio of one is `BPS_SCALE` basis points.
pub const BPS_SCALE: u64 = 10_000;

/// `part` as a share of `whole` in basis points, rounded down; zero when
/// `whole` is zero.
pub open spec fn bps_of(part: nat, whole: nat) -> nat {
    if whole == 0 {
        0
    } else {
        (part * 10_000) / whole
    }
}

/// Computes `bps_of(part, whole)` through a 128-bit intermediate, so the
/// product never wraps. Fails exactly when the quotient exceeds `u64::MAX`.
pub fn scaled_ratio_bps(part: u64, whole: u64) -> (r: Result<u64, AttestError>)
    ensures
        bps_of(part as nat, whole as nat) <= u64::MAX ==> r == Ok::<u64, AttestError>(
            bps_of(part as nat, whole as nat) as u64,
        ),
        bps_of(part as nat, whole as nat) > u64::MAX ==> r == Err::<u64, AttestError>(
            AttestError::ArithmeticOverflow,
        ),
{
    if whole == 0 {
        return Ok(0);
    }
    assert((part as u128) * (BPS_SCALE as u128) == part as nat * 10_000) by (nonlinear_arith)
        requires
            BPS_SCALE == 10_000,
    ;
    let wide: u128 = (part as u128) * (BPS_SCALE as u128);
    let quotient: u128 = wide / (whole as u128);
    if quotient > u64::MAX as u128 {
        Err(AttestError::ArithmeticOverflow)
    } else {
        Ok(quotient as u64)
    }
}

/// The solvency figures of one attestation.
#[derive(Clone, Copy, Debug, PartialEq, Eq, Structural)]
pub struct SolvencyMetrics {
    pub total_reserves_usd: u64,
    pub collateralization_ratio_bps: u64,
}

/// The reserves as a share of the supply in basis points, rounded down. With
/// no supply the ratio is reported as zero.
pub open spec fn collateralization_bps(total_reserves_usd: nat, total_supply: nat) -> nat {
    bps_of(total_reserves_usd, total_supply)
}

/// The metrics exist: the total and the ratio each fit in 64 bits.
pub open spec fn metrics_fit(
    ledger: Seq<ReserveEntry>,
    mode: ReserveTotal,
    total_supply: u64,
) -> bool {
    &&& total_reserves_of(ledger, mode) <= u64::MAX
    &&& collateralization_bps(total_reserves_of(ledger, mode), total_supply as nat) <= u64::MAX
}

/// Derives the solvency metrics of `ledger` against `total_supply`.
pub fn solvency_metrics(ledger: &Vec<ReserveEntry>, mode: ReserveTotal, total_supply: u64) -> (r:
    Result<SolvencyMetrics, AttestError>)
    ensures
        r is Ok <==> metrics_fit(ledger@, mode, total_supply),
        r matches Ok(m) ==> {
            &&& m.total_reserves_usd == total_reserves_of(ledger@, mode)
            &&& m.collateralization_ratio_bps == collateralization_bps(
                total_reserves_of(ledger@, mode),
                total_supply as nat,
            )
            &&& total_supply == 0 ==> m.collateralization_ratio_bps == 0
            &&& total_supply > 0 ==> m.collateralization_ratio_bps == (m.total_reserves_usd
                * 10_000) / (total_supply as int)
        },
        r matches Err(e) ==> e == AttestError::ArithmeticOverflow,
{
    let total: u64 = match total_reserves_usd(ledger, mode) {
        Ok(total) => total,
        Err(e) => {
            return Err(e);
        },
    };
    let ratio: u64 = match scaled_ratio_bps(total, total_supply) {
        Ok(ratio) => ratio,
        Err(e) => {
            return Err(e);
        },
    };
    Ok(SolvencyMetrics { total_reserves_usd: total, collateralization_ratio_bps: ratio })
}

} // verus!
