use vstd::prelude::*;
use crate::error::AttestError;
use crate::ledger::{sum_value_usd, ReserveEntry};
use crate::metrics::{bps_of, scaled_ratio_bps};

verus! {

/// The share of one asset in the total of the reserves.
#[derive(Clone, Debug)]
pub struct BreakdownEntry {
    pub asset_type: String,
    pub percentage_bps: u64,
}

/// Every entry's share of `total` fits in 64 bits.
pub open spec fn shares_fit(ledger: Seq<ReserveEntry>, total: nat) -> bool {
    forall|i: int|
        0 <= i < ledger.len() ==> bps_of((#[trigger] ledger[i]).value_usd as nat, total)
            <= u64::MAX
}

/// `breakdown` lists, in the ledger's order, each asset with its share of
/// `total` in basis points.
pub open spec fn is_breakdown_of(
    breakdown: Seq<BreakdownEntry>,
    ledger: Seq<ReserveEntry>,
    total: nat,
) -> bool {
    &&& breakdown.len() == ledger.len()
    &&& forall|i: int|
        0 <= i < breakdown.len() ==> {
            &&& (#[trigger] breakdown[i]).asset_type@ == ledger[i].asset_type@
            &&& breakdown[i].percentage_bps as nat == bps_of(ledger[i].value_usd as nat, total)
        }
}

/// A breakdown as rows of plain values: each asset type with its share.
pub open spec fn breakdown_rows(breakdown: Seq<BreakdownEntry>) -> Seq<(Seq<char>, nat)> {
    Seq::new(breakdown.len(), |i: int| (breakdown[i].asset_type@, breakdown[i].percentage_bps as nat))
}

/// The rows that a ledger gives against `total`: each asset type, in the
/// ledger's order, with its share of `total` in basis points.
pub open spec fn ledger_shares(ledger: Seq<ReserveEntry>, total: nat) -> Seq<(Seq<char>, nat)> {
    Seq::new(ledger.len(), |i: int| (ledger[i].asset_type@, bps_of(ledger[i].value_usd as nat, total)))
}

/// A breakdown of a ledger has the ledger's rows.
pub proof fn lemma_breakdown_rows(
    breakdown: Seq<BreakdownEntry>,
    ledger: Seq<ReserveEntry>,
    total: nat,
)
    requires
        is_breakdown_of(breakdown, ledger, total),
    ensures
        breakdown_rows(breakdown) == ledger_shares(ledger, total),
{
    assert(breakdown_rows(breakdown) =~= ledger_shares(ledger, total));
}

/// The sum of the shares of a breakdown.
pub open spec fn sum_percentage_bps(breakdown: Seq<BreakdownEntry>) -> nat
    decreases breakdown.len(),
{
    if breakdown.len() == 0 {
        0
    } else {
        sum_percentage_bps(breakdown.drop_last()) + breakdown.last().percentage_bps as nat
    }
}

/// Computes each entry's share of `total_reserves_usd`, entry by entry and in
/// the ledger's order. A total of zero gives shares of zero. A share that
/// exceeds `u64::MAX` is an overflow.
pub fn reserve_breakdown(ledger: &Vec<ReserveEntry>, total_reserves_usd: u64) -> (r: Result<
    Vec<BreakdownEntry>,
    AttestError,
>)
    ensures
        r is Ok <==> shares_fit(ledger@, total_reserves_usd as nat),
        r matches Ok(breakdown) ==> is_breakdown_of(
            breakdown@,
            ledger@,
            total_reserves_usd as nat,
        ),
        r matches Err(e) ==> e == AttestError::ArithmeticOverflow,
{
    let mut breakdown: Vec<BreakdownEntry> = Vec::new();
    let mut i: usize = 0;
    while i < ledger.len()
        invariant
            i <= ledger@.len(),
            is_breakdown_of(breakdown@, ledger@.take(i as int), total_reserves_usd as nat),
            shares_fit(ledger@.take(i as int), total_reserves_usd as nat),
        decreases ledger@.len() - i,
    {
        let share: u64 = match scaled_ratio_bps(ledger[i].value_usd, total_reserves_usd) {
            Ok(share) => share,
            Err(e) => {
                assert(bps_of(ledger@[i as int].value_usd as nat, total_reserves_usd as nat)
                    > u64::MAX);
                return Err(e);
            },
        };
        breakdown.push(BreakdownEntry { asset_type: ledger[i].asset_type.clone(), percentage_bps: share });
        i = i + 1;
        proof {
            let done = ledger@.take(i as int);
            assert forall|k: int| 0 <= k < done.len() implies bps_of(
                (#[trigger] done[k]).value_usd as nat,
                total_reserves_usd as nat,
            ) <= u64::MAX by {
                if k < i - 1 {
                    assert(done[k] == ledger@.take(i - 1)[k]);
                }
            }
            assert forall|k: int| 0 <= k < breakdown@.len() implies (#[trigger] breakdown@[k]).asset_type@
                == done[k].asset_type@ && breakdown@[k].percentage_bps as nat == bps_of(
                done[k].value_usd as nat,
                total_reserves_usd as nat,
            ) by {
                if k < i - 1 {
                    assert(done[k] == ledger@.take(i - 1)[k]);
                }
            }
        }
    }
    assert(ledger@.take(i as int) == ledger@);
    Ok(breakdown)
}

/// Against any positive total, the shares times the total fall short of the
/// scaled values by less than the total per entry, and never exceed them.
proof fn lemma_shares_times_total(
    breakdown: Seq<BreakdownEntry>,
    ledger: Seq<ReserveEntry>,
    total: nat,
)
    requires
        total > 0,
        is_breakdown_of(breakdown, ledger, total),
    ensures
        sum_percentage_bps(breakdown) * total <= 10_000 * sum_value_usd(ledger),
        10_000 * sum_value_usd(ledger) <= sum_percentage_bps(breakdown) * total + ledger.len() * (
        total - 1),
    decreases ledger.len(),
{
    if ledger.len() == 0 {
        assert(sum_percentage_bps(breakdown) * total == 0) by (nonlinear_arith)
            requires
                sum_percentage_bps(breakdown) == 0,
        ;
        assert(ledger.len() * (total - 1) == 0) by (nonlinear_arith)
            requires
                ledger.len() == 0,
        ;
    } else {
        let b0 = breakdown.drop_last();
        let l0 = ledger.drop_last();
        assert forall|i: int| 0 <= i < b0.len() implies (#[trigger] b0[i]).asset_type@
            == l0[i].asset_type@ && b0[i].percentage_bps as nat == bps_of(
            l0[i].value_usd as nat,
            total,
        ) by {
            assert(b0[i] == breakdown[i]);
        }
        lemma_shares_times_total(b0, l0, total);
        let n = ledger.len() - 1;
        let q = breakdown.last().percentage_bps as nat;
        let v = ledger.last().value_usd as nat;
        let s0 = sum_percentage_bps(b0);
        let w0 = sum_value_usd(l0);
        assert(breakdown.last() == breakdown[n]);
        assert(q == (v * 10_000) / total);
        assert(q * total <= v * 10_000 && v * 10_000 <= q * total + (total - 1))
            by (nonlinear_arith)
            requires
                total > 0,
                q == (v * 10_000) / total,
        ;
        assert((s0 + q) * total <= 10_000 * (w0 + v) && 10_000 * (w0 + v) <= (s0 + q) * total + (n
            + 1) * (total - 1)) by (nonlinear_arith)
            requires
                s0 * total <= 10_000 * w0,
                10_000 * w0 <= s0 * total + n * (total - 1),
                q * total <= v * 10_000,
                v * 10_000 <= q * total + (total - 1),
        ;
    }
}

/// Where the total of the reserves is the sum of the ledger's USD values and
/// is positive, the shares of a breakdown sum to at most 10,000 basis points,
/// and fall short of 10,000 by at most one basis point for each entry but
/// one, since each share is rounded down on its own.
pub proof fn lemma_breakdown_sum_bounds(breakdown: Seq<BreakdownEntry>, ledger: Seq<ReserveEntry>)
    requires
        sum_value_usd(ledger) > 0,
        is_breakdown_of(breakdown, ledger, sum_value_usd(ledger)),
    ensures
        sum_percentage_bps(breakdown) <= 10_000,
        sum_percentage_bps(breakdown) + (ledger.len() - 1) >= 10_000,
{
    let total = sum_value_usd(ledger);
    let shares = sum_percentage_bps(breakdown);
    let n = ledger.len();
    lemma_shares_times_total(breakdown, ledger, total);
    assert(shares <= 10_000) by (nonlinear_arith)
        requires
            total > 0,
            shares * total <= 10_000 * total,
    ;
    assert(n > 0);
    assert(n * (total - 1) < n * total) by (nonlinear_arith)
        requires
            n > 0,
            total > 0,
    ;
    assert(shares * total + n * total == (shares + n) * total) by (nonlinear_arith);
    assert(shares + n > 10_000) by (nonlinear_arith)
        requires
            total > 0,
            10_000 * total < (shares + n) * total,
    ;
}

} // verus!
