use vstd::prelude::*;
use vstd::string::StringExecFns;
use crate::error::AttestError;

verus! {

/// One line of the reserve ledger.
#[derive(Clone, Debug)]
pub struct ReserveEntry {
    pub asset_type: String,
    pub amount: u64,
    pub value_usd: u64,
}

/// How the total of the reserves is obtained.
#[derive(Clone, Copy, Debug, PartialEq, Eq, Structural)]
pub enum ReserveTotal {
    /// The total is the sum of the ledger's USD values.
    SumOfLedger,
    /// The total is supplied independently of the ledger's USD values.
    Fixed(u64),
}

/// The total that stands in for a live reserve feed.
pub const PLACEHOLDER_TOTAL_RESERVES_USD: u64 = 10_000_000;

/// The three columns describe the same number of entries.
pub open spec fn columns_aligned(
    asset_types: Seq<String>,
    amounts: Seq<u64>,
    values_usd: Seq<u64>,
) -> bool {
    asset_types.len() == amounts.len() && amounts.len() == values_usd.len()
}

/// The ledger that three aligned columns describe: row by row, in order.
pub open spec fn ledger_of_columns(
    asset_types: Seq<String>,
    amounts: Seq<u64>,
    values_usd: Seq<u64>,
) -> Seq<ReserveEntry>
    recommends
        columns_aligned(asset_types, amounts, values_usd),
{
    Seq::new(
        asset_types.len(),
        |i: int|
            ReserveEntry {
                asset_type: asset_types[i],
                amount: amounts[i],
                value_usd: values_usd[i],
            },
    )
}

/// The sum of the USD values of all entries.
pub open spec fn sum_value_usd(ledger: Seq<ReserveEntry>) -> nat
    decreases ledger.len(),
{
    if ledger.len() == 0 {
        0
    } else {
        sum_value_usd(ledger.drop_last()) + ledger.last().value_usd as nat
    }
}

/// The total of the reserves under `mode`, before any width check.
pub open spec fn total_reserves_of(ledger: Seq<ReserveEntry>, mode: ReserveTotal) -> nat {
    match mode {
        ReserveTotal::SumOfLedger => sum_value_usd(ledger),
        ReserveTotal::Fixed(total) => total as nat,
    }
}

/// Assembles the ledger from its three columns, keeping their order.
/// Columns of different lengths are rejected, whatever they hold.
pub fn ledger_from_columns(
    asset_types: &[String],
    amounts: &[u64],
    values_usd: &[u64],
) -> (r: Result<Vec<ReserveEntry>, AttestError>)
    ensures
        r is Ok <==> columns_aligned(asset_types@, amounts@, values_usd@),
        r matches Ok(ledger) ==> ledger@ == ledger_of_columns(
            asset_types@,
            amounts@,
            values_usd@,
        ),
        r matches Err(e) ==> e == AttestError::LedgerShapeMismatch,
{
    if asset_types.len() != amounts.len() {
        return Err(AttestError::LedgerShapeMismatch);
    }
    if amounts.len() != values_usd.len() {
        return Err(AttestError::LedgerShapeMismatch);
    }
    let mut ledger: Vec<ReserveEntry> = Vec::new();
    let mut i: usize = 0;
    while i < asset_types.len()
        invariant
            i <= asset_types@.len(),
            columns_aligned(asset_types@, amounts@, values_usd@),
            ledger@ == ledger_of_columns(asset_types@, amounts@, values_usd@).take(i as int),
        decreases asset_types@.len() - i,
    {
        ledger.push(
            ReserveEntry {
                asset_type: asset_types[i].clone(),
                amount: amounts[i],
                value_usd: values_usd[i],
            },
        );
        i = i + 1;
        assert(ledger@ =~= ledger_of_columns(asset_types@, amounts@, values_usd@).take(i as int));
    }
    assert(ledger@ =~= ledger_of_columns(asset_types@, amounts@, values_usd@));
    Ok(ledger)
}

/// The columns used while no live reserve feed is connected: asset types,
/// amounts and USD values.
pub fn placeholder_columns() -> (columns: (Vec<String>, Vec<u64>, Vec<u64>))
    ensures
        columns.0@.len() == 3 && columns.1@ == seq![1000u64, 2000u64, 3000u64] && columns.2@
            == seq![5000u64, 10000u64, 15000u64],
        columns.0@[0]@ == "USDC"@ && columns.0@[1]@ == "ETH"@ && columns.0@[2]@ == "BTC"@,
{
    let mut asset_types: Vec<String> = Vec::new();
    asset_types.push(String::from_str("USDC"));
    asset_types.push(String::from_str("ETH"));
    asset_types.push(String::from_str("BTC"));
    let mut amounts: Vec<u64> = Vec::new();
    amounts.push(1000);
    amounts.push(2000);
    amounts.push(3000);
    let mut values_usd: Vec<u64> = Vec::new();
    values_usd.push(5000);
    values_usd.push(10000);
    values_usd.push(15000);
    assert(amounts@ =~= seq![1000u64, 2000u64, 3000u64]);
    assert(values_usd@ =~= seq![5000u64, 10000u64, 15000u64]);
    (asset_types, amounts, values_usd)
}

/// A ledger never sums to more than `u64::MAX` per entry.
pub proof fn lemma_sum_value_usd_bound(ledger: Seq<ReserveEntry>)
    ensures
        sum_value_usd(ledger) <= ledger.len() * (u64::MAX as nat),
    decreases ledger.len(),
{
    if ledger.len() > 0 {
        lemma_sum_value_usd_bound(ledger.drop_last());
        assert(ledger.len() * (u64::MAX as nat) == ledger.drop_last().len() * (u64::MAX as nat)
            + (u64::MAX as nat)) by (nonlinear_arith)
            requires
                ledger.drop_last().len() + 1 == ledger.len(),
        ;
    }
}

/// The total of the reserves under `mode`. A fixed total is returned as it
/// is; a sum that exceeds `u64::MAX` is an overflow.
pub fn total_reserves_usd(ledger: &Vec<ReserveEntry>, mode: ReserveTotal) -> (r: Result<
    u64,
    AttestError,
>)
    ensures
        total_reserves_of(ledger@, mode) <= u64::MAX ==> r == Ok::<u64, AttestError>(
            total_reserves_of(ledger@, mode) as u64,
        ),
        total_reserves_of(ledger@, mode) > u64::MAX ==> r == Err::<u64, AttestError>(
            AttestError::ArithmeticOverflow,
        ),
{
    match mode {
        ReserveTotal::Fixed(total) => Ok(total),
        ReserveTotal::SumOfLedger => {
            let mut acc: u128 = 0;
            let mut i: usize = 0;
            while i < ledger.len()
                invariant
                    i <= ledger@.len(),
                    acc == sum_value_usd(ledger@.take(i as int)),
                    acc <= i * (u64::MAX as nat),
                decreases ledger@.len() - i,
            {
                proof {
                    let next = ledger@.take(i + 1);
                    assert(next.drop_last() == ledger@.take(i as int));
                    assert(next.last() == ledger@[i as int]);
                    lemma_sum_value_usd_bound(next);
                    assert(usize::MAX * (u64::MAX as nat) < u128::MAX) by (nonlinear_arith);
                    assert((i + 1) * (u64::MAX as nat) <= usize::MAX * (u64::MAX as nat))
                        by (nonlinear_arith)
                        requires
                            i + 1 <= usize::MAX,
                    ;
                }
                acc = acc + ledger[i].value_usd as u128;
                i = i + 1;
            }
            assert(ledger@.take(i as int) == ledger@);
            if acc > u64::MAX as u128 {
                Err(AttestError::ArithmeticOverflow)
            } else {
                Ok(acc as u64)
            }
        },
    }
}

} // verus!
