use vstd::prelude::*;
use vstd::string::StringExecFns;
use crate::breakdown::{breakdown_rows, BreakdownEntry};

verus! {

/// The character of a decimal digit.
pub open spec fn digit_char(digit: nat) -> char
    recommends
        digit < 10,
{
    seq!['0', '1', '2', '3', '4', '5', '6', '7', '8', '9'][digit as int]
}

/// A number in decimal, without sign, padding or leading zeros.
pub open spec fn decimal(n: nat) -> Seq<char>
    decreases n,
{
    if n < 10 {
        seq![digit_char(n)]
    } else {
        decimal(n / 10) + seq![digit_char(n % 10)]
    }
}

/// One record of the breakdown as it is written in the summary.
pub open spec fn breakdown_item_text(asset_type: Seq<char>, percentage_bps: nat) -> Seq<char> {
    "{\"reserve_type\":\""@ + asset_type + "\",\"percentage\":"@ + decimal(percentage_bps) + "}"@
}

/// The records of a breakdown in order, separated by commas. A row is an
/// asset type with its share in basis points.
pub open spec fn breakdown_items_text(rows: Seq<(Seq<char>, nat)>) -> Seq<char>
    decreases rows.len(),
{
    if rows.len() == 0 {
        Seq::<char>::empty()
    } else if rows.len() == 1 {
        breakdown_item_text(rows[0].0, rows[0].1)
    } else {
        breakdown_items_text(rows.drop_last()) + ","@ + breakdown_item_text(
            rows.last().0,
            rows.last().1,
        )
    }
}

/// The breakdown as a bracketed list.
pub open spec fn breakdown_text(rows: Seq<(Seq<char>, nat)>) -> Seq<char> {
    "["@ + breakdown_items_text(rows) + "]"@
}

/// The summary record: its six fields in their fixed order and under their
/// fixed names.
pub open spec fn summary_text(
    total_reserves_usd: nat,
    total_supply: nat,
    collateralization_ratio_bps: nat,
    timestamp: nat,
    rows: Seq<(Seq<char>, nat)>,
    data_hash: Seq<char>,
) -> Seq<char> {
    "{\"total_reserves_usd\":"@ + decimal(total_reserves_usd) + ",\"total_supply\":"@ + decimal(
        total_supply,
    ) + ",\"collateralization_ratio\":"@ + decimal(collateralization_ratio_bps)
        + ",\"timestamp\":"@ + decimal(timestamp) + ",\"reserve_breakdown\":"@ + breakdown_text(
        rows,
    ) + ",\"data_hash\":\""@ + data_hash + "\"}"@
}

fn digit_str(digit: u64) -> (text: &'static str)
    requires
        digit < 10,
    ensures
        text@ == seq![digit_char(digit as nat)],
{
    proof {
        reveal_strlit("0");
        reveal_strlit("1");
        reveal_strlit("2");
        reveal_strlit("3");
        reveal_strlit("4");
        reveal_strlit("5");
        reveal_strlit("6");
        reveal_strlit("7");
        reveal_strlit("8");
        reveal_strlit("9");
    }
    let text: &'static str = match digit {
        0 => "0",
        1 => "1",
        2 => "2",
        3 => "3",
        4 => "4",
        5 => "5",
        6 => "6",
        7 => "7",
        8 => "8",
        _ => "9",
    };
    assert(text@ =~= seq![digit_char(digit as nat)]);
    text
}

/// Writes a number in decimal.
pub fn decimal_string(n: u64) -> (text: String)
    ensures
        text@ == decimal(n as nat),
    decreases n,
{
    if n < 10 {
        String::from_str(digit_str(n))
    } else {
        let mut text: String = decimal_string(n / 10);
        text.append(digit_str(n % 10));
        text
    }
}

/// Writes one record of the breakdown.
pub fn render_breakdown_item(entry: &BreakdownEntry) -> (text: String)
    ensures
        text@ == breakdown_item_text(entry.asset_type@, entry.percentage_bps as nat),
{
    let mut text: String = String::from_str("{\"reserve_type\":\"");
    text.append(entry.asset_type.as_str());
    text.append("\",\"percentage\":");
    let share: String = decimal_string(entry.percentage_bps);
    text.append(share.as_str());
    text.append("}");
    text
}

/// Writes the breakdown as a bracketed list, in the order given.
pub fn render_breakdown(breakdown: &Vec<BreakdownEntry>) -> (text: String)
    ensures
        text@ == breakdown_text(breakdown_rows(breakdown@)),
{
    let mut text: String = String::from_str("[");
    let mut i: usize = 0;
    while i < breakdown.len()
        invariant
            i <= breakdown@.len(),
            text@ == "["@ + breakdown_items_text(breakdown_rows(breakdown@).take(i as int)),
        decreases breakdown@.len() - i,
    {
        let item: String = render_breakdown_item(&breakdown[i]);
        proof {
            let next = breakdown_rows(breakdown@).take(i + 1);
            assert(next.drop_last() == breakdown_rows(breakdown@).take(i as int));
            assert(next.last() == breakdown_rows(breakdown@)[i as int]);
            assert(next[0] == breakdown_rows(breakdown@)[0]);
        }
        if i != 0 {
            text.append(",");
            text.append(item.as_str());
            assert(text@ =~= "["@ + breakdown_items_text(
                breakdown_rows(breakdown@).take(i + 1),
            ));
        } else {
            text.append(item.as_str());
            assert(text@ =~= "["@ + breakdown_items_text(
                breakdown_rows(breakdown@).take(i + 1),
            ));
        }
        i = i + 1;
    }
    assert(breakdown_rows(breakdown@).take(i as int) == breakdown_rows(breakdown@));
    text.append("]");
    text
}

/// Writes the summary record around a breakdown and a data hash that are
/// given as they are to appear.
pub fn render_summary(
    total_reserves_usd: u64,
    total_supply: u64,
    collateralization_ratio_bps: u64,
    timestamp: u64,
    breakdown: &Vec<BreakdownEntry>,
    data_hash: &str,
) -> (text: String)
    ensures
        text@ == summary_text(
            total_reserves_usd as nat,
            total_supply as nat,
            collateralization_ratio_bps as nat,
            timestamp as nat,
            breakdown_rows(breakdown@),
            data_hash@,
        ),
{
    let mut text: String = String::from_str("{\"total_reserves_usd\":");
    let field: String = decimal_string(total_reserves_usd);
    text.append(field.as_str());
    text.append(",\"total_supply\":");
    let field: String = decimal_string(total_supply);
    text.append(field.as_str());
    text.append(",\"collateralization_ratio\":");
    let field: String = decimal_string(collateralization_ratio_bps);
    text.append(field.as_str());
    text.append(",\"timestamp\":");
    let field: String = decimal_string(timestamp);
    text.append(field.as_str());
    text.append(",\"reserve_breakdown\":");
    let field: String = render_breakdown(breakdown);
    text.append(field.as_str());
    text.append(",\"data_hash\":\"");
    text.append(data_hash);
    text.append("\"}");
    text
}

} // verus!
