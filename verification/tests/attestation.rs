use proof_of_reserves::attest::{assemble_commitment, attest, attest_columns, attest_text};
use proof_of_reserves::breakdown::{reserve_breakdown, BreakdownEntry};
use proof_of_reserves::digest::{commitment_digest, digest_to_hex, DIGEST_LEN};
use proof_of_reserves::error::AttestError;
use proof_of_reserves::input::{decode_private_input, decode_u64_le, PublicInput};
use proof_of_reserves::ledger::{
    ledger_from_columns, placeholder_columns, total_reserves_usd, ReserveEntry, ReserveTotal,
    PLACEHOLDER_TOTAL_RESERVES_USD,
};
use proof_of_reserves::metrics::{scaled_ratio_bps, solvency_metrics, SolvencyMetrics, BPS_SCALE};
use proof_of_reserves::summary::{
    decimal_string, render_breakdown, render_breakdown_item, render_summary,
};

const EMPTY_SHA256: &str = "e3b0c44298fc1c149afbf4c8996fb92427ae41e4649b934ca495991b7852b855";
const ABC_SHA256: &str = "ba7816bf8f01cfea414140de5dae2223b00361a396177a9cb410ff61f20015ad";

fn entry(asset_type: &str, amount: u64, value_usd: u64) -> ReserveEntry {
    ReserveEntry { asset_type: asset_type.to_string(), amount, value_usd }
}

fn placeholder() -> Vec<ReserveEntry> {
    let (asset_types, amounts, values_usd) = placeholder_columns();
    ledger_from_columns(&asset_types, &amounts, &values_usd).unwrap()
}

fn shares(breakdown: &[BreakdownEntry]) -> Vec<u64> {
    breakdown.iter().map(|e| e.percentage_bps).collect()
}

#[test]
fn placeholder_ledger_has_three_entries_in_order() {
    let ledger = placeholder();
    assert_eq!(ledger.len(), 3);
    assert_eq!(ledger[0].asset_type, "USDC");
    assert_eq!((ledger[0].amount, ledger[0].value_usd), (1000, 5000));
    assert_eq!(ledger[1].asset_type, "ETH");
    assert_eq!((ledger[1].amount, ledger[1].value_usd), (2000, 10000));
    assert_eq!(ledger[2].asset_type, "BTC");
    assert_eq!((ledger[2].amount, ledger[2].value_usd), (3000, 15000));
    assert_eq!(PLACEHOLDER_TOTAL_RESERVES_USD, 10_000_000);
    assert_eq!(BPS_SCALE, 10_000);
}

#[test]
fn ratio_is_floor_of_scaled_quotient() {
    assert_eq!(scaled_ratio_bps(10_000_000, 2_000_000), Ok(50_000));
    assert_eq!(scaled_ratio_bps(1, 3), Ok(3333));
    assert_eq!(scaled_ratio_bps(2, 3), Ok(6666));
    assert_eq!(scaled_ratio_bps(0, 7), Ok(0));
    assert_eq!(scaled_ratio_bps(7, 7), Ok(10_000));
}

#[test]
fn ratio_is_zero_without_supply() {
    assert_eq!(scaled_ratio_bps(10_000_000, 0), Ok(0));
    assert_eq!(scaled_ratio_bps(u64::MAX, 0), Ok(0));
    let ledger = placeholder();
    let metrics = solvency_metrics(&ledger, ReserveTotal::Fixed(10_000_000), 0).unwrap();
    assert_eq!(metrics.collateralization_ratio_bps, 0);
    assert_eq!(metrics.total_reserves_usd, 10_000_000);
    let summed = solvency_metrics(&ledger, ReserveTotal::SumOfLedger, 0).unwrap();
    assert_eq!(summed.collateralization_ratio_bps, 0);
}

#[test]
fn ratio_at_the_multiplication_boundary() {
    let edge: u64 = u64::MAX / 10_000;
    assert_eq!(edge, 1_844_674_407_370_955);
    assert_eq!(scaled_ratio_bps(edge, 1), Ok(18_446_744_073_709_550_000));
    assert_eq!(scaled_ratio_bps(edge + 1, 1), Err(AttestError::ArithmeticOverflow));
    // The product exceeds 64 bits, the quotient does not.
    assert_eq!(scaled_ratio_bps(edge + 1, 2), Ok(9_223_372_036_854_780_000));
    assert_eq!(scaled_ratio_bps(u64::MAX, u64::MAX), Ok(10_000));
    assert_eq!(scaled_ratio_bps(u64::MAX, 10_000), Ok(u64::MAX));
    assert_eq!(scaled_ratio_bps(u64::MAX, 9_999), Err(AttestError::ArithmeticOverflow));
}

#[test]
fn fixed_total_metrics_and_breakdown() {
    let ledger = placeholder();
    let metrics =
        solvency_metrics(&ledger, ReserveTotal::Fixed(10_000_000), 2_000_000).unwrap();
    assert_eq!(
        metrics,
        SolvencyMetrics { total_reserves_usd: 10_000_000, collateralization_ratio_bps: 50_000 }
    );
    let breakdown = reserve_breakdown(&ledger, metrics.total_reserves_usd).unwrap();
    assert_eq!(shares(&breakdown), vec![5, 10, 15]);
    assert_eq!(breakdown[0].asset_type, "USDC");
    assert_eq!(breakdown[1].asset_type, "ETH");
    assert_eq!(breakdown[2].asset_type, "BTC");
}

#[test]
fn total_is_sum_of_ledger_values() {
    let ledger = placeholder();
    assert_eq!(total_reserves_usd(&ledger, ReserveTotal::SumOfLedger), Ok(30_000));
    assert_eq!(total_reserves_usd(&ledger, ReserveTotal::Fixed(7)), Ok(7));
    assert_eq!(total_reserves_usd(&Vec::new(), ReserveTotal::SumOfLedger), Ok(0));
}

#[test]
fn total_overflow_is_reported() {
    let ledger = vec![entry("A", 1, u64::MAX), entry("B", 1, 1)];
    assert_eq!(
        total_reserves_usd(&ledger, ReserveTotal::SumOfLedger),
        Err(AttestError::ArithmeticOverflow)
    );
    let ledger = vec![entry("A", 1, u64::MAX - 1), entry("B", 1, 1)];
    assert_eq!(total_reserves_usd(&ledger, ReserveTotal::SumOfLedger), Ok(u64::MAX));
    assert_eq!(
        solvency_metrics(&ledger, ReserveTotal::SumOfLedger, 1),
        Err(AttestError::ArithmeticOverflow)
    );
}

#[test]
fn breakdown_keeps_ledger_order() {
    let ledger = vec![entry("Z", 1, 10), entry("A", 2, 30), entry("M", 3, 60)];
    let breakdown = reserve_breakdown(&ledger, 100).unwrap();
    let names: Vec<&str> = breakdown.iter().map(|e| e.asset_type.as_str()).collect();
    assert_eq!(names, vec!["Z", "A", "M"]);
    assert_eq!(shares(&breakdown), vec![1000, 3000, 6000]);
}

#[test]
fn breakdown_of_zero_total_is_all_zero() {
    let ledger = placeholder();
    let breakdown = reserve_breakdown(&ledger, 0).unwrap();
    assert_eq!(shares(&breakdown), vec![0, 0, 0]);
    assert!(reserve_breakdown(&Vec::new(), 5).unwrap().is_empty());
}

#[test]
fn breakdown_share_overflow_is_reported() {
    let ledger = vec![entry("A", 1, 5), entry("B", 1, u64::MAX)];
    assert_eq!(reserve_breakdown(&ledger, 1).unwrap_err(), AttestError::ArithmeticOverflow);
}

#[test]
fn breakdown_sum_is_within_rounding_of_full_scale() {
    let cases: Vec<Vec<u64>> = vec![
        vec![1, 1, 1],
        vec![5000, 10000, 15000],
        vec![1, 2, 3, 4, 5, 6, 7],
        vec![u64::MAX / 4, u64::MAX / 4, u64::MAX / 4, 3],
        vec![9],
        vec![0, 0, 1],
    ];
    for values in cases {
        let ledger: Vec<ReserveEntry> = values.iter().map(|v| entry("X", 1, *v)).collect();
        let total = total_reserves_usd(&ledger, ReserveTotal::SumOfLedger).unwrap();
        let breakdown = reserve_breakdown(&ledger, total).unwrap();
        let sum: u64 = shares(&breakdown).iter().sum();
        assert!(sum <= 10_000);
        assert!(sum + (ledger.len() as u64 - 1) >= 10_000);
    }
    let thirds = vec![entry("A", 1, 1), entry("B", 1, 1), entry("C", 1, 1)];
    let breakdown = reserve_breakdown(&thirds, 3).unwrap();
    assert_eq!(shares(&breakdown), vec![3333, 3333, 3333]);
}

#[test]
fn ledger_shape_mismatch_is_rejected() {
    let types = vec!["USDC".to_string(), "ETH".to_string(), "BTC".to_string()];
    assert_eq!(
        ledger_from_columns(&types, &[1000, 2000], &[5000, 10000, 15000]).unwrap_err(),
        AttestError::LedgerShapeMismatch
    );
    assert_eq!(
        ledger_from_columns(&types, &[1000, 2000, 3000], &[5000, 10000]).unwrap_err(),
        AttestError::LedgerShapeMismatch
    );
    assert_eq!(
        ledger_from_columns(&types[..2], &[1000, 2000, 3000], &[5000, 10000, 15000]).unwrap_err(),
        AttestError::LedgerShapeMismatch
    );
    assert!(ledger_from_columns(&[], &[], &[]).unwrap().is_empty());
}

#[test]
fn shape_mismatch_commits_nothing() {
    let public = PublicInput { total_supply: 2_000_000, timestamp: 1 };
    let types = vec!["USDC".to_string(), "ETH".to_string(), "BTC".to_string()];
    let r = attest_columns(
        public,
        b"payload".to_vec(),
        &types,
        &[1000, 2000],
        &[5000, 10000, 15000],
        ReserveTotal::Fixed(10_000_000),
    );
    assert_eq!(r.unwrap_err(), AttestError::LedgerShapeMismatch);
}

#[test]
fn malformed_payload_is_reported_before_shape() {
    let public = PublicInput { total_supply: 2_000_000, timestamp: 1 };
    let types = vec!["USDC".to_string()];
    let r = attest_columns(public, vec![0xff, 0xfe], &types, &[], &[], ReserveTotal::SumOfLedger);
    assert_eq!(r.unwrap_err(), AttestError::MalformedInput);
    let r = attest(public, vec![0xc3], &placeholder(), ReserveTotal::SumOfLedger);
    assert_eq!(r.unwrap_err(), AttestError::MalformedInput);
}

#[test]
fn overflow_aborts_the_attestation() {
    let public = PublicInput { total_supply: 1, timestamp: 1 };
    let r = attest(public, Vec::new(), &placeholder(), ReserveTotal::Fixed(u64::MAX));
    assert_eq!(r.unwrap_err(), AttestError::ArithmeticOverflow);
    let r = attest(public, Vec::new(), &vec![entry("A", 1, u64::MAX)], ReserveTotal::Fixed(1));
    assert_eq!(r.unwrap_err(), AttestError::ArithmeticOverflow);
}

#[test]
fn private_input_decodes_as_utf8() {
    assert_eq!(decode_private_input(Vec::new()), Ok(String::new()));
    assert_eq!(decode_private_input("h\u{e9}llo".as_bytes().to_vec()), Ok("h\u{e9}llo".to_string()));
    assert_eq!(decode_private_input(vec![0x80]), Err(AttestError::MalformedInput));
    assert_eq!(decode_private_input(vec![0xed, 0xa0, 0x80]), Err(AttestError::MalformedInput));
}

#[test]
fn public_fields_are_little_endian() {
    assert_eq!(decode_u64_le(&[0; 8]), 0);
    assert_eq!(decode_u64_le(&[1, 0, 0, 0, 0, 0, 0, 0]), 1);
    assert_eq!(decode_u64_le(&[0, 0, 0, 0, 0, 0, 0, 1]), 1 << 56);
    assert_eq!(decode_u64_le(&[0x80, 0x84, 0x1e, 0, 0, 0, 0, 0]), 2_000_000);
    assert_eq!(decode_u64_le(&[0xff; 8]), u64::MAX);
    assert_eq!(decode_u64_le(&[1, 2, 3, 4, 5, 6, 7, 8]), 0x0807_0605_0403_0201);
    let public = PublicInput::from_le_fields(&2_000_000u64.to_le_bytes(), &1_700_000_000u64.to_le_bytes());
    assert_eq!(public, PublicInput { total_supply: 2_000_000, timestamp: 1_700_000_000 });
}

#[test]
fn digest_of_empty_payload_is_the_known_hash() {
    let digest = commitment_digest("");
    assert_eq!(digest.len(), DIGEST_LEN);
    assert_eq!(digest_to_hex(&digest), EMPTY_SHA256);
    let public = PublicInput { total_supply: 2_000_000, timestamp: 1_700_000_000 };
    let commitment =
        attest(public, Vec::new(), &placeholder(), ReserveTotal::Fixed(10_000_000)).unwrap();
    assert_eq!(digest_to_hex(&commitment.digest), EMPTY_SHA256);
    let tail = format!(",\"data_hash\":\"{}\"}}", EMPTY_SHA256);
    assert!(commitment.summary.ends_with(&tail));
}

#[test]
fn digest_of_known_message() {
    assert_eq!(digest_to_hex(&commitment_digest("abc")), ABC_SHA256);
    assert_eq!(commitment_digest("abc")[0], 0xba);
    assert_eq!(commitment_digest("abc")[31], 0xad);
}

#[test]
fn digest_is_deterministic() {
    let public = PublicInput { total_supply: 5, timestamp: 6 };
    let payload = b"{\"reserves\":\"7b7d\"}".to_vec();
    let first = attest(public, payload.clone(), &placeholder(), ReserveTotal::SumOfLedger).unwrap();
    let second = attest(public, payload.clone(), &placeholder(), ReserveTotal::SumOfLedger).unwrap();
    assert_eq!(first.digest, second.digest);
    assert_eq!(first.summary, second.summary);
    assert_eq!(first.committed_writes(), second.committed_writes());
    let mut changed = payload;
    changed[3] ^= 1;
    let third = attest(public, changed, &placeholder(), ReserveTotal::SumOfLedger).unwrap();
    assert_ne!(first.digest, third.digest);
}

#[test]
fn hex_is_lowercase_two_digits_per_byte() {
    assert_eq!(digest_to_hex(&[]), "");
    assert_eq!(digest_to_hex(&[0x00, 0x0a, 0xab, 0xf0, 0xff]), "000aabf0ff");
    assert_eq!(digest_to_hex(&[0x12, 0x34, 0x56, 0x78, 0x9c, 0xde]), "123456789cde");
}

#[test]
fn numbers_are_written_in_decimal() {
    assert_eq!(decimal_string(0), "0");
    assert_eq!(decimal_string(9), "9");
    assert_eq!(decimal_string(10), "10");
    assert_eq!(decimal_string(507), "507");
    assert_eq!(decimal_string(1_234_567_890), "1234567890");
    assert_eq!(decimal_string(u64::MAX), "18446744073709551615");
}

#[test]
fn breakdown_is_written_as_a_list() {
    let item = BreakdownEntry { asset_type: "USDC".to_string(), percentage_bps: 5 };
    assert_eq!(render_breakdown_item(&item), "{\"reserve_type\":\"USDC\",\"percentage\":5}");
    assert_eq!(render_breakdown(&Vec::new()), "[]");
    assert_eq!(render_breakdown(&vec![item.clone()]), "[{\"reserve_type\":\"USDC\",\"percentage\":5}]");
    let other = BreakdownEntry { asset_type: "ETH".to_string(), percentage_bps: 10 };
    assert_eq!(
        render_breakdown(&vec![item, other]),
        "[{\"reserve_type\":\"USDC\",\"percentage\":5},{\"reserve_type\":\"ETH\",\"percentage\":10}]"
    );
}

#[test]
fn summary_has_fixed_fields_in_order() {
    let breakdown = vec![BreakdownEntry { asset_type: "BTC".to_string(), percentage_bps: 10_000 }];
    let text = render_summary(1, 2, 3, 4, &breakdown, "ff");
    assert_eq!(
        text,
        "{\"total_reserves_usd\":1,\"total_supply\":2,\"collateralization_ratio\":3,\"timestamp\":4,\
         \"reserve_breakdown\":[{\"reserve_type\":\"BTC\",\"percentage\":10000}],\"data_hash\":\"ff\"}"
    );
}

#[test]
fn commitment_is_assembled_around_a_given_digest() {
    let public = PublicInput { total_supply: 8, timestamp: 9 };
    let metrics = SolvencyMetrics { total_reserves_usd: 4, collateralization_ratio_bps: 5000 };
    let commitment = assemble_commitment(public, metrics, &Vec::new(), vec![0xde, 0xad]);
    assert_eq!(commitment.digest, vec![0xde, 0xad]);
    assert_eq!(
        commitment.summary,
        "{\"total_reserves_usd\":4,\"total_supply\":8,\"collateralization_ratio\":5000,\"timestamp\":9,\
         \"reserve_breakdown\":[],\"data_hash\":\"dead\"}"
    );
}

#[test]
fn attestation_of_the_placeholder_ledger() {
    let public = PublicInput { total_supply: 2_000_000, timestamp: 1_700_000_000 };
    let (asset_types, amounts, values_usd) = placeholder_columns();
    let commitment = attest_columns(
        public,
        b"abc".to_vec(),
        &asset_types,
        &amounts,
        &values_usd,
        ReserveTotal::Fixed(PLACEHOLDER_TOTAL_RESERVES_USD),
    )
    .unwrap();
    let expected = format!(
        "{{\"total_reserves_usd\":10000000,\"total_supply\":2000000,\"collateralization_ratio\":50000,\
         \"timestamp\":1700000000,\"reserve_breakdown\":[{{\"reserve_type\":\"USDC\",\"percentage\":5}},\
         {{\"reserve_type\":\"ETH\",\"percentage\":10}},{{\"reserve_type\":\"BTC\",\"percentage\":15}}],\
         \"data_hash\":\"{}\"}}",
        ABC_SHA256
    );
    assert_eq!(commitment.summary, expected);
    assert_eq!(digest_to_hex(&commitment.digest), ABC_SHA256);
    let (first, second) = commitment.committed_writes();
    assert_eq!(first, commitment.digest);
    assert_eq!(first.len(), 32);
    assert_eq!(second, expected.as_bytes());
}

#[test]
fn attestation_with_summed_total() {
    let public = PublicInput { total_supply: 60_000, timestamp: 7 };
    let commitment = attest_text(public, "", &placeholder(), ReserveTotal::SumOfLedger).unwrap();
    let expected = format!(
        "{{\"total_reserves_usd\":30000,\"total_supply\":60000,\"collateralization_ratio\":5000,\
         \"timestamp\":7,\"reserve_breakdown\":[{{\"reserve_type\":\"USDC\",\"percentage\":1666}},\
         {{\"reserve_type\":\"ETH\",\"percentage\":3333}},{{\"reserve_type\":\"BTC\",\"percentage\":5000}}],\
         \"data_hash\":\"{}\"}}",
        EMPTY_SHA256
    );
    assert_eq!(commitment.summary, expected);
}

#[test]
fn payload_bytes_are_hashed_as_given() {
    let text = "caf\u{e9} \u{1f680}";
    let public = PublicInput { total_supply: 1, timestamp: 1 };
    let commitment =
        attest(public, text.as_bytes().to_vec(), &Vec::new(), ReserveTotal::SumOfLedger).unwrap();
    assert_eq!(commitment.digest, commitment_digest(text));
    assert_eq!(
        commitment.summary,
        format!(
            "{{\"total_reserves_usd\":0,\"total_supply\":1,\"collateralization_ratio\":0,\"timestamp\":1,\
             \"reserve_breakdown\":[],\"data_hash\":\"{}\"}}",
            digest_to_hex(&commitment.digest)
        )
    );
}

#[test]
fn errors_have_messages() {
    assert_eq!(AttestError::MalformedInput.message(), "private input is not valid UTF-8");
    assert_eq!(
        AttestError::LedgerShapeMismatch.message(),
        "reserve ledger columns differ in length"
    );
    assert_eq!(
        AttestError::ArithmeticOverflow.message(),
        "arithmetic overflow in reserve metrics"
    );
}
