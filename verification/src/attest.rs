use vstd::prelude::*;
use vstd::string::StrSliceExecFns;
use vstd::utf8::{encode_utf8, encode_utf8_valid_utf8, valid_utf8};
use crate::breakdown::{
    breakdown_rows, ledger_shares, lemma_breakdown_rows, reserve_breakdown, shares_fit,
    BreakdownEntry,
};
use crate::digest::{commitment_digest, digest_to_hex, hex_lower, sha256, DIGEST_LEN};
use crate::error::AttestError;
use crate::input::{decode_private_input, PublicInput};
use crate::ledger::{
    columns_aligned, ledger_from_columns, ledger_of_columns, total_reserves_of, ReserveEntry,
    ReserveTotal,
};
use crate::metrics::{collateralization_bps, metrics_fit, solvency_metrics, SolvencyMetrics};
use crate::summary::{render_summary, summary_text};

verus! {

/// What an attestation commits to: the digest of the private payload and the
/// public summary, to be written in that order.
#[derive(Debug)]
pub struct Commitment {
    pub digest: Vec<u8>,
    pub summary: String,
}

/// A commitment as plain values: the digest's bytes and the summary's
/// characters.
pub ghost struct CommitmentView {
    pub digest: Seq<u8>,
    pub summary: Seq<char>,
}

impl View for Commitment {
    type V = CommitmentView;

    open spec fn view(&self) -> CommitmentView {
        CommitmentView { digest: self.digest@, summary: self.summary@ }
    }
}

impl Commitment {
    /// The two writes to the committed-output channel, in their order: the
    /// digest's bytes, then the bytes of the summary's UTF-8 encoding.
    pub fn committed_writes(&self) -> (writes: (Vec<u8>, Vec<u8>))
        ensures
            writes.0@ == self.digest@,
            writes.1@ == encode_utf8(self.summary@),
    {
        (self.digest.clone(), self.summary.as_str().as_bytes_vec())
    }
}

/// Puts the commitment together from a digest that was already computed: the
/// digest is kept as it is, and the summary carries it in hexadecimal.
pub fn assemble_commitment(
    public: PublicInput,
    metrics: SolvencyMetrics,
    breakdown: &Vec<BreakdownEntry>,
    digest: Vec<u8>,
) -> (commitment: Commitment)
    ensures
        commitment.digest@ == digest@,
        commitment.summary@ == summary_text(
            metrics.total_reserves_usd as nat,
            public.total_supply as nat,
            metrics.collateralization_ratio_bps as nat,
            public.timestamp as nat,
            breakdown_rows(breakdown@),
            hex_lower(digest@),
        ),
{
    let data_hash: String = digest_to_hex(digest.as_slice());
    let summary: String = render_summary(
        metrics.total_reserves_usd,
        public.total_supply,
        metrics.collateralization_ratio_bps,
        public.timestamp,
        breakdown,
        data_hash.as_str(),
    );
    Commitment { digest, summary }
}

/// An attestation succeeds on these inputs: the payload is UTF-8, and the
/// total, the ratio and every share fit in 64 bits.
pub open spec fn attestable(
    public: PublicInput,
    private_input: Seq<u8>,
    ledger: Seq<ReserveEntry>,
    mode: ReserveTotal,
) -> bool {
    &&& valid_utf8(private_input)
    &&& metrics_fit(ledger, mode, public.total_supply)
    &&& shares_fit(ledger, total_reserves_of(ledger, mode))
}

/// The summary that an attestation of these inputs commits to.
pub open spec fn attested_summary(
    public: PublicInput,
    private_input: Seq<u8>,
    ledger: Seq<ReserveEntry>,
    mode: ReserveTotal,
) -> Seq<char> {
    summary_text(
        total_reserves_of(ledger, mode),
        public.total_supply as nat,
        collateralization_bps(total_reserves_of(ledger, mode), public.total_supply as nat),
        public.timestamp as nat,
        ledger_shares(ledger, total_reserves_of(ledger, mode)),
        hex_lower(sha256(private_input)),
    )
}

/// What an attestation of these inputs commits to: the digest of the
/// payload, and the summary of these inputs around that digest.
pub open spec fn attestation_of(
    public: PublicInput,
    private_input: Seq<u8>,
    ledger: Seq<ReserveEntry>,
    mode: ReserveTotal,
) -> CommitmentView {
    CommitmentView {
        digest: sha256(private_input),
        summary: attested_summary(public, private_input, ledger, mode),
    }
}

/// Runs the attestation of a payload that is already known to be text:
/// derives the metrics and the breakdown from the ledger, and commits to the
/// digest of the text's UTF-8 encoding and to the summary.
pub fn attest_text(
    public: PublicInput,
    private_text: &str,
    ledger: &Vec<ReserveEntry>,
    mode: ReserveTotal,
) -> (r: Result<Commitment, AttestError>)
    ensures
        r is Ok <==> attestable(public, encode_utf8(private_text@), ledger@, mode),
        r matches Ok(commitment) ==> {
            &&& commitment@ == attestation_of(public, encode_utf8(private_text@), ledger@, mode)
            &&& commitment.digest@.len() == DIGEST_LEN
        },
        r matches Err(e) ==> e == AttestError::ArithmeticOverflow,
{
    proof {
        encode_utf8_valid_utf8(private_text@);
    }
    let metrics: SolvencyMetrics = match solvency_metrics(ledger, mode, public.total_supply) {
        Ok(metrics) => metrics,
        Err(e) => {
            return Err(e);
        },
    };
    let breakdown: Vec<BreakdownEntry> = match reserve_breakdown(
        ledger,
        metrics.total_reserves_usd,
    ) {
        Ok(breakdown) => breakdown,
        Err(e) => {
            return Err(e);
        },
    };
    proof {
        lemma_breakdown_rows(breakdown@, ledger@, metrics.total_reserves_usd as nat);
    }
    let digest: Vec<u8> = commitment_digest(private_text);
    Ok(assemble_commitment(public, metrics, &breakdown, digest))
}

/// Runs one attestation: checks the payload, derives the metrics and the
/// breakdown from the ledger, and commits to the payload's digest and to the
/// summary. A payload that is not UTF-8 is reported before anything else;
/// after that, a figure that does not fit in 64 bits.
pub fn attest(
    public: PublicInput,
    private_input: Vec<u8>,
    ledger: &Vec<ReserveEntry>,
    mode: ReserveTotal,
) -> (r: Result<Commitment, AttestError>)
    ensures
        r is Ok <==> attestable(public, private_input@, ledger@, mode),
        r matches Ok(commitment) ==> {
            &&& commitment@ == attestation_of(public, private_input@, ledger@, mode)
            &&& commitment.digest@.len() == DIGEST_LEN
        },
        r matches Err(e) ==> e == (if !valid_utf8(private_input@) {
            AttestError::MalformedInput
        } else {
            AttestError::ArithmeticOverflow
        }),
{
    let text: String = match decode_private_input(private_input) {
        Ok(text) => text,
        Err(e) => {
            return Err(e);
        },
    };
    attest_text(public, text.as_str(), ledger, mode)
}

/// The failure that an attestation on columns ends in, if it fails: a
/// payload that is not UTF-8 is reported first, then columns of different
/// lengths, then a figure that does not fit in 64 bits.
pub open spec fn attest_columns_failure(
    public: PublicInput,
    private_input: Seq<u8>,
    asset_types: Seq<String>,
    amounts: Seq<u64>,
    values_usd: Seq<u64>,
    mode: ReserveTotal,
) -> Option<AttestError> {
    if !valid_utf8(private_input) {
        Some(AttestError::MalformedInput)
    } else if !columns_aligned(asset_types, amounts, values_usd) {
        Some(AttestError::LedgerShapeMismatch)
    } else if !attestable(
        public,
        private_input,
        ledger_of_columns(asset_types, amounts, values_usd),
        mode,
    ) {
        Some(AttestError::ArithmeticOverflow)
    } else {
        None
    }
}

/// Runs one attestation on a ledger given by its three columns. Nothing is
/// committed unless every check has passed.
pub fn attest_columns(
    public: PublicInput,
    private_input: Vec<u8>,
    asset_types: &[String],
    amounts: &[u64],
    values_usd: &[u64],
    mode: ReserveTotal,
) -> (r: Result<Commitment, AttestError>)
    ensures
        match r {
            Ok(commitment) => {
                &&& attest_columns_failure(
                    public,
                    private_input@,
                    asset_types@,
                    amounts@,
                    values_usd@,
                    mode,
                ) is None
                &&& commitment@ == attestation_of(
                    public,
                    private_input@,
                    ledger_of_columns(asset_types@, amounts@, values_usd@),
                    mode,
                )
                &&& commitment.digest@.len() == DIGEST_LEN
            },
            Err(e) => attest_columns_failure(
                public,
                private_input@,
                asset_types@,
                amounts@,
                values_usd@,
                mode,
            ) == Some(e),
        },
        !columns_aligned(asset_types@, amounts@, values_usd@) ==> r is Err,
{
    let text: String = match decode_private_input(private_input) {
        Ok(text) => text,
        Err(e) => {
            return Err(e);
        },
    };
    let ledger: Vec<ReserveEntry> = match ledger_from_columns(asset_types, amounts, values_usd) {
        Ok(ledger) => ledger,
        Err(e) => {
            return Err(e);
        },
    };
    attest_text(public, text.as_str(), &ledger, mode)
}

/// An attestation is a function of its inputs: two commitments to the same
/// public input, payload, ledger and mode have the same digest and the same
/// summary, and so the same committed bytes.
pub proof fn lemma_attestation_deterministic(
    first: Commitment,
    second: Commitment,
    public: PublicInput,
    private_input: Seq<u8>,
    ledger: Seq<ReserveEntry>,
    mode: ReserveTotal,
)
    requires
        first@ == attestation_of(public, private_input, ledger, mode),
        second@ == attestation_of(public, private_input, ledger, mode),
    ensures
        first.digest@ == second.digest@,
        first.summary@ == second.summary@,
        encode_utf8(first.summary@) == encode_utf8(second.summary@),
{
}

} // verus!
