use vstd::prelude::*;

verus! {

/// Why an attestation run produced no commitment. Every failure is final:
/// nothing is committed once one of these is returned.
#[derive(Clone, Copy, Debug, PartialEq, Eq, Structural)]
pub enum AttestError {
    /// The private payload is not valid UTF-8.
    MalformedInput,
    /// The columns of the reserve ledger differ in length.
    LedgerShapeMismatch,
    /// A total or a basis-point figure does not fit in 64 bits.
    ArithmeticOverflow,
}

impl AttestError {
    /// A short, stable description of the failure.
    pub fn message(&self) -> (text: &'static str)
        ensures
            text@ == (match *self {
                AttestError::MalformedInput => "private input is not valid UTF-8"@,
                AttestError::LedgerShapeMismatch => "reserve ledger columns differ in length"@,
                AttestError::ArithmeticOverflow => "arithmetic overflow in reserve metrics"@,
            }),
    {
        match self {
            AttestError::MalformedInput => "private input is not valid UTF-8",
            AttestError::LedgerShapeMismatch => "reserve ledger columns differ in length",
            AttestError::ArithmeticOverflow => "arithmetic overflow in reserve metrics",
        }
    }
}

} // verus!
