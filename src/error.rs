//! Failures of the pipeline's components.

use vstd::prelude::*;

verus! {

/// Why a component of the pipeline failed.
#[derive(Clone, Copy, Debug, PartialEq, Eq, Structural)]
pub enum PipelineError {
    /// A worker's window closed with no price observed.
    NoPrices,
    /// The aggregator's input closed with no average accepted.
    NoAverages,
    /// A signed average failed verification.
    InvalidSignature,
    /// Signing an average failed.
    SigningFailed,
    /// A running sum grew past what a decimal can hold, or a count past its type.
    Overflow,
}

impl PipelineError {
    /// A short description of the failure.
    pub fn message(&self) -> (r: String)
        ensures
            *self == PipelineError::NoPrices ==> r@ == "no price observed in the window"@,
            *self == PipelineError::NoAverages ==> r@ == "no signed average received"@,
            *self == PipelineError::InvalidSignature ==> r@ == "invalid signature"@,
            *self == PipelineError::SigningFailed ==> r@ == "signing failed"@,
            *self == PipelineError::Overflow ==> r@ == "running sum overflowed"@,
    {
        match self {
            PipelineError::NoPrices => String::from_str("no price observed in the window"),
            PipelineError::NoAverages => String::from_str("no signed average received"),
            PipelineError::InvalidSignature => String::from_str("invalid signature"),
            PipelineError::SigningFailed => String::from_str("signing failed"),
            PipelineError::Overflow => String::from_str("running sum overflowed"),
        }
    }
}

} // verus!
