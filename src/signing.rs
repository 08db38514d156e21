//! Averages bound to a signature under the run's signing key.

use vstd::prelude::*;
use crate::decimal::{Dec, encode, decimal_encoding};
use crate::error::PipelineError;

verus! {

#[verifier::external_type_specification]
#[verifier::external_body]
pub struct ExSigningKey(dsa::SigningKey);

#[verifier::external_type_specification]
#[verifier::external_body]
pub struct ExVerifyingKey(dsa::VerifyingKey);

#[verifier::external_type_specification]
#[verifier::external_body]
pub struct ExSignature(dsa::Signature);

/// What `dsa` gives when `key` signs `msg`: a signature, or `None` where signing failed.
/// Signing is deterministic (RFC 6979), so this depends on the key and message alone.
pub uninterp spec fn dsa_sign(key: dsa::SigningKey, msg: Seq<u8>) -> Option<dsa::Signature>;

/// Whether `dsa` accepts `sig` as a signature of `msg` under `key`.
pub uninterp spec fn dsa_valid(key: dsa::VerifyingKey, msg: Seq<u8>, sig: dsa::Signature) -> bool;

/// Relies on `dsa`'s `Signer::try_sign` for `SigningKey`: a deterministic signature of
/// `msg`, or `None` where signing failed.
#[verifier::external_body]
fn sign_bytes(key: &dsa::SigningKey, msg: &Vec<u8>) -> (r: Option<dsa::Signature>)
    ensures
        r == dsa_sign(*key, msg@),
{
    dsa::signature::Signer::try_sign(key, msg.as_slice()).ok()
}

/// Relies on `dsa`'s `Verifier::verify` for `VerifyingKey`: whether `sig` is a valid
/// signature of `msg`.
#[verifier::external_body]
fn verify_bytes(key: &dsa::VerifyingKey, msg: &Vec<u8>, sig: &dsa::Signature) -> (r: bool)
    ensures
        r == dsa_valid(*key, msg@, *sig),
{
    dsa::signature::Verifier::verify(key, msg.as_slice(), sig).is_ok()
}

/// An average with its signature, sent from a worker to the aggregator.
pub struct AggMessage {
    avg: Dec,
    sign: dsa::Signature,
}

impl AggMessage {
    /// The signed average.
    pub closed spec fn spec_avg(&self) -> Dec {
        self.avg
    }

    /// The signature carried.
    pub closed spec fn spec_sign(&self) -> dsa::Signature {
        self.sign
    }

    /// The signed average.
    pub fn avg(&self) -> (r: Dec)
        ensures
            r == self.spec_avg(),
    {
        self.avg
    }

    /// Signs the serialized form of `avg` with `key`.
    pub fn with_key(avg: Dec, key: &dsa::SigningKey) -> (r: Result<AggMessage, PipelineError>)
        requires
            avg.wf(),
        ensures
            r is Ok <==> dsa_sign(*key, decimal_encoding(avg)) is Some,
            r is Ok ==> r->Ok_0.spec_avg() == avg && r->Ok_0.spec_sign() == dsa_sign(
                *key,
                decimal_encoding(avg),
            )->0,
            r is Err ==> r->Err_0 == PipelineError::SigningFailed,
    {
        let bytes = encode(avg);
        match sign_bytes(key, &bytes) {
            Some(sign) => Ok(AggMessage { avg, sign }),
            None => Err(PipelineError::SigningFailed),
        }
    }

    /// This message's signature over another average.
    pub fn with_avg(self, avg: Dec) -> (r: AggMessage)
        ensures
            r.spec_avg() == avg,
            r.spec_sign() == self.spec_sign(),
    {
        AggMessage { avg, sign: self.sign }
    }

    /// Whether the signature verifies under `key` against the serialized average.
    pub fn verify(&self, key: &dsa::VerifyingKey) -> (r: bool)
        requires
            self.spec_avg().wf(),
        ensures
            r == dsa_valid(*key, decimal_encoding(self.spec_avg()), self.spec_sign()),
    {
        let bytes = encode(self.avg);
        verify_bytes(key, &bytes, &self.sign)
    }
}

} // verus!
