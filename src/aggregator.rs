//! The aggregator's decisions over the signed averages it receives.

use vstd::prelude::*;
use crate::decimal::{Dec, decimal_quotient};
use crate::error::PipelineError;
use crate::mean::{Accumulator, exact_sum, mantissa_total, mean_of, lemma_mean_order_independent};
use crate::record::FileFormat;
use crate::decimal::decimal_encoding;
use crate::signing::{AggMessage, dsa_valid};

verus! {

/// The running state of the aggregator: the averages it accepted.
pub struct Aggregator {
    acc: Accumulator,
}

impl Aggregator {
    /// The accepted averages, in arrival order.
    pub closed spec fn accepted(&self) -> Seq<Dec> {
        self.acc.items()
    }

    /// The running sum agrees with the accepted averages.
    pub closed spec fn wf(&self) -> bool {
        self.acc.wf()
    }

    /// An aggregator that has accepted nothing.
    pub fn new() -> (r: Aggregator)
        ensures
            r.wf(),
            r.accepted() == Seq::<Dec>::empty(),
    {
        Aggregator { acc: Accumulator::new() }
    }

    /// Takes one average whose signature check gave `valid`. An invalid one is an
    /// integrity failure and changes nothing; a valid one is added to the running
    /// sum, unless that would overflow.
    pub fn accept(&mut self, avg: Dec, valid: bool) -> (r: Result<(), PipelineError>)
        requires
            old(self).wf(),
            avg.wf(),
        ensures
            final(self).wf(),
            !valid ==> r == Err::<(), PipelineError>(PipelineError::InvalidSignature),
            r is Ok ==> valid && final(self).accepted() == old(self).accepted().push(avg),
            r is Err ==> *final(self) == *old(self),
            valid && r is Err ==> r->Err_0 == PipelineError::Overflow,
            valid && old(self).accepted().len() < u64::MAX && (old(self).accepted().len() == 0
                || exists|scale: u32| exact_sum(#[trigger] old(self).accepted().push(avg), scale))
                ==> r is Ok,
    {
        if !valid {
            return Err(PipelineError::InvalidSignature);
        }
        self.acc.add(avg)
    }

    /// Verifies one signed average under `key` and takes it as `accept` does.
    pub fn receive(&mut self, msg: &AggMessage, key: &dsa::VerifyingKey) -> (r: Result<
        (),
        PipelineError,
    >)
        requires
            old(self).wf(),
            msg.spec_avg().wf(),
        ensures
            final(self).wf(),
            !dsa_valid(*key, decimal_encoding(msg.spec_avg()), msg.spec_sign()) ==> r == Err::<
                (),
                PipelineError,
            >(PipelineError::InvalidSignature),
            r is Ok ==> dsa_valid(*key, decimal_encoding(msg.spec_avg()), msg.spec_sign())
                && final(self).accepted() == old(self).accepted().push(msg.spec_avg()),
            r is Err ==> *final(self) == *old(self) && (r->Err_0 == PipelineError::InvalidSignature
                || r->Err_0 == PipelineError::Overflow),
            dsa_valid(*key, decimal_encoding(msg.spec_avg()), msg.spec_sign()) && r is Err
                ==> r->Err_0 == PipelineError::Overflow,
            dsa_valid(*key, decimal_encoding(msg.spec_avg()), msg.spec_sign()) && old(
                self,
            ).accepted().len() < u64::MAX && (old(self).accepted().len() == 0 || exists|scale: u32|
                exact_sum(#[trigger] old(self).accepted().push(msg.spec_avg()), scale)) ==> r is Ok,
    {
        let valid = msg.verify(key);
        self.accept(msg.avg(), valid)
    }

    /// On the close of the input: the aggregate average to log, the mean of every
    /// accepted average. Fails with `NoAverages` where none was accepted.
    pub fn finish(&self) -> (r: Result<FileFormat, PipelineError>)
        requires
            self.wf(),
        ensures
            r is Err <==> self.accepted().len() == 0,
            r is Err ==> r->Err_0 == PipelineError::NoAverages,
            r is Ok ==> r->Ok_0 == FileFormat::AggAvg(mean_of(self.accepted())),
            forall|scale: u32|
                exact_sum(self.accepted(), scale) ==> #[trigger] mean_of(self.accepted())
                    == decimal_quotient(
                    Dec { mantissa: mantissa_total(self.accepted()) as i128, scale },
                    self.accepted().len() as u64,
                ),
    {
        match self.acc.mean() {
            Ok(avg) => Ok(FileFormat::agg_avg(avg)),
            Err(_) => Err(PipelineError::NoAverages),
        }
    }
}

/// The aggregate does not depend on arrival order: two aggregators that accepted
/// the same averages in two orders, each of one scale with running totals that fit,
/// finish with the same aggregate average.
pub proof fn lemma_aggregate_order_independent(x: &Aggregator, y: &Aggregator, scale: u32)
    requires
        x.wf(),
        y.wf(),
        x.accepted().to_multiset() == y.accepted().to_multiset(),
        exact_sum(x.accepted(), scale),
        exact_sum(y.accepted(), scale),
    ensures
        mean_of(x.accepted()) == mean_of(y.accepted()),
{
    lemma_mean_order_independent(&x.acc, &y.acc, scale);
}

} // verus!
