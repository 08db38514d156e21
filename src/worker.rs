//! A client worker's decisions over one collection window.

use vstd::prelude::*;
use crate::decimal::{Dec, decimal_quotient};
use crate::error::PipelineError;
use crate::mean::{Accumulator, exact_sum, mantissa_total, mean_of};
use crate::record::FileFormat;
use crate::decimal::decimal_encoding;
use crate::signing::{AggMessage, dsa_sign};

verus! {

/// The running state of one worker: its identity and the prices it observed.
pub struct ClientWorker {
    id: usize,
    acc: Accumulator,
}

impl ClientWorker {
    /// The worker's client identity.
    pub closed spec fn spec_id(&self) -> usize {
        self.id
    }

    /// The prices observed so far, in order.
    pub closed spec fn observed(&self) -> Seq<Dec> {
        self.acc.items()
    }

    /// The running sum agrees with the observed prices.
    pub closed spec fn wf(&self) -> bool {
        self.acc.wf()
    }

    /// A worker for client `id` that has observed nothing.
    pub fn new(id: usize) -> (r: ClientWorker)
        ensures
            r.wf(),
            r.spec_id() == id,
            r.observed() == Seq::<Dec>::empty(),
    {
        ClientWorker { id, acc: Accumulator::new() }
    }

    /// The worker's client identity.
    pub fn id(&self) -> (r: usize)
        ensures
            r == self.spec_id(),
    {
        self.id
    }

    /// The number of prices observed.
    pub fn count(&self) -> (r: u64)
        requires
            self.wf(),
        ensures
            r == self.observed().len(),
    {
        self.acc.count()
    }

    /// Folds one observed price into the running sum and gives the data point to log.
    /// Fails, with the state unchanged, where the sum or count would overflow; prices
    /// of one scale whose running totals fit are always taken.
    pub fn observe(&mut self, price: Dec) -> (r: Result<FileFormat, PipelineError>)
        requires
            old(self).wf(),
            price.wf(),
        ensures
            final(self).wf(),
            final(self).spec_id() == old(self).spec_id(),
            r is Ok ==> r->Ok_0 == (FileFormat::DataPoint { client_id: old(self).spec_id(), price })
                && final(self).observed() == old(self).observed().push(price),
            r is Err ==> r->Err_0 == PipelineError::Overflow && *final(self) == *old(self),
            old(self).observed().len() < u64::MAX && (old(self).observed().len() == 0 || exists|
                scale: u32,
            | exact_sum(#[trigger] old(self).observed().push(price), scale)) ==> r is Ok,
    {
        match self.acc.add(price) {
            Ok(()) => Ok(FileFormat::data_point(self.id, price)),
            Err(e) => Err(e),
        }
    }

    /// The mean of the observed prices; a window with no price fails.
    /// Prices of one scale whose running totals fit give the exact total divided by
    /// the count.
    pub fn average(&self) -> (r: Result<Dec, PipelineError>)
        requires
            self.wf(),
        ensures
            r is Err <==> self.observed().len() == 0,
            r is Err ==> r->Err_0 == PipelineError::NoPrices,
            r is Ok ==> r->Ok_0 == mean_of(self.observed()) && r->Ok_0.wf(),
            forall|scale: u32|
                exact_sum(self.observed(), scale) ==> #[trigger] mean_of(self.observed())
                    == decimal_quotient(
                    Dec { mantissa: mantissa_total(self.observed()) as i128, scale },
                    self.observed().len() as u64,
                ),
    {
        self.acc.mean()
    }

    /// Closes the window: the signed average for the aggregator and the client
    /// average to log. A window with no price fails with `NoPrices`.
    pub fn close(&self, key: &dsa::SigningKey) -> (r: Result<
        (AggMessage, FileFormat),
        PipelineError,
    >)
        requires
            self.wf(),
        ensures
            self.observed().len() == 0 ==> r == Err::<(AggMessage, FileFormat), _>(
                PipelineError::NoPrices,
            ),
            self.observed().len() > 0 && r is Err ==> r->Err_0 == PipelineError::SigningFailed,
            self.observed().len() > 0 ==> (r is Ok <==> dsa_sign(
                *key,
                decimal_encoding(mean_of(self.observed())),
            ) is Some),
            r is Ok ==> r->Ok_0.0.spec_avg() == mean_of(self.observed()) && r->Ok_0.0.spec_avg().wf()
                && r->Ok_0.0.spec_sign() == dsa_sign(*key, decimal_encoding(mean_of(self.observed())))->0
                && r->Ok_0.1 == (FileFormat::ClientAverage {
                client_id: self.spec_id(),
                avg: mean_of(self.observed()),
            }),
    {
        let avg = match self.average() {
            Ok(a) => a,
            Err(e) => return Err(e),
        };
        match AggMessage::with_key(avg, key) {
            Ok(msg) => Ok((msg, FileFormat::client_average(self.id, avg))),
            Err(e) => Err(e),
        }
    }
}

} // verus!
