//! The records written to the durable log.

use vstd::prelude::*;
use crate::decimal::Dec;

verus! {

/// One line of the log.
#[derive(Clone, Copy, Debug, PartialEq, Eq, Structural)]
pub enum FileFormat {
    /// A price a worker observed.
    DataPoint { client_id: usize, price: Dec },
    /// The average of one worker's window.
    ClientAverage { client_id: usize, avg: Dec },
    /// The average of all accepted client averages.
    AggAvg(Dec),
}

impl FileFormat {
    /// A record of one observed price.
    pub fn data_point(client_id: usize, price: Dec) -> (r: Self)
        ensures
            r == (FileFormat::DataPoint { client_id, price }),
    {
        FileFormat::DataPoint { client_id, price }
    }

    /// A record of one worker's average.
    pub fn client_average(client_id: usize, avg: Dec) -> (r: Self)
        ensures
            r == (FileFormat::ClientAverage { client_id, avg }),
    {
        FileFormat::ClientAverage { client_id, avg }
    }

    /// A record of the aggregate average.
    pub fn agg_avg(avg: Dec) -> (r: Self)
        ensures
            r == FileFormat::AggAvg(avg),
    {
        FileFormat::AggAvg(avg)
    }
}

} // verus!
