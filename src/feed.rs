//! Messages exchanged with the price feed.

use vstd::prelude::*;
use crate::decimal::Dec;

verus! {

/// A request to subscribe to feed topics.
#[derive(Debug)]
pub struct SubscriptionRequest {
    pub op: String,
    pub args: Vec<String>,
}

impl SubscriptionRequest {
    /// A `subscribe` request for the given topics.
    pub fn new(args: Vec<String>) -> (r: Self)
        ensures
            r.op@ == "subscribe"@,
            r.args@ == args@,
    {
        SubscriptionRequest { op: String::from_str("subscribe"), args }
    }
}

/// The part of a ticker message that holds the last traded price.
#[derive(Clone, Copy, Debug, PartialEq, Eq, Structural)]
pub struct TickerData {
    pub last_price: Dec,
}

/// A ticker message of the feed.
#[derive(Clone, Copy, Debug, PartialEq, Eq, Structural)]
pub struct TickerResponse {
    pub data: TickerData,
}

impl TickerResponse {
    /// The last traded price the message carries.
    pub fn price(&self) -> (r: Dec)
        ensures
            r == self.data.last_price,
    {
        self.data.last_price
    }
}

} // verus!
