//! A fan-in price pipeline: workers average the prices they observe, sign
//! their averages, and an aggregator verifies and averages those in turn.
//! Every value is recorded as a log record.

pub mod decimal;
pub mod mean;
pub mod error;
pub mod feed;
pub mod framing;
pub mod record;
pub mod signing;
pub mod worker;
pub mod aggregator;
