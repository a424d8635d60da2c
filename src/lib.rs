//! Aggregation of a cloud database provider's pending invoice into running
//! totals and recent hourly rates per billing meter.

pub mod aggregate;
pub mod fetch;
pub mod invoice;
pub mod laws;
pub mod ledger;
pub mod order;
pub mod publish;
pub mod time;

