//! The verified core of a load-average probe: a server that answers
//! `GET /loadavg` with the host's 1-, 5- and 15-minute load averages.
//!
//! The library decides; it does not ask the operating system, write numbers
//! out or touch the network. Its caller hands it what the operating system
//! reported and gets back what to send:
//!
//! - [`sample`]: load-average samples as binary64 bit patterns, and which of
//!   them are finite non-negative numbers;
//! - [`reading`]: the snapshot of the three averages, built from the result
//!   of one query, with slots that were not reported read as zero;
//! - [`body`]: the JSON object that carries a snapshot;
//! - [`route`]: the route table and the lookup of a request in it;
//! - [`server`]: the response to each request and to each outcome of a
//!   reading.

pub mod body;
pub mod reading;
pub mod route;
pub mod sample;
pub mod server;
