//! A rate-limited, paginated fetch-and-flatten pipeline for a seller's
//! marketplace listings.
//!
//! Decoded API responses are held as a dynamically shaped [`node::Node`]
//! tree in one common normalized form ([`normalize`]); [`fetcher`]
//! drives pagination decisions and accumulates items in server order;
//! [`flattener`] turns each nested record into a fixed-schema flat row;
//! [`rate_limiter`] bounds how many requests may be granted in any
//! trailing one-second window; [`sink`] lays rows out for a spreadsheet
//! writer; [`client`] builds request envelopes and interprets decoded
//! responses. Network and file I/O stay with the caller.

pub mod client;
pub mod fetcher;
pub mod flattener;
pub mod logger;
pub mod node;
pub mod normalize;
pub mod rate_limiter;
pub mod sink;
