//! Gateway protocol: message payloads, requests and request bookkeeping.


pub mod client;
pub mod types;
