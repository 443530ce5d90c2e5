//! Block ingestion for a staking chain: output decoding, pool attribution,
//! governance vote tracking, the catch-up and live-feed controller, and the
//! height-sum consistency verifier of the block store.

pub mod text;
pub mod console;
pub mod pools;
pub mod db;
pub mod rpc;
pub mod engine;
pub mod pipeline;
