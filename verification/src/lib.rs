//! Pending-state logic of a Base node that follows Flashblocks.
#![allow(unused_imports)]

pub mod block_id;
pub mod collections;
pub mod eth;
pub mod logs;
pub mod merge;
pub mod overrides;
pub mod pending;
pub mod prefetcher;
pub mod primitives;
pub mod receipts;
pub mod rpc_error;
pub mod simulate;
pub mod state;
pub mod state_builder;
pub mod text;
