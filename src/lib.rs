//! Control core of a mobile Bitcoin light client: node lifecycle supervision,
//! seed-phrase storage decisions, HD wallet management and the block pipeline.

pub mod network;
pub mod error;
pub mod seed;
pub mod keys;
pub mod queue;
pub mod wallet;
pub mod stats;
pub mod transactions;
pub mod service;
