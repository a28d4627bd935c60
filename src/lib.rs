//! Chain-agnostic model of what a proof-of-burn consensus engine observes on
//! its burn chain: identifiers, transactions, blocks, chain configuration, the
//! network view and the error taxonomy.

pub mod bytes;
pub mod config;
pub mod error;
pub mod ids;
pub mod model;
pub mod view;
