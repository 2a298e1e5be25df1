//! Storage and indexing core of a chain indexer: the unspent-output set, the
//! per-script transaction history, a bounded undo log for chain
//! reorganisations, and the start-up procedure that reloads and repairs the
//! persisted block-header sequence.

pub mod types;
pub mod utxo;
pub mod history;
pub mod store;
pub mod memory;
pub mod preload;
pub mod laws;
