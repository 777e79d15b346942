//! Bilateral FX trade matching and settlement between banks that share a
//! ledger: the per-bank ledger, the factory registry that routes to it, the
//! matching engine that correlates trade legs, and the watcher that follows
//! the emitted events.
pub mod ids;
pub mod trade;
pub mod event;
pub mod ledger;
pub mod factory;
pub mod matching;
pub mod indexer;
