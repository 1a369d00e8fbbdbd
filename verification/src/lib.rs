//! Interchain gas payment and quoting engine.
//!
//! A sender on a source chain pays here, in the local asset, for the
//! delivery of a message on a destination chain; a relay operator later
//! claims what was paid. The engine keeps, per destination domain, a gas
//! oracle and a gas overhead, quotes payments from them, records payments per
//! message and domain, and guards its configuration by an owner.
//!
//! - [`igp`] is the engine instance, [`overhead_igp`] the wrapper that adds
//!   an overhead of its own in front of an engine.
//! - [`oracle`] computes quotes, on the exact arithmetic of [`wide`].
//! - [`registry`] and [`ledger`] hold the per-domain settings and the payment
//!   records; [`assoc`] is what both rest on.
//! - [`instruction`] names the operations, [`batch`] applies configuration
//!   batches, [`processor`] runs one instruction against an instance.
//! - [`laws`] states what holds of the engine whatever it is asked to do.
//! - [`deploy`] plans the instantiation of a set of contracts on a chain.

pub mod assoc;
pub mod batch;
pub mod deploy;
pub mod error;
pub mod igp;
pub mod instruction;
pub mod laws;
pub mod ledger;
pub mod oracle;
pub mod overhead_igp;
pub mod primitives;
pub mod processor;
pub mod registry;
pub mod wide;
