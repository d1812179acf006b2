//! A bonding-curve market maker: a deterministic pricing and accounting
//! engine that lets one fungible token be bought and sold against a base
//! currency along a constant-product price curve, until a graduation
//! threshold is reached, after which trading through the curve stops.
//!
//! The engine is pure arithmetic over a persisted `BondingCurve` record.
//! Account storage, signature checking and the actual movement of tokens
//! are the hosting ledger's business; this crate only computes trade
//! amounts and the resulting state, and states exactly when each
//! operation succeeds and with which error it fails.

/// The error taxonomy every operation reports from.
pub mod errors;
/// Proved laws of the engine: conservation, terminal graduation,
/// threshold crossing, slippage enforcement, and the round-trip
/// arbitrage bound.
pub mod laws;
/// The constant-product pricing formula and the fee schedule.
pub mod pricing;
/// The persisted curve record, its invariant, and its constructor.
pub mod state;
/// The keyed ledger of curves and the three transaction entry points.
pub mod store;
/// The buy and sell state transitions and their full outcome
/// specifications.
pub mod trade;
