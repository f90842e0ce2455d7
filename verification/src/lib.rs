//! Pricing, state-transition and authorization core of a constant-product
//! automated market maker whose assets may carry transfer-hook callback
//! programs.
//!
//! The library is organised bottom-up:
//!
//! - [`errors`] — the failure taxonomy shared by every operation.
//! - [`keys`] — 256-bit account identifiers and the canonical ordering of an
//!   asset pair.
//! - [`math`] — the overflow-checked constant-product pricing function.
//! - [`pool`] — the reserve-balance state machine (create, swap,
//!   add-liquidity transitions) and its invariants.
//! - [`whitelist`] — the set of approved callback programs and its
//!   authority-gated mutation surface.
//! - [`hooks`] — resolution of an asset's registered callback program and the
//!   callback-side instruction handling.
//! - [`swap`] — the orchestrator that composes whitelist authorization with
//!   the ledger transitions into the end-to-end swap protocol.
//!
//! All reserve mutation happens inside [`pool`]; the host environment moves
//! the actual funds between its vaults and, on any failure, rolls the whole
//! invocation back, so no partial effect is ever observable.

pub mod errors;
pub mod hooks;
pub mod keys;
pub mod math;
pub mod pool;
pub mod swap;
pub mod whitelist;
