//! A pooled-asset vault that issues proportional ownership shares, skims a
//! commission on realized gains, and drives multi-step exchange and
//! money-market operations as explicit, persisted continuations across
//! asynchronous call boundaries.
//!
//! The crate is organised leaves first: fixed-point amounts (`dec`), asset
//! descriptors (`asset`), the error taxonomy (`error`), verified string
//! comparisons (`strutil`), the outbound call descriptions (`dispatch`),
//! the wire-facing vocabulary (`protocol`), the swap-route grammar
//! (`route`), the vault ledger (`planet`), the swap orchestration sagas
//! (`arb`), and the planet registry with its validation saga
//! (`registry`).

pub mod arb;
pub mod asset;
pub mod dec;
pub mod dispatch;
pub mod error;
pub mod planet;
pub mod protocol;
pub mod registry;
pub mod route;
pub mod strutil;

pub use dec::Decimal;
pub use dec::FRACTIONAL;
