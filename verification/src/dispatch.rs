//! Outbound call descriptions.
//!
//! An orchestrator step ends by returning one or more call descriptions.
//! The host performs each call and later delivers its outcome, tagged with
//! the continuation identifier the step attached, so the matching
//! orchestrator can resume. Nothing here performs a call: these are plain
//! values describing what the host is asked to do.

use vstd::prelude::*;

verus! {

/// Continuation identifier attached to a dispatched call, naming the
/// orchestrator step that must resume when the call's outcome arrives.
#[derive(Clone, Copy, Debug, PartialEq, Eq, Structural)]
pub enum ReplyTag {
    /// The share token's asynchronous creation.
    TokenInstant,
    /// A yield-generating action whose outcome must be settled.
    Execute,
    /// A yield-generating action whose outcome is ignored.
    ExecuteSkip,
    /// A mandatory action whose loss must be absorbed on settlement.
    MustExecute,
    /// The liquidation step that prepares a swap's input.
    PrepareSwap,
    /// A leg of the swap route; delivered on success and on failure.
    Swap,
    /// The money-market deposit of a pending bond.
    Bond,
    /// The money-market redemption of a pending unbond.
    Unbond,
    /// The redemption that pays out claimed commission.
    Claim,
    /// The balance snapshot step of a migration.
    Migrate,
    /// The bond leg of a planet validation round trip.
    ValidateBond,
    /// The unbond leg of a planet validation round trip.
    ValidateUnbond,
}

/// One external call the host is asked to perform.
#[derive(Clone, Debug, PartialEq, Eq)]
pub enum Dispatch {
    /// Mint `amount` shares of the vault's share token to `recipient`.
    Mint { recipient: String, amount: u128 },
    /// Burn `amount` shares of the vault's share token.
    Burn { amount: u128 },
    /// Send `amount` of the vault's underlying asset to `to`, already net of
    /// the transfer levy.
    BankSend { to: String, amount: u128 },
    /// Deposit `amount` of the underlying asset into the money market,
    /// crediting the yield-bearing receipt asset.
    DepositStable { amount: u128 },
    /// Redeem `amount` of the receipt asset for the underlying asset.
    RedeemStable { amount: u128 },
    /// Run the two legs of a swap route with `amount` as input, reverting
    /// unless at least `minimum_receive` comes out.
    ExecuteSwapRoute { route: RoutePath, amount: u128, minimum_receive: u128 },
    /// Create the vault's share token from code id `code_id`.
    InstantiateToken { code_id: u64, symbol: String },
    /// Bond `amount` into the planet at `planet_addr`.
    PlanetBond { planet_addr: String, amount: u128 },
    /// Send `amount` of the share token at `vaults_addr` back to the planet
    /// at `planet_addr` with its unbond hook.
    PlanetUnbondShares { vaults_addr: String, planet_addr: String, amount: u128 },
}

/// A dispatched call together with its continuation tag. When `always` is
/// set the host must deliver the outcome on success and on failure alike;
/// otherwise only a success resumes the orchestrator.
#[derive(Clone, Debug, PartialEq, Eq)]
pub struct SubCall {
    pub msg: Dispatch,
    pub tag: ReplyTag,
    pub always: bool,
}

/// An exchange venue a swap leg can run through.
#[derive(Clone, Copy, Debug, PartialEq, Eq, Structural)]
pub enum Venue {
    /// The chain's built-in native-currency swap.
    NativeSwap,
    /// The terraswap token exchange.
    TerraSwap,
    /// The astroport token exchange.
    Astroport,
    /// The loop token exchange.
    Loop,
}

/// An ordered pair of exchange legs: the venue that carries the underlying
/// asset into the intermediate currency, and the venue that carries the
/// intermediate currency back.
#[derive(Clone, Copy, Debug, PartialEq, Eq, Structural)]
pub struct RoutePath {
    pub first: Venue,
    pub second: Venue,
}

} // verus!
