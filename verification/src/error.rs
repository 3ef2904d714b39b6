//! Error taxonomy.
//!
//! Permission failures and precondition violations are surfaced to the caller
//! with no state change. Saga-terminal failures clear their continuation
//! before they are surfaced. Reconciliation failures mean the accounting
//! model's assumptions about an external protocol were violated; they are
//! never swallowed.

use vstd::prelude::*;

verus! {

/// Everything an operation of this crate can fail with.
#[derive(Clone, Debug, PartialEq, Eq, Structural)]
pub enum ContractError {
    /// The caller is not the owner or admin the operation demands.
    Unauthorized,
    /// The share token has not been created yet, so no bond or unbond can run.
    NotInitialized,
    /// A zero or otherwise unusable amount or rate was handed in.
    InvalidAmount,
    /// A resumption arrived that no orchestrator step is waiting for.
    InvalidReplyId,
    /// A token transfer arrived without the unbond hook this vault expects.
    MissingUnbondHook,
    /// The share token's creation step ran although the token already exists.
    AlreadyInstantiate,
    /// A route leg named an exchange venue this crate does not know.
    FailedToParse,
    /// An optional execution step resolved without a gain; the ledger is left
    /// unchanged and the caller may retry.
    ExecutionLoss,
    /// The realized input of a swap fell short of the recorded target beyond
    /// tolerance; treated as a configuration or liquidity error, not retried.
    AmountMismatch,
    /// Halving the swap target would fall below the floor; the saga ends.
    LimitMinimumReceived,
    /// A new operation was issued while one of the same kind is pending.
    ConflictingOperation,
    /// The validation bond minted no shares.
    FailBond,
    /// The balance delta after a bond/unbond round trip differs from the
    /// expected amount (expected, observed): external slippage the
    /// accounting model does not admit.
    FailBondAndUnbond(u128, u128),
    /// A ledger mutation would break the vault invariants: an internal,
    /// fatal accounting error.
    BrokenInvariant,
    /// A registry entry's title is longer than the registry accepts.
    TitleTooLong,
    /// A registry entry's description is longer than the registry accepts.
    DescriptionTooLong,
    /// The registry holds no planet under the given address.
    PlanetNotFound,
}

impl ContractError {
    /// A short description of the error.
    pub fn text(&self) -> (r: &'static str)
        ensures
            r@.len() > 0,
    {
        let s: &'static str = match self {
            ContractError::Unauthorized => "unauthorized",
            ContractError::NotInitialized => "not initialized",
            ContractError::InvalidAmount => "invalid amount",
            ContractError::InvalidReplyId => "invalid reply id",
            ContractError::MissingUnbondHook => "missing unbond hook",
            ContractError::AlreadyInstantiate => "already instantiate",
            ContractError::FailedToParse => "fail to parse route",
            ContractError::ExecutionLoss => "fail to execute",
            ContractError::AmountMismatch => "swap amount is different",
            ContractError::LimitMinimumReceived => "limit minimum received",
            ContractError::ConflictingOperation => "conflicting operation",
            ContractError::FailBond => "fail to bond",
            ContractError::FailBondAndUnbond(_, _) => "amount does not match after bond and unbond",
            ContractError::BrokenInvariant => "broken vault invariant",
            ContractError::TitleTooLong => "title too long",
            ContractError::DescriptionTooLong => "description too long",
            ContractError::PlanetNotFound => "planet not found",
        };
        proof {
            reveal_strlit("unauthorized");
            reveal_strlit("not initialized");
            reveal_strlit("invalid amount");
            reveal_strlit("invalid reply id");
            reveal_strlit("missing unbond hook");
            reveal_strlit("already instantiate");
            reveal_strlit("fail to parse route");
            reveal_strlit("fail to execute");
            reveal_strlit("swap amount is different");
            reveal_strlit("limit minimum received");
            reveal_strlit("conflicting operation");
            reveal_strlit("fail to bond");
            reveal_strlit("amount does not match after bond and unbond");
            reveal_strlit("broken vault invariant");
            reveal_strlit("title too long");
            reveal_strlit("description too long");
            reveal_strlit("planet not found");
        }
        s
    }
}

} // verus!
