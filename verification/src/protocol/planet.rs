//! Vocabulary of the vault surface: the actions a vault invocation can be
//! labelled with, the unbond hook carried by a share-token transfer, and the
//! read-only response shapes.

use vstd::prelude::*;

use crate::asset::{Asset, AssetInfo};
use crate::dec::Decimal;

verus! {

/// What a vault invocation did, as recorded in its result attributes.
#[derive(Clone, Copy, Debug, PartialEq, Eq, Structural)]
pub enum Action {
    Instantiate,
    UpdateConfig,
    Bond,
    Unbond,
    Execute,
    Claim,
}

impl Action {
    /// The snake_case label of this action.
    pub fn label(&self) -> (r: &'static str)
        ensures
            match self {
                Action::Instantiate => r@ == "instantiate"@,
                Action::UpdateConfig => r@ == "update_config"@,
                Action::Bond => r@ == "bond"@,
                Action::Unbond => r@ == "unbond"@,
                Action::Execute => r@ == "execute"@,
                Action::Claim => r@ == "claim"@,
            },
    {
        match self {
            Action::Instantiate => "instantiate",
            Action::UpdateConfig => "update_config",
            Action::Bond => "bond",
            Action::Unbond => "unbond",
            Action::Execute => "execute",
            Action::Claim => "claim",
        }
    }
}

/// The hook a share-token transfer must carry to be understood by the vault.
#[derive(Clone, Copy, Debug, PartialEq, Eq, Structural)]
pub enum Cw20HookMsg {
    /// Return underlying asset to a share holder according to the share rate.
    Unbond,
}

/// The vault's configuration, as read back by a query.
#[derive(Clone, Debug, PartialEq, Eq)]
pub struct ConfigResponse {
    pub owner: String,
    pub commission_rate: Decimal,
    pub asset_info: AssetInfo,
    pub token_code_id: u64,
    pub token_address: String,
}

/// A staker's holding expressed in the underlying asset.
#[derive(Clone, Debug, PartialEq, Eq)]
pub struct StakerInfoResponse {
    pub asset: Asset,
}

/// The accrued commission expressed in the underlying asset.
#[derive(Clone, Debug, PartialEq, Eq)]
pub struct CommissionResponse {
    pub asset: Asset,
}

/// The current share rate.
#[derive(Clone, Copy, Debug, PartialEq, Eq, Structural)]
pub struct RateResponse {
    pub rate: Decimal,
}

} // verus!
