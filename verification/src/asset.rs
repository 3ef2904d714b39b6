//! Asset descriptors and the transfer-tax deduction.
//!
//! An asset is either a native currency, named by its denomination, or an
//! issued token, named by the address of its contract. Outbound transfers of
//! a native-style asset are subject to an ecosystem-level transfer levy; the
//! levy for a concrete transfer is computed outside this crate and handed in
//! as a plain amount.

use vstd::prelude::*;

verus! {

/// What kind of asset a balance is held in.
#[derive(Clone, Debug, PartialEq, Eq)]
pub enum AssetInfo {
    /// An issued token, held at a token contract.
    Token { contract_addr: String },
    /// A native currency.
    NativeToken { denom: String },
}

impl AssetInfo {
    /// The character sequences this descriptor is made of, for contracts.
    pub open spec fn name_view(self) -> Seq<char> {
        match self {
            AssetInfo::Token { contract_addr } => contract_addr@,
            AssetInfo::NativeToken { denom } => denom@,
        }
    }

    /// Whether this descriptor names a native currency.
    pub fn is_native_token(&self) -> (r: bool)
        ensures
            r == (self is NativeToken),
    {
        match self {
            AssetInfo::NativeToken { .. } => true,
            AssetInfo::Token { .. } => false,
        }
    }

    /// A copy of this descriptor.
    pub fn clone_info(&self) -> (r: AssetInfo)
        ensures
            r is Token == (self is Token),
            r.name_view() == self.name_view(),
    {
        match self {
            AssetInfo::Token { contract_addr } => AssetInfo::Token {
                contract_addr: contract_addr.clone(),
            },
            AssetInfo::NativeToken { denom } => AssetInfo::NativeToken { denom: denom.clone() },
        }
    }
}

/// An amount of a concrete asset.
#[derive(Clone, Debug, PartialEq, Eq)]
pub struct Asset {
    pub info: AssetInfo,
    pub amount: u128,
}

/// What is left of `amount` once a transfer levy of `tax` is taken out; a
/// levy can never take more than the whole amount.
pub open spec fn spec_net_of_tax(amount: int, tax: int) -> int {
    if tax <= amount {
        amount - tax
    } else {
        0
    }
}

/// Deducts a transfer levy from an amount, never going below zero.
pub fn net_of_tax(amount: u128, tax: u128) -> (r: u128)
    ensures
        r == spec_net_of_tax(amount as int, tax as int),
{
    if tax <= amount {
        amount - tax
    } else {
        0
    }
}

} // verus!
