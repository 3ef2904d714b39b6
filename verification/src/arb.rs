//! The swap-arbitrage vault: a vault ledger whose capital sits in a
//! money market, together with the three sagas that drive it across
//! asynchronous call boundaries.
//!
//! Each saga keeps at most one continuation record alive at a time; a new
//! request of a kind whose record is occupied is rejected, never
//! overwritten, so a later callback can never resume against the wrong
//! context. Every step either fails with the ledger and the records
//! unchanged, or commits its whole mutation and returns the calls to
//! dispatch.

use vstd::prelude::*;

use crate::asset::{spec_net_of_tax, net_of_tax, AssetInfo};
use crate::dec::{Decimal, FRACTIONAL};
use crate::dispatch::{Dispatch, ReplyTag, RoutePath, SubCall};
use crate::error::ContractError;
use crate::planet::{spec_mint_amount, spec_shares_value, PlanetState};
use crate::protocol::planet::Cw20HookMsg;
use crate::route::{parse_route_path, spec_parse_route};

verus! {

/// Below this floor a halved swap target is not retried: the saga fails
/// terminally instead of shrinking the trade without bound.
pub const LIMIT_MINIMUM: u128 = 10_000_000_000;

/// Fixed tolerance by which the realized input of a swap may fall short of
/// the recorded target without failing the saga.
pub const SWAP_TOLERANCE: u128 = 10;

/// Where the money market lives and what its receipt asset is.
#[derive(Clone, Debug, PartialEq, Eq)]
pub struct AnchorInfo {
    pub market_money: String,
    pub aust: AssetInfo,
}

/// Continuation of an in-flight swap: the parsed route and the current
/// minimum acceptable output, halved on each retry.
#[derive(Clone, Copy, Debug, PartialEq, Eq, Structural)]
pub struct TmpSwap {
    pub route: RoutePath,
    pub minimum_receive: u128,
}

/// Continuation of an in-flight bond: who bonded, and the receipt-asset
/// balance snapshotted before the deposit was dispatched.
#[derive(Clone, Debug, PartialEq, Eq)]
pub struct TmpBonder {
    pub bonder: String,
    pub prev_amount: u128,
}

/// Continuation of an in-flight unbond: the beneficiary, the liquid-asset
/// balance snapshotted before the redemption was dispatched, and the
/// amount the redemption is expected to return, reconciled on resumption.
#[derive(Clone, Debug, PartialEq, Eq)]
pub struct TmpUnbonder {
    pub bonder: String,
    pub prev_amount: u128,
    pub expected: u128,
}

/// A named exchange pair, as listed by the configuration surface.
#[derive(Clone, Debug, PartialEq, Eq)]
pub struct Pair {
    pub name: String,
    pub pair_addr: String,
}

/// A list of named exchange pairs.
#[derive(Clone, Debug, PartialEq, Eq)]
pub struct Pairs {
    pub pairs: Vec<Pair>,
}

/// The whole state of the swap-arbitrage vault: the ledger, the routing
/// configuration, and the single-slot continuation records of the three
/// sagas.
#[derive(Clone, Debug, PartialEq, Eq)]
pub struct ArbState {
    pub planet: PlanetState,
    pub router_addr: String,
    pub deposit_asset_info: AssetInfo,
    pub anchor_info: AnchorInfo,
    pub tmp_swap: Option<TmpSwap>,
    pub tmp_bonder: Option<TmpBonder>,
    pub tmp_unbonder: Option<TmpUnbonder>,
}

impl ArbState {
    /// The vault invariants are the ledger's.
    pub open spec fn wf(self) -> bool {
        self.planet.wf()
    }

    /// The routing configuration never moves during a saga step.
    pub open spec fn same_statics(self, post: ArbState) -> bool {
        &&& post.router_addr == self.router_addr
        &&& post.deposit_asset_info == self.deposit_asset_info
        &&& post.anchor_info == self.anchor_info
    }

    /// Opens the vault with its routing configuration; both pools start
    /// empty and no saga is in flight.
    pub fn instantiate(
        owner: String,
        commission_rate: Decimal,
        asset_info: AssetInfo,
        token_code_id: u64,
        symbol: String,
        router_addr: String,
        deposit_asset_info: AssetInfo,
        market_money: String,
        aust: AssetInfo,
    ) -> (r: (ArbState, SubCall))
        requires
            commission_rate.raw <= FRACTIONAL,
        ensures
            r.0.wf(),
            r.0.planet.config.owner == owner,
            r.0.planet.config.commission_rate == commission_rate,
            r.0.planet.config.token_address is None,
            r.0.planet.vaults.raw == 0,
            r.0.planet.commission.raw == 0,
            r.0.router_addr == router_addr,
            r.0.deposit_asset_info == deposit_asset_info,
            r.0.anchor_info == (AnchorInfo { market_money, aust }),
            r.0.tmp_swap is None,
            r.0.tmp_bonder is None,
            r.0.tmp_unbonder is None,
            r.1.tag == ReplyTag::TokenInstant,
            r.1.msg == (Dispatch::InstantiateToken { code_id: token_code_id, symbol }),
    {
        let (planet, call) = PlanetState::instantiate(
            owner,
            commission_rate,
            asset_info,
            token_code_id,
            symbol,
        );
        let state = ArbState {
            planet,
            router_addr,
            deposit_asset_info,
            anchor_info: AnchorInfo { market_money, aust },
            tmp_swap: None,
            tmp_bonder: None,
            tmp_unbonder: None,
        };
        (state, call)
    }

    /// Updates the ledger configuration and, when given, the router
    /// address. Only the owner may update.
    pub fn try_update_config(
        &mut self,
        sender: &String,
        owner: Option<String>,
        commission_rate: Option<Decimal>,
        code_id: Option<u64>,
        router_addr: Option<String>,
    ) -> (r: Result<(), ContractError>)
        requires
            old(self).wf(),
            commission_rate matches Some(c) ==> c.raw <= FRACTIONAL,
        ensures
            final(self).wf(),
            final(self).deposit_asset_info == old(self).deposit_asset_info,
            final(self).anchor_info == old(self).anchor_info,
            final(self).tmp_swap == old(self).tmp_swap,
            final(self).tmp_bonder == old(self).tmp_bonder,
            final(self).tmp_unbonder == old(self).tmp_unbonder,
            final(self).planet.vaults == old(self).planet.vaults,
            final(self).planet.commission == old(self).planet.commission,
            match r {
                Ok(()) => {
                    &&& sender@ == old(self).planet.config.owner@
                    &&& final(self).planet.config.owner == match owner {
                        Some(o) => o,
                        None => old(self).planet.config.owner,
                    }
                    &&& final(self).planet.config.commission_rate == match commission_rate {
                        Some(c) => c,
                        None => old(self).planet.config.commission_rate,
                    }
                    &&& final(self).planet.config.token_code_id == match code_id {
                        Some(i) => i,
                        None => old(self).planet.config.token_code_id,
                    }
                    &&& final(self).router_addr == match router_addr {
                        Some(a) => a,
                        None => old(self).router_addr,
                    }
                },
                Err(e) => {
                    &&& e == ContractError::Unauthorized
                    &&& sender@ != old(self).planet.config.owner@
                    &&& *final(self) == *old(self)
                },
            },
    {
        let updated = self.planet.try_update_config(sender, owner, commission_rate, code_id);
        match updated {
            Ok(()) => {
                if let Some(new_router) = router_addr {
                    self.router_addr = new_router;
                }
                Ok(())
            },
            Err(e) => Err(e),
        }
    }

    /// Begins the bond saga: snapshots the receipt-asset balance, records
    /// the pending bond, and dispatches the money-market deposit of the
    /// bonded amount net of the transfer levy. A bond while one is pending
    /// is rejected, never overwritten.
    pub fn try_bond(&mut self, sender: String, amount: u128, tax: u128, aust_balance: u128) -> (r:
        Result<SubCall, ContractError>)
        requires
            old(self).wf(),
        ensures
            final(self).wf(),
            old(self).same_statics(*final(self)),
            final(self).planet == old(self).planet,
            final(self).tmp_swap == old(self).tmp_swap,
            final(self).tmp_unbonder == old(self).tmp_unbonder,
            match r {
                Ok(call) => {
                    &&& old(self).tmp_bonder is None
                    &&& final(self).tmp_bonder matches Some(b)
                    &&& b.bonder == sender
                    &&& b.prev_amount == aust_balance
                    &&& call == (SubCall {
                        msg: Dispatch::DepositStable {
                            amount: spec_net_of_tax(amount as int, tax as int) as u128,
                        },
                        tag: ReplyTag::Bond,
                        always: false,
                    })
                },
                Err(e) => {
                    &&& e == ContractError::ConflictingOperation
                    &&& old(self).tmp_bonder is Some
                    &&& *final(self) == *old(self)
                },
            },
    {
        if self.tmp_bonder.is_some() {
            return Err(ContractError::ConflictingOperation);
        }
        self.tmp_bonder = Some(TmpBonder { bonder: sender, prev_amount: aust_balance });
        Ok(
            SubCall {
                msg: Dispatch::DepositStable { amount: net_of_tax(amount, tax) },
                tag: ReplyTag::Bond,
                always: false,
            },
        )
    }

    /// Resumes the bond saga when the deposit's outcome arrives: the
    /// receipt-asset balance grew by the deposited amount, and that delta
    /// is bonded into the ledger, minting shares to the recorded bonder.
    /// On any failure the ledger and the pending record are left exactly
    /// as they were.
    pub fn resume_bond(&mut self, aust_balance: u128, supply: u128) -> (r: Result<
        Dispatch,
        ContractError,
    >)
        requires
            old(self).wf(),
            old(self).tmp_bonder matches Some(b) ==> aust_balance >= b.prev_amount ==> ((
            aust_balance - b.prev_amount) * FRACTIONAL <= u128::MAX && old(self).planet.vaults.raw
                + (aust_balance - b.prev_amount) * FRACTIONAL <= u128::MAX),
        ensures
            final(self).wf(),
            old(self).same_statics(*final(self)),
            final(self).tmp_swap == old(self).tmp_swap,
            final(self).tmp_unbonder == old(self).tmp_unbonder,
            final(self).planet.config == old(self).planet.config,
            final(self).planet.commission == old(self).planet.commission,
            ({
                let b = old(self).tmp_bonder->Some_0;
                let delta = aust_balance - b.prev_amount;
                let rate = old(self).planet.rate_raw(supply as int);
                match r {
                    Ok(d) => {
                        &&& old(self).tmp_bonder is Some
                        &&& aust_balance >= b.prev_amount
                        &&& delta > 0
                        &&& old(self).planet.config.token_address is Some
                        &&& rate > 0
                        &&& d matches Dispatch::Mint { recipient, amount }
                        &&& recipient@ == b.bonder@
                        &&& amount == spec_mint_amount(rate, delta)
                        &&& final(self).planet.vaults.raw == old(self).planet.vaults.raw + delta
                            * FRACTIONAL
                        &&& final(self).tmp_bonder is None
                    },
                    Err(e) => {
                        &&& *final(self) == *old(self)
                        &&& (e == ContractError::InvalidReplyId || e
                            == ContractError::BrokenInvariant || e == ContractError::InvalidAmount
                            || e == ContractError::NotInitialized)
                        &&& (e == ContractError::InvalidReplyId <==> old(
                            self,
                        ).tmp_bonder is None)
                        &&& (e == ContractError::BrokenInvariant <==> old(
                            self,
                        ).tmp_bonder is Some && (aust_balance < b.prev_amount || (delta > 0 && old(
                            self,
                        ).planet.config.token_address is Some && rate == 0)))
                        &&& (e == ContractError::InvalidAmount <==> old(
                            self,
                        ).tmp_bonder is Some && aust_balance >= b.prev_amount && delta == 0)
                        &&& (e == ContractError::NotInitialized <==> old(
                            self,
                        ).tmp_bonder is Some && delta > 0 && old(
                            self,
                        ).planet.config.token_address is None)
                    },
                }
            }),
    {
        let (bonder, prev_amount) = match &self.tmp_bonder {
            Some(b) => (b.bonder.clone(), b.prev_amount),
            None => {
                return Err(ContractError::InvalidReplyId);
            },
        };
        if aust_balance < prev_amount {
            return Err(ContractError::BrokenInvariant);
        }
        let delta = aust_balance - prev_amount;
        let bonded = self.planet.try_bond(bonder, delta, supply);
        match bonded {
            Ok(d) => {
                self.tmp_bonder = None;
                Ok(d)
            },
            Err(e) => Err(e),
        }
    }

    /// Begins the unbond saga on a share-token transfer carrying the
    /// unbond hook: values the burned shares at the pre-burn rate, takes
    /// that value out of the pool, records the pending unbond with the
    /// liquid-asset balance snapshot and the expected redemption, and
    /// dispatches the share burn and the money-market redemption.
    pub fn receive_cw20(
        &mut self,
        sender_contract: &String,
        hook: Option<Cw20HookMsg>,
        token_sender: String,
        burn_amount: u128,
        supply: u128,
        stable_balance: u128,
    ) -> (r: Result<(Dispatch, SubCall), ContractError>)
        requires
            old(self).wf(),
            burn_amount * old(self).planet.rate_raw(supply as int) <= u128::MAX,
        ensures
            final(self).wf(),
            old(self).same_statics(*final(self)),
            final(self).tmp_swap == old(self).tmp_swap,
            final(self).tmp_bonder == old(self).tmp_bonder,
            final(self).planet.config == old(self).planet.config,
            final(self).planet.commission == old(self).planet.commission,
            ({
                let rate = old(self).planet.rate_raw(supply as int);
                let expected = spec_shares_value(rate, burn_amount as int);
                let authorized = old(self).planet.config.token_address matches Some(a) && a@
                    == sender_contract@;
                match r {
                    Ok(d) => {
                        &&& hook == Some(Cw20HookMsg::Unbond)
                        &&& authorized
                        &&& old(self).tmp_unbonder is None
                        &&& expected * FRACTIONAL + old(self).planet.commission.raw <= old(
                            self,
                        ).planet.vaults.raw
                        &&& d.0 == (Dispatch::Burn { amount: burn_amount })
                        &&& d.1 == (SubCall {
                            msg: Dispatch::RedeemStable { amount: expected as u128 },
                            tag: ReplyTag::Unbond,
                            always: false,
                        })
                        &&& final(self).planet.vaults.raw == old(self).planet.vaults.raw
                            - expected * FRACTIONAL
                        &&& final(self).tmp_unbonder matches Some(u)
                        &&& u.bonder == token_sender
                        &&& u.prev_amount == stable_balance
                        &&& u.expected == expected
                    },
                    Err(e) => {
                        &&& *final(self) == *old(self)
                        &&& (e == ContractError::MissingUnbondHook || e
                            == ContractError::Unauthorized || e
                            == ContractError::ConflictingOperation || e
                            == ContractError::BrokenInvariant)
                        &&& (e == ContractError::MissingUnbondHook <==> hook is None)
                        &&& (e == ContractError::Unauthorized <==> hook is Some && !authorized)
                        &&& (e == ContractError::ConflictingOperation <==> hook is Some
                            && authorized && old(self).tmp_unbonder is Some)
                        &&& (e == ContractError::BrokenInvariant <==> hook is Some && authorized
                            && old(self).tmp_unbonder is None && expected * FRACTIONAL + old(
                            self,
                        ).planet.commission.raw > old(self).planet.vaults.raw)
                    },
                }
            }),
    {
        if hook.is_none() {
            return Err(ContractError::MissingUnbondHook);
        }
        let authorized = match &self.planet.config.token_address {
            Some(token_address) => crate::strutil::str_eq(
                token_address.as_str(),
                sender_contract.as_str(),
            ),
            None => false,
        };
        if !authorized {
            return Err(ContractError::Unauthorized);
        }
        if self.tmp_unbonder.is_some() {
            return Err(ContractError::ConflictingOperation);
        }
        let rate = self.planet.compute_share_rate(supply);
        let expected = rate.mul_uint(burn_amount);
        proof {
            assert(expected * FRACTIONAL <= burn_amount * rate.raw) by {
                vstd::arithmetic::div_mod::lemma_fundamental_div_mod(
                    burn_amount as int * rate.raw as int,
                    FRACTIONAL as int,
                );
                vstd::arithmetic::mul::lemma_mul_is_commutative(
                    expected as int,
                    FRACTIONAL as int,
                );
            }
        }
        let expected_dec = Decimal::from_uint(expected);
        if expected_dec.raw > self.planet.vaults.raw || self.planet.commission.raw
            > self.planet.vaults.raw - expected_dec.raw {
            return Err(ContractError::BrokenInvariant);
        }
        self.planet.vaults = Decimal { raw: self.planet.vaults.raw - expected_dec.raw };
        self.tmp_unbonder = Some(
            TmpUnbonder { bonder: token_sender, prev_amount: stable_balance, expected },
        );
        Ok(
            (
                Dispatch::Burn { amount: burn_amount },
                SubCall {
                    msg: Dispatch::RedeemStable { amount: expected },
                    tag: ReplyTag::Unbond,
                    always: false,
                },
            ),
        )
    }

    /// Resumes the unbond saga when the redemption's outcome arrives. The
    /// liquid-asset delta since the snapshot must equal the expected
    /// redemption net of its one transfer levy; any other delta is
    /// external slippage the accounting model does not admit and fails the
    /// reconciliation with the expected and observed amounts. On success
    /// the delta is sent to the beneficiary net of one more levy.
    pub fn resume_unbond(&mut self, stable_balance: u128, tax: u128) -> (r: Result<
        Dispatch,
        ContractError,
    >)
        requires
            old(self).wf(),
        ensures
            final(self).wf(),
            old(self).same_statics(*final(self)),
            final(self).tmp_swap == old(self).tmp_swap,
            final(self).tmp_bonder == old(self).tmp_bonder,
            final(self).planet == old(self).planet,
            ({
                let u = old(self).tmp_unbonder->Some_0;
                let delta = stable_balance - u.prev_amount;
                let expected_net = spec_net_of_tax(u.expected as int, tax as int);
                match r {
                    Ok(d) => {
                        &&& old(self).tmp_unbonder is Some
                        &&& stable_balance >= u.prev_amount
                        &&& delta == expected_net
                        &&& d matches Dispatch::BankSend { to, amount }
                        &&& to@ == u.bonder@
                        &&& amount == spec_net_of_tax(delta, tax as int)
                        &&& final(self).tmp_unbonder is None
                    },
                    Err(e) => {
                        &&& *final(self) == *old(self)
                        &&& (e == ContractError::InvalidReplyId || e
                            == ContractError::BrokenInvariant || e matches
                            ContractError::FailBondAndUnbond(_, _))
                        &&& (e == ContractError::InvalidReplyId <==> old(
                            self,
                        ).tmp_unbonder is None)
                        &&& (e == ContractError::BrokenInvariant <==> old(
                            self,
                        ).tmp_unbonder is Some && stable_balance < u.prev_amount)
                        &&& (e matches ContractError::FailBondAndUnbond(exp, got) <==> old(
                            self,
                        ).tmp_unbonder is Some && stable_balance >= u.prev_amount && delta
                            != expected_net)
                        &&& (e matches ContractError::FailBondAndUnbond(exp, got) ==> exp
                            == expected_net && got == delta)
                    },
                }
            }),
    {
        let (bonder, prev_amount, expected) = match &self.tmp_unbonder {
            Some(u) => (u.bonder.clone(), u.prev_amount, u.expected),
            None => {
                return Err(ContractError::InvalidReplyId);
            },
        };
        if stable_balance < prev_amount {
            return Err(ContractError::BrokenInvariant);
        }
        let delta = stable_balance - prev_amount;
        let expected_net = net_of_tax(expected, tax);
        if delta != expected_net {
            return Err(ContractError::FailBondAndUnbond(expected_net, delta));
        }
        self.tmp_unbonder = None;
        Ok(Dispatch::BankSend { to: bonder, amount: net_of_tax(delta, tax) })
    }

    /// Begins the swap saga: parses the route, records the requested
    /// amount as the minimum acceptable output, and dispatches the
    /// liquidation of enough of the yield-bearing position — at the money
    /// market's exchange rate — to fund the swap. A swap while one is
    /// pending is rejected, never overwritten.
    pub fn try_swap(&mut self, path: &str, amount: u128, exchange_rate: Decimal) -> (r: Result<
        SubCall,
        ContractError,
    >)
        requires
            old(self).wf(),
            amount * FRACTIONAL <= u128::MAX,
        ensures
            final(self).wf(),
            old(self).same_statics(*final(self)),
            final(self).planet == old(self).planet,
            final(self).tmp_bonder == old(self).tmp_bonder,
            final(self).tmp_unbonder == old(self).tmp_unbonder,
            match r {
                Ok(call) => {
                    &&& old(self).tmp_swap is None
                    &&& spec_parse_route(path@) matches Some(route)
                    &&& exchange_rate.raw > 0
                    &&& final(self).tmp_swap == Some(
                        TmpSwap {
                            route: spec_parse_route(path@)->Some_0,
                            minimum_receive: amount,
                        },
                    )
                    &&& call == (SubCall {
                        msg: Dispatch::RedeemStable {
                            amount: ((amount * FRACTIONAL) / exchange_rate.raw as int) as u128,
                        },
                        tag: ReplyTag::PrepareSwap,
                        always: true,
                    })
                },
                Err(e) => {
                    &&& *final(self) == *old(self)
                    &&& (e == ContractError::ConflictingOperation || e
                        == ContractError::FailedToParse || e == ContractError::InvalidAmount)
                    &&& (e == ContractError::ConflictingOperation <==> old(
                        self,
                    ).tmp_swap is Some)
                    &&& (e == ContractError::FailedToParse <==> old(self).tmp_swap is None
                        && spec_parse_route(path@) is None)
                    &&& (e == ContractError::InvalidAmount <==> old(self).tmp_swap is None
                        && spec_parse_route(path@) is Some && exchange_rate.raw == 0)
                },
            },
    {
        if self.tmp_swap.is_some() {
            return Err(ContractError::ConflictingOperation);
        }
        let route = match parse_route_path(path) {
            Ok(route) => route,
            Err(e) => {
                return Err(e);
            },
        };
        if exchange_rate.raw == 0 {
            return Err(ContractError::InvalidAmount);
        }
        let aust = exchange_rate.div_uint(amount);
        self.tmp_swap = Some(TmpSwap { route, minimum_receive: amount });
        Ok(
            SubCall {
                msg: Dispatch::RedeemStable { amount: aust },
                tag: ReplyTag::PrepareSwap,
                always: true,
            },
        )
    }

    /// Resumes the swap saga when the liquidation's outcome arrives. The
    /// realized input must reach the recorded target within the fixed
    /// tolerance; a shortfall beyond it is a configuration or liquidity
    /// error that ends the saga. Otherwise the realized amount becomes the
    /// target and the route is dispatched, to resume on success and on
    /// failure alike.
    pub fn resume_prepare_swap(&mut self, current_amount: u128) -> (r: Result<
        SubCall,
        ContractError,
    >)
        requires
            old(self).wf(),
        ensures
            final(self).wf(),
            old(self).same_statics(*final(self)),
            final(self).planet == old(self).planet,
            final(self).tmp_bonder == old(self).tmp_bonder,
            final(self).tmp_unbonder == old(self).tmp_unbonder,
            ({
                let t = old(self).tmp_swap->Some_0;
                match r {
                    Ok(call) => {
                        &&& old(self).tmp_swap is Some
                        &&& current_amount + SWAP_TOLERANCE >= t.minimum_receive
                        &&& final(self).tmp_swap == Some(
                            TmpSwap { route: t.route, minimum_receive: current_amount },
                        )
                        &&& call == (SubCall {
                            msg: Dispatch::ExecuteSwapRoute {
                                route: t.route,
                                amount: current_amount,
                                minimum_receive: current_amount,
                            },
                            tag: ReplyTag::Swap,
                            always: true,
                        })
                    },
                    Err(e) => {
                        &&& (e == ContractError::InvalidReplyId || e
                            == ContractError::AmountMismatch)
                        &&& (e == ContractError::InvalidReplyId <==> old(self).tmp_swap is None)
                        &&& (old(self).tmp_swap is None ==> *final(self) == *old(self))
                        &&& (e == ContractError::AmountMismatch <==> old(self).tmp_swap is Some
                            && current_amount + SWAP_TOLERANCE < t.minimum_receive)
                        &&& (old(self).tmp_swap is Some ==> final(self).tmp_swap is None)
                    },
                }
            }),
    {
        let t = match &self.tmp_swap {
            Some(t) => TmpSwap { route: t.route, minimum_receive: t.minimum_receive },
            None => {
                return Err(ContractError::InvalidReplyId);
            },
        };
        if current_amount < t.minimum_receive && t.minimum_receive - current_amount
            > SWAP_TOLERANCE {
            self.tmp_swap = None;
            return Err(ContractError::AmountMismatch);
        }
        self.tmp_swap = Some(TmpSwap { route: t.route, minimum_receive: current_amount });
        Ok(
            SubCall {
                msg: Dispatch::ExecuteSwapRoute {
                    route: t.route,
                    amount: current_amount,
                    minimum_receive: current_amount,
                },
                tag: ReplyTag::Swap,
                always: true,
            },
        )
    }

    /// Resumes the swap saga when a route leg's outcome arrives. On
    /// success the continuation is cleared and the proceeds, net of the
    /// transfer levy, are dispatched back into the money market under the
    /// settlement tag. On failure the target is halved: a halved target
    /// still at or above the floor is re-dispatched, a halved target below
    /// the floor ends the saga terminally. The dispatched amount therefore
    /// never falls below the floor.
    pub fn resume_swap(&mut self, success: bool, current_balance: u128, tax: u128) -> (r: Result<
        SubCall,
        ContractError,
    >)
        requires
            old(self).wf(),
        ensures
            final(self).wf(),
            old(self).same_statics(*final(self)),
            final(self).planet == old(self).planet,
            final(self).tmp_bonder == old(self).tmp_bonder,
            final(self).tmp_unbonder == old(self).tmp_unbonder,
            ({
                let t = old(self).tmp_swap->Some_0;
                let halved = t.minimum_receive / 2;
                match r {
                    Ok(call) => {
                        &&& old(self).tmp_swap is Some
                        &&& success ==> final(self).tmp_swap is None && call == (SubCall {
                            msg: Dispatch::DepositStable {
                                amount: spec_net_of_tax(current_balance as int, tax as int)
                                    as u128,
                            },
                            tag: ReplyTag::Execute,
                            always: false,
                        })
                        &&& !success ==> ({
                            &&& halved >= LIMIT_MINIMUM
                            &&& halved < t.minimum_receive
                            &&& final(self).tmp_swap == Some(
                                TmpSwap { route: t.route, minimum_receive: halved },
                            )
                            &&& call == (SubCall {
                                msg: Dispatch::ExecuteSwapRoute {
                                    route: t.route,
                                    amount: halved,
                                    minimum_receive: halved,
                                },
                                tag: ReplyTag::Swap,
                                always: true,
                            })
                        })
                    },
                    Err(e) => {
                        &&& (e == ContractError::InvalidReplyId || e
                            == ContractError::LimitMinimumReceived)
                        &&& (e == ContractError::InvalidReplyId <==> old(self).tmp_swap is None)
                        &&& (old(self).tmp_swap is None ==> *final(self) == *old(self))
                        &&& (e == ContractError::LimitMinimumReceived <==> old(
                            self,
                        ).tmp_swap is Some && !success && halved < LIMIT_MINIMUM)
                        &&& (old(self).tmp_swap is Some ==> final(self).tmp_swap is None)
                    },
                }
            }),
    {
        let t = match &self.tmp_swap {
            Some(t) => TmpSwap { route: t.route, minimum_receive: t.minimum_receive },
            None => {
                return Err(ContractError::InvalidReplyId);
            },
        };
        if success {
            self.tmp_swap = None;
            return Ok(
                SubCall {
                    msg: Dispatch::DepositStable { amount: net_of_tax(current_balance, tax) },
                    tag: ReplyTag::Execute,
                    always: false,
                },
            );
        }
        let halved = t.minimum_receive / 2;
        if halved < LIMIT_MINIMUM {
            self.tmp_swap = None;
            return Err(ContractError::LimitMinimumReceived);
        }
        self.tmp_swap = Some(TmpSwap { route: t.route, minimum_receive: halved });
        Ok(
            SubCall {
                msg: Dispatch::ExecuteSwapRoute {
                    route: t.route,
                    amount: halved,
                    minimum_receive: halved,
                },
                tag: ReplyTag::Swap,
                always: true,
            },
        )
    }

    /// Begins the commission claim: empties the commission pool and
    /// dispatches the redemption of its whole amount from the money
    /// market. Only the owner may claim.
    pub fn try_claim(&mut self, sender: &String) -> (r: Result<SubCall, ContractError>)
        requires
            old(self).wf(),
        ensures
            final(self).wf(),
            old(self).same_statics(*final(self)),
            final(self).tmp_swap == old(self).tmp_swap,
            final(self).tmp_bonder == old(self).tmp_bonder,
            final(self).tmp_unbonder == old(self).tmp_unbonder,
            final(self).planet.vaults == old(self).planet.vaults,
            final(self).planet.config == old(self).planet.config,
            match r {
                Ok(call) => {
                    &&& sender@ == old(self).planet.config.owner@
                    &&& final(self).planet.commission.raw == 0
                    &&& call == (SubCall {
                        msg: Dispatch::RedeemStable {
                            amount: (old(self).planet.commission.raw as int / FRACTIONAL
                                as int) as u128,
                        },
                        tag: ReplyTag::Claim,
                        always: false,
                    })
                },
                Err(e) => {
                    &&& e == ContractError::Unauthorized
                    &&& sender@ != old(self).planet.config.owner@
                    &&& *final(self) == *old(self)
                },
            },
    {
        if *sender != self.planet.config.owner {
            return Err(ContractError::Unauthorized);
        }
        let amount = self.planet.commission.to_uint();
        self.planet.commission = Decimal::zero();
        Ok(
            SubCall {
                msg: Dispatch::RedeemStable { amount },
                tag: ReplyTag::Claim,
                always: false,
            },
        )
    }

    /// Resumes the claim when the redemption's outcome arrives: the whole
    /// liquid balance, net of the transfer levy, is sent to the owner.
    pub fn resume_claim(&self, stable_balance: u128, tax: u128) -> (r: Dispatch)
        ensures
            r matches Dispatch::BankSend { to, amount },
            r matches Dispatch::BankSend { to, amount } ==> to@ == self.planet.config.owner@
                && amount == spec_net_of_tax(stable_balance as int, tax as int),
    {
        Dispatch::BankSend {
            to: self.planet.config.owner.clone(),
            amount: net_of_tax(stable_balance, tax),
        }
    }

    /// Resumes a migration's balance snapshot: the pooled value is reset
    /// to the receipt-asset balance actually held. A balance below the
    /// accrued commission would break the ledger invariant and is refused.
    pub fn resume_migrate(&mut self, aust_balance: u128) -> (r: Result<(), ContractError>)
        requires
            old(self).wf(),
            aust_balance * FRACTIONAL <= u128::MAX,
        ensures
            final(self).wf(),
            old(self).same_statics(*final(self)),
            final(self).tmp_swap == old(self).tmp_swap,
            final(self).tmp_bonder == old(self).tmp_bonder,
            final(self).tmp_unbonder == old(self).tmp_unbonder,
            final(self).planet.config == old(self).planet.config,
            final(self).planet.commission == old(self).planet.commission,
            match r {
                Ok(()) => {
                    &&& aust_balance * FRACTIONAL >= old(self).planet.commission.raw
                    &&& final(self).planet.vaults.raw == aust_balance * FRACTIONAL
                },
                Err(e) => {
                    &&& e == ContractError::BrokenInvariant
                    &&& aust_balance * FRACTIONAL < old(self).planet.commission.raw
                    &&& *final(self) == *old(self)
                },
            },
    {
        let balance = Decimal::from_uint(aust_balance);
        if balance.raw < self.planet.commission.raw {
            return Err(ContractError::BrokenInvariant);
        }
        self.planet.vaults = balance;
        Ok(())
    }
}

/// The swap target after `k` consecutive failed legs of a saga that began
/// with target `t`: each failure halves the target, truncating.
pub open spec fn retry_amount(t: nat, k: nat) -> nat
    decreases k,
{
    if k == 0 {
        t
    } else {
        retry_amount(t, (k - 1) as nat) / 2
    }
}

/// The halved target after `k` failures is the original target divided by
/// the `k`-th power of two.
pub proof fn lemma_retry_amount_is_quotient(t: nat, k: nat)
    ensures
        retry_amount(t, k) == t / vstd::arithmetic::power2::pow2(k),
    decreases k,
{
    vstd::arithmetic::power2::lemma_pow2_pos(k);
    if k == 0 {
        assert(vstd::arithmetic::power2::pow2(0) == 1) by {
            vstd::arithmetic::power2::lemma_pow2(0);
            vstd::arithmetic::power::lemma_pow0(2);
        }
    } else {
        let j = (k - 1) as nat;
        lemma_retry_amount_is_quotient(t, j);
        vstd::arithmetic::power2::lemma_pow2_pos(j);
        vstd::arithmetic::power2::lemma_pow2_adds(j, 1);
        assert(vstd::arithmetic::power2::pow2(1) == 2) by {
            vstd::arithmetic::power2::lemma_pow2_unfold(1nat);
            vstd::arithmetic::power2::lemma_pow2(0);
            vstd::arithmetic::power::lemma_pow0(2);
        }
        vstd::arithmetic::div_mod::lemma_div_denominator(
            t as int,
            vstd::arithmetic::power2::pow2(j) as int,
            2,
        );
    }
}

/// Law: the sequence of swap targets attempted by the retry policy is
/// `t, t/2, t/4, ...` — each failed leg halves the target, the sequence is
/// strictly decreasing while positive, and once `t` is below the `k`-th
/// power of two the target after `k` failures has reached zero, so for any
/// floor of at least one the saga fails terminally after finitely many
/// legs, and `resume_swap` never re-dispatches a halved target below the
/// floor.
pub proof fn lemma_swap_retry_sequence(t: nat, k: nat)
    ensures
        retry_amount(t, 0) == t,
        retry_amount(t, k + 1) == retry_amount(t, k) / 2,
        retry_amount(t, k + 1) <= retry_amount(t, k),
        retry_amount(t, k) > 0 ==> retry_amount(t, k + 1) < retry_amount(t, k),
        t < vstd::arithmetic::power2::pow2(k) ==> retry_amount(t, k) == 0,
{
    lemma_retry_amount_is_quotient(t, k);
    vstd::arithmetic::power2::lemma_pow2_pos(k);
    if t < vstd::arithmetic::power2::pow2(k) {
        vstd::arithmetic::div_mod::lemma_basic_div(
            t as int,
            vstd::arithmetic::power2::pow2(k) as int,
        );
    }
}

} // verus!
