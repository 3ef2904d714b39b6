//! The vault ledger and its read-only projections.
//!
//! The ledger holds the pooled value, the commission pool and the vault's
//! configuration. Outstanding shares are counted by the external share-token
//! service, never here: every operation that needs them takes the count as a
//! plain argument. The share rate is derived, not stored: it is one while no
//! shares are outstanding, else the pooled value net of commission divided
//! by the outstanding shares.

use vstd::prelude::*;

use crate::asset::{spec_net_of_tax, Asset, AssetInfo};
use crate::dec::{Decimal, FRACTIONAL};
use crate::dispatch::{Dispatch, ReplyTag, SubCall};
use crate::error::ContractError;
use crate::protocol::planet::{
    CommissionResponse, ConfigResponse, Cw20HookMsg, RateResponse, StakerInfoResponse,
};

verus! {

/// The vault's configuration. The share token's address is set exactly
/// once, by the callback of its asynchronous creation, before any bond or
/// unbond is accepted.
#[derive(Clone, Debug, PartialEq, Eq)]
pub struct Config {
    pub owner: String,
    pub commission_rate: Decimal,
    pub asset_info: AssetInfo,
    pub token_code_id: u64,
    pub token_address: Option<String>,
}

/// The vault ledger: total pooled value, accrued commission, configuration.
#[derive(Clone, Debug, PartialEq, Eq)]
pub struct PlanetState {
    pub config: Config,
    pub vaults: Decimal,
    pub commission: Decimal,
}

/// The raw share rate derived from a pooled value, a commission pool and an
/// outstanding share count: one while no shares are outstanding, else the
/// net pooled value divided by the share count.
pub open spec fn spec_share_rate(vaults_raw: int, commission_raw: int, supply: int) -> int {
    if supply == 0 {
        FRACTIONAL as int
    } else {
        (vaults_raw - commission_raw) / supply
    }
}

/// Shares minted for bonding the whole amount `amount` at raw rate
/// `rate_raw`, truncated to a whole share count.
pub open spec fn spec_mint_amount(rate_raw: int, amount: int) -> int {
    (amount * FRACTIONAL) / rate_raw
}

/// The whole-number value of `shares` shares at raw rate `rate_raw`.
pub open spec fn spec_shares_value(rate_raw: int, shares: int) -> int {
    (shares * rate_raw) / (FRACTIONAL as int)
}

/// Commission taken out of a raw revenue at a raw commission rate.
pub open spec fn spec_commission_cut(rate_raw: int, revenue_raw: int) -> int {
    (revenue_raw * rate_raw) / (FRACTIONAL as int)
}

/// What `settle_execution` found when an executed action resolved.
#[derive(Clone, Copy, Debug, PartialEq, Eq, Structural)]
pub enum SettleOutcome {
    /// The action gained: `revenue` was realized and `commission` of it was
    /// set aside for the owner.
    Revenue { revenue: Decimal, commission: Decimal },
    /// The action was mandatory and lost `loss`, absorbed by the commission
    /// pool.
    Loss { loss: Decimal },
}

/// A resumption delivered to the vault by the host runtime.
#[derive(Debug)]
pub enum ReplyMsg {
    /// The share token was created at `token_address`.
    TokenInstant { token_address: String },
    /// An executed action resolved and the vault's externally held balance
    /// now reads `balance`; `mandatory` says whether a loss must be
    /// absorbed.
    Executed { balance: Decimal, mandatory: bool },
    /// An action resolved whose outcome the vault ignores.
    ExecuteSkip,
}

/// What a resumption did.
#[derive(Clone, Copy, Debug, PartialEq, Eq, Structural)]
pub enum ReplyOutcome {
    /// The share token's address was recorded.
    TokenStored,
    /// The ledger settled an executed action.
    Settled(SettleOutcome),
    /// Nothing to do.
    Skipped,
}

impl PlanetState {
    /// The ledger invariants: the commission pool never exceeds the pooled
    /// value, and the commission rate never exceeds one.
    pub open spec fn wf(self) -> bool {
        &&& self.commission.raw <= self.vaults.raw
        &&& self.config.commission_rate.raw <= FRACTIONAL
    }

    /// The raw share rate of this ledger at share count `supply`.
    pub open spec fn rate_raw(self, supply: int) -> int {
        spec_share_rate(self.vaults.raw as int, self.commission.raw as int, supply)
    }

    /// Opens the vault: both pools start empty, the share token does not
    /// exist yet.
    pub fn instantiate(
        owner: String,
        commission_rate: Decimal,
        asset_info: AssetInfo,
        token_code_id: u64,
        symbol: String,
    ) -> (r: (PlanetState, SubCall))
        requires
            commission_rate.raw <= FRACTIONAL,
        ensures
            r.0.wf(),
            r.0.config.owner == owner,
            r.0.config.commission_rate == commission_rate,
            r.0.config.asset_info == asset_info,
            r.0.config.token_code_id == token_code_id,
            r.0.config.token_address is None,
            r.0.vaults.raw == 0,
            r.0.commission.raw == 0,
            r.1 == (SubCall {
                msg: Dispatch::InstantiateToken { code_id: token_code_id, symbol },
                tag: ReplyTag::TokenInstant,
                always: false,
            }),
    {
        let state = PlanetState {
            config: Config {
                owner,
                commission_rate,
                asset_info,
                token_code_id,
                token_address: None,
            },
            vaults: Decimal::zero(),
            commission: Decimal::zero(),
        };
        let call = SubCall {
            msg: Dispatch::InstantiateToken { code_id: token_code_id, symbol },
            tag: ReplyTag::TokenInstant,
            always: false,
        };
        (state, call)
    }

    /// Records the share token's address, delivered by the creation step's
    /// callback. The address is set exactly once; a second attempt fails.
    pub fn set_token_address(&mut self, token_address: String) -> (r: Result<
        (),
        ContractError,
    >)
        ensures
            final(self).vaults == old(self).vaults,
            final(self).commission == old(self).commission,
            match r {
                Ok(()) => {
                    &&& old(self).config.token_address is None
                    &&& final(self).config.token_address == Some(token_address)
                    &&& final(self).config.owner == old(self).config.owner
                    &&& final(self).config.commission_rate == old(self).config.commission_rate
                    &&& final(self).config.asset_info == old(self).config.asset_info
                    &&& final(self).config.token_code_id == old(self).config.token_code_id
                },
                Err(e) => {
                    &&& e == ContractError::AlreadyInstantiate
                    &&& old(self).config.token_address is Some
                    &&& *final(self) == *old(self)
                },
            },
    {
        match &self.config.token_address {
            Some(_) => Err(ContractError::AlreadyInstantiate),
            None => {
                self.config.token_address = Some(token_address);
                Ok(())
            },
        }
    }

    /// Adds a whole delta to the pooled value. The raw pool accessors
    /// state only their exact effect; the vault operations are what
    /// maintain the ledger invariant.
    pub fn add_vaults(&mut self, amount: Decimal)
        requires
            old(self).vaults.raw + amount.raw <= u128::MAX,
        ensures
            final(self).vaults.raw == old(self).vaults.raw + amount.raw,
            final(self).commission == old(self).commission,
            final(self).config == old(self).config,
    {
        self.vaults = self.vaults.add_dec(amount);
    }

    /// Takes a delta out of the pooled value; it must be covered.
    pub fn sub_vaults(&mut self, amount: Decimal)
        requires
            amount.raw <= old(self).vaults.raw,
        ensures
            final(self).vaults.raw == old(self).vaults.raw - amount.raw,
            final(self).commission == old(self).commission,
            final(self).config == old(self).config,
    {
        self.vaults = Decimal { raw: self.vaults.raw - amount.raw };
    }

    /// Overwrites the pooled value.
    pub fn set_vaults(&mut self, amount: Decimal)
        ensures
            final(self).vaults == amount,
            final(self).commission == old(self).commission,
            final(self).config == old(self).config,
    {
        self.vaults = amount;
    }

    /// The pooled value.
    pub fn get_vaults(&self) -> (r: Decimal)
        ensures
            r == self.vaults,
    {
        self.vaults
    }

    /// Adds a delta to the commission pool.
    pub fn add_commission(&mut self, amount: Decimal)
        requires
            old(self).commission.raw + amount.raw <= u128::MAX,
        ensures
            final(self).commission.raw == old(self).commission.raw + amount.raw,
            final(self).vaults == old(self).vaults,
            final(self).config == old(self).config,
    {
        self.commission = self.commission.add_dec(amount);
    }

    /// Takes a delta out of the commission pool; it must be covered.
    pub fn sub_commission(&mut self, amount: Decimal)
        requires
            amount.raw <= old(self).commission.raw,
        ensures
            final(self).commission.raw == old(self).commission.raw - amount.raw,
            final(self).vaults == old(self).vaults,
            final(self).config == old(self).config,
    {
        self.commission = Decimal { raw: self.commission.raw - amount.raw };
    }

    /// Empties the commission pool and returns what it held.
    pub fn sub_all_commission(&mut self) -> (r: Decimal)
        ensures
            r == old(self).commission,
            final(self).commission.raw == 0,
            final(self).vaults == old(self).vaults,
            final(self).config == old(self).config,
    {
        let commission = self.commission;
        self.commission = Decimal::zero();
        commission
    }

    /// The commission pool.
    pub fn get_commission(&self) -> (r: Decimal)
        ensures
            r == self.commission,
    {
        self.commission
    }

    /// The current share rate at share count `supply`.
    pub fn compute_share_rate(&self, supply: u128) -> (r: Decimal)
        requires
            self.wf(),
        ensures
            r.raw == self.rate_raw(supply as int),
    {
        if supply == 0 {
            Decimal::one()
        } else {
            let net = Decimal { raw: self.vaults.raw - self.commission.raw };
            Decimal::from_ratio(net, supply)
        }
    }

    /// Bonds `amount` of the underlying asset: the pooled value grows by the
    /// whole amount and `amount / rate` shares are minted to the payer. The
    /// rate is computed before the pooled value grows, so bonding never
    /// moves it. Fails with `InvalidAmount` on a zero amount, with
    /// `NotInitialized` while the share token does not exist, and with
    /// `BrokenInvariant` if the pool was drained so far that the rate reads
    /// zero.
    pub fn try_bond(&mut self, sender: String, amount: u128, supply: u128) -> (r: Result<
        Dispatch,
        ContractError,
    >)
        requires
            old(self).wf(),
            amount * FRACTIONAL <= u128::MAX,
            old(self).vaults.raw + amount * FRACTIONAL <= u128::MAX,
        ensures
            final(self).wf(),
            final(self).config == old(self).config,
            final(self).commission == old(self).commission,
            match r {
                Ok(d) => {
                    &&& amount > 0
                    &&& old(self).config.token_address is Some
                    &&& old(self).rate_raw(supply as int) > 0
                    &&& d matches Dispatch::Mint { recipient, amount: minted }
                    &&& recipient == sender
                    &&& minted == spec_mint_amount(old(self).rate_raw(supply as int), amount as int)
                    &&& final(self).vaults.raw == old(self).vaults.raw + amount * FRACTIONAL
                },
                Err(e) => {
                    &&& *final(self) == *old(self)
                    &&& (e == ContractError::InvalidAmount || e == ContractError::NotInitialized
                        || e == ContractError::BrokenInvariant)
                    &&& (e == ContractError::InvalidAmount <==> amount == 0)
                    &&& (e == ContractError::NotInitialized <==> amount > 0 && old(
                        self,
                    ).config.token_address is None)
                    &&& (e == ContractError::BrokenInvariant <==> amount > 0 && old(
                        self,
                    ).config.token_address is Some && old(self).rate_raw(supply as int) == 0)
                },
            },
    {
        if amount == 0 {
            return Err(ContractError::InvalidAmount);
        }
        if self.config.token_address.is_none() {
            return Err(ContractError::NotInitialized);
        }
        let share_rate = self.compute_share_rate(supply);
        if share_rate.raw == 0 {
            return Err(ContractError::BrokenInvariant);
        }
        let mint_amount = share_rate.div_uint(amount);
        self.vaults = self.vaults.add_dec(Decimal::from_uint(amount));
        Ok(Dispatch::Mint { recipient: sender, amount: mint_amount })
    }

    /// Unbonds `amount` shares: their value at the pre-burn rate leaves the
    /// pool and is sent to the redeemer net of the transfer levy, and the
    /// shares are burned. Taking more than the pooled value net of
    /// commission would break the ledger invariant and fails with
    /// `BrokenInvariant`, leaving the ledger unchanged.
    pub fn try_unbond(&mut self, sender: String, amount: u128, supply: u128, tax: u128) -> (r:
        Result<(Dispatch, Dispatch), ContractError>)
        requires
            old(self).wf(),
            amount * old(self).rate_raw(supply as int) <= u128::MAX,
        ensures
            final(self).wf(),
            final(self).config == old(self).config,
            final(self).commission == old(self).commission,
            ({
                let payout = spec_shares_value(old(self).rate_raw(supply as int), amount as int);
                match r {
                    Ok(d) => {
                        &&& payout * FRACTIONAL + old(self).commission.raw <= old(self).vaults.raw
                        &&& d.0 matches Dispatch::BankSend { to, amount: sent }
                        &&& to == sender
                        &&& sent == spec_net_of_tax(payout, tax as int)
                        &&& d.1 == (Dispatch::Burn { amount })
                        &&& final(self).vaults.raw == old(self).vaults.raw - payout * FRACTIONAL
                    },
                    Err(e) => {
                        &&& *final(self) == *old(self)
                        &&& e == ContractError::BrokenInvariant
                        &&& payout * FRACTIONAL + old(self).commission.raw > old(self).vaults.raw
                    },
                }
            }),
    {
        let share_rate = self.compute_share_rate(supply);
        let payout = share_rate.mul_uint(amount);
        proof {
            assert(payout * FRACTIONAL <= amount * share_rate.raw) by {
                vstd::arithmetic::div_mod::lemma_fundamental_div_mod(
                    amount as int * share_rate.raw as int,
                    FRACTIONAL as int,
                );
                vstd::arithmetic::mul::lemma_mul_is_commutative(
                    payout as int,
                    FRACTIONAL as int,
                );
            }
        }
        let payout_dec = Decimal::from_uint(payout);
        if payout_dec.raw > self.vaults.raw
            || self.commission.raw > self.vaults.raw - payout_dec.raw {
            return Err(ContractError::BrokenInvariant);
        }
        self.vaults = Decimal { raw: self.vaults.raw - payout_dec.raw };
        Ok(
            (
                Dispatch::BankSend { to: sender, amount: crate::asset::net_of_tax(payout, tax) },
                Dispatch::Burn { amount },
            ),
        )
    }

    /// Routes a share-token transfer into the vault: only the vault's own
    /// share token may deliver one, and it must carry the unbond hook.
    pub fn receive_cw20(
        &mut self,
        sender_contract: &String,
        hook: Option<Cw20HookMsg>,
        token_sender: String,
        amount: u128,
        supply: u128,
        tax: u128,
    ) -> (r: Result<(Dispatch, Dispatch), ContractError>)
        requires
            old(self).wf(),
            amount * old(self).rate_raw(supply as int) <= u128::MAX,
        ensures
            final(self).wf(),
            final(self).config == old(self).config,
            hook is None ==> r == Err::<(Dispatch, Dispatch), _>(
                ContractError::MissingUnbondHook,
            ) && *final(self) == *old(self),
            hook is Some && !(old(self).config.token_address matches Some(a) && a@
                == sender_contract@) ==> r == Err::<(Dispatch, Dispatch), _>(
                ContractError::Unauthorized,
            ) && *final(self) == *old(self),
            hook is Some && (old(self).config.token_address matches Some(a) && a@
                == sender_contract@) ==> ({
                let payout = spec_shares_value(old(self).rate_raw(supply as int), amount as int);
                match r {
                    Ok(d) => {
                        &&& payout * FRACTIONAL + old(self).commission.raw <= old(
                            self,
                        ).vaults.raw
                        &&& d.0 matches Dispatch::BankSend { to, amount: sent }
                        &&& (d.0 matches Dispatch::BankSend { to, amount: sent } ==> to
                            == token_sender && sent == spec_net_of_tax(payout, tax as int))
                        &&& d.1 == (Dispatch::Burn { amount })
                        &&& final(self).vaults.raw == old(self).vaults.raw - payout * FRACTIONAL
                        &&& final(self).commission == old(self).commission
                    },
                    Err(e) => {
                        &&& *final(self) == *old(self)
                        &&& e == ContractError::BrokenInvariant
                        &&& payout * FRACTIONAL + old(self).commission.raw > old(self).vaults.raw
                    },
                }
            }),
    {
        if hook.is_none() {
            return Err(ContractError::MissingUnbondHook);
        }
        let authorized = match &self.config.token_address {
            Some(token_address) => *token_address == *sender_contract,
            None => false,
        };
        if !authorized {
            return Err(ContractError::Unauthorized);
        }
        self.try_unbond(token_sender, amount, supply, tax)
    }

    /// Settles a resolved external action against the ledger. A gain sets
    /// the pooled value to the observed balance and accrues commission on
    /// the revenue. A loss on a mandatory action is absorbed by the
    /// commission pool, and a shortfall beyond that pool is a fatal
    /// `BrokenInvariant`. A loss on an optional action fails with
    /// `ExecutionLoss` and leaves the ledger unchanged. Settling a balance
    /// equal to the recorded pooled value never changes the ledger.
    pub fn settle_execution(&mut self, post_balance: Decimal, mandatory: bool) -> (r: Result<
        SettleOutcome,
        ContractError,
    >)
        requires
            old(self).wf(),
            post_balance.raw > old(self).vaults.raw ==> (post_balance.raw - old(
                self,
            ).vaults.raw) * old(self).config.commission_rate.raw <= u128::MAX,
        ensures
            final(self).wf(),
            final(self).config == old(self).config,
            post_balance.raw == old(self).vaults.raw ==> final(self).vaults == old(self).vaults
                && final(self).commission == old(self).commission,
            match r {
                Ok(outcome) => match outcome {
                    SettleOutcome::Revenue { revenue, commission } => {
                        &&& post_balance.raw > old(self).vaults.raw
                        &&& revenue.raw == post_balance.raw - old(self).vaults.raw
                        &&& commission.raw == spec_commission_cut(
                            old(self).config.commission_rate.raw as int,
                            revenue.raw as int,
                        )
                        &&& final(self).vaults == post_balance
                        &&& final(self).commission.raw == old(self).commission.raw
                            + commission.raw
                    },
                    SettleOutcome::Loss { loss } => {
                        &&& post_balance.raw <= old(self).vaults.raw
                        &&& mandatory
                        &&& loss.raw == old(self).vaults.raw - post_balance.raw
                        &&& loss.raw <= old(self).commission.raw
                        &&& final(self).vaults == post_balance
                        &&& final(self).commission.raw == old(self).commission.raw - loss.raw
                    },
                },
                Err(e) => {
                    &&& *final(self) == *old(self)
                    &&& (e == ContractError::BrokenInvariant || e == ContractError::ExecutionLoss)
                    &&& (e == ContractError::BrokenInvariant <==> mandatory && post_balance.raw
                        <= old(self).vaults.raw && old(self).vaults.raw - post_balance.raw > old(
                        self,
                    ).commission.raw)
                    &&& (e == ContractError::ExecutionLoss <==> !mandatory && post_balance.raw
                        <= old(self).vaults.raw)
                },
            },
    {
        if post_balance.raw > self.vaults.raw {
            let revenue = Decimal { raw: post_balance.raw - self.vaults.raw };
            let cut = revenue.mul_dec(self.config.commission_rate);
            proof {
                assert(revenue.raw * self.config.commission_rate.raw <= revenue.raw
                    * FRACTIONAL) by {
                    vstd::arithmetic::mul::lemma_mul_left_inequality(
                        revenue.raw as int,
                        self.config.commission_rate.raw as int,
                        FRACTIONAL as int,
                    );
                }
                assert(cut.raw <= revenue.raw) by {
                    vstd::arithmetic::div_mod::lemma_div_is_ordered(
                        revenue.raw as int * self.config.commission_rate.raw as int,
                        revenue.raw as int * FRACTIONAL as int,
                        FRACTIONAL as int,
                    );
                    vstd::arithmetic::div_mod::lemma_div_multiples_vanish(
                        revenue.raw as int,
                        FRACTIONAL as int,
                    );
                    vstd::arithmetic::mul::lemma_mul_is_commutative(
                        revenue.raw as int,
                        FRACTIONAL as int,
                    );
                }
            }
            self.commission = self.commission.add_dec(cut);
            self.vaults = post_balance;
            Ok(SettleOutcome::Revenue { revenue, commission: cut })
        } else if mandatory {
            let loss = Decimal { raw: self.vaults.raw - post_balance.raw };
            if loss.raw > self.commission.raw {
                return Err(ContractError::BrokenInvariant);
            }
            self.commission = Decimal { raw: self.commission.raw - loss.raw };
            self.vaults = post_balance;
            Ok(SettleOutcome::Loss { loss })
        } else {
            Err(ContractError::ExecutionLoss)
        }
    }

    /// Labels an owner-initiated external action with the continuation tag
    /// under which its outcome must be settled: `Execute` when the outcome
    /// is to be distributed, `ExecuteSkip` when it is to be ignored. Only
    /// the owner may execute.
    pub fn try_execute(&self, sender: &String, is_distribute: bool) -> (r: Result<
        ReplyTag,
        ContractError,
    >)
        ensures
            match r {
                Ok(tag) => {
                    &&& sender@ == self.config.owner@
                    &&& tag == if is_distribute {
                        ReplyTag::Execute
                    } else {
                        ReplyTag::ExecuteSkip
                    }
                },
                Err(e) => {
                    &&& e == ContractError::Unauthorized
                    &&& sender@ != self.config.owner@
                },
            },
    {
        if *sender != self.config.owner {
            return Err(ContractError::Unauthorized);
        }
        if is_distribute {
            Ok(ReplyTag::Execute)
        } else {
            Ok(ReplyTag::ExecuteSkip)
        }
    }

    /// Pays the accrued commission out to the owner, net of the transfer
    /// levy, and empties the commission pool. Only the owner may claim.
    pub fn try_claim(&mut self, sender: &String, tax: u128) -> (r: Result<
        Dispatch,
        ContractError,
    >)
        requires
            old(self).wf(),
        ensures
            final(self).wf(),
            final(self).config == old(self).config,
            final(self).vaults == old(self).vaults,
            match r {
                Ok(d) => {
                    &&& sender@ == old(self).config.owner@
                    &&& d matches Dispatch::BankSend { to, amount }
                    &&& to@ == old(self).config.owner@
                    &&& amount == spec_net_of_tax(
                        old(self).commission.raw as int / FRACTIONAL as int,
                        tax as int,
                    )
                    &&& final(self).commission.raw == 0
                },
                Err(e) => {
                    &&& e == ContractError::Unauthorized
                    &&& sender@ != old(self).config.owner@
                    &&& *final(self) == *old(self)
                },
            },
    {
        if *sender != self.config.owner {
            return Err(ContractError::Unauthorized);
        }
        let amount = self.commission.to_uint();
        self.commission = Decimal::zero();
        Ok(
            Dispatch::BankSend {
                to: self.config.owner.clone(),
                amount: crate::asset::net_of_tax(amount, tax),
            },
        )
    }

    /// Updates owner, commission rate and share-token code id, each when a
    /// new value is given. Only the current owner may update.
    pub fn try_update_config(
        &mut self,
        sender: &String,
        owner: Option<String>,
        commission_rate: Option<Decimal>,
        code_id: Option<u64>,
    ) -> (r: Result<(), ContractError>)
        requires
            old(self).wf(),
            commission_rate matches Some(c) ==> c.raw <= FRACTIONAL,
        ensures
            final(self).wf(),
            final(self).vaults == old(self).vaults,
            final(self).commission == old(self).commission,
            final(self).config.asset_info == old(self).config.asset_info,
            final(self).config.token_address == old(self).config.token_address,
            match r {
                Ok(()) => {
                    &&& sender@ == old(self).config.owner@
                    &&& final(self).config.owner == match owner {
                        Some(o) => o,
                        None => old(self).config.owner,
                    }
                    &&& final(self).config.commission_rate == match commission_rate {
                        Some(c) => c,
                        None => old(self).config.commission_rate,
                    }
                    &&& final(self).config.token_code_id == match code_id {
                        Some(i) => i,
                        None => old(self).config.token_code_id,
                    }
                },
                Err(e) => {
                    &&& e == ContractError::Unauthorized
                    &&& sender@ != old(self).config.owner@
                    &&& *final(self) == *old(self)
                },
            },
    {
        if *sender != self.config.owner {
            return Err(ContractError::Unauthorized);
        }
        if let Some(new_owner) = owner {
            self.config.owner = new_owner;
        }
        if let Some(new_rate) = commission_rate {
            self.config.commission_rate = new_rate;
        }
        if let Some(new_code_id) = code_id {
            self.config.token_code_id = new_code_id;
        }
        Ok(())
    }

    /// Resumes the vault with a delivered callback outcome: records the
    /// share token's address, or settles an executed action, or skips.
    pub fn reply(&mut self, msg: ReplyMsg) -> (r: Result<ReplyOutcome, ContractError>)
        requires
            old(self).wf(),
            msg matches ReplyMsg::Executed { balance, mandatory } ==> (balance.raw > old(
                self,
            ).vaults.raw ==> (balance.raw - old(self).vaults.raw) * old(
                self,
            ).config.commission_rate.raw <= u128::MAX),
        ensures
            final(self).wf(),
            match msg {
                ReplyMsg::TokenInstant { token_address } => {
                    &&& final(self).vaults == old(self).vaults
                    &&& final(self).commission == old(self).commission
                    &&& (r == Ok::<_, ContractError>(ReplyOutcome::TokenStored) <==> old(
                        self,
                    ).config.token_address is None)
                    &&& (old(self).config.token_address is None ==> final(self).config.token_address == Some(token_address))
                    &&& (old(self).config.token_address is Some ==> r == Err::<
                        ReplyOutcome,
                        _,
                    >(ContractError::AlreadyInstantiate) && *final(self) == *old(self))
                },
                ReplyMsg::Executed { balance, mandatory } => {
                    &&& final(self).config == old(self).config
                    &&& (balance.raw == old(self).vaults.raw ==> final(self).vaults == old(
                        self,
                    ).vaults && final(self).commission == old(self).commission)
                    &&& (r is Err <==> (!mandatory && balance.raw <= old(self).vaults.raw) || (
                    mandatory && balance.raw <= old(self).vaults.raw && old(self).vaults.raw
                        - balance.raw > old(self).commission.raw))
                    &&& match r {
                        Ok(outcome) => outcome matches ReplyOutcome::Settled(s)
                            && (s matches SettleOutcome::Revenue { revenue, commission }
                                ==> balance.raw > old(self).vaults.raw
                                    && final(self).vaults == balance
                                    && final(self).commission.raw == old(self).commission.raw
                                        + spec_commission_cut(
                                            old(self).config.commission_rate.raw as int,
                                            balance.raw - old(self).vaults.raw,
                                        ))
                            && (s matches SettleOutcome::Loss { loss }
                                ==> mandatory && balance.raw <= old(self).vaults.raw
                                    && final(self).vaults == balance),
                        Err(e) => *final(self) == *old(self),
                    }
                },
                ReplyMsg::ExecuteSkip => r == Ok::<_, ContractError>(ReplyOutcome::Skipped)
                    && *final(self) == *old(self),
            },
    {
        match msg {
            ReplyMsg::TokenInstant { token_address } => {
                let res = self.set_token_address(token_address);
                match res {
                    Ok(()) => Ok(ReplyOutcome::TokenStored),
                    Err(e) => Err(e),
                }
            },
            ReplyMsg::Executed { balance, mandatory } => {
                let res = self.settle_execution(balance, mandatory);
                match res {
                    Ok(outcome) => Ok(ReplyOutcome::Settled(outcome)),
                    Err(e) => Err(e),
                }
            },
            ReplyMsg::ExecuteSkip => Ok(ReplyOutcome::Skipped),
        }
    }

    /// The configuration as a query response; an unset token address reads
    /// as the empty string.
    pub fn query_config(&self) -> (r: ConfigResponse)
        ensures
            r.owner@ == self.config.owner@,
            r.commission_rate == self.config.commission_rate,
            r.asset_info is Token == (self.config.asset_info is Token),
            r.asset_info.name_view() == self.config.asset_info.name_view(),
            r.token_code_id == self.config.token_code_id,
            match self.config.token_address {
                Some(a) => r.token_address@ == a@,
                None => r.token_address@ == Seq::<char>::empty(),
            },
    {
        ConfigResponse {
            owner: self.config.owner.clone(),
            commission_rate: self.config.commission_rate,
            asset_info: self.config.asset_info.clone_info(),
            token_code_id: self.config.token_code_id,
            token_address: match &self.config.token_address {
                Some(token_address) => token_address.clone(),
                None => String::new(),
            },
        }
    }

    /// A staker's holding in the underlying asset: the staker's share count
    /// valued at the current rate.
    pub fn query_stake_info(&self, staker_balance: u128, supply: u128) -> (r: StakerInfoResponse)
        requires
            self.wf(),
            staker_balance * self.rate_raw(supply as int) <= u128::MAX,
        ensures
            r.asset.amount == spec_shares_value(
                self.rate_raw(supply as int),
                staker_balance as int,
            ),
            r.asset.info.name_view() == self.config.asset_info.name_view(),
    {
        let rate = self.compute_share_rate(supply);
        StakerInfoResponse {
            asset: Asset {
                info: self.config.asset_info.clone_info(),
                amount: rate.mul_uint(staker_balance),
            },
        }
    }

    /// The accrued commission as a whole amount of the underlying asset.
    pub fn query_commission(&self) -> (r: CommissionResponse)
        ensures
            r.asset.amount == self.commission.raw as int / FRACTIONAL as int,
            r.asset.info.name_view() == self.config.asset_info.name_view(),
    {
        CommissionResponse {
            asset: Asset {
                info: self.config.asset_info.clone_info(),
                amount: self.commission.to_uint(),
            },
        }
    }

    /// The current share rate as a query response.
    pub fn query_rate(&self, supply: u128) -> (r: RateResponse)
        requires
            self.wf(),
        ensures
            r.rate.raw == self.rate_raw(supply as int),
    {
        RateResponse { rate: self.compute_share_rate(supply) }
    }
}

/// Law: bonding never moves the share rate. With no commission accrued, a
/// pooled value that the share count divides exactly and a bond amount that
/// the rate divides exactly, the rate recomputed immediately after a bond —
/// over the grown pool and the grown share count — equals the rate before
/// it. (With amounts that do not divide exactly the recomputed rate can
/// differ by the truncation of the minted share count.)
pub proof fn lemma_bond_preserves_rate(vaults_raw: int, supply: int, amount: int)
    requires
        supply > 0,
        vaults_raw > 0,
        amount > 0,
        vaults_raw % supply == 0,
        (amount * FRACTIONAL) % spec_share_rate(vaults_raw, 0, supply) == 0,
    ensures
        spec_share_rate(vaults_raw, 0, supply) >= 1,
        spec_share_rate(
            vaults_raw + amount * FRACTIONAL,
            0,
            supply + spec_mint_amount(spec_share_rate(vaults_raw, 0, supply), amount),
        ) == spec_share_rate(vaults_raw, 0, supply),
{
    let f = FRACTIONAL as int;
    let rate = spec_share_rate(vaults_raw, 0, supply);
    vstd::arithmetic::div_mod::lemma_fundamental_div_mod(vaults_raw, supply);
    assert(vaults_raw == supply * rate);
    assert(rate >= 1) by (nonlinear_arith)
        requires
            supply > 0,
            vaults_raw > 0,
            vaults_raw == supply * rate,
    ;
    let minted = spec_mint_amount(rate, amount);
    vstd::arithmetic::div_mod::lemma_fundamental_div_mod(amount * f, rate);
    assert(amount * f == rate * minted);
    assert(minted >= 1) by (nonlinear_arith)
        requires
            amount > 0,
            f > 0,
            rate >= 1,
            amount * f == rate * minted,
    ;
    assert(vaults_raw + amount * f == (supply + minted) * rate) by (nonlinear_arith)
        requires
            vaults_raw == supply * rate,
            amount * f == rate * minted,
    ;
    vstd::arithmetic::div_mod::lemma_fundamental_div_mod_converse_div(
        vaults_raw + amount * f,
        supply + minted,
        rate,
        0,
    );
}

/// Law: a bond followed by an unbond of the very shares it minted, with no
/// execution in between, pays back the original deposit less at most the
/// two transfer levies the round trip crosses. Stated under the exactness
/// conditions of `lemma_bond_preserves_rate`; with amounts that do not
/// divide exactly the payout is smaller by the truncation remainder.
pub proof fn lemma_bond_unbond_round_trip(
    vaults_raw: int,
    supply: int,
    amount: int,
    tax1: int,
    tax2: int,
)
    requires
        supply > 0,
        vaults_raw > 0,
        amount > 0,
        vaults_raw % supply == 0,
        (amount * FRACTIONAL) % spec_share_rate(vaults_raw, 0, supply) == 0,
        0 <= tax1,
        0 <= tax2,
        tax1 + tax2 <= amount,
    ensures
        ({
            let rate = spec_share_rate(vaults_raw, 0, supply);
            let minted = spec_mint_amount(rate, amount);
            let rate_after = spec_share_rate(
                vaults_raw + amount * FRACTIONAL,
                0,
                supply + minted,
            );
            &&& spec_shares_value(rate_after, minted) == amount
            &&& spec_net_of_tax(spec_net_of_tax(spec_shares_value(rate_after, minted), tax1), tax2)
                == amount - tax1 - tax2
        }),
{
    let f = FRACTIONAL as int;
    let rate = spec_share_rate(vaults_raw, 0, supply);
    let minted = spec_mint_amount(rate, amount);
    lemma_bond_preserves_rate(vaults_raw, supply, amount);
    vstd::arithmetic::div_mod::lemma_fundamental_div_mod(amount * f, rate);
    assert(minted * rate == amount * f) by (nonlinear_arith)
        requires
            amount * f == rate * minted,
    ;
    assert(amount * f == f * amount) by (nonlinear_arith);
    vstd::arithmetic::div_mod::lemma_div_multiples_vanish(amount, f);
    assert(spec_shares_value(rate, minted) == amount);
}

} // verus!
