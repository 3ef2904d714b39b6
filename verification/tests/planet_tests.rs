//! The vault ledger: instantiation, configuration, bonding, unbonding,
//! settlement, claims and the read-only projections.

use starflet::asset::AssetInfo;
use starflet::dec::{Decimal, FRACTIONAL};
use starflet::dispatch::{Dispatch, ReplyTag, SubCall};
use starflet::error::ContractError;
use starflet::planet::{PlanetState, ReplyMsg, ReplyOutcome, SettleOutcome};

const OWNER: &str = "owner0000";
const CHANGE_OWNER: &str = "owner0001";
const SYMBOL: &str = "TTN";
const CODE_ID: u64 = 123;
const CHANGE_CODE_ID: u64 = 456;
const MOCK_CONTRACT_ADDR: &str = "cosmos2contract";
const BONDER1: &str = "bonder0000";

fn uusd() -> AssetInfo {
    AssetInfo::NativeToken { denom: "uusd".to_string() }
}

fn tenth() -> Decimal {
    // the commission rate 0.1
    Decimal { raw: FRACTIONAL / 10 }
}

fn init() -> PlanetState {
    let (state, _call) = PlanetState::instantiate(
        OWNER.to_string(),
        tenth(),
        uusd(),
        CODE_ID,
        SYMBOL.to_string(),
    );
    state
}

fn init_with_token() -> PlanetState {
    let mut state = init();
    state
        .set_token_address(MOCK_CONTRACT_ADDR.to_string())
        .unwrap();
    state
}

#[test]
fn contract_proper_initialization() {
    let (state, call) = PlanetState::instantiate(
        OWNER.to_string(),
        tenth(),
        uusd(),
        CODE_ID,
        SYMBOL.to_string(),
    );

    assert_eq!(
        call,
        SubCall {
            msg: Dispatch::InstantiateToken { code_id: CODE_ID, symbol: SYMBOL.to_string() },
            tag: ReplyTag::TokenInstant,
            always: false,
        }
    );

    let config = state.query_config();
    assert_eq!(OWNER.to_string(), config.owner);
    assert_eq!(tenth(), config.commission_rate);
    assert_eq!(uusd(), config.asset_info);
    assert_eq!(CODE_ID, config.token_code_id);
    assert_eq!(String::new(), config.token_address);
}

#[test]
fn update_config_owner() {
    let mut state = init();

    state
        .try_update_config(&OWNER.to_string(), Some(CHANGE_OWNER.to_string()), None, None)
        .unwrap();

    let config = state.query_config();
    assert_eq!(CHANGE_OWNER.to_string(), config.owner);
    assert_eq!(tenth(), config.commission_rate);
    assert_eq!(uusd(), config.asset_info);
    assert_eq!(CODE_ID, config.token_code_id);
}

#[test]
#[should_panic]
fn update_config_diffrent_owner_will_panic() {
    let mut state = init();

    state
        .try_update_config(
            &CHANGE_OWNER.to_string(),
            Some(CHANGE_OWNER.to_string()),
            None,
            None,
        )
        .unwrap();
}

#[test]
fn update_config_multiple_commission_rate_and_owner() {
    let mut state = init();

    let half = Decimal { raw: FRACTIONAL / 2 };
    state
        .try_update_config(
            &OWNER.to_string(),
            Some(CHANGE_OWNER.to_string()),
            Some(half),
            None,
        )
        .unwrap();

    let config = state.query_config();
    assert_eq!(CHANGE_OWNER.to_string(), config.owner);
    assert_eq!(half, config.commission_rate);
    assert_eq!(uusd(), config.asset_info);
    assert_eq!(CODE_ID, config.token_code_id);
}

#[test]
fn update_config_code_id() {
    let mut state = init();

    state
        .try_update_config(&OWNER.to_string(), None, None, Some(CHANGE_CODE_ID))
        .unwrap();

    let config = state.query_config();
    assert_eq!(OWNER.to_string(), config.owner);
    assert_eq!(tenth(), config.commission_rate);
    assert_eq!(uusd(), config.asset_info);
    assert_eq!(CHANGE_CODE_ID, config.token_code_id);
}

#[test]
fn token_instant_reply() {
    let mut state = init();

    let outcome = state
        .reply(ReplyMsg::TokenInstant { token_address: MOCK_CONTRACT_ADDR.to_string() })
        .unwrap();
    assert_eq!(outcome, ReplyOutcome::TokenStored);

    let config = state.query_config();
    assert_eq!(MOCK_CONTRACT_ADDR.to_string(), config.token_address);
}

#[test]
fn second_token_instant_reply_is_refused() {
    let mut state = init_with_token();

    let err = state
        .reply(ReplyMsg::TokenInstant { token_address: CHANGE_OWNER.to_string() })
        .unwrap_err();
    assert_eq!(err, ContractError::AlreadyInstantiate);
    assert_eq!(MOCK_CONTRACT_ADDR.to_string(), state.query_config().token_address);
}

#[test]
fn revenue_execute_reply() {
    let mut state = init_with_token();

    assert_eq!(Decimal::zero(), state.get_vaults());

    let outcome = state
        .reply(ReplyMsg::Executed { balance: Decimal::from_uint(100), mandatory: false })
        .unwrap();

    assert_eq!(
        outcome,
        ReplyOutcome::Settled(SettleOutcome::Revenue {
            revenue: Decimal::from_uint(100),
            commission: Decimal::from_uint(10),
        })
    );
    assert_eq!(Decimal::from_uint(100), state.get_vaults());
    assert_eq!(Decimal::from_uint(10), state.get_commission());
}

#[test]
fn loss_execute_reply() {
    let mut state = init_with_token();

    state.set_vaults(Decimal::from_uint(110));
    state.add_commission(Decimal::from_uint(10));

    let outcome = state
        .reply(ReplyMsg::Executed { balance: Decimal::from_uint(100), mandatory: true })
        .unwrap();

    assert_eq!(outcome, ReplyOutcome::Settled(SettleOutcome::Loss { loss: Decimal::from_uint(10) }));
    assert_eq!(Decimal::from_uint(100), state.get_vaults());
    assert_eq!(Decimal::from_uint(0), state.get_commission());
}

#[test]
fn skip_execute_reply() {
    let mut state = init_with_token();

    let outcome = state.reply(ReplyMsg::ExecuteSkip).unwrap();
    assert_eq!(outcome, ReplyOutcome::Skipped);

    assert_eq!(Decimal::from_uint(0), state.get_vaults());
    assert_eq!(Decimal::from_uint(0), state.get_commission());
}

#[test]
fn mandatory_loss_beyond_commission_is_fatal() {
    let mut state = init_with_token();

    state.set_vaults(Decimal::from_uint(110));
    state.add_commission(Decimal::from_uint(10));

    let err = state
        .settle_execution(Decimal::from_uint(90), true)
        .unwrap_err();
    assert_eq!(err, ContractError::BrokenInvariant);
    assert_eq!(Decimal::from_uint(110), state.get_vaults());
    assert_eq!(Decimal::from_uint(10), state.get_commission());
}

#[test]
fn optional_loss_leaves_ledger_unchanged() {
    let mut state = init_with_token();

    state.set_vaults(Decimal::from_uint(100));

    let err = state
        .settle_execution(Decimal::from_uint(90), false)
        .unwrap_err();
    assert_eq!(err, ContractError::ExecutionLoss);
    assert_eq!(Decimal::from_uint(100), state.get_vaults());
}

#[test]
fn settle_with_unchanged_balance_changes_nothing() {
    let mut state = init_with_token();

    state.set_vaults(Decimal::from_uint(100));
    state.add_commission(Decimal::from_uint(5));

    // optional flavour: surfaced as a loss, ledger untouched
    let err = state
        .settle_execution(Decimal::from_uint(100), false)
        .unwrap_err();
    assert_eq!(err, ContractError::ExecutionLoss);
    assert_eq!(Decimal::from_uint(100), state.get_vaults());
    assert_eq!(Decimal::from_uint(5), state.get_commission());

    // mandatory flavour: a zero loss, ledger unchanged, twice over
    for _ in 0..2 {
        let outcome = state
            .settle_execution(Decimal::from_uint(100), true)
            .unwrap();
        assert_eq!(outcome, SettleOutcome::Loss { loss: Decimal::zero() });
        assert_eq!(Decimal::from_uint(100), state.get_vaults());
        assert_eq!(Decimal::from_uint(5), state.get_commission());
    }
}

#[test]
fn normal_bond() {
    let mut state = init_with_token();

    let dispatch = state.try_bond(BONDER1.to_string(), 100, 0).unwrap();

    assert_eq!(
        dispatch,
        Dispatch::Mint { recipient: BONDER1.to_string(), amount: 100 }
    );
    assert_eq!(Decimal::from_uint(100), state.get_vaults());
}

#[test]
fn bond_of_zero_is_invalid() {
    let mut state = init_with_token();

    let err = state.try_bond(BONDER1.to_string(), 0, 0).unwrap_err();
    assert_eq!(err, ContractError::InvalidAmount);
    assert_eq!(Decimal::zero(), state.get_vaults());
}

#[test]
fn bond_before_token_exists_is_refused() {
    let mut state = init();

    let err = state.try_bond(BONDER1.to_string(), 100, 0).unwrap_err();
    assert_eq!(err, ContractError::NotInitialized);
}

#[test]
fn normal_unbond() {
    let mut state = init_with_token();
    state.try_bond(BONDER1.to_string(), 100, 0).unwrap();

    let (send, burn) = state
        .receive_cw20(
            &MOCK_CONTRACT_ADDR.to_string(),
            Some(starflet::protocol::planet::Cw20HookMsg::Unbond),
            BONDER1.to_string(),
            10,
            100,
            0,
        )
        .unwrap();

    assert_eq!(send, Dispatch::BankSend { to: BONDER1.to_string(), amount: 10 });
    assert_eq!(burn, Dispatch::Burn { amount: 10 });
    assert_eq!(Decimal::from_uint(90), state.get_vaults());
}

#[test]
fn unbond_from_stranger_contract_is_refused() {
    let mut state = init_with_token();
    state.try_bond(BONDER1.to_string(), 100, 0).unwrap();

    let err = state
        .receive_cw20(
            &"stranger0000".to_string(),
            Some(starflet::protocol::planet::Cw20HookMsg::Unbond),
            BONDER1.to_string(),
            10,
            100,
            0,
        )
        .unwrap_err();
    assert_eq!(err, ContractError::Unauthorized);
}

#[test]
fn transfer_without_hook_is_refused() {
    let mut state = init_with_token();

    let err = state
        .receive_cw20(
            &MOCK_CONTRACT_ADDR.to_string(),
            None,
            BONDER1.to_string(),
            10,
            100,
            0,
        )
        .unwrap_err();
    assert_eq!(err, ContractError::MissingUnbondHook);
}

#[test]
fn normal_claim() {
    let mut state = init();
    state.add_commission(Decimal::one());

    let commission = state.query_commission();
    assert_eq!(1, commission.asset.amount);

    let dispatch = state.try_claim(&OWNER.to_string(), 0).unwrap();

    assert_eq!(dispatch, Dispatch::BankSend { to: OWNER.to_string(), amount: 1 });
    assert_eq!(Decimal::zero(), state.get_commission());
}

#[test]
fn unknown_owner_claim_will_err() {
    let mut state = init();
    state.add_commission(Decimal::one());

    let err = state.try_claim(&BONDER1.to_string(), 0).unwrap_err();
    assert_eq!(err, ContractError::Unauthorized);
    assert_eq!(Decimal::one(), state.get_commission());
}

#[test]
fn more_than_share_rate() {
    let mut state = init_with_token();

    state.set_vaults(Decimal::from_uint(110));
    state.add_commission(Decimal::from_uint(10));

    // ten shares outstanding against a net pool of 100: the rate is ten
    let bonder0 = state.query_stake_info(1, 10);
    assert_eq!(10, bonder0.asset.amount);

    let bonder1 = state.query_stake_info(9, 10);
    assert_eq!(90, bonder1.asset.amount);
}

#[test]
fn less_than_share_rate() {
    let mut state = init_with_token();

    state.set_vaults(Decimal::from_uint(110));
    state.add_commission(Decimal::from_uint(10));

    // a hundred thousand shares against a net pool of 100: the rate is 0.001
    let bonder0 = state.query_stake_info(10_000, 100_000);
    assert_eq!(10, bonder0.asset.amount);

    let bonder1 = state.query_stake_info(90_000, 100_000);
    assert_eq!(90, bonder1.asset.amount);
}

#[test]
fn staker_of_a_tenth_holds_ten() {
    // a staker holding ten percent of the outstanding shares, against a
    // pool of 110 of which 10 is earmarked commission, holds exactly 10
    let mut state = init_with_token();
    state.set_vaults(Decimal::from_uint(110));
    state.add_commission(Decimal::from_uint(10));

    let info = state.query_stake_info(10, 100);
    assert_eq!(10, info.asset.amount);
}

#[test]
fn bonding_never_moves_the_rate() {
    let mut state = init_with_token();
    state.set_vaults(Decimal::from_uint(100));

    let rate_before = state.query_rate(100).rate;
    assert_eq!(Decimal::one(), rate_before);

    let dispatch = state.try_bond(BONDER1.to_string(), 50, 100).unwrap();
    let minted = match dispatch {
        Dispatch::Mint { amount, .. } => amount,
        _ => panic!("expected a mint"),
    };
    assert_eq!(50, minted);

    let rate_after = state.query_rate(100 + minted).rate;
    assert_eq!(rate_before, rate_after);
}

#[test]
fn bond_then_unbond_returns_deposit_net_of_levy() {
    let mut state = init_with_token();
    state.set_vaults(Decimal::from_uint(100));

    let dispatch = state.try_bond(BONDER1.to_string(), 100, 100).unwrap();
    let minted = match dispatch {
        Dispatch::Mint { amount, .. } => amount,
        _ => panic!("expected a mint"),
    };
    assert_eq!(100, minted);

    // the outbound transfer carries a levy of 2
    let (send, _burn) = state
        .receive_cw20(
            &MOCK_CONTRACT_ADDR.to_string(),
            Some(starflet::protocol::planet::Cw20HookMsg::Unbond),
            BONDER1.to_string(),
            minted,
            100 + minted,
            2,
        )
        .unwrap();
    // the ledger pays out the full deposit net of the transfer levy
    assert_eq!(send, Dispatch::BankSend { to: BONDER1.to_string(), amount: 98 });
    assert_eq!(Decimal::from_uint(100), state.get_vaults());
}

#[test]
fn bond_settle_with_ten_percent_commission() {
    // bonding 100 at a ten percent commission rate and settling a gain of
    // 100 accrues 10 commission and records the new balance
    let mut state = init_with_token();

    state.try_bond(BONDER1.to_string(), 100, 0).unwrap();
    assert_eq!(Decimal::from_uint(100), state.get_vaults());

    let outcome = state
        .settle_execution(Decimal::from_uint(200), false)
        .unwrap();
    assert_eq!(
        outcome,
        SettleOutcome::Revenue {
            revenue: Decimal::from_uint(100),
            commission: Decimal::from_uint(10),
        }
    );
    assert_eq!(Decimal::from_uint(200), state.get_vaults());
    assert_eq!(Decimal::from_uint(10), state.get_commission());
}

#[test]
fn execute_tags_follow_the_distribute_flag() {
    let state = init();

    assert_eq!(ReplyTag::Execute, state.try_execute(&OWNER.to_string(), true).unwrap());
    assert_eq!(ReplyTag::ExecuteSkip, state.try_execute(&OWNER.to_string(), false).unwrap());
    assert_eq!(
        ContractError::Unauthorized,
        state.try_execute(&BONDER1.to_string(), true).unwrap_err()
    );
}
