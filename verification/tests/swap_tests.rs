//! The swap-arbitrage sagas: bonding through the money market, unbonding
//! with reconciliation, and the adaptive retry of the swap route.

use starflet::arb::{ArbState, LIMIT_MINIMUM};
use starflet::asset::AssetInfo;
use starflet::dec::Decimal;
use starflet::dispatch::{Dispatch, ReplyTag, RoutePath, Venue};
use starflet::error::ContractError;
use starflet::protocol::planet::Cw20HookMsg;

const OWNER: &str = "owner0000";
const BONDER1: &str = "bonder0000";
const TOKEN: &str = "vaults0000";
const ROUTER: &str = "router0000";
const MARKET: &str = "market0000";

fn uusd() -> AssetInfo {
    AssetInfo::NativeToken { denom: "uusd".to_string() }
}

fn aust() -> AssetInfo {
    AssetInfo::Token { contract_addr: "aust0000".to_string() }
}

fn init() -> ArbState {
    let (mut state, _call) = ArbState::instantiate(
        OWNER.to_string(),
        Decimal { raw: 100_000 },
        uusd(),
        123,
        "TTN".to_string(),
        ROUTER.to_string(),
        uusd(),
        MARKET.to_string(),
        aust(),
    );
    state.planet.set_token_address(TOKEN.to_string()).unwrap();
    state
}

#[test]
fn bond_records_baseline_and_deposits() {
    let mut state = init();

    let call = state.try_bond(BONDER1.to_string(), 1_000, 10, 500).unwrap();

    assert_eq!(call.tag, ReplyTag::Bond);
    assert_eq!(call.msg, Dispatch::DepositStable { amount: 990 });
    let pending = state.tmp_bonder.clone().unwrap();
    assert_eq!(pending.bonder, BONDER1.to_string());
    assert_eq!(pending.prev_amount, 500);
}

#[test]
fn second_bond_while_pending_is_rejected() {
    let mut state = init();

    state.try_bond(BONDER1.to_string(), 1_000, 10, 500).unwrap();
    let err = state
        .try_bond("bonder0001".to_string(), 2_000, 10, 700)
        .unwrap_err();

    assert_eq!(err, ContractError::ConflictingOperation);
    // the pending baseline is untouched
    let pending = state.tmp_bonder.clone().unwrap();
    assert_eq!(pending.bonder, BONDER1.to_string());
    assert_eq!(pending.prev_amount, 500);
}

#[test]
fn bond_resume_mints_the_delta() {
    let mut state = init();

    state.try_bond(BONDER1.to_string(), 1_000, 0, 500).unwrap();
    let dispatch = state.resume_bond(1_500, 0).unwrap();

    assert_eq!(dispatch, Dispatch::Mint { recipient: BONDER1.to_string(), amount: 1_000 });
    assert_eq!(Decimal::from_uint(1_000), state.planet.get_vaults());
    assert!(state.tmp_bonder.is_none());
}

#[test]
fn bond_resume_without_pending_bond_is_refused() {
    let mut state = init();

    let err = state.resume_bond(1_500, 0).unwrap_err();
    assert_eq!(err, ContractError::InvalidReplyId);
}

#[test]
fn unbond_reconciles_the_redeemed_delta() {
    let mut state = init();
    state.planet.set_vaults(Decimal::from_uint(1_000));

    // burn 100 of 1000 shares at rate one: 100 is expected back
    let (burn, call) = state
        .receive_cw20(
            &TOKEN.to_string(),
            Some(Cw20HookMsg::Unbond),
            BONDER1.to_string(),
            100,
            1_000,
            40,
        )
        .unwrap();
    assert_eq!(burn, Dispatch::Burn { amount: 100 });
    assert_eq!(call.tag, ReplyTag::Unbond);
    assert_eq!(call.msg, Dispatch::RedeemStable { amount: 100 });
    assert_eq!(Decimal::from_uint(900), state.planet.get_vaults());

    // the redemption arrives net of one levy of 2; the payout sheds one more
    let dispatch = state.resume_unbond(138, 2).unwrap();
    assert_eq!(dispatch, Dispatch::BankSend { to: BONDER1.to_string(), amount: 96 });
    assert!(state.tmp_unbonder.is_none());
}

#[test]
fn unbond_round_trip_returns_deposit_less_two_taxes() {
    let mut state = init();

    // bond 100 through the money market, then unbond it all
    state.try_bond(BONDER1.to_string(), 100, 0, 0).unwrap();
    let minted = match state.resume_bond(100, 0).unwrap() {
        Dispatch::Mint { amount, .. } => amount,
        _ => panic!("expected a mint"),
    };
    assert_eq!(100, minted);

    let (_burn, _call) = state
        .receive_cw20(
            &TOKEN.to_string(),
            Some(Cw20HookMsg::Unbond),
            BONDER1.to_string(),
            minted,
            minted,
            0,
        )
        .unwrap();

    // each leg of the round trip sheds a levy of 2: the redemption
    // arrives as 98 and the beneficiary is sent 96
    let dispatch = state.resume_unbond(98, 2).unwrap();
    assert_eq!(dispatch, Dispatch::BankSend { to: BONDER1.to_string(), amount: 96 });
}

#[test]
fn unbond_with_slipped_delta_is_fatal() {
    let mut state = init();
    state.planet.set_vaults(Decimal::from_uint(1_000));

    state
        .receive_cw20(
            &TOKEN.to_string(),
            Some(Cw20HookMsg::Unbond),
            BONDER1.to_string(),
            100,
            1_000,
            40,
        )
        .unwrap();

    // 97 arrived where 98 was owed: reconciliation fails, nothing moves
    let err = state.resume_unbond(137, 2).unwrap_err();
    assert_eq!(err, ContractError::FailBondAndUnbond(98, 97));
    assert!(state.tmp_unbonder.is_some());
}

#[test]
fn second_unbond_while_pending_is_rejected() {
    let mut state = init();
    state.planet.set_vaults(Decimal::from_uint(1_000));

    state
        .receive_cw20(
            &TOKEN.to_string(),
            Some(Cw20HookMsg::Unbond),
            BONDER1.to_string(),
            100,
            1_000,
            40,
        )
        .unwrap();
    let err = state
        .receive_cw20(
            &TOKEN.to_string(),
            Some(Cw20HookMsg::Unbond),
            "bonder0001".to_string(),
            50,
            900,
            40,
        )
        .unwrap_err();
    assert_eq!(err, ContractError::ConflictingOperation);
}

#[test]
fn swap_liquidates_at_the_exchange_rate() {
    let mut state = init();

    // at an exchange rate of 1.25 the saga liquidates amount / 1.25
    let call = state
        .try_swap("native_swap_to_terra_swap", 1_000, Decimal { raw: 1_250_000 })
        .unwrap();

    assert_eq!(call.tag, ReplyTag::PrepareSwap);
    assert!(call.always);
    assert_eq!(call.msg, Dispatch::RedeemStable { amount: 800 });
    let pending = state.tmp_swap.unwrap();
    assert_eq!(pending.minimum_receive, 1_000);
    assert_eq!(
        pending.route,
        RoutePath { first: Venue::NativeSwap, second: Venue::TerraSwap }
    );
}

#[test]
fn second_swap_while_pending_is_rejected() {
    let mut state = init();

    state
        .try_swap("native_swap_to_terra_swap", 1_000, Decimal::one())
        .unwrap();
    let err = state
        .try_swap("astroport_to_loop", 2_000, Decimal::one())
        .unwrap_err();
    assert_eq!(err, ContractError::ConflictingOperation);
    assert_eq!(state.tmp_swap.unwrap().minimum_receive, 1_000);
}

#[test]
fn swap_with_unknown_venue_is_refused() {
    let mut state = init();

    let err = state
        .try_swap("native_swap_to_nowhere", 1_000, Decimal::one())
        .unwrap_err();
    assert_eq!(err, ContractError::FailedToParse);
    assert!(state.tmp_swap.is_none());
}

#[test]
fn prepared_amount_within_tolerance_is_dispatched() {
    let mut state = init();
    state
        .try_swap("native_swap_to_terra_swap", 1_000, Decimal::one())
        .unwrap();

    // 995 realized against a target of 1000: inside the tolerance of 10
    let call = state.resume_prepare_swap(995).unwrap();
    assert_eq!(call.tag, ReplyTag::Swap);
    assert!(call.always);
    assert_eq!(
        call.msg,
        Dispatch::ExecuteSwapRoute {
            route: RoutePath { first: Venue::NativeSwap, second: Venue::TerraSwap },
            amount: 995,
            minimum_receive: 995,
        }
    );
    assert_eq!(state.tmp_swap.unwrap().minimum_receive, 995);
}

#[test]
fn prepared_amount_beyond_tolerance_ends_the_saga() {
    let mut state = init();
    state
        .try_swap("native_swap_to_terra_swap", 1_000, Decimal::one())
        .unwrap();

    let err = state.resume_prepare_swap(989).unwrap_err();
    assert_eq!(err, ContractError::AmountMismatch);
    assert!(state.tmp_swap.is_none());
}

#[test]
fn swap_success_redeposits_the_proceeds() {
    let mut state = init();
    state
        .try_swap("native_swap_to_terra_swap", 1_000, Decimal::one())
        .unwrap();
    state.resume_prepare_swap(1_000).unwrap();

    let call = state.resume_swap(true, 1_200, 3).unwrap();
    assert_eq!(call.tag, ReplyTag::Execute);
    assert_eq!(call.msg, Dispatch::DepositStable { amount: 1_197 });
    assert!(state.tmp_swap.is_none());
}

#[test]
fn swap_retry_halves_until_the_floor() {
    let mut state = init();
    let target: u128 = 10_000_000_000_000;

    state
        .try_swap("native_swap_to_terra_swap", target, Decimal::one())
        .unwrap();
    let call = state.resume_prepare_swap(target).unwrap();
    match call.msg {
        Dispatch::ExecuteSwapRoute { amount, .. } => assert_eq!(amount, target),
        _ => panic!("expected a route dispatch"),
    }

    // nine failed legs re-dispatch half the previous target, never below
    // the floor and strictly decreasing
    let mut expected = target;
    for _ in 0..9 {
        expected /= 2;
        let retry = state.resume_swap(false, 0, 0).unwrap();
        match retry.msg {
            Dispatch::ExecuteSwapRoute { amount, minimum_receive, .. } => {
                assert_eq!(amount, expected);
                assert_eq!(minimum_receive, expected);
                assert!(amount >= LIMIT_MINIMUM);
            },
            _ => panic!("expected a route dispatch"),
        }
    }
    assert_eq!(expected, target / 512);

    // the tenth failure would halve below the floor: the saga ends
    // terminally instead of issuing an eleventh dispatch
    let err = state.resume_swap(false, 0, 0).unwrap_err();
    assert_eq!(err, ContractError::LimitMinimumReceived);
    assert!(state.tmp_swap.is_none());
}

#[test]
fn swap_resume_without_pending_swap_is_refused() {
    let mut state = init();

    assert_eq!(
        ContractError::InvalidReplyId,
        state.resume_prepare_swap(1_000).unwrap_err()
    );
    assert_eq!(
        ContractError::InvalidReplyId,
        state.resume_swap(false, 0, 0).unwrap_err()
    );
}

#[test]
fn claim_empties_the_pool_and_redeems() {
    let mut state = init();
    state.planet.set_vaults(Decimal::from_uint(100));
    state.planet.add_commission(Decimal::from_uint(7));

    let call = state.try_claim(&OWNER.to_string()).unwrap();
    assert_eq!(call.tag, ReplyTag::Claim);
    assert_eq!(call.msg, Dispatch::RedeemStable { amount: 7 });
    assert_eq!(Decimal::zero(), state.planet.get_commission());

    let dispatch = state.resume_claim(7, 1);
    assert_eq!(dispatch, Dispatch::BankSend { to: OWNER.to_string(), amount: 6 });
}

#[test]
fn migrate_resets_the_pool_to_the_held_balance() {
    let mut state = init();
    state.planet.set_vaults(Decimal::from_uint(100));

    state.resume_migrate(250).unwrap();
    assert_eq!(Decimal::from_uint(250), state.planet.get_vaults());
}

#[test]
fn router_update_is_owner_only() {
    let mut state = init();

    state
        .try_update_config(&OWNER.to_string(), None, None, None, Some("router0001".to_string()))
        .unwrap();
    assert_eq!("router0001".to_string(), state.router_addr);

    let err = state
        .try_update_config(&BONDER1.to_string(), None, None, None, Some("router0002".to_string()))
        .unwrap_err();
    assert_eq!(err, ContractError::Unauthorized);
    assert_eq!("router0001".to_string(), state.router_addr);
}
