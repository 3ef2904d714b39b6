//! The raw ledger accessors: pools start empty, deltas add up, the
//! commission pool empties in one move.

use starflet::asset::AssetInfo;
use starflet::dec::Decimal;
use starflet::planet::PlanetState;

const OWNER: &str = "owner0000";

fn init() -> PlanetState {
    let (state, _call) = PlanetState::instantiate(
        OWNER.to_string(),
        Decimal { raw: 100_000 },
        AssetInfo::NativeToken { denom: "uusd".to_string() },
        123u64,
        "TTN".to_string(),
    );
    state
}

#[test]
fn state_test_store_add_commission() {
    let mut state = init();

    let amount = Decimal::one();

    state.add_vaults(amount);
    assert_eq!(state.get_vaults(), amount);
}

#[test]
fn test_store_sub_commission() {
    let mut state = init();

    let amount = Decimal::one();

    state.add_vaults(amount);
    state.add_vaults(amount);
    assert_eq!(state.get_vaults(), amount.add_dec(amount));

    state.sub_vaults(amount);
    assert_eq!(state.get_vaults(), amount);
}

#[test]
fn test_store_add_commission() {
    let mut state = init();

    let amount = Decimal::one();

    state.add_commission(amount);
    assert_eq!(state.get_commission(), amount);
}

#[test]
fn test_store_all_commission() {
    let mut state = init();

    let amount = Decimal::one();

    state.add_commission(amount);
    state.add_commission(amount);
    assert_eq!(state.get_commission(), amount.add_dec(amount));

    let taken = state.sub_all_commission();
    assert_eq!(taken, amount.add_dec(amount));
    assert_eq!(state.get_commission(), Decimal::zero());
}
