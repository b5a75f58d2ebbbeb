use vault_admin::call::{
    add_reserve_args, claim_emissions_args, claim_fees_args, emission_token_ids, initialize_args,
    liquidity_args, set_admin_args, set_take_rate_args, widen,
};
use vault_admin::{
    CallArg, ClaimFeesRequest, DispatchError, InitializeRequest, LiquidityRequest, ReserveConfig,
    SetAdminRequest, SetTakeRateRequest,
};

fn address(text: &str) -> CallArg {
    CallArg::Address(text.to_string())
}

fn reserves(indices: &[u32]) -> Vec<ReserveConfig> {
    indices.iter().map(|index| ReserveConfig { index: *index }).collect()
}

#[test]
fn widen_keeps_the_value() {
    assert_eq!(widen(0), 0i128);
    assert_eq!(widen(500), 500i128);
    assert_eq!(widen(-1), -1i128);
    assert_eq!(widen(i64::MAX), 9_223_372_036_854_775_807i128);
    assert_eq!(widen(i64::MIN), -9_223_372_036_854_775_808i128);
}

#[test]
fn initialize_args_are_admin_pool_rate() {
    let req = InitializeRequest {
        vault: "V".to_string(),
        admin: "A".to_string(),
        pool: "P".to_string(),
        take_rate: 1_000_000,
    };
    assert_eq!(
        initialize_args(&req),
        vec![address("A"), address("P"), CallArg::I128(1_000_000)]
    );
}

#[test]
fn add_reserve_args_are_slot_reserve() {
    assert_eq!(add_reserve_args(7, &"R".to_string()), vec![CallArg::U32(7), address("R")]);
}

#[test]
fn set_admin_args_are_the_new_admin() {
    let req = SetAdminRequest { vault: "V".to_string(), new_admin: "N".to_string() };
    assert_eq!(set_admin_args(&req), vec![address("N")]);
}

#[test]
fn set_take_rate_args_are_the_rate() {
    let req = SetTakeRateRequest { vault: "V".to_string(), take_rate: -5 };
    assert_eq!(set_take_rate_args(&req), vec![CallArg::I128(-5)]);
}

#[test]
fn claim_fees_args_are_reserve_destination_amount() {
    let req = ClaimFeesRequest {
        vault: "V".to_string(),
        reserve: "R".to_string(),
        to: "T".to_string(),
        amount: 500,
    };
    assert_eq!(claim_fees_args(&req), vec![address("R"), address("T"), CallArg::I128(500)]);
}

#[test]
fn liquidity_args_are_reserve_user_amount() {
    let req = LiquidityRequest {
        vault: "V".to_string(),
        action: "deposit".to_string(),
        reserve: "R".to_string(),
        user: "U".to_string(),
        amount: i64::MAX,
    };
    assert_eq!(
        liquidity_args(&req),
        vec![address("R"), address("U"), CallArg::I128(i64::MAX as i128)]
    );
}

#[test]
fn token_ids_of_no_reserves_are_none() {
    assert_eq!(emission_token_ids(&reserves(&[])), Ok(vec![]));
}

#[test]
fn token_ids_come_in_pairs_in_list_order() {
    assert_eq!(emission_token_ids(&reserves(&[0])), Ok(vec![0, 1]));
    assert_eq!(
        emission_token_ids(&reserves(&[3, 0, 5])),
        Ok(vec![6, 7, 0, 1, 10, 11])
    );
}

#[test]
fn token_ids_count_is_twice_the_reserves() {
    let indices: Vec<u32> = (0..50).collect();
    let ids = emission_token_ids(&reserves(&indices)).unwrap();
    assert_eq!(ids.len(), 100);
    for (i, index) in indices.iter().enumerate() {
        assert_eq!(ids[2 * i], 2 * index);
        assert_eq!(ids[2 * i + 1], 2 * index + 1);
    }
}

#[test]
fn token_ids_repeat_for_a_repeated_slot() {
    assert_eq!(emission_token_ids(&reserves(&[2, 2])), Ok(vec![4, 5, 4, 5]));
}

#[test]
fn largest_slot_with_token_ids() {
    assert_eq!(
        emission_token_ids(&reserves(&[2_147_483_647])),
        Ok(vec![4_294_967_294, 4_294_967_295])
    );
}

#[test]
fn slot_beyond_the_largest_overflows() {
    assert_eq!(
        emission_token_ids(&reserves(&[2_147_483_648])),
        Err(DispatchError::TokenIdOverflow)
    );
    assert_eq!(
        emission_token_ids(&reserves(&[1, u32::MAX, 2])),
        Err(DispatchError::TokenIdOverflow)
    );
}

#[test]
fn claim_emissions_args_are_ids_destination() {
    assert_eq!(
        claim_emissions_args(&reserves(&[1, 4]), &"T".to_string()),
        Ok(vec![CallArg::U32Vec(vec![2, 3, 8, 9]), address("T")])
    );
    assert_eq!(
        claim_emissions_args(&reserves(&[]), &"T".to_string()),
        Ok(vec![CallArg::U32Vec(vec![]), address("T")])
    );
}

#[test]
fn claim_emissions_args_overflow() {
    assert_eq!(
        claim_emissions_args(&reserves(&[u32::MAX]), &"T".to_string()),
        Err(DispatchError::TokenIdOverflow)
    );
}
