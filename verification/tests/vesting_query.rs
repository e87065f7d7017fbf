use neutron_lockdrop_vault::vesting::{vesting_query, VestingQuery};

#[test]
fn unclaimed_amount_is_ten_thousand() {
    let q = VestingQuery::UnclaimedAmountAtHeight { address: "addr1".to_string(), height: None };
    assert_eq!(vesting_query(&q).unwrap(), b"\"10000\"".to_vec());
    let q = VestingQuery::UnclaimedAmountAtHeight { address: "addr2".to_string(), height: Some(12) };
    assert_eq!(vesting_query(&q).unwrap(), b"\"10000\"".to_vec());
}

#[test]
fn unclaimed_total_amount_is_ten_thousand() {
    let q = VestingQuery::UnclaimedTotalAmountAtHeight { height: None };
    let bytes = vesting_query(&q).unwrap();
    assert_eq!(bytes, b"\"10000\"".to_vec());
    let amount: cosmwasm_std::Uint128 = cosmwasm_std::from_json(&bytes).unwrap();
    assert_eq!(amount, cosmwasm_std::Uint128::from(10000u64));
}
