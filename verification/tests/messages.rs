use neutron_lockdrop_vault::msg::{EmptyMsg, ExecuteMsg, InstantiateMsg, MigrateMsg, QueryMsg};

#[test]
fn migrate_messages_are_equal() {
    assert_eq!(MigrateMsg {}, MigrateMsg {});
}

#[test]
fn messages_carry_their_fields() {
    let msg = InstantiateMsg {
        name: "vault".to_string(),
        description: "description".to_string(),
        lockdrop_contract: "lockdrop".to_string(),
        usdc_cl_pool_contract: "usdc".to_string(),
        atom_cl_pool_contract: "atom".to_string(),
        owner: "dao".to_string(),
    };
    let copy = msg.clone();
    assert_eq!(copy.owner, "dao");
    assert_eq!(copy.lockdrop_contract, "lockdrop");

    match (ExecuteMsg::Unbond { amount: 10000 }).clone() {
        ExecuteMsg::Unbond { amount } => assert_eq!(amount, 10000),
        _ => panic!("wrong variant"),
    }
    let q = QueryMsg::VotingPowerAtHeight { address: "addr1".to_string(), height: None };
    assert_eq!(q.clone(), q);
    assert_ne!(q, QueryMsg::TotalPowerAtHeight { height: None });
    let _ = EmptyMsg {}.clone();
}
