use hope_mint::contract::{
    execute, instantiate, query_get_address, query_get_info, query_get_users, query_maximum_nft,
    query_token_count, query_user_info,
};
use hope_mint::error::ContractError;
use hope_mint::msg::{ExecuteMsg, HopeMintMsg, InstantiateMsg, MessageInfo, OutboundMsg};
use hope_mint::state::{Metadata, Royalty, State, Store, TokenCount};

fn info(sender: &str) -> MessageInfo {
    MessageInfo { sender: sender.to_string() }
}

fn mint_msg() -> HopeMintMsg {
    HopeMintMsg {
        name: Some("hope1".to_string()),
        image_uri: Some("https://hope1".to_string()),
        external_link: Some("https://hope1".to_string()),
        description: Some("Galaxy NFT".to_string()),
        init_price: Some(1),
        nft_addr: Some("Nft_address".to_string()),
        royalties: Some(vec![Royalty {
            address: "creator".to_string(),
            royalty_rate: 300_000_000_000_000_000,
        }]),
    }
}

fn deposit(sender: &str, amount: u128) -> ExecuteMsg {
    ExecuteMsg::Receive { sender: sender.to_string(), amount, msg: mint_msg() }
}

#[test]
fn buy_token() {
    let mut store = Store::new();
    let instantiate_msg = InstantiateMsg {};
    let res = instantiate(&mut store, &info("creator"), instantiate_msg).unwrap();
    assert_eq!(0, res.messages.len());

    let address = String::from("token_address");
    let message = ExecuteMsg::SetTokenAddress { address };
    execute(&mut store, &info("creator"), message).unwrap();

    let res = query_get_address(&store).unwrap();
    assert_eq!(res, "token_address");

    let amount = 100;
    let message = ExecuteMsg::BuyToken { amount };
    // Direct issuance is owner-triggered: any other caller is turned away.
    let err = execute(&mut store, &info("sender"), message).unwrap_err();
    assert_eq!(err, ContractError::Unauthorized);

    let message = ExecuteMsg::BuyToken { amount };
    let res = execute(&mut store, &info("creator"), message).unwrap();
    assert_eq!(
        res.messages[0],
        OutboundMsg::MintTokens {
            contract_addr: String::from("token_address"),
            recipient: String::from("creator"),
            amount: 100,
        }
    );
}

#[test]
fn receive() {
    let mut store = Store::new();
    let instantiate_msg = InstantiateMsg {};
    let res = instantiate(&mut store, &info("creator"), instantiate_msg).unwrap();
    assert_eq!(0, res.messages.len());

    let token_count = query_token_count(&store, "sender".to_string()).unwrap();
    assert_eq!(token_count, TokenCount { owned_nft_number: 0, total_nft: 0 });

    let msg = ExecuteMsg::SetTokenAddress { address: "token_contract".to_string() };
    execute(&mut store, &info("creator"), msg).unwrap();

    let msg = ExecuteMsg::SetNftAddress { address: "nft_contract".to_string() };
    execute(&mut store, &info("creator"), msg).unwrap();

    let msg = ExecuteMsg::SetMaximumNft { amount: 5 };
    execute(&mut store, &info("creator"), msg).unwrap();

    let maximum_nft = query_maximum_nft(&store).unwrap();
    assert_eq!(maximum_nft, 5);

    let meta_data = Metadata {
        name: Some("hope1".to_string()),
        description: Some("Galaxy NFT".to_string()),
        external_link: Some("https://hope1".to_string()),
        royalties: Some(vec![Royalty {
            address: "creator".to_string(),
            royalty_rate: 300_000_000_000_000_000,
        }]),
        init_price: Some(1),
    };

    let res = execute(&mut store, &info("token_contract"), deposit("sender", 1)).unwrap();
    assert_eq!(res.messages.len(), 2);
    assert_eq!(
        res.messages[0],
        OutboundMsg::Transfer {
            contract_addr: "token_contract".to_string(),
            recipient: "creator".to_string(),
            amount: 1,
        }
    );
    assert_eq!(
        res.messages[1],
        OutboundMsg::MintNft {
            contract_addr: "nft_contract".to_string(),
            token_id: "Hope.0".to_string(),
            owner: "sender".to_string(),
            token_uri: Some("https://hope1".to_string()),
            extension: meta_data,
        }
    );
    let token_count = query_token_count(&store, "sender".to_string()).unwrap();
    assert_eq!(token_count, TokenCount { total_nft: 1, owned_nft_number: 1 });

    for _i in 0..4 {
        execute(&mut store, &info("token_contract"), deposit("sender", 1)).unwrap();
    }
    let token_count = query_token_count(&store, "sender".to_string()).unwrap();
    assert_eq!(token_count, TokenCount { total_nft: 5, owned_nft_number: 5 });

    execute(&mut store, &info("token_contract"), deposit("sender1", 1)).unwrap();
    let token_count = query_token_count(&store, "sender".to_string()).unwrap();
    assert_eq!(token_count, TokenCount { total_nft: 6, owned_nft_number: 5 });

    for i in 7..2001 {
        let sender = i.to_string() + "sender";
        execute(&mut store, &info("token_contract"), deposit(&sender, 1)).unwrap();
    }

    let users = query_get_users(&store);
    assert_eq!(users.len(), 1996);

    let token_count = query_token_count(&store, "2000sender".to_string()).unwrap();
    assert_eq!(token_count, TokenCount { total_nft: 2000, owned_nft_number: 1 });

    let state = query_get_info(&store).unwrap();
    assert_eq!(state, State { owner: "creator".to_string(), total_nft: 2000 });
}

#[test]
fn example_scenario() {
    let mut store = Store::new();
    instantiate(&mut store, &info("A"), InstantiateMsg {}).unwrap();
    execute(&mut store, &info("A"), ExecuteMsg::SetTokenAddress { address: "P".to_string() })
        .unwrap();
    execute(&mut store, &info("A"), ExecuteMsg::SetNftAddress { address: "R".to_string() })
        .unwrap();
    execute(&mut store, &info("A"), ExecuteMsg::SetMaximumNft { amount: 5 }).unwrap();

    for k in 0..5 {
        let res = execute(&mut store, &info("P"), deposit("U", 3)).unwrap();
        assert_eq!(res.messages.len(), 2);
        match &res.messages[1] {
            OutboundMsg::MintNft { token_id, owner, .. } => {
                assert_eq!(token_id.as_str(), format!("Hope.{}", k).as_str());
                assert_eq!(owner.as_str(), "U");
            }
            other => panic!("expected an asset mint, got {:?}", other),
        }
    }
    let token_count = query_token_count(&store, "U".to_string()).unwrap();
    assert_eq!(token_count, TokenCount { total_nft: 5, owned_nft_number: 5 });

    let err = execute(&mut store, &info("P"), deposit("U", 3)).unwrap_err();
    assert_eq!(err, ContractError::MintExceeded);
    let token_count = query_token_count(&store, "U".to_string()).unwrap();
    assert_eq!(token_count, TokenCount { total_nft: 5, owned_nft_number: 5 });

    let res = execute(&mut store, &info("P"), deposit("V", 3)).unwrap();
    match &res.messages[1] {
        OutboundMsg::MintNft { token_id, owner, .. } => {
            assert_eq!(token_id.as_str(), "Hope.5");
            assert_eq!(owner.as_str(), "V");
        }
        other => panic!("expected an asset mint, got {:?}", other),
    }
    let state = query_get_info(&store).unwrap();
    assert_eq!(state.total_nft, 6);
}

#[test]
fn ceiling_reached_fails_and_changes_nothing() {
    let mut store = Store::new();
    instantiate(&mut store, &info("creator"), InstantiateMsg {}).unwrap();
    execute(&mut store, &info("creator"), ExecuteMsg::SetTokenAddress {
        address: "pay".to_string(),
    })
    .unwrap();
    execute(&mut store, &info("creator"), ExecuteMsg::SetNftAddress {
        address: "reg".to_string(),
    })
    .unwrap();
    execute(&mut store, &info("creator"), ExecuteMsg::SetMaximumNft { amount: 3000 }).unwrap();

    for i in 0..2000 {
        let sender = format!("user{}", i);
        execute(&mut store, &info("pay"), deposit(&sender, 1)).unwrap();
    }
    let state = query_get_info(&store).unwrap();
    assert_eq!(state.total_nft, 2000);

    let err = execute(&mut store, &info("pay"), deposit("late", 1)).unwrap_err();
    assert_eq!(err, ContractError::MintEnded);
    let state = query_get_info(&store).unwrap();
    assert_eq!(state.total_nft, 2000);
    let token_count = query_token_count(&store, "late".to_string()).unwrap();
    assert_eq!(token_count, TokenCount { total_nft: 2000, owned_nft_number: 0 });
    assert_eq!(query_get_users(&store).len(), 2000);
}

#[test]
fn quota_zero_allows_single_mint() {
    // With a quota of zero the first deposit still passes, because a
    // participant without a record is not checked against the quota; the
    // second is rejected.
    let mut store = Store::new();
    instantiate(&mut store, &info("creator"), InstantiateMsg {}).unwrap();
    execute(&mut store, &info("creator"), ExecuteMsg::SetTokenAddress {
        address: "pay".to_string(),
    })
    .unwrap();
    execute(&mut store, &info("creator"), ExecuteMsg::SetNftAddress {
        address: "reg".to_string(),
    })
    .unwrap();
    execute(&mut store, &info("creator"), ExecuteMsg::SetMaximumNft { amount: 0 }).unwrap();

    execute(&mut store, &info("pay"), deposit("u", 1)).unwrap();
    let err = execute(&mut store, &info("pay"), deposit("u", 1)).unwrap_err();
    assert_eq!(err, ContractError::MintExceeded);
    let token_count = query_token_count(&store, "u".to_string()).unwrap();
    assert_eq!(token_count, TokenCount { total_nft: 1, owned_nft_number: 1 });
}

#[test]
fn unauthorized_setters() {
    let mut store = Store::new();
    instantiate(&mut store, &info("creator"), InstantiateMsg {}).unwrap();
    let err = execute(&mut store, &info("mallory"), ExecuteMsg::SetTokenAddress {
        address: "pay".to_string(),
    })
    .unwrap_err();
    assert_eq!(err, ContractError::Unauthorized);
    let err = execute(&mut store, &info("mallory"), ExecuteMsg::SetNftAddress {
        address: "reg".to_string(),
    })
    .unwrap_err();
    assert_eq!(err, ContractError::Unauthorized);
    let err =
        execute(&mut store, &info("mallory"), ExecuteMsg::SetMaximumNft { amount: 5 }).unwrap_err();
    assert_eq!(err, ContractError::Unauthorized);
    assert_eq!(query_get_address(&store).unwrap_err(), ContractError::ConfigurationMissing);
}

#[test]
fn configuration_missing_on_deposit() {
    let mut store = Store::new();
    // Before initialization even the deposit fails with a configuration error.
    let err = execute(&mut store, &info("pay"), deposit("u", 1)).unwrap_err();
    assert_eq!(err, ContractError::ConfigurationMissing);

    instantiate(&mut store, &info("creator"), InstantiateMsg {}).unwrap();
    // No quota set: rejected even for a first-time participant.
    let err = execute(&mut store, &info("pay"), deposit("u", 1)).unwrap_err();
    assert_eq!(err, ContractError::ConfigurationMissing);

    execute(&mut store, &info("creator"), ExecuteMsg::SetMaximumNft { amount: 5 }).unwrap();
    // No payment service address.
    let err = execute(&mut store, &info("pay"), deposit("u", 1)).unwrap_err();
    assert_eq!(err, ContractError::ConfigurationMissing);

    execute(&mut store, &info("creator"), ExecuteMsg::SetTokenAddress {
        address: "pay".to_string(),
    })
    .unwrap();
    // No registry service address.
    let err = execute(&mut store, &info("pay"), deposit("u", 1)).unwrap_err();
    assert_eq!(err, ContractError::ConfigurationMissing);

    execute(&mut store, &info("creator"), ExecuteMsg::SetNftAddress {
        address: "reg".to_string(),
    })
    .unwrap();
    execute(&mut store, &info("pay"), deposit("u", 1)).unwrap();
    // Nothing was counted for the failed attempts.
    let token_count = query_token_count(&store, "u".to_string()).unwrap();
    assert_eq!(token_count, TokenCount { total_nft: 1, owned_nft_number: 1 });
}

#[test]
fn owner_unchanged_by_all_operations() {
    let mut store = Store::new();
    instantiate(&mut store, &info("creator"), InstantiateMsg {}).unwrap();
    execute(&mut store, &info("creator"), ExecuteMsg::SetTokenAddress {
        address: "pay".to_string(),
    })
    .unwrap();
    execute(&mut store, &info("creator"), ExecuteMsg::SetNftAddress {
        address: "reg".to_string(),
    })
    .unwrap();
    execute(&mut store, &info("creator"), ExecuteMsg::SetMaximumNft { amount: 2 }).unwrap();
    execute(&mut store, &info("pay"), deposit("u", 1)).unwrap();
    execute(&mut store, &info("creator"), ExecuteMsg::BuyToken { amount: 7 }).unwrap();
    let _ = execute(&mut store, &info("someone"), ExecuteMsg::BuyToken { amount: 7 });
    let _ = execute(&mut store, &info("mallory"), ExecuteMsg::SetMaximumNft { amount: 9 });
    let state = query_get_info(&store).unwrap();
    assert_eq!(state.owner, "creator");
}

#[test]
fn ledger_consistency_after_mixed_deposits() {
    let mut store = Store::new();
    instantiate(&mut store, &info("creator"), InstantiateMsg {}).unwrap();
    execute(&mut store, &info("creator"), ExecuteMsg::SetTokenAddress {
        address: "pay".to_string(),
    })
    .unwrap();
    execute(&mut store, &info("creator"), ExecuteMsg::SetNftAddress {
        address: "reg".to_string(),
    })
    .unwrap();
    execute(&mut store, &info("creator"), ExecuteMsg::SetMaximumNft { amount: 4 }).unwrap();

    let senders = ["a", "b", "a", "c", "a", "b"];
    for s in senders.iter() {
        execute(&mut store, &info("pay"), deposit(s, 2)).unwrap();
    }
    // Every participant's record length equals its independent counter.
    for s in query_get_users(&store) {
        let user = query_user_info(&store, s.clone()).unwrap();
        let count = query_token_count(&store, s.clone()).unwrap();
        assert_eq!(user.nft.len() as u128, count.owned_nft_number);
        assert_eq!(user.address, s);
    }
    let a = query_user_info(&store, "a".to_string()).unwrap();
    assert_eq!(a.nft, vec!["Hope.0".to_string(), "Hope.2".to_string(), "Hope.4".to_string()]);
    let err = query_user_info(&store, "never".to_string()).unwrap_err();
    assert_eq!(err, ContractError::NotFound);
}

#[test]
fn buy_token_validation() {
    let mut store = Store::new();
    instantiate(&mut store, &info("creator"), InstantiateMsg {}).unwrap();
    execute(&mut store, &info("creator"), ExecuteMsg::SetTokenAddress {
        address: "pay".to_string(),
    })
    .unwrap();
    // A negative amount is malformed, even for the owner.
    let err = execute(&mut store, &info("creator"), ExecuteMsg::BuyToken { amount: -1 })
        .unwrap_err();
    assert_eq!(err, ContractError::Malformed);
    // A non-owner caller is turned away before the amount is looked at.
    let err = execute(&mut store, &info("s"), ExecuteMsg::BuyToken { amount: -1 }).unwrap_err();
    assert_eq!(err, ContractError::Unauthorized);
    let res = execute(&mut store, &info("creator"), ExecuteMsg::BuyToken { amount: 7 }).unwrap();
    assert_eq!(
        res.messages[0],
        OutboundMsg::MintTokens {
            contract_addr: "pay".to_string(),
            recipient: "creator".to_string(),
            amount: 7,
        }
    );
    assert_eq!(res.attributes.len(), 1);
    assert_eq!(res.attributes[0].key, "action");
    assert_eq!(res.attributes[0].value, "buy");
    // Before initialization the direct issuance fails as unconfigured.
    let bare = Store::new();
    let err = hope_mint::contract::execute_buy_token(&bare, &info("s"), 5).unwrap_err();
    assert_eq!(err, ContractError::ConfigurationMissing);
    // With an owner but no payment service address, the owner's request
    // still fails as unconfigured.
    let mut unconfigured = Store::new();
    instantiate(&mut unconfigured, &info("creator"), InstantiateMsg {}).unwrap();
    let err = execute(&mut unconfigured, &info("creator"), ExecuteMsg::BuyToken { amount: 7 })
        .unwrap_err();
    assert_eq!(err, ContractError::ConfigurationMissing);
}

#[test]
fn participants_listed_in_ascending_order() {
    let mut store = Store::new();
    instantiate(&mut store, &info("creator"), InstantiateMsg {}).unwrap();
    execute(&mut store, &info("creator"), ExecuteMsg::SetTokenAddress {
        address: "pay".to_string(),
    })
    .unwrap();
    execute(&mut store, &info("creator"), ExecuteMsg::SetNftAddress {
        address: "reg".to_string(),
    })
    .unwrap();
    execute(&mut store, &info("creator"), ExecuteMsg::SetMaximumNft { amount: 9 }).unwrap();
    for s in ["delta", "bravo", "echo", "alpha", "charlie", "bravo"] {
        execute(&mut store, &info("pay"), deposit(s, 1)).unwrap();
    }
    assert_eq!(
        query_get_users(&store),
        vec![
            "alpha".to_string(),
            "bravo".to_string(),
            "charlie".to_string(),
            "delta".to_string(),
            "echo".to_string(),
        ]
    );
}
