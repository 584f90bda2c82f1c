use hope_mint::contract::{execute, instantiate, query, query_nft_address};
use hope_mint::error::ContractError;
use hope_mint::ident::{make_token_id, u128_to_decimal};
use hope_mint::msg::{
    ExecuteMsg, ExternalQuery, HopeMintMsg, InstantiateMsg, MessageInfo, QueryAnswer, QueryMsg,
};
use hope_mint::state::{
    read_maximum_nft, read_token_count, read_user_info, read_users, store_token_count,
    store_users, Store, TokenCount, UserInfo,
};

fn info(sender: &str) -> MessageInfo {
    MessageInfo { sender: sender.to_string() }
}

fn deposit(sender: &str, amount: u128) -> ExecuteMsg {
    ExecuteMsg::Receive {
        sender: sender.to_string(),
        amount,
        msg: HopeMintMsg {
            name: None,
            image_uri: None,
            external_link: None,
            description: None,
            royalties: None,
            init_price: None,
            nft_addr: None,
        },
    }
}

fn configured_store() -> Store {
    let mut store = Store::new();
    instantiate(&mut store, &info("creator"), InstantiateMsg {}).unwrap();
    execute(&mut store, &info("creator"), ExecuteMsg::SetTokenAddress {
        address: "pay".to_string(),
    })
    .unwrap();
    execute(&mut store, &info("creator"), ExecuteMsg::SetNftAddress {
        address: "reg".to_string(),
    })
    .unwrap();
    execute(&mut store, &info("creator"), ExecuteMsg::SetMaximumNft { amount: 10 }).unwrap();
    store
}

#[test]
fn query_dispatch_local() {
    let mut store = configured_store();
    execute(&mut store, &info("pay"), deposit("alice", 4)).unwrap();
    execute(&mut store, &info("pay"), deposit("bob", 4)).unwrap();

    match query(&store, QueryMsg::GetTokenAddress {}).unwrap() {
        QueryAnswer::TokenAddress(a) => assert_eq!(a, "pay"),
        other => panic!("unexpected answer {:?}", other),
    }
    match query(&store, QueryMsg::GetNftAddress {}).unwrap() {
        QueryAnswer::NftAddress(a) => assert_eq!(a, "reg"),
        other => panic!("unexpected answer {:?}", other),
    }
    match query(&store, QueryMsg::GetAllUsers {}).unwrap() {
        QueryAnswer::Users(us) => assert_eq!(us, vec!["alice".to_string(), "bob".to_string()]),
        other => panic!("unexpected answer {:?}", other),
    }
    match query(&store, QueryMsg::GetUserInfo { address: "alice".to_string() }).unwrap() {
        QueryAnswer::User(u) => {
            assert_eq!(u.address, "alice");
            assert_eq!(u.nft, vec!["Hope.0".to_string()]);
        }
        other => panic!("unexpected answer {:?}", other),
    }
    match query(&store, QueryMsg::GetTokenCount { address: "bob".to_string() }).unwrap() {
        QueryAnswer::Count(tc) => {
            assert_eq!(tc, TokenCount { total_nft: 2, owned_nft_number: 1 })
        }
        other => panic!("unexpected answer {:?}", other),
    }
    match query(&store, QueryMsg::GetMaximumNft {}).unwrap() {
        QueryAnswer::MaximumNft(m) => assert_eq!(m, 10),
        other => panic!("unexpected answer {:?}", other),
    }
    match query(&store, QueryMsg::GetStateInfo {}).unwrap() {
        QueryAnswer::StateInfo(st) => {
            assert_eq!(st.owner, "creator");
            assert_eq!(st.total_nft, 2);
        }
        other => panic!("unexpected answer {:?}", other),
    }
    let err = query(&store, QueryMsg::GetUserInfo { address: "nobody".to_string() }).unwrap_err();
    assert_eq!(err, ContractError::NotFound);
}

#[test]
fn query_dispatch_external() {
    let store = configured_store();
    match query(&store, QueryMsg::GetContractInfo {}).unwrap() {
        QueryAnswer::External { contract_addr, request } => {
            assert_eq!(contract_addr, "reg");
            assert_eq!(request, ExternalQuery::ContractInfo);
        }
        other => panic!("unexpected answer {:?}", other),
    }
    match query(&store, QueryMsg::GetTokenInfo { address: "alice".to_string() }).unwrap() {
        QueryAnswer::External { contract_addr, request } => {
            assert_eq!(contract_addr, "reg");
            assert_eq!(request, ExternalQuery::Tokens { owner: "alice".to_string() });
        }
        other => panic!("unexpected answer {:?}", other),
    }
    match query(&store, QueryMsg::GetBalance { address: "alice".to_string() }).unwrap() {
        QueryAnswer::External { contract_addr, request } => {
            assert_eq!(contract_addr, "pay");
            assert_eq!(request, ExternalQuery::Balance { address: "alice".to_string() });
        }
        other => panic!("unexpected answer {:?}", other),
    }
    // Unconfigured: the pass-through queries fail like their local readers.
    let bare = Store::new();
    let err = query(&bare, QueryMsg::GetContractInfo {}).unwrap_err();
    assert_eq!(err, ContractError::ConfigurationMissing);
    assert_eq!(query_nft_address(&bare).unwrap_err(), ContractError::ConfigurationMissing);
}

#[test]
fn decimal_formatting() {
    assert_eq!(u128_to_decimal(0), "0");
    assert_eq!(u128_to_decimal(7), "7");
    assert_eq!(u128_to_decimal(10), "10");
    assert_eq!(u128_to_decimal(1999), "1999");
    assert_eq!(u128_to_decimal(1_000_000), "1000000");
    assert_eq!(u128_to_decimal(u128::MAX), "340282366920938463463374607431768211455");
    assert_eq!(make_token_id(0), "Hope.0");
    assert_eq!(make_token_id(42), "Hope.42");
    assert_eq!(make_token_id(1999), "Hope.1999");
}

#[test]
fn store_accessors_roundtrip() {
    let mut store = Store::new();
    assert_eq!(read_maximum_nft(&store).unwrap_err(), ContractError::ConfigurationMissing);
    assert!(read_token_count(&store, &"x".to_string()).is_none());
    assert!(read_user_info(&store, &"x".to_string()).is_none());
    assert!(read_users(&store).is_empty());

    store_token_count(&mut store, &"x".to_string(), 3);
    assert_eq!(read_token_count(&store, &"x".to_string()), Some(3));

    let rec = UserInfo { address: "x".to_string(), nft: vec!["Hope.9".to_string()] };
    store_users(&mut store, &"x".to_string(), rec);
    let got = read_user_info(&store, &"x".to_string()).unwrap();
    assert_eq!(got.address, "x");
    assert_eq!(got.nft, vec!["Hope.9".to_string()]);
    assert_eq!(read_users(&store), vec!["x".to_string()]);

    // Overwriting an existing record does not duplicate the participant.
    let rec = UserInfo { address: "x".to_string(), nft: vec![] };
    store_users(&mut store, &"x".to_string(), rec);
    assert_eq!(read_users(&store), vec!["x".to_string()]);
}
