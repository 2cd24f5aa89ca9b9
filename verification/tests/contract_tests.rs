use cw721_fixed_price::contract::{
    execute, instantiate, query, query_config, quere_balance, reply, INSTANTIATE_TOKEN_REPLY_ID,
};
use cw721_fixed_price::error::{ContractError, PaymentError};
use cw721_fixed_price::msg::{ExecuteMsg, InstantiateMsg, QueryAnswer, QueryMsg};
use cw721_fixed_price::payment::Coin;
use cw721_fixed_price::response::{Instruction, Response};
use cw721_fixed_price::state::{BalanceEntry, ContractState};

const NFT_CONTRACT_ADDR: &str = "nftcontract";
const TOKEN_DENOM: &str = "uxion";
const SECOND_DENOM: &str = "uatom";
const MOCK_CONTRACT_ADDR: &str = "cosmos2contract";

fn sample_msg() -> InstantiateMsg {
    InstantiateMsg {
        owner: String::from("owner"),
        denom1: String::from(TOKEN_DENOM),
        denom2: String::from(SECOND_DENOM),
        unit_price1: 1,
        unit_price2: 2,
        name: String::from("FRACTIT"),
        symbol: String::from("FRACTIT"),
        token_code_id: 10u64,
        token_uri: String::from("https://ipfs.io/ipfs/Q"),
        extension: None,
        withdraw_address: None,
    }
}

fn coins(amount: u128, denom: &str) -> Vec<Coin> {
    vec![Coin { denom: String::from(denom), amount }]
}

fn push_varint(out: &mut Vec<u8>, mut n: u64) {
    loop {
        let byte = (n & 0x7f) as u8;
        n >>= 7;
        if n == 0 {
            out.push(byte);
            return;
        }
        out.push(byte | 0x80);
    }
}

/// The protobuf encoding of an instantiation result: field 1 the contract
/// address, field 2 opaque data bytes.
fn instantiate_reply_payload(addr: &str, data_len: usize) -> Vec<u8> {
    let mut out: Vec<u8> = Vec::new();
    out.push(0x0a);
    push_varint(&mut out, addr.len() as u64);
    out.extend_from_slice(addr.as_bytes());
    if data_len > 0 {
        out.push(0x12);
        push_varint(&mut out, data_len as u64);
        out.extend_from_slice(&vec![2u8; data_len]);
    }
    out
}

fn instantiated() -> (ContractState, Response) {
    instantiate(String::from("owner"), sample_msg()).unwrap()
}

fn linked() -> ContractState {
    let (mut state, _res) = instantiated();
    let payload = instantiate_reply_payload(NFT_CONTRACT_ADDR, 32769);
    reply(&mut state, INSTANTIATE_TOKEN_REPLY_ID, &payload).unwrap();
    state
}

fn mint(state: &mut ContractState, sender: &str, funds: Vec<Coin>, denom: &str) -> Result<Response, ContractError> {
    execute(
        state,
        String::from(sender),
        &funds,
        ExecuteMsg::Mint { denom: String::from(denom) },
    )
}

#[test]
fn proper_initialization() {
    let (mut state, res) = instantiated();

    assert_eq!(
        res.messages,
        vec![Instruction::InstantiateToken {
            code_id: 10u64,
            name: String::from("FRACTIT"),
            symbol: String::from("FRACTIT"),
            minter: None,
            withdraw_address: None,
            label: String::from("Instantiate fixed price NFT contract"),
            reply_id: INSTANTIATE_TOKEN_REPLY_ID,
        }]
    );
    assert_eq!(state.config.cw721_address, None);

    let payload = instantiate_reply_payload(NFT_CONTRACT_ADDR, 32769);
    reply(&mut state, INSTANTIATE_TOKEN_REPLY_ID, &payload).unwrap();

    let config = query_config(&state);
    assert_eq!(config.owner, String::from("owner"));
    assert_eq!(config.cw721_address, Some(String::from(NFT_CONTRACT_ADDR)));
    assert_eq!(config.denom1, String::from(TOKEN_DENOM));
    assert_eq!(config.denom2, String::from(SECOND_DENOM));
    assert_eq!(config.unit_price1, 1);
    assert_eq!(config.uint_price2, 2);
    assert_eq!(config.total_mint, 0);
    assert_eq!(config.unused_token_id, 0);
}

#[test]
fn mint_nft() {
    let mut state = linked();

    let res = mint(&mut state, MOCK_CONTRACT_ADDR, coins(1, TOKEN_DENOM), TOKEN_DENOM).unwrap();

    assert_eq!(
        res.messages[0],
        Instruction::MintToken {
            contract: String::from(NFT_CONTRACT_ADDR),
            token_id: String::from("0"),
            owner: String::from(MOCK_CONTRACT_ADDR),
            token_uri: Some(String::from("https://ipfs.io/ipfs/Q")),
            extension: None,
        }
    );
}

#[test]
fn invalid_unit_price() {
    let mut msg = sample_msg();
    msg.unit_price1 = 0;
    let err = instantiate(String::from("owner"), msg).unwrap_err();
    match err {
        ContractError::InvalidUnitPrice => {}
        e => panic!("unexpected error: {e:?}"),
    }
}

#[test]
fn zero_second_price_rejected() {
    let mut msg = sample_msg();
    msg.unit_price2 = 0;
    let err = instantiate(String::from("owner"), msg).unwrap_err();
    match err {
        ContractError::InvalidUnitPrice => {}
        e => panic!("unexpected error: {e:?}"),
    }
}

#[test]
fn uninitialized() {
    let (mut state, _res) = instantiated();

    let err = mint(&mut state, MOCK_CONTRACT_ADDR, coins(1, TOKEN_DENOM), TOKEN_DENOM).unwrap_err();
    match err {
        ContractError::Uninitialized => {}
        e => panic!("unexpected error: {e:?}"),
    }
    assert_eq!(state.total_mint, 0);
    assert_eq!(state.balances.len(), 0);
}

#[test]
fn sold_out() {
    let mut state = linked();

    mint(&mut state, MOCK_CONTRACT_ADDR, coins(1, TOKEN_DENOM), TOKEN_DENOM).unwrap();
}

#[test]
fn wrong_amount() {
    let mut state = linked();

    let err = mint(&mut state, MOCK_CONTRACT_ADDR, coins(2, TOKEN_DENOM), TOKEN_DENOM).unwrap_err();
    match err {
        ContractError::WrongPaymentAmount => {}
        e => panic!("unexpected error: {e:?}"),
    }
    assert_eq!(state.total_mint, 0);
    assert_eq!(state.balances.len(), 0);
}

#[test]
fn unauthorized_token() {
    let mut state = linked();

    let res = mint(&mut state, "unauthorized-token", coins(1, TOKEN_DENOM), TOKEN_DENOM).unwrap();

    assert_eq!(
        res.messages[0],
        Instruction::MintToken {
            contract: String::from(NFT_CONTRACT_ADDR),
            token_id: String::from("0"),
            owner: String::from("unauthorized-token"),
            token_uri: Some(String::from("https://ipfs.io/ipfs/Q")),
            extension: None,
        }
    );
}

#[test]
fn wrong_denom_rejected() {
    let mut state = linked();

    let err = mint(&mut state, "buyer", coins(1, "ubtc"), "ubtc").unwrap_err();
    match err {
        ContractError::WrongDenom => {}
        e => panic!("unexpected error: {e:?}"),
    }
}

#[test]
fn no_funds_rejected() {
    let mut state = linked();

    let err = mint(&mut state, "buyer", Vec::new(), TOKEN_DENOM).unwrap_err();
    assert_eq!(err, ContractError::PaymentError(PaymentError::NoFunds));
}

#[test]
fn zero_amount_rejected() {
    let mut state = linked();

    let err = mint(&mut state, "buyer", coins(0, TOKEN_DENOM), TOKEN_DENOM).unwrap_err();
    assert_eq!(err, ContractError::PaymentError(PaymentError::NoFunds));
}

#[test]
fn mixed_funds_rejected() {
    let mut state = linked();

    let mut funds = coins(1, TOKEN_DENOM);
    funds.extend(coins(2, SECOND_DENOM));
    let err = mint(&mut state, "buyer", funds, TOKEN_DENOM).unwrap_err();
    assert_eq!(err, ContractError::PaymentError(PaymentError::MultipleDenoms));
}

#[test]
fn missing_denom_rejected() {
    let mut state = linked();

    let err = mint(&mut state, "buyer", coins(1, SECOND_DENOM), TOKEN_DENOM).unwrap_err();
    assert_eq!(
        err,
        ContractError::PaymentError(PaymentError::MissingDenom(String::from(TOKEN_DENOM)))
    );
}

#[test]
fn mint_with_second_denom() {
    let mut state = linked();

    let res = mint(&mut state, "buyer", coins(2, SECOND_DENOM), SECOND_DENOM).unwrap();
    assert_eq!(
        res.messages[1],
        Instruction::SendFunds {
            to_address: String::from("owner"),
            amount: 2,
            denom: String::from(SECOND_DENOM),
        }
    );
}

#[test]
fn second_completion_rejected() {
    let mut state = linked();

    let payload = instantiate_reply_payload("sneaky", 0);
    let err = reply(&mut state, INSTANTIATE_TOKEN_REPLY_ID, &payload).unwrap_err();
    match err {
        ContractError::Cw721AlreadyLinked => {}
        e => panic!("unexpected error: {e:?}"),
    }
    assert_eq!(state.config.cw721_address, Some(String::from(NFT_CONTRACT_ADDR)));
}

#[test]
fn wrong_reply_id_rejected() {
    let (mut state, _res) = instantiated();

    let payload = instantiate_reply_payload(NFT_CONTRACT_ADDR, 0);
    let err = reply(&mut state, 2, &payload).unwrap_err();
    match err {
        ContractError::InvalidTokenReplyId => {}
        e => panic!("unexpected error: {e:?}"),
    }
    assert_eq!(state.config.cw721_address, None);
}

#[test]
fn malformed_payload_rejected() {
    let (mut state, _res) = instantiated();

    let payload: Vec<u8> = vec![0xff, 0x01];
    let err = reply(&mut state, INSTANTIATE_TOKEN_REPLY_ID, &payload).unwrap_err();
    match err {
        ContractError::InvalidReplyData => {}
        e => panic!("unexpected error: {e:?}"),
    }
    assert_eq!(state.config.cw721_address, None);
}

#[test]
fn pause_gates_minting() {
    let mut state = linked();

    let res = execute(
        &mut state,
        String::from("owner"),
        &Vec::new(),
        ExecuteMsg::ChangeStatus { mint_pause: true },
    )
    .unwrap();
    assert_eq!(res.attributes[0].key, "ChangeStatus");
    assert_eq!(res.attributes[0].value, "true");

    let err = mint(&mut state, "buyer", coins(1, TOKEN_DENOM), TOKEN_DENOM).unwrap_err();
    match err {
        ContractError::MintPaused => {}
        e => panic!("unexpected error: {e:?}"),
    }

    execute(
        &mut state,
        String::from("owner"),
        &Vec::new(),
        ExecuteMsg::ChangeStatus { mint_pause: false },
    )
    .unwrap();
    mint(&mut state, "buyer", coins(1, TOKEN_DENOM), TOKEN_DENOM).unwrap();
}

#[test]
fn change_status_not_owner() {
    let mut state = linked();

    let err = execute(
        &mut state,
        String::from("intruder"),
        &Vec::new(),
        ExecuteMsg::ChangeStatus { mint_pause: true },
    )
    .unwrap_err();
    match err {
        ContractError::NotOwner => {}
        e => panic!("unexpected error: {e:?}"),
    }
    mint(&mut state, "buyer", coins(1, TOKEN_DENOM), TOKEN_DENOM).unwrap();
}

#[test]
fn change_price_not_owner() {
    let mut state = linked();

    let err = execute(
        &mut state,
        String::from("intruder"),
        &Vec::new(),
        ExecuteMsg::ChangePrice { new_price1: Some(9), new_price2: Some(9) },
    )
    .unwrap_err();
    match err {
        ContractError::NotOwner => {}
        e => panic!("unexpected error: {e:?}"),
    }
    let config = query_config(&state);
    assert_eq!(config.unit_price1, 1);
    assert_eq!(config.uint_price2, 2);
}

#[test]
fn change_price_by_owner() {
    let mut state = linked();

    execute(
        &mut state,
        String::from("owner"),
        &Vec::new(),
        ExecuteMsg::ChangePrice { new_price1: Some(5), new_price2: None },
    )
    .unwrap();
    let config = query_config(&state);
    assert_eq!(config.unit_price1, 5);
    assert_eq!(config.uint_price2, 2);

    let err = mint(&mut state, "buyer", coins(1, TOKEN_DENOM), TOKEN_DENOM).unwrap_err();
    assert_eq!(err, ContractError::WrongPaymentAmount);
    mint(&mut state, "buyer", coins(5, TOKEN_DENOM), TOKEN_DENOM).unwrap();
}

#[test]
fn accounting_over_many_mints() {
    let mut state = linked();

    mint(&mut state, "alice", coins(1, TOKEN_DENOM), TOKEN_DENOM).unwrap();
    mint(&mut state, "bob", coins(2, SECOND_DENOM), SECOND_DENOM).unwrap();
    mint(&mut state, "alice", coins(1, TOKEN_DENOM), TOKEN_DENOM).unwrap();

    assert_eq!(state.total_mint, 3);
    assert_eq!(quere_balance(&state, &String::from("alice")).balance, 2);
    assert_eq!(quere_balance(&state, &String::from("bob")).balance, 1);
    assert_eq!(quere_balance(&state, &String::from("carol")).balance, 0);

    let sum: u128 = state.balances.iter().map(|e| e.balance).sum();
    assert_eq!(sum, state.total_mint);

    let config = query_config(&state);
    assert_eq!(config.total_mint, 3);
    assert_eq!(config.unused_token_id, 3);
}

#[test]
fn full_sale_scenario() {
    let mut msg = sample_msg();
    msg.denom1 = String::from("denoma");
    msg.denom2 = String::from("denomb");
    msg.unit_price1 = 1;
    msg.unit_price2 = 2;
    let (mut state, _res) = instantiate(String::from("sale-owner"), msg).unwrap();
    let payload = instantiate_reply_payload("token-t", 0);
    reply(&mut state, INSTANTIATE_TOKEN_REPLY_ID, &payload).unwrap();

    let res = mint(&mut state, "user-u", coins(1, "denoma"), "denoma").unwrap();
    assert_eq!(quere_balance(&state, &String::from("user-u")).balance, 1);
    assert_eq!(state.total_mint, 1);
    match &res.messages[0] {
        Instruction::MintToken { contract, token_id, owner, .. } => {
            assert_eq!(contract, "token-t");
            assert_eq!(token_id, "0");
            assert_eq!(owner, "user-u");
        }
        other => panic!("unexpected instruction: {other:?}"),
    }
    assert_eq!(
        res.messages[1],
        Instruction::SendFunds {
            to_address: String::from("sale-owner"),
            amount: 1,
            denom: String::from("denoma"),
        }
    );
    assert_eq!(res.attributes[0].key, "action");
    assert_eq!(res.attributes[0].value, "mint_nft");
    assert_eq!(res.attributes[1].key, "token_id");
    assert_eq!(res.attributes[1].value, "1");
    assert_eq!(res.attributes[2].key, "amount");
    assert_eq!(res.attributes[2].value, "1");
    assert_eq!(res.attributes[3].key, "denom");
    assert_eq!(res.attributes[3].value, "denoma");

    let res = mint(&mut state, "user-u", coins(1, "denoma"), "denoma").unwrap();
    match &res.messages[0] {
        Instruction::MintToken { token_id, .. } => assert_eq!(token_id, "1"),
        other => panic!("unexpected instruction: {other:?}"),
    }
    assert_eq!(quere_balance(&state, &String::from("user-u")).balance, 2);
    assert_eq!(state.total_mint, 2);
}

#[test]
fn query_dispatch() {
    let mut state = linked();
    mint(&mut state, "alice", coins(1, TOKEN_DENOM), TOKEN_DENOM).unwrap();

    match query(&state, QueryMsg::GetConfig {}) {
        QueryAnswer::Config(c) => {
            assert_eq!(c.total_mint, 1);
            assert_eq!(c.name, "FRACTIT");
            assert_eq!(c.symbol, "FRACTIT");
            assert_eq!(c.token_uri, "https://ipfs.io/ipfs/Q");
        }
        other => panic!("unexpected answer: {other:?}"),
    }
    match query(&state, QueryMsg::BalanceOf { user: String::from("alice") }) {
        QueryAnswer::Balance(b) => assert_eq!(b.balance, 1),
        other => panic!("unexpected answer: {other:?}"),
    }
}

#[test]
fn well_formedness_check() {
    let mut state = linked();
    assert!(state.is_well_formed());

    mint(&mut state, "alice", coins(1, TOKEN_DENOM), TOKEN_DENOM).unwrap();
    mint(&mut state, "bob", coins(1, TOKEN_DENOM), TOKEN_DENOM).unwrap();
    assert!(state.is_well_formed());

    state.total_mint = 5;
    assert!(!state.is_well_formed());
}

#[test]
fn well_formedness_rejects_duplicate_entries() {
    let mut state = linked();
    state.balances.push(BalanceEntry { user: String::from("alice"), balance: 1 });
    state.balances.push(BalanceEntry { user: String::from("alice"), balance: 1 });
    state.total_mint = 2;
    state.config.unused_token_id = 2;
    assert!(!state.is_well_formed());
}
