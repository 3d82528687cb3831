use lyrics_nft::contract::{
    count, create_nft, execute, guess, instantiate, query, reply, INSTANTIATE_TOKEN_REPLY_ID,
};
use lyrics_nft::error::ContractError;
use lyrics_nft::hash::hash_lyrics;
use lyrics_nft::msg::{Coin, ExecuteMsg, InstantiateMsg, NftMsg, QueryMsg};
use lyrics_nft::state::Config;

fn init_msg() -> InstantiateMsg {
    InstantiateMsg {
        owner: "creator".to_string(),
        guessing_fee: 1000,
        name: "Lyrics".to_string(),
        symbol: "LYR".to_string(),
        token_uri: "ipfs://base".to_string(),
        extension: None,
        token_code_id: 17,
    }
}

fn fresh_config() -> Config {
    let (config, _) = instantiate("contract0".to_string(), "creator".to_string(), init_msg());
    config
}

/// Protobuf encoding of an instantiation response whose contract address is
/// `addr`: field number 1, wire type 2 (length-delimited), then the bytes.
fn instantiate_reply_data(addr: &str) -> Vec<u8> {
    let mut data = vec![0x0Au8, addr.len() as u8];
    data.extend_from_slice(addr.as_bytes());
    data
}

fn fee_funds() -> Vec<Coin> {
    vec![Coin { denom: "udenom".to_string(), amount: 1000 }]
}

#[test]
fn proper_initialization() {
    let (config, res) = instantiate("contract0".to_string(), "creator".to_string(), init_msg());
    assert_eq!(config.owner, "creator");
    assert!(config.cw721_address.is_none());
    assert_eq!(config.guessing_fee, 1000);
    assert_eq!(config.next_available_token_id, 0);
    assert!(config.nft_ids.is_empty());
    assert_eq!(res.messages.len(), 1);
    assert_eq!(res.messages[0].id, INSTANTIATE_TOKEN_REPLY_ID);
    assert!(res.messages[0].reply_on_success);
    match &res.messages[0].msg {
        NftMsg::InstantiateNft { code_id, name, symbol, minter } => {
            assert_eq!(*code_id, 17);
            assert_eq!(name, "Lyrics");
            assert_eq!(symbol, "LYR");
            assert_eq!(minter, "contract0");
        }
        other => panic!("unexpected sub-request: {:?}", other),
    }
    assert_eq!(query(&config, QueryMsg::GetCount {}).count, 0);
}

#[test]
fn reply_links_the_companion_contract() {
    let mut config = fresh_config();
    let data = instantiate_reply_data("nft-contract");
    let res = reply(&mut config, INSTANTIATE_TOKEN_REPLY_ID, &data).unwrap();
    assert!(res.messages.is_empty());
    assert_eq!(config.cw721_address.as_deref(), Some("nft-contract"));
}

#[test]
fn reply_accepts_the_expected_id_only_once() {
    let mut config = fresh_config();
    let data = instantiate_reply_data("nft-contract");
    reply(&mut config, INSTANTIATE_TOKEN_REPLY_ID, &data).unwrap();
    let second = reply(&mut config, INSTANTIATE_TOKEN_REPLY_ID, &data);
    assert_eq!(second.unwrap_err(), ContractError::NFTContractALreadyLinked {});
    assert_eq!(config.cw721_address.as_deref(), Some("nft-contract"));
}

#[test]
fn reply_refuses_an_unknown_id() {
    let mut config = fresh_config();
    let data = instantiate_reply_data("nft-contract");
    let res = reply(&mut config, 42, &data);
    assert_eq!(res.unwrap_err(), ContractError::UnknownReplyId { reply_id: 42 });
    assert!(config.cw721_address.is_none());
}

#[test]
fn reply_refuses_an_undecodable_payload() {
    let mut config = fresh_config();
    // Field number 3 instead of 1: not an instantiation response.
    let res = reply(&mut config, INSTANTIATE_TOKEN_REPLY_ID, &[0x1Au8, 0x01, 0x00]);
    assert_eq!(res.unwrap_err(), ContractError::Std {});
    assert!(config.cw721_address.is_none());
}

#[test]
fn create_nft_refuses_non_owners() {
    let mut config = fresh_config();
    let res = create_nft(&mut config, "anyone".to_string(), 7, "ipfs://x".to_string());
    assert_eq!(res.unwrap_err(), ContractError::Unauthorized {});
    assert!(config.nft_ids.is_empty());
    assert_eq!(config.next_available_token_id, 0);
}

#[test]
fn create_nft_stores_the_commitment_under_the_pre_increment_id() {
    let mut config = fresh_config();
    let res = create_nft(&mut config, "creator".to_string(), 7, "ipfs://x".to_string()).unwrap();
    assert_eq!(config.next_available_token_id, 1);
    assert_eq!(config.nft_ids.get(&0), Some(&7));
    assert_eq!(res.messages.len(), 1);
    match &res.messages[0].msg {
        NftMsg::MintNft { token_id, owner, token_uri, .. } => {
            // The minted id equals the key the commitment was stored under.
            assert_eq!(*token_id, 0);
            assert_eq!(owner, "creator");
            assert_eq!(token_uri.as_deref(), Some("ipfs://x"));
        }
        other => panic!("unexpected sub-request: {:?}", other),
    }
    assert_eq!(res.attributes.len(), 1);
    assert_eq!(res.attributes[0].key, "action");
    assert_eq!(res.attributes[0].value, "create_nft");
}

#[test]
fn create_nft_assigns_distinct_ids_to_equal_inputs() {
    let mut config = fresh_config();
    create_nft(&mut config, "creator".to_string(), 7, "ipfs://x".to_string()).unwrap();
    create_nft(&mut config, "creator".to_string(), 7, "ipfs://x".to_string()).unwrap();
    assert_eq!(config.next_available_token_id, 2);
    assert_eq!(config.nft_ids.get(&0), Some(&7));
    assert_eq!(config.nft_ids.get(&1), Some(&7));
}

#[test]
fn guess_refuses_missing_payment() {
    let mut config = fresh_config();
    create_nft(&mut config, "creator".to_string(), 7, "ipfs://x".to_string()).unwrap();
    let res = guess(&config, "guesser".to_string(), vec![], 0, "la la".to_string());
    assert_eq!(res.unwrap_err(), ContractError::InvalidFunds {});
}

#[test]
fn guess_refuses_a_wrong_denomination() {
    let mut config = fresh_config();
    create_nft(&mut config, "creator".to_string(), 7, "ipfs://x".to_string()).unwrap();
    let funds = vec![Coin { denom: "uother".to_string(), amount: 1000 }];
    let res = guess(&config, "guesser".to_string(), funds, 0, "la la".to_string());
    assert_eq!(res.unwrap_err(), ContractError::InvalidFunds {});
}

#[test]
fn guess_refuses_an_amount_below_the_fee() {
    let mut config = fresh_config();
    create_nft(&mut config, "creator".to_string(), 7, "ipfs://x".to_string()).unwrap();
    let funds = vec![Coin { denom: "udenom".to_string(), amount: 999 }];
    let res = guess(&config, "guesser".to_string(), funds, 0, "la la".to_string());
    assert_eq!(res.unwrap_err(), ContractError::InvalidFunds {});
}

#[test]
fn guess_refuses_two_payment_entries() {
    let mut config = fresh_config();
    create_nft(&mut config, "creator".to_string(), 7, "ipfs://x".to_string()).unwrap();
    let funds = vec![
        Coin { denom: "udenom".to_string(), amount: 1000 },
        Coin { denom: "udenom".to_string(), amount: 1000 },
    ];
    let res = guess(&config, "guesser".to_string(), funds, 0, "la la".to_string());
    assert_eq!(res.unwrap_err(), ContractError::InvalidFunds {});
}

#[test]
fn guess_refuses_a_nonexistent_token_id() {
    let config = fresh_config();
    let res = guess(&config, "guesser".to_string(), fee_funds(), 3, "la la".to_string());
    assert_eq!(res.unwrap_err(), ContractError::NFTNotFound {});
}

#[test]
fn guess_refuses_incorrect_lyrics() {
    let mut config = fresh_config();
    let secret = hash_lyrics("never gonna give you up");
    create_nft(&mut config, "creator".to_string(), secret, "ipfs://x".to_string()).unwrap();
    let res = guess(&config, "guesser".to_string(), fee_funds(), 0, "wrong words".to_string());
    assert_eq!(res.unwrap_err(), ContractError::IncorrectLyrics {});
}

#[test]
fn guess_transfers_the_token_on_matching_lyrics() {
    let mut config = fresh_config();
    let secret = hash_lyrics("never gonna give you up");
    create_nft(&mut config, "creator".to_string(), secret, "ipfs://x".to_string()).unwrap();
    let res = guess(
        &config,
        "guesser".to_string(),
        fee_funds(),
        0,
        "never gonna give you up".to_string(),
    )
    .unwrap();
    assert_eq!(res.messages.len(), 1);
    match &res.messages[0].msg {
        NftMsg::TransferNft { recipient, token_id } => {
            assert_eq!(recipient, "guesser");
            assert_eq!(*token_id, 0);
        }
        other => panic!("unexpected sub-request: {:?}", other),
    }
    assert_eq!(res.attributes.len(), 1);
    assert_eq!(res.attributes[0].key, "action");
    assert_eq!(res.attributes[0].value, "guess");
}

#[test]
fn execute_dispatches_both_calls() {
    let mut config = fresh_config();
    let secret = hash_lyrics("shine on");
    let minted = execute(
        &mut config,
        "creator".to_string(),
        vec![],
        ExecuteMsg::CreateNFT { hash: secret, url: "ipfs://x".to_string() },
    )
    .unwrap();
    assert!(matches!(minted.messages[0].msg, NftMsg::MintNft { .. }));
    let revealed = execute(
        &mut config,
        "guesser".to_string(),
        fee_funds(),
        ExecuteMsg::Guess { nft_id: 0, lyrics: "shine on".to_string() },
    )
    .unwrap();
    assert!(matches!(revealed.messages[0].msg, NftMsg::TransferNft { .. }));
    assert_eq!(config.next_available_token_id, 1);
}

#[test]
fn count_reports_the_number_of_minted_ids() {
    let mut config = fresh_config();
    assert_eq!(count(&config).count, 0);
    create_nft(&mut config, "creator".to_string(), 7, "ipfs://x".to_string()).unwrap();
    create_nft(&mut config, "creator".to_string(), 9, "ipfs://y".to_string()).unwrap();
    assert_eq!(count(&config).count, 2);
    assert_eq!(query(&config, QueryMsg::GetCount {}).count, 2);
}
