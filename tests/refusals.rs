use cw721_custom::admin::{execute_freeze, execute_update_conf, instantiate};
use cw721_custom::batch::{execute_burn, execute_burn_batch, execute_pledge};
use cw721_custom::ledger::Collection;
use cw721_custom::mint::{execute_mint, execute_mint_batch};
use cw721_custom::store::execute_store_batch;
use cw721_custom::types::{BatchStoreMsg, Burn, Coin, Costs, Dates, InstantiateMsg, MintBatchMsg, TokenData, Wallet};

const ADMIN: &str = "admin";
const MINTER: &str = "minter";
const DENOM: &str = "ujuno";
const SECOND: u64 = 1_000_000_000;

fn init_msg(start: Option<u64>, end: Option<u64>) -> InstantiateMsg {
    let mut msg = InstantiateMsg::new(ADMIN.to_string());
    msg.name = "nft".to_string();
    msg.symbol = "NFT".to_string();
    msg.wallet = Wallet { name: "admin".to_string(), wallet: "wallet".to_string() };
    msg.token_supply = 50;
    msg.cost = Costs { denom: DENOM.to_string(), amount: 4000000 };
    msg.dates = Dates { start: start.map(|s| s * SECOND), end: end.map(|e| e * SECOND) };
    msg.burn = Burn { owner_can_burn: true, can_burn_owned: false };
    msg
}

fn stocked(msg: InstantiateMsg, n: usize) -> Collection {
    let mut state = instantiate(msg, "0.1.0".to_string());
    let batch = vec![TokenData { token_uri: None, extension: None }; n];
    execute_store_batch(&mut state, &ADMIN.to_string(), BatchStoreMsg { batch }).unwrap();
    state
}

fn funds(amount: u128) -> Vec<Coin> {
    vec![Coin { denom: DENOM.to_string(), amount }]
}

fn minted(msg: InstantiateMsg) -> Collection {
    let mut state = stocked(msg, 20);
    execute_mint_batch(&mut state, &MINTER.to_string(), &funds(40000000), 0, MintBatchMsg { amount: 10 }).unwrap();
    state
}

#[test]
#[should_panic(expected = "NoFundsSent")]
fn test_mint_no_funds() {
    let mut state = stocked(init_msg(Some(0), Some(900)), 20);
    execute_mint(&mut state, &MINTER.to_string(), &vec![], 120 * SECOND).unwrap();
}

#[test]
#[should_panic(expected = "NotEnoughFunds")]
fn test_mint_wrong_funds() {
    let mut state = stocked(init_msg(Some(0), Some(900)), 20);
    execute_mint(&mut state, &MINTER.to_string(), &funds(2000000), 120 * SECOND).unwrap();
}

#[test]
#[should_panic(expected = "CantMintYet")]
fn mint_wrong_time() {
    let mut state = stocked(init_msg(Some(300), None), 20);
    execute_mint(&mut state, &MINTER.to_string(), &funds(4000000), 0).unwrap();
}

#[test]
#[should_panic(expected = "Unauthorized")]
fn creator_cant_burn_owned() {
    let mut state = minted(init_msg(Some(0), Some(0)));
    execute_pledge(&mut state, &MINTER.to_string(), &vec![0]).unwrap();
    execute_burn(&mut state, &ADMIN.to_string(), 0).unwrap();
}

#[test]
#[should_panic(expected = "TokenNotPledged")]
fn not_pledged() {
    let mut state = minted(init_msg(Some(0), Some(0)));
    execute_burn(&mut state, &MINTER.to_string(), 0).unwrap();
}

#[test]
#[should_panic(expected = "RequestTooLarge")]
fn burn_batch_request_too_large() {
    let mut state = minted(init_msg(Some(0), Some(900)));
    execute_pledge(&mut state, &MINTER.to_string(), &vec![0]).unwrap();
    let tokens: Vec<u128> = (0..30).collect();
    execute_burn_batch(&mut state, &MINTER.to_string(), &tokens).unwrap();
}

#[test]
#[should_panic(expected = "RequestTooSmall")]
fn burn_batch_empty_token_list() {
    let mut state = minted(init_msg(Some(0), Some(900)));
    execute_pledge(&mut state, &MINTER.to_string(), &vec![0]).unwrap();
    execute_burn_batch(&mut state, &MINTER.to_string(), &vec![]).unwrap();
}

#[test]
#[should_panic(expected = "ContractFrozen")]
fn update_conf_frozen() {
    let mut state = instantiate(init_msg(Some(0), Some(900)), "0.1.0".to_string());
    execute_freeze(&mut state, &ADMIN.to_string()).unwrap();
    let mut msg = init_msg(Some(0), Some(900));
    msg.name = "nft2".to_string();
    msg.symbol = "NFT2".to_string();
    execute_update_conf(&mut state, &ADMIN.to_string(), msg).unwrap();
}

#[test]
#[should_panic(expected = "MintAmountLargerThanAllowed")]
fn mint_batch_amount_too_large() {
    let mut state = stocked(init_msg(Some(0), Some(900)), 20);
    execute_mint_batch(&mut state, &MINTER.to_string(), &funds(44000000), 0, MintBatchMsg { amount: 11 }).unwrap();
}

#[test]
#[should_panic(expected = "NoFundsSent")]
fn general_mint_no_funds() {
    let mut state = stocked(init_msg(Some(0), Some(900)), 20);
    execute_mint(&mut state, &MINTER.to_string(), &vec![], 120 * SECOND).unwrap();
}

#[test]
#[should_panic(expected = "NotEnoughFunds")]
fn general_mint_wrong_funds() {
    let mut state = stocked(init_msg(Some(0), Some(900)), 20);
    execute_mint(&mut state, &MINTER.to_string(), &funds(2000000), 120 * SECOND).unwrap();
}

#[test]
#[should_panic(expected = "CantMintYet")]
fn general_mint_scheduled_start_time() {
    let mut state = stocked(init_msg(Some(300), Some(900)), 20);
    execute_mint(&mut state, &MINTER.to_string(), &funds(4000000), 0).unwrap();
}

#[test]
#[should_panic(expected = "MintEnded")]
fn general_mint_scheduled_end_time() {
    let mut state = stocked(init_msg(Some(0), Some(200)), 20);
    execute_mint(&mut state, &MINTER.to_string(), &funds(4000000), 300 * SECOND).unwrap();
}

#[test]
#[should_panic(expected = "CantMintYet")]
fn mint_mint_scheduled_start_time() {
    let mut state = stocked(init_msg(Some(300), Some(900)), 20);
    execute_mint(&mut state, &MINTER.to_string(), &funds(4000000), 0).unwrap();
}

#[test]
#[should_panic(expected = "MintEnded")]
fn mint_mint_scheduled_end_time() {
    let mut state = stocked(init_msg(Some(0), Some(200)), 20);
    execute_mint(&mut state, &MINTER.to_string(), &funds(4000000), 300 * SECOND).unwrap();
}
