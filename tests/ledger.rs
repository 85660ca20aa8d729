use cw721_custom::approvals::{execute_approve, execute_approve_all, execute_revoke, execute_revoke_all};
use cw721_custom::admin::{execute_freeze, execute_pause, execute_unpause, execute_update_conf, instantiate};
use cw721_custom::authorization::BurnRole;
use cw721_custom::batch::{
    execute_burn, execute_burn_batch, execute_pledge, execute_remote_burn_batch, execute_transfer_batch,
};
use cw721_custom::error::ContractError;
use cw721_custom::ledger::Collection;
use cw721_custom::mint::{execute_mint, execute_mint_batch, execute_remote_mint_batch};
use cw721_custom::query::{query_operators, query_owner_of, query_pledged_list};
use cw721_custom::store::{execute_store, execute_store_batch, execute_store_conf};
use cw721_custom::types::{
    Approval, BatchStoreMsg, Block, Burn, Coin, Costs, Dates, Expiration, InstantiateMsg, MintBatchMsg,
    OperatorGrant, StoreConf, StoreConfMsg, TokenData, TransferOperation, Wallet,
};

const CREATOR: &str = "creator";
const BUYER: &str = "buyer";
const DENOM: &str = "X";
const PRICE: u128 = 4000000;
const T0: u64 = 1_700_000_000_000_000_000;
const SECOND: u64 = 1_000_000_000;

fn collection(supply: u128, inventory: usize, burn: Burn) -> Collection {
    let mut msg = InstantiateMsg::new(CREATOR.to_string());
    msg.token_supply = supply;
    msg.cost = Costs { denom: DENOM.to_string(), amount: PRICE };
    msg.dates = Dates { start: Some(T0), end: Some(T0 + 900 * SECOND) };
    msg.wallet = Wallet { name: "payout".to_string(), wallet: "payout".to_string() };
    msg.burn = burn;
    let mut state = instantiate(msg, "1.0.0".to_string());
    if inventory > 0 {
        let batch = vec![TokenData { token_uri: None, extension: None }; inventory];
        execute_store_batch(&mut state, &CREATOR.to_string(), BatchStoreMsg { batch }).unwrap();
    }
    state
}

fn pay(amount: u128) -> Vec<Coin> {
    vec![Coin { denom: DENOM.to_string(), amount }]
}

fn owner_of(state: &Collection, id: u128) -> String {
    state.tokens.get(&id).unwrap().owner.clone()
}

fn both() -> Burn {
    Burn { owner_can_burn: true, can_burn_owned: true }
}

fn block() -> Block {
    Block { height: 100, time: T0 }
}

#[test]
fn scenario_mint_in_window() {
    let mut state = collection(20, 20, both());
    let buyer = BUYER.to_string();
    let first = execute_mint(&mut state, &buyer, &pay(4000000), T0 + 120 * SECOND).unwrap();
    assert_eq!(first.token_id, 0);
    assert_eq!(owner_of(&state, 0), BUYER);
    assert_eq!(state.minted, 1);
    let second = execute_mint(&mut state, &buyer, &pay(4000000), T0 + 120 * SECOND).unwrap();
    assert_eq!(second.token_id, 1);
    assert_eq!(owner_of(&state, 1), BUYER);
    assert_eq!(
        execute_mint(&mut state, &buyer, &pay(2000001), T0 + 120 * SECOND).map(|r| r.token_id),
        Err(ContractError::NotEnoughFunds)
    );
    assert_eq!(
        execute_mint(&mut state, &buyer, &pay(4000000), T0 + 901 * SECOND).map(|r| r.token_id),
        Err(ContractError::MintEnded)
    );
    assert_eq!(state.minted, 2);
}

#[test]
fn creator_cannot_mint() {
    let mut state = collection(20, 20, both());
    assert_eq!(
        execute_mint(&mut state, &CREATOR.to_string(), &pay(PRICE), T0).map(|r| r.token_id),
        Err(ContractError::Unauthorized)
    );
}

#[test]
fn minted_item_is_claimed() {
    let mut state = collection(20, 20, both());
    let buyer = BUYER.to_string();
    assert_eq!(state.try_mint(&buyer, 3), Ok(()));
    assert_eq!(state.try_mint(&"someone".to_string(), 3), Err(ContractError::Claimed));
    assert_eq!(owner_of(&state, 3), BUYER);
    assert_eq!(state.try_mint(&buyer, 99), Err(ContractError::TokenNotFound { token_id: 99 }));
    assert_eq!(state.minted, 1);
}

#[test]
fn mint_clears_approvals() {
    let mut state = collection(20, 20, both());
    state.approvals.insert(0, vec![Approval { spender: "spender".to_string(), expires: Expiration::Never }]);
    execute_mint(&mut state, &BUYER.to_string(), &pay(PRICE), T0).unwrap();
    assert!(state.approvals.get(&0).is_none());
}

#[test]
fn batch_mint_stops_when_inventory_runs_out() {
    let mut state = collection(20, 3, both());
    let r = execute_mint_batch(&mut state, &BUYER.to_string(), &pay(5 * PRICE), T0, MintBatchMsg { amount: 5 }).unwrap();
    assert_eq!(r.minted, vec![0, 1, 2]);
    assert_eq!(r.payout.coin, Coin { denom: DENOM.to_string(), amount: 3 * PRICE });
    assert_eq!(r.payout.to_address, "payout");
    assert_eq!(state.minted, 3);
}

#[test]
fn batch_mint_that_mints_nothing_succeeds_with_zero_payout() {
    let mut state = collection(20, 3, both());
    state.tokens.remove(&0);
    let r = execute_mint_batch(&mut state, &BUYER.to_string(), &pay(2 * PRICE), T0, MintBatchMsg { amount: 2 }).unwrap();
    assert!(r.minted.is_empty());
    assert_eq!(r.payout.coin, Coin { denom: DENOM.to_string(), amount: 0 });
    assert_eq!(state.minted, 0);
    assert_eq!(owner_of(&state, 1), CREATOR);
}

#[test]
fn remote_mint_batch_needs_admin() {
    let mut state = collection(20, 20, both());
    let buyer = BUYER.to_string();
    assert_eq!(
        execute_remote_mint_batch(&mut state, &buyer, &pay(2 * PRICE), T0, 2, &buyer).map(|r| r.minted),
        Err(ContractError::Unauthorized)
    );
    let r = execute_remote_mint_batch(&mut state, &CREATOR.to_string(), &pay(2 * PRICE), T0, 2, &buyer).unwrap();
    assert_eq!(r.minted, vec![0, 1]);
    assert_eq!(owner_of(&state, 1), BUYER);
}

#[test]
fn burn_without_pledge_fails() {
    let mut state = collection(20, 20, both());
    let buyer = BUYER.to_string();
    execute_mint(&mut state, &buyer, &pay(PRICE), T0).unwrap();
    assert_eq!(execute_burn(&mut state, &buyer, 0), Err(ContractError::TokenNotPledged { token_id: 0 }));
    assert_eq!(execute_burn(&mut state, &CREATOR.to_string(), 0), Err(ContractError::TokenNotPledged { token_id: 0 }));
    assert_eq!(execute_burn(&mut state, &buyer, 77), Err(ContractError::TokenNotPledged { token_id: 77 }));
    assert_eq!(owner_of(&state, 0), BUYER);
}

#[test]
fn burn_records_and_counts() {
    let mut state = collection(20, 20, both());
    let buyer = BUYER.to_string();
    execute_mint_batch(&mut state, &buyer, &pay(2 * PRICE), T0, MintBatchMsg { amount: 2 }).unwrap();
    execute_pledge(&mut state, &buyer, &vec![0, 1]).unwrap();
    assert_eq!(execute_burn(&mut state, &buyer, 0), Ok(BurnRole::OwnerBurn));
    assert_eq!(state.minted, 1);
    assert_eq!(state.burned.get(&0), Some(&true));
    assert_eq!(execute_burn(&mut state, &buyer, 0), Err(ContractError::TokenNotFound { token_id: 0 }));
    assert_eq!(execute_burn(&mut state, &"other".to_string(), 1), Err(ContractError::Unauthorized));
}

#[test]
fn pledge_rules() {
    let mut state = collection(20, 20, both());
    let buyer = BUYER.to_string();
    execute_mint(&mut state, &buyer, &pay(PRICE), T0).unwrap();
    let r = execute_pledge(&mut state, &"other".to_string(), &vec![0, 50]).unwrap();
    assert_eq!(r.failed, vec![(0, ContractError::Unauthorized), (50, ContractError::DontExists)]);
    let r = execute_pledge(&mut state, &buyer, &vec![0, 0]).unwrap();
    assert_eq!(r.succeeded, vec![0]);
    assert_eq!(r.failed, vec![(0, ContractError::TokenPledged { token_id: 0 })]);
    assert_eq!(state.pledged.get(&0), Some(&false));
    let r = execute_pledge(&mut state, &CREATOR.to_string(), &vec![5]).unwrap();
    assert_eq!(r.succeeded, vec![5]);
}

#[test]
fn burn_batch_partial_continue() {
    let mut state = collection(20, 20, both());
    let buyer = BUYER.to_string();
    execute_mint_batch(&mut state, &buyer, &pay(4 * PRICE), T0, MintBatchMsg { amount: 4 }).unwrap();
    execute_pledge(&mut state, &buyer, &vec![0, 1, 3]).unwrap();
    let r = execute_burn_batch(&mut state, &buyer, &vec![0, 1, 2, 3]).unwrap();
    assert_eq!(r.succeeded, vec![0, 1, 3]);
    assert_eq!(r.failed, vec![(2, ContractError::TokenNotPledged { token_id: 2 })]);
    assert!(state.tokens.get(&0).is_none());
    assert!(state.tokens.get(&1).is_none());
    assert!(state.tokens.get(&3).is_none());
    assert_eq!(owner_of(&state, 2), BUYER);
    assert!(state.burned.get(&2).is_none());
}

#[test]
fn batch_size_bounds() {
    let mut state = collection(40, 20, both());
    let buyer = BUYER.to_string();
    let thirty: Vec<u128> = (0..30).collect();
    assert_eq!(execute_burn_batch(&mut state, &buyer, &thirty).map(|r| r.succeeded), Err(ContractError::RequestTooLarge { size: 30 }));
    assert_eq!(execute_burn_batch(&mut state, &buyer, &vec![]).map(|r| r.succeeded), Err(ContractError::RequestTooSmall { size: 0 }));
    assert_eq!(execute_pledge(&mut state, &buyer, &vec![]).map(|r| r.succeeded), Err(ContractError::RequestTooSmall { size: 0 }));
    let op = TransferOperation { recipient: "x".to_string(), tokens: thirty };
    assert_eq!(
        execute_transfer_batch(&mut state, &buyer, &op, &block()).map(|r| r.succeeded),
        Err(ContractError::RequestTooLarge { size: 30 })
    );
    let twenty_nine: Vec<u128> = (0..29).collect();
    assert!(execute_pledge(&mut state, &CREATOR.to_string(), &twenty_nine).is_ok());
}

#[test]
fn remote_burn_batch_needs_admin() {
    let mut state = collection(20, 20, both());
    let buyer = BUYER.to_string();
    execute_mint(&mut state, &buyer, &pay(PRICE), T0).unwrap();
    execute_pledge(&mut state, &buyer, &vec![0]).unwrap();
    assert_eq!(execute_remote_burn_batch(&mut state, &buyer, &vec![0], &buyer).map(|r| r.succeeded), Err(ContractError::Unauthorized));
    let r = execute_remote_burn_batch(&mut state, &CREATOR.to_string(), &vec![0], &buyer).unwrap();
    assert_eq!(r.succeeded, vec![0]);
}

#[test]
fn transfer_through_approval_and_operator() {
    let mut state = collection(20, 20, both());
    let buyer = BUYER.to_string();
    execute_mint_batch(&mut state, &buyer, &pay(3 * PRICE), T0, MintBatchMsg { amount: 3 }).unwrap();
    state.approvals.insert(0, vec![Approval { spender: "spender".to_string(), expires: Expiration::AtHeight(200) }]);
    state.approvals.insert(1, vec![Approval { spender: "spender".to_string(), expires: Expiration::AtHeight(100) }]);
    state.operators.push(OperatorGrant { owner: buyer.clone(), operator: "operator".to_string(), expires: Expiration::Never });
    let op = TransferOperation { recipient: "dest".to_string(), tokens: vec![0, 1] };
    let r = execute_transfer_batch(&mut state, &"spender".to_string(), &op, &block()).unwrap();
    assert_eq!(r.succeeded, vec![0]);
    assert_eq!(r.failed, vec![(1, ContractError::Unauthorized)]);
    assert_eq!(owner_of(&state, 0), "dest");
    assert!(state.approvals.get(&0).is_none());
    let op = TransferOperation { recipient: "dest".to_string(), tokens: vec![1, 2, 0] };
    let r = execute_transfer_batch(&mut state, &"operator".to_string(), &op, &block()).unwrap();
    assert_eq!(r.succeeded, vec![1, 2]);
    assert_eq!(r.failed, vec![(0, ContractError::Unauthorized)]);
    assert_eq!(owner_of(&state, 2), "dest");
}

#[test]
fn store_refusals() {
    let mut state = collection(2, 0, both());
    let creator = CREATOR.to_string();
    let data = TokenData { token_uri: Some("uri".to_string()), extension: None };
    assert_eq!(execute_store(&mut state, &BUYER.to_string(), data.clone()), Err(ContractError::Unauthorized));
    assert_eq!(execute_store(&mut state, &creator, data.clone()), Ok(1));
    assert_eq!(state.tokens.get(&0).unwrap().token_uri, Some("uri".to_string()));
    assert_eq!(execute_store_batch(&mut state, &creator, BatchStoreMsg { batch: vec![data.clone(); 3] }), Ok(4));
    assert_eq!(execute_store(&mut state, &creator, data.clone()), Err(ContractError::MaxTokenSupply));
    let mut state = collection(20, 0, both());
    execute_freeze(&mut state, &creator).unwrap();
    assert_eq!(execute_store(&mut state, &creator, data), Err(ContractError::ContractFrozen));
}

#[test]
fn store_batch_total_overflow() {
    let mut state = collection(u128::MAX, 0, both());
    state.config.token_total = u128::MAX - 1;
    let batch = vec![TokenData { token_uri: None, extension: None }; 2];
    assert_eq!(execute_store_batch(&mut state, &CREATOR.to_string(), BatchStoreMsg { batch }), Err(ContractError::CantUpdateTotal));
    assert!(state.tokens.is_empty());
}

#[test]
fn store_conf_from_configured_template() {
    let mut state = collection(200, 0, both());
    state.config.token_total = 7;
    state.config.store_conf = StoreConf {
        name: "Robot".to_string(),
        desc: "a robot".to_string(),
        ipfs: "ipfs://cid".to_string(),
        attributes: vec!["color".to_string()],
    };
    let msg = StoreConfMsg {
        attributes: vec![vec!["red".to_string()], vec!["blue".to_string()], vec!["green".to_string()], vec!["gold".to_string()]],
        conf: None,
    };
    assert_eq!(execute_store_conf(&mut state, &CREATOR.to_string(), &msg), Ok(11));
    let meta = state.tokens.get(&10).unwrap().extension.clone().unwrap();
    assert_eq!(meta.name, Some("Robot #10".to_string()));
    assert_eq!(meta.image, Some("ipfs://cid/10.png".to_string()));
    assert_eq!(meta.description, Some("a robot".to_string()));
    let traits = meta.attributes.unwrap();
    assert_eq!(traits[0].trait_type, "color");
    assert_eq!(traits[0].value, "gold");
    assert_eq!(traits[0].display_type, None);
    let meta7 = state.tokens.get(&7).unwrap().extension.clone().unwrap();
    assert_eq!(meta7.name, Some("Robot #7".to_string()));
}

#[test]
fn store_conf_row_mismatch() {
    let mut state = collection(200, 0, both());
    let msg = StoreConfMsg {
        attributes: vec![vec![], vec!["extra".to_string()], vec![]],
        conf: None,
    };
    assert_eq!(
        execute_store_conf(&mut state, &CREATOR.to_string(), &msg),
        Err(ContractError::AttributeCountMismatch { expected: 0, found: 1 })
    );
    assert!(state.tokens.is_empty());
    assert_eq!(state.config.token_total, 0);
}

#[test]
fn freeze_and_pause_are_independent() {
    let mut state = collection(20, 20, both());
    let creator = CREATOR.to_string();
    execute_pause(&mut state, &creator).unwrap();
    execute_freeze(&mut state, &creator).unwrap();
    assert!(state.config.paused && state.config.frozen);
    execute_unpause(&mut state, &creator).unwrap();
    assert!(!state.config.paused && state.config.frozen);
    assert_eq!(execute_pause(&mut state, &BUYER.to_string()), Err(ContractError::Unauthorized));
    assert!(!state.config.paused);
}

#[test]
fn paused_collection_does_not_mint() {
    let mut state = collection(20, 20, both());
    execute_pause(&mut state, &CREATOR.to_string()).unwrap();
    assert_eq!(
        execute_mint(&mut state, &BUYER.to_string(), &pay(PRICE), T0).map(|r| r.token_id),
        Err(ContractError::ContractPaused)
    );
}

#[test]
fn update_conf_frozen_is_refused() {
    let mut state = collection(20, 20, both());
    let creator = CREATOR.to_string();
    execute_freeze(&mut state, &creator).unwrap();
    let mut msg = InstantiateMsg::new(CREATOR.to_string());
    msg.name = "nft2".to_string();
    assert_eq!(execute_update_conf(&mut state, &creator, msg), Err(ContractError::ContractFrozen));
    assert_eq!(state.config.token_total, 20);
}

#[test]
fn update_conf_resets_and_defaults() {
    let mut state = collection(20, 20, both());
    let creator = CREATOR.to_string();
    execute_pause(&mut state, &creator).unwrap();
    let msg = InstantiateMsg::new(CREATOR.to_string());
    assert_eq!(execute_update_conf(&mut state, &BUYER.to_string(), msg.clone()), Err(ContractError::Unauthorized));
    assert_eq!(execute_update_conf(&mut state, &creator, msg), Ok(()));
    assert_eq!(state.config.token_total, 0);
    assert_eq!(state.config.max_mint_batch, Some(10));
    assert!(!state.config.paused);
    assert_eq!(state.config.cost.denom, "ujuno");
    assert_eq!(state.tokens.len(), 20);
}

#[test]
fn approvals_lifecycle() {
    let mut state = collection(20, 20, both());
    let buyer = BUYER.to_string();
    let spender = "spender".to_string();
    let operator = "operator".to_string();
    execute_mint_batch(&mut state, &buyer, &pay(2 * PRICE), T0, MintBatchMsg { amount: 2 }).unwrap();
    assert_eq!(execute_approve(&mut state, &spender, &spender, 0, None, &block()), Err(ContractError::Unauthorized));
    assert_eq!(execute_approve(&mut state, &buyer, &spender, 9, None, &block()), Err(ContractError::Unauthorized));
    assert_eq!(execute_approve(&mut state, &buyer, &spender, 50, None, &block()), Err(ContractError::TokenNotFound { token_id: 50 }));
    assert_eq!(
        execute_approve(&mut state, &buyer, &spender, 0, Some(Expiration::AtHeight(100)), &block()),
        Err(ContractError::Expired)
    );
    assert_eq!(execute_approve(&mut state, &buyer, &spender, 0, Some(Expiration::AtHeight(150)), &block()), Ok(()));
    assert_eq!(execute_approve(&mut state, &buyer, &spender, 0, None, &block()), Ok(()));
    assert_eq!(
        state.approvals.get(&0),
        Some(&vec![Approval { spender: spender.clone(), expires: Expiration::Never }])
    );
    assert_eq!(execute_revoke(&mut state, &buyer, &spender, 0, &block()), Ok(()));
    assert_eq!(state.approvals.get(&0), Some(&vec![]));
    assert_eq!(execute_approve_all(&mut state, &buyer, &operator, Some(Expiration::AtTime(T0)), &block()), Err(ContractError::Expired));
    assert_eq!(execute_approve_all(&mut state, &buyer, &operator, None, &block()), Ok(()));
    assert_eq!(execute_approve_all(&mut state, &buyer, &operator, Some(Expiration::AtHeight(500)), &block()), Ok(()));
    assert_eq!(state.operators.len(), 1);
    assert_eq!(execute_approve(&mut state, &operator, &spender, 1, None, &block()), Ok(()));
    let op = TransferOperation { recipient: "dest".to_string(), tokens: vec![1] };
    assert_eq!(execute_transfer_batch(&mut state, &spender, &op, &block()).unwrap().succeeded, vec![1]);
    execute_revoke_all(&mut state, &buyer, &operator);
    assert!(state.operators.is_empty());
    let op = TransferOperation { recipient: "dest".to_string(), tokens: vec![0] };
    assert_eq!(execute_transfer_batch(&mut state, &operator, &op, &block()).unwrap().failed, vec![(0, ContractError::Unauthorized)]);
}

#[test]
fn owner_query_filters_expired_approvals() {
    let mut state = collection(20, 20, both());
    let buyer = BUYER.to_string();
    execute_mint(&mut state, &buyer, &pay(PRICE), T0).unwrap();
    let live = Approval { spender: "a".to_string(), expires: Expiration::AtHeight(500) };
    let dead = Approval { spender: "b".to_string(), expires: Expiration::AtHeight(50) };
    state.approvals.insert(0, vec![dead.clone(), live.clone()]);
    assert_eq!(query_owner_of(&state, 0, false, &block()), Some((buyer.clone(), vec![live.clone()])));
    assert_eq!(query_owner_of(&state, 0, true, &block()), Some((buyer.clone(), vec![dead, live])));
    assert_eq!(query_owner_of(&state, 1, true, &block()), Some((CREATOR.to_string(), vec![])));
    assert_eq!(query_owner_of(&state, 99, true, &block()), None);
}

#[test]
fn unset_batch_limit_defaults_to_ten() {
    let mut state = collection(40, 30, both());
    state.config.max_mint_batch = None;
    let buyer = BUYER.to_string();
    assert_eq!(
        execute_mint_batch(&mut state, &buyer, &pay(11 * PRICE), T0, MintBatchMsg { amount: 11 }).map(|r| r.minted),
        Err(ContractError::MintAmountLargerThanAllowed)
    );
    let r = execute_mint_batch(&mut state, &buyer, &pay(10 * PRICE), T0, MintBatchMsg { amount: 10 }).unwrap();
    assert_eq!(r.minted.len(), 10);
}

#[test]
fn store_refuses_occupied_ids() {
    let mut state = collection(40, 3, both());
    let creator = CREATOR.to_string();
    let buyer = BUYER.to_string();
    execute_mint(&mut state, &buyer, &pay(PRICE), T0).unwrap();
    execute_update_conf(&mut state, &creator, InstantiateMsg::new(CREATOR.to_string())).unwrap();
    state.config.token_supply = 40;
    let data = TokenData { token_uri: None, extension: None };
    assert_eq!(execute_store(&mut state, &creator, data.clone()), Err(ContractError::TokenExists { token_id: 0 }));
    assert_eq!(owner_of(&state, 0), BUYER);
    state.config.token_total = 3;
    execute_pledge(&mut state, &creator, &vec![2]).unwrap();
    state.config.burn.can_burn_owned = true;
    state.tokens.get_mut(&2).unwrap().owner = "other".to_string();
    assert_eq!(execute_burn(&mut state, &creator, 2), Ok(BurnRole::CreatorBurn));
    state.config.token_total = 1;
    let batch = BatchStoreMsg { batch: vec![data.clone(); 3] };
    assert_eq!(execute_store_batch(&mut state, &creator, batch), Err(ContractError::TokenExists { token_id: 1 }));
    state.config.token_total = 2;
    let rows = StoreConfMsg { attributes: vec![vec![], vec![]], conf: Some(StoreConf::default()) };
    assert_eq!(execute_store_conf(&mut state, &creator, &rows), Err(ContractError::TokenExists { token_id: 2 }));
    state.config.token_total = 3;
    assert_eq!(execute_store_conf(&mut state, &creator, &rows), Ok(5));
    assert_eq!(state.config.token_total, 5);
}

#[test]
fn returned_item_is_not_minted_again() {
    let mut state = collection(20, 20, both());
    let buyer = BUYER.to_string();
    execute_mint(&mut state, &buyer, &pay(PRICE), T0).unwrap();
    let op = TransferOperation { recipient: CREATOR.to_string(), tokens: vec![0] };
    assert_eq!(execute_transfer_batch(&mut state, &buyer, &op, &block()).unwrap().succeeded, vec![0]);
    assert_eq!(owner_of(&state, 0), CREATOR);
    assert_eq!(state.try_mint(&"second".to_string(), 0), Err(ContractError::Claimed));
    assert_eq!(owner_of(&state, 0), CREATOR);
}

#[test]
fn pledged_list_keeps_pledge_order() {
    let mut state = collection(20, 20, both());
    let buyer = BUYER.to_string();
    execute_mint_batch(&mut state, &buyer, &pay(3 * PRICE), T0, MintBatchMsg { amount: 3 }).unwrap();
    execute_pledge(&mut state, &buyer, &vec![2]).unwrap();
    execute_pledge(&mut state, &CREATOR.to_string(), &vec![5]).unwrap();
    execute_pledge(&mut state, &buyer, &vec![0, 1]).unwrap();
    assert_eq!(query_pledged_list(&state, &buyer), vec![2, 0, 1]);
    assert_eq!(query_pledged_list(&state, &CREATOR.to_string()), vec![5]);
    assert!(query_pledged_list(&state, &"nobody".to_string()).is_empty());
}

#[test]
fn operator_query_filters_by_owner_and_expiry() {
    let mut state = collection(20, 0, both());
    let buyer = BUYER.to_string();
    execute_approve_all(&mut state, &buyer, &"a".to_string(), Some(Expiration::AtHeight(150)), &block()).unwrap();
    execute_approve_all(&mut state, &"other".to_string(), &"b".to_string(), None, &block()).unwrap();
    let later = Block { height: 200, time: T0 };
    assert_eq!(query_operators(&state, &buyer, false, &block()).len(), 1);
    assert_eq!(query_operators(&state, &buyer, false, &later), vec![]);
    let all = query_operators(&state, &buyer, true, &later);
    assert_eq!(all, vec![OperatorGrant { owner: buyer.clone(), operator: "a".to_string(), expires: Expiration::AtHeight(150) }]);
}
