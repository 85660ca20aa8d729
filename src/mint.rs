use vstd::prelude::*;
use crate::admission::{can_mint, can_pay, mint_refusal, payment_result};
use crate::error::ContractError;
use crate::ledger::{Collection, CollectionView};
use crate::admin::can_update;
use crate::types::{Coin, Config, MintBatchMsg};

verus! {

/// Proceeds to send to the payout address.
#[derive(Debug, Clone, PartialEq, Eq)]
pub struct Payout {
    pub to_address: String,
    pub coin: Coin,
}

/// The result of minting one item.
#[derive(Debug, Clone, PartialEq, Eq)]
pub struct MintOutcome {
    pub token_id: u128,
    pub payout: Payout,
}

/// The result of minting a batch of items.
#[derive(Debug, Clone, PartialEq, Eq)]
pub struct MintBatchOutcome {
    /// the ids minted, in order
    pub minted: Vec<u128>,
    pub payout: Payout,
}

/// Where minting `k` items in turn from id `first` has got: the state, how
/// many were minted, and the refusal that stopped it, if one did.
pub struct MintRun {
    pub state: CollectionView,
    pub count: nat,
    pub error: Option<ContractError>,
}

/// The ids `first`, `first + 1`, ..., `n` of them.
pub open spec fn id_range(first: int, n: nat) -> Seq<u128> {
    Seq::new(n, |i: int| (first + i) as u128)
}

/// The payout of `count` items at the configured price.
pub open spec fn payout_of(config: Config, count: nat) -> Payout {
    Payout {
        to_address: config.wallet.wallet,
        coin: Coin { denom: config.cost.denom, amount: (config.cost.amount * count) as u128 },
    }
}

impl CollectionView {
    /// Minting up to `k` items to `buyer`, one after the other, at ids from
    /// `first`, stopping at the first refusal.
    pub open spec fn mint_run(self, first: u128, k: nat, buyer: String) -> MintRun
        decreases k,
    {
        if k == 0 {
            MintRun { state: self, count: 0, error: None }
        } else {
            let prev = self.mint_run(first, (k - 1) as nat, buyer);
            if prev.error is Some {
                prev
            } else {
                let (s, r) = prev.state.mint_step((first + prev.count) as u128, buyer);
                match r {
                    Ok(_) => MintRun { state: s, count: prev.count + 1, error: None },
                    Err(e) => MintRun { state: prev.state, count: prev.count, error: Some(e) },
                }
            }
        }
    }
}

/// Once a run of mints has stopped, asking for more changes nothing.
pub proof fn lemma_mint_run_stops(s: CollectionView, first: u128, k1: nat, k2: nat, buyer: String)
    requires
        k1 <= k2,
        s.mint_run(first, k1, buyer).error is Some,
    ensures
        s.mint_run(first, k2, buyer) == s.mint_run(first, k1, buyer),
    decreases k2,
{
    if k2 > k1 {
        lemma_mint_run_stops(s, first, k1, (k2 - 1) as nat, buyer);
    }
}

/// What minting one item for `buyer` with `funds` at time `now` leaves, and
/// what it returns: admission and payment are checked first, then the next
/// item (the one whose id is the minted count) is handed over.
pub open spec fn mint_post(
    before: CollectionView,
    after: CollectionView,
    r: Result<MintOutcome, ContractError>,
    buyer: String,
    funds: Seq<Coin>,
    now: u64,
) -> bool {
    match mint_refusal(before.minted, now, before.config, 1, before.minter@, buyer@) {
        Some(e) => r == Err::<MintOutcome, ContractError>(e) && after == before,
        None => match payment_result(before.config.cost, funds, 1) {
            Err(e) => r == Err::<MintOutcome, ContractError>(e) && after == before,
            Ok(c) => {
                let id = before.minted as u128;
                let (s, m) = before.mint_step(id, buyer);
                &&& after == s
                &&& m matches Err(e) ==> r == Err::<MintOutcome, ContractError>(e)
                &&& m is Ok ==> r == Ok::<MintOutcome, ContractError>(
                    MintOutcome { token_id: id, payout: Payout { to_address: before.config.wallet.wallet, coin: c } },
                )
            },
        },
    }
}

/// What minting a batch of `amount` items for `buyer` with `funds` at time
/// `now` leaves, and what it returns: admission and payment for `amount`
/// items are checked first; then items are minted at consecutive ids from the
/// minted count until `amount` are minted or one is refused. A refusal
/// inside the run does not fail the call: the items minted before it stay
/// minted, and the payout is the price of the items actually minted, which
/// is zero where none was.
pub open spec fn mint_batch_post(
    before: CollectionView,
    after: CollectionView,
    r: Result<MintBatchOutcome, ContractError>,
    buyer: String,
    funds: Seq<Coin>,
    now: u64,
    amount: u128,
) -> bool {
    match mint_refusal(before.minted, now, before.config, amount, before.minter@, buyer@) {
        Some(e) => r == Err::<MintBatchOutcome, ContractError>(e) && after == before,
        None => match payment_result(before.config.cost, funds, amount) {
            Err(e) => r == Err::<MintBatchOutcome, ContractError>(e) && after == before,
            Ok(_) => {
                let run = before.mint_run(before.minted as u128, amount as nat, buyer);
                &&& after == run.state
                &&& r is Ok
                &&& r->Ok_0.minted@ == id_range(before.minted as int, run.count)
                &&& r->Ok_0.payout == payout_of(before.config, run.count)
            },
        },
    }
}

/// Mints the next item for `sender`, who pays with `funds`, at time `now`.
pub fn execute_mint(state: &mut Collection, sender: &String, funds: &Vec<Coin>, now: u64) -> (r: Result<MintOutcome, ContractError>)
    ensures
        mint_post(old(state)@, final(state)@, r, *sender, funds@, now),
{
    let id = can_mint(state.minted, now, &state.config, 1, &state.minter, sender)?;
    let coin = can_pay(&state.config, funds, 1)?;
    state.try_mint(sender, id)?;
    Ok(MintOutcome { token_id: id, payout: Payout { to_address: state.config.wallet.wallet.clone(), coin } })
}

/// The outcome of a batch that minted `ids`, `count` of them.
fn batch_outcome(config: &Config, ids: Vec<u128>, count: u128) -> (r: MintBatchOutcome)
    requires
        config.cost.amount * count <= u128::MAX,
    ensures
        r.minted == ids,
        r.payout == payout_of(*config, count as nat),
{
    let coin = Coin { denom: config.cost.denom.clone(), amount: config.cost.amount * count };
    MintBatchOutcome { minted: ids, payout: Payout { to_address: config.wallet.wallet.clone(), coin } }
}

/// Mints up to `amount` items for `sender`, who pays with `funds` for all of
/// them, at time `now`.
pub fn execute_mint_batch(state: &mut Collection, sender: &String, funds: &Vec<Coin>, now: u64, msg: MintBatchMsg) -> (r: Result<
    MintBatchOutcome,
    ContractError,
>)
    ensures
        mint_batch_post(old(state)@, final(state)@, r, *sender, funds@, now, msg.amount),
{
    let amount = msg.amount;
    let first = can_mint(state.minted, now, &state.config, amount, &state.minter, sender)?;
    let coin = can_pay(&state.config, funds, amount)?;
    let ghost before = state@;
    let mut ids: Vec<u128> = Vec::new();
    let mut count: u128 = 0;
    proof {
        assert(ids@ =~= id_range(first as int, 0));
    }
    while count < amount
        invariant
            amount == msg.amount,
            before == old(state)@,
            first == before.minted as u128,
            mint_refusal(before.minted, now, before.config, amount, before.minter@, sender@) is None,
            payment_result(before.config.cost, funds@, amount) == Ok::<Coin, ContractError>(coin),
            count <= amount,
            before.mint_run(first, count as nat, *sender).error is None,
            before.mint_run(first, count as nat, *sender).count == count,
            before.mint_run(first, count as nat, *sender).state == state@,
            state@.minted == first + count,
            state@.config == before.config,
            ids@ == id_range(first as int, count as nat),
        decreases amount - count,
    {
        let id = first + count;
        let ghost prev = state@;
        match state.try_mint(sender, id) {
            Ok(()) => {
                ids.push(id);
                count = count + 1;
                proof {
                    assert(ids@ =~= id_range(first as int, count as nat));
                }
            },
            Err(e) => {
                proof {
                    let k = (count + 1) as nat;
                    assert(before.mint_run(first, k, *sender).error == Some(e));
                    lemma_mint_run_stops(before, first, k, amount as nat, *sender);
                }
                proof {
                    lemma_price_bound(before.config.cost.amount as int, count as int, amount as int);
                }
                return Ok(batch_outcome(&state.config, ids, count));
            },
        }
    }
    proof {
        lemma_price_bound(before.config.cost.amount as int, count as int, amount as int);
    }
    Ok(batch_outcome(&state.config, ids, count))
}

/// The price of fewer items is no more.
proof fn lemma_price_bound(price: int, count: int, amount: int)
    requires
        0 <= price,
        0 <= count <= amount,
    ensures
        price * count <= price * amount,
{
    assert(price * count <= price * amount) by (nonlinear_arith)
        requires
            0 <= price,
            0 <= count <= amount,
    ;
}

/// The administrator mints up to `amount` items for `owner`, paying with
/// `funds`, at time `now`.
pub fn execute_remote_mint_batch(state: &mut Collection, sender: &String, funds: &Vec<Coin>, now: u64, amount: u128, owner: &String) -> (r:
    Result<MintBatchOutcome, ContractError>)
    ensures
        sender@ != old(state)@.minter@ ==> r == Err::<MintBatchOutcome, ContractError>(ContractError::Unauthorized)
            && final(state)@ == old(state)@,
        sender@ == old(state)@.minter@ ==> mint_batch_post(old(state)@, final(state)@, r, *owner, funds@, now, amount),
{
    can_update(state, sender)?;
    execute_mint_batch(state, owner, funds, now, MintBatchMsg { amount })
}

} // verus!
