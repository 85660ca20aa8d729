use vstd::prelude::*;
use crate::admission::{batch_limit, in_window, mint_refusal, payment_result};
use crate::authorization::{burn_decision, BurnRole};
use crate::error::ContractError;
use crate::batch::BatchOp;
use crate::ledger::CollectionView;
use crate::types::{Burn, Coin, Config, Costs};

verus! {

/// An item leaves the inventory once: after a mint of `id` to a buyer other
/// than the minter succeeds, a second mint of `id`, by anyone, fails with
/// `Claimed` and changes nothing.
pub proof fn lemma_mint_at_most_once(s: CollectionView, id: u128, first: String, second: String)
    requires
        first@ != s.minter@,
    ensures
        s.mint_step(id, first).1 is Ok ==> s.mint_step(id, first).0.mint_step(id, second) == (
            s.mint_step(id, first).0,
            Err::<(), ContractError>(ContractError::Claimed),
        ),
{
}

/// Issuance is final: a successful mint marks its id as issued; burning,
/// pledging and transferring never unmark an id; and a mint of an issued id
/// fails, whoever the item belongs to by then, and changes nothing. So an id
/// leaves the inventory at most once, even if it is later handed back to the
/// creator.
pub proof fn lemma_issuance_is_final(s: CollectionView, op: BatchOp, id: u128, other: u128, caller: String, buyer: String)
    ensures
        s.mint_step(id, buyer).1 is Ok ==> s.mint_step(id, buyer).0.issued == s.issued.insert(id),
        s.mint_step(id, buyer).1 is Err ==> s.mint_step(id, buyer).0 == s,
        s.op_step(op, other, caller).0.issued == s.issued,
        s.issued.contains(id) ==> s.mint_step(id, buyer).0 == s && s.mint_step(id, buyer).1 is Err,
        s.issued.contains(id) && s.tokens.contains_key(id) ==> s.mint_step(id, buyer).1 == Err::<(), ContractError>(
            ContractError::Claimed,
        ),
{
}

/// The state after the mints `ops` (an id and a buyer each) in turn, and
/// the ids of those that succeeded, in order.
pub open spec fn mint_sequence(s: CollectionView, ops: Seq<(u128, String)>) -> (CollectionView, Seq<u128>)
    decreases ops.len(),
{
    if ops.len() == 0 {
        (s, Seq::empty())
    } else {
        let (before, minted) = mint_sequence(s, ops.drop_last());
        let (after, r) = before.mint_step(ops.last().0, ops.last().1);
        if r is Ok {
            (after, minted.push(ops.last().0))
        } else {
            (after, minted)
        }
    }
}

/// In any sequence of mints to buyers other than the minter, no id is
/// minted twice, and every id minted has left the minter.
pub proof fn lemma_mint_sequence_once(s: CollectionView, ops: Seq<(u128, String)>)
    requires
        forall|i: int| 0 <= i < ops.len() ==> (#[trigger] ops[i]).1@ != s.minter@,
    ensures
        mint_sequence(s, ops).1.no_duplicates(),
        forall|j: int|
            0 <= j < mint_sequence(s, ops).1.len() ==> mint_sequence(s, ops).0.tokens.contains_key(
                #[trigger] mint_sequence(s, ops).1[j],
            ) && mint_sequence(s, ops).0.tokens[mint_sequence(s, ops).1[j]].owner@ != s.minter@,
        mint_sequence(s, ops).0.minter == s.minter,
    decreases ops.len(),
{
    if ops.len() > 0 {
        let prefix = ops.drop_last();
        assert forall|i: int| 0 <= i < prefix.len() implies (#[trigger] prefix[i]).1@ != s.minter@ by {
            assert(prefix[i] == ops[i]);
        }
        lemma_mint_sequence_once(s, prefix);
        let (before, minted) = mint_sequence(s, prefix);
        let id = ops.last().0;
        let buyer = ops.last().1;
        assert(buyer@ != s.minter@) by {
            assert(ops[ops.len() - 1] == ops.last());
        }
        let (after, r) = before.mint_step(id, buyer);
        let result = mint_sequence(s, ops).1;
        if r is Ok {
            assert(!minted.contains(id)) by {
                if minted.contains(id) {
                    let k = choose|k: int| 0 <= k < minted.len() && minted[k] == id;
                    assert(before.tokens[minted[k]].owner@ != s.minter@);
                }
            }
            assert forall|a: int, b: int| 0 <= a < b < result.len() implies result[a] != result[b] by {
                if b == result.len() - 1 {
                    assert(result[a] == minted[a]);
                } else {
                    assert(result[a] == minted[a] && result[b] == minted[b]);
                }
            }
            assert forall|j: int| 0 <= j < result.len() implies after.tokens.contains_key(#[trigger] result[j])
                && after.tokens[result[j]].owner@ != s.minter@ by {
                if j < minted.len() {
                    assert(result[j] == minted[j]);
                }
            }
        } else {
            assert(result == minted);
        }
    }
}

/// A mint only ever succeeds on an item that still belongs to the minter.
pub proof fn lemma_mint_only_from_inventory(s: CollectionView, id: u128, buyer: String)
    ensures
        s.mint_step(id, buyer).1 is Ok ==> s.tokens.contains_key(id) && s.tokens[id].owner@ == s.minter@,
{
}

/// A payment is accepted exactly when one coin is sent, of the configured
/// denomination, whose amount is the unit price times the number of items;
/// the accepted coin is the one sent.
pub proof fn lemma_payment_exact(cost: Costs, funds: Seq<Coin>, amount: u128)
    ensures
        payment_result(cost, funds, amount) is Ok <==> (funds.len() == 1 && funds[0].denom@ == cost.denom@ && funds[0].amount == cost.amount
            * amount),
        payment_result(cost, funds, amount) is Ok ==> payment_result(cost, funds, amount) == Ok::<Coin, ContractError>(funds[0]),
{
}

/// Where every other admission rule holds, a mint is admitted exactly when
/// `now` lies within the bounds that are set; before the start it fails with
/// `CantMintYet`, after the end with `MintEnded`.
pub proof fn lemma_mint_window(count: u64, now: u64, config: Config, amount: u128, minter: Seq<char>, sender: Seq<char>)
    requires
        !config.frozen,
        !config.paused,
        config.token_total != 0,
        amount != 0,
        amount <= batch_limit(config),
        count as int != config.token_supply,
        count as int != config.token_total,
        sender != minter,
    ensures
        mint_refusal(count, now, config, amount, minter, sender) is None <==> in_window(config.dates, now),
        (config.dates.start matches Some(s) && now < s) ==> mint_refusal(count, now, config, amount, minter, sender) == Some(
            ContractError::CantMintYet,
        ),
        !(config.dates.start matches Some(s) && now < s) && (config.dates.end matches Some(e) && now > e) ==> mint_refusal(
            count,
            now,
            config,
            amount,
            minter,
            sender,
        ) == Some(ContractError::MintEnded),
{
}

/// An item that is not pledged cannot be burnt, whoever asks: the burn fails
/// with `TokenNotPledged` and changes nothing.
pub proof fn lemma_burn_needs_pledge(s: CollectionView, id: u128, caller: String)
    requires
        !s.pledged.contains_key(id),
    ensures
        s.burn_step(id, caller) == (s, Err::<BurnRole, ContractError>(ContractError::TokenNotPledged { token_id: id })),
{
}

/// The burn authorization matrix, row by row, for every combination of the
/// two policy flags.
pub proof fn lemma_burn_matrix(policy: Burn, owner: Seq<char>, creator: Seq<char>, caller: Seq<char>)
    ensures
        caller == owner && owner != creator && policy.owner_can_burn ==> burn_decision(policy, owner, creator, caller) == Ok::<
            BurnRole,
            ContractError,
        >(BurnRole::OwnerBurn),
        caller == owner && owner != creator && !policy.owner_can_burn ==> burn_decision(policy, owner, creator, caller) == Err::<
            BurnRole,
            ContractError,
        >(ContractError::Unauthorized),
        owner == creator ==> burn_decision(policy, owner, creator, caller) == Err::<BurnRole, ContractError>(
            ContractError::Unauthorized,
        ),
        caller == creator && owner != creator && policy.can_burn_owned ==> burn_decision(policy, owner, creator, caller) == Ok::<
            BurnRole,
            ContractError,
        >(BurnRole::CreatorBurn),
        caller == creator && owner != creator && !policy.can_burn_owned ==> burn_decision(policy, owner, creator, caller) == Err::<
            BurnRole,
            ContractError,
        >(ContractError::Unauthorized),
        caller != owner && caller != creator ==> burn_decision(policy, owner, creator, caller) == Err::<BurnRole, ContractError>(
            ContractError::Unauthorized,
        ),
{
}

/// The two switches are independent: setting `frozen` keeps `paused`, setting
/// `paused` keeps `frozen`, and the order in which they are set does not
/// matter.
pub proof fn lemma_freeze_pause_orthogonal(s: CollectionView, frozen: bool, paused: bool)
    ensures
        s.with_frozen(frozen).config.paused == s.config.paused,
        s.with_paused(paused).config.frozen == s.config.frozen,
        s.with_frozen(frozen).with_paused(paused) == s.with_paused(paused).with_frozen(frozen),
{
}

} // verus!
