use vstd::prelude::*;
use crate::authorization::{expired, is_expired, BurnRole};
use crate::error::ContractError;
use crate::ledger::{BurnRecord, Collection, PledgeRecord};
use crate::types::{Approval, Block, Config, OperatorGrant, TokenInfo};

verus! {

broadcast use vstd::std_specs::hash::group_hash_axioms;

/// A batch query names at most this many ids.
pub const QUERY_LIMIT: usize = 30;

/// How many burns `log` records by `burner`.
pub open spec fn burns_by(log: Seq<BurnRecord>, burner: Seq<char>) -> nat
    decreases log.len(),
{
    if log.len() == 0 {
        0
    } else {
        burns_by(log.drop_last(), burner) + if log.last().burner@ == burner {
            1nat
        } else {
            0nat
        }
    }
}

/// The ids that `burner` burnt as their owner, in the order of `log`.
pub open spec fn owner_burns_by(log: Seq<BurnRecord>, burner: Seq<char>) -> Seq<u128>
    decreases log.len(),
{
    if log.len() == 0 {
        Seq::empty()
    } else {
        let rest = owner_burns_by(log.drop_last(), burner);
        if log.last().burner@ == burner && log.last().role == BurnRole::OwnerBurn {
            rest.push(log.last().token_id)
        } else {
            rest
        }
    }
}

/// The items of `tokens` among `ids`, each with its id, in the order of
/// `ids`; absent ids are skipped.
pub open spec fn present_tokens(tokens: Map<u128, TokenInfo>, ids: Seq<u128>) -> Seq<(u128, TokenInfo)>
    decreases ids.len(),
{
    if ids.len() == 0 {
        Seq::empty()
    } else {
        let rest = present_tokens(tokens, ids.drop_last());
        if tokens.contains_key(ids.last()) {
            rest.push((ids.last(), tokens[ids.last()]))
        } else {
            rest
        }
    }
}

/// The tombstones of `burned` among `ids`, each with its id, in the order of
/// `ids`; ids without one are skipped.
pub open spec fn tombstones(burned: Map<u128, bool>, ids: Seq<u128>) -> Seq<(u128, bool)>
    decreases ids.len(),
{
    if ids.len() == 0 {
        Seq::empty()
    } else {
        let rest = tombstones(burned, ids.drop_last());
        if burned.contains_key(ids.last()) {
            rest.push((ids.last(), burned[ids.last()]))
        } else {
            rest
        }
    }
}

/// The configuration of the collection.
pub fn query_config(state: &Collection) -> (r: &Config)
    ensures
        *r == state@.config,
{
    &state.config
}

/// The items among `tokens` that exist, each with its id, in order; more
/// than the limit is refused.
pub fn query_nft_info_batch<'a>(state: &'a Collection, tokens: &Vec<u128>) -> (r: Result<Vec<(u128, &'a TokenInfo)>, ContractError>)
    ensures
        tokens@.len() > QUERY_LIMIT ==> r == Err::<Vec<(u128, &'a TokenInfo)>, ContractError>(
            ContractError::RequestTooLarge { size: tokens@.len() as usize },
        ),
        tokens@.len() <= QUERY_LIMIT ==> r is Ok && r->Ok_0@.map_values(|p: (u128, &TokenInfo)| (p.0, *p.1)) == present_tokens(
            state@.tokens,
            tokens@,
        ),
{
    if tokens.len() > QUERY_LIMIT {
        return Err(ContractError::RequestTooLarge { size: tokens.len() });
    }
    let mut data: Vec<(u128, &'a TokenInfo)> = Vec::new();
    let mut i: usize = 0;
    while i < tokens.len()
        invariant
            0 <= i <= tokens@.len(),
            data@.map_values(|p: (u128, &TokenInfo)| (p.0, *p.1)) == present_tokens(state@.tokens, tokens@.take(i as int)),
        decreases tokens@.len() - i,
    {
        proof {
            assert(tokens@.take(i + 1).drop_last() =~= tokens@.take(i as int));
        }
        let ghost before = data@;
        let id = tokens[i];
        if let Some(t) = state.tokens.get(&id) {
            data.push((id, t));
            proof {
                assert(data@.map_values(|p: (u128, &TokenInfo)| (p.0, *p.1)) =~= before.map_values(
                    |p: (u128, &TokenInfo)| (p.0, *p.1),
                ).push((id, *t)));
            }
        }
        i = i + 1;
    }
    proof {
        assert(tokens@.take(tokens@.len() as int) =~= tokens@);
    }
    Ok(data)
}

/// How many items `address` has burnt, if any.
pub fn query_burnt_amount(state: &Collection, address: &String) -> (r: Option<u128>)
    ensures
        burns_by(state@.burn_log, address@) == 0 ==> r is None,
        burns_by(state@.burn_log, address@) > 0 ==> r == Some(burns_by(state@.burn_log, address@) as u128),
{
    let mut count: u128 = 0;
    let mut i: usize = 0;
    while i < state.burn_log.len()
        invariant
            0 <= i <= state@.burn_log.len(),
            count == burns_by(state@.burn_log.take(i as int), address@),
            count <= i,
        decreases state@.burn_log.len() - i,
    {
        proof {
            assert(state@.burn_log.take(i + 1).drop_last() =~= state@.burn_log.take(i as int));
        }
        if state.burn_log[i].burner == *address {
            count = count + 1;
        }
        i = i + 1;
    }
    proof {
        assert(state@.burn_log.take(state@.burn_log.len() as int) =~= state@.burn_log);
    }
    if count == 0 {
        None
    } else {
        Some(count)
    }
}

/// The ids that `address` burnt as their owner, if any.
pub fn query_burnt_list(state: &Collection, address: &String) -> (r: Option<Vec<u128>>)
    ensures
        owner_burns_by(state@.burn_log, address@).len() == 0 ==> r is None,
        owner_burns_by(state@.burn_log, address@).len() > 0 ==> r is Some && r->Some_0@ == owner_burns_by(state@.burn_log, address@),
{
    let mut list: Vec<u128> = Vec::new();
    let mut i: usize = 0;
    while i < state.burn_log.len()
        invariant
            0 <= i <= state@.burn_log.len(),
            list@ == owner_burns_by(state@.burn_log.take(i as int), address@),
        decreases state@.burn_log.len() - i,
    {
        proof {
            assert(state@.burn_log.take(i + 1).drop_last() =~= state@.burn_log.take(i as int));
        }
        let rec = &state.burn_log[i];
        if rec.burner == *address && rec.role == BurnRole::OwnerBurn {
            list.push(rec.token_id);
        }
        i = i + 1;
    }
    proof {
        assert(state@.burn_log.take(state@.burn_log.len() as int) =~= state@.burn_log);
    }
    if list.len() == 0 {
        None
    } else {
        Some(list)
    }
}

/// The tombstones among `tokens`, each with its id; more than the limit is
/// refused.
pub fn query_burned(state: &Collection, tokens: &Vec<u128>) -> (r: Result<Vec<(u128, bool)>, ContractError>)
    ensures
        tokens@.len() > QUERY_LIMIT ==> r == Err::<Vec<(u128, bool)>, ContractError>(
            ContractError::RequestTooLarge { size: tokens@.len() as usize },
        ),
        tokens@.len() <= QUERY_LIMIT ==> r is Ok && r->Ok_0@ == tombstones(state@.burned, tokens@),
{
    if tokens.len() > QUERY_LIMIT {
        return Err(ContractError::RequestTooLarge { size: tokens.len() });
    }
    let mut data: Vec<(u128, bool)> = Vec::new();
    let mut i: usize = 0;
    while i < tokens.len()
        invariant
            0 <= i <= tokens@.len(),
            data@ == tombstones(state@.burned, tokens@.take(i as int)),
        decreases tokens@.len() - i,
    {
        proof {
            assert(tokens@.take(i + 1).drop_last() =~= tokens@.take(i as int));
        }
        let id = tokens[i];
        if let Some(b) = state.burned.get(&id) {
            data.push((id, *b));
        }
        i = i + 1;
    }
    proof {
        assert(tokens@.take(tokens@.len() as int) =~= tokens@);
    }
    Ok(data)
}

/// The approvals of `approvals` that have not expired at `block`, in order.
pub open spec fn live_approvals(approvals: Seq<Approval>, block: Block) -> Seq<Approval>
    decreases approvals.len(),
{
    if approvals.len() == 0 {
        Seq::empty()
    } else {
        let rest = live_approvals(approvals.drop_last(), block);
        if expired(approvals.last().expires, block) {
            rest
        } else {
            rest.push(approvals.last())
        }
    }
}

/// The owner of item `id` and its approvals, those expired at `block` left
/// out unless `include_expired`; `None` where the item does not exist.
pub fn query_owner_of(state: &Collection, id: u128, include_expired: bool, block: &Block) -> (r: Option<(String, Vec<Approval>)>)
    ensures
        !state@.tokens.contains_key(id) ==> r is None,
        state@.tokens.contains_key(id) ==> r is Some && r->Some_0.0 == state@.tokens[id].owner && r->Some_0.1@ == if include_expired {
            state@.approvals_of(id)
        } else {
            live_approvals(state@.approvals_of(id), *block)
        },
{
    let owner = match state.tokens.get(&id) {
        None => {
            return None;
        },
        Some(t) => t.owner.clone(),
    };
    let mut shown: Vec<Approval> = Vec::new();
    match state.approvals.get(&id) {
        None => {
            proof {
                assert(live_approvals(Seq::<Approval>::empty(), *block) =~= Seq::<Approval>::empty());
                assert(shown@ =~= state@.approvals_of(id));
            }
        },
        Some(approvals) => {
            let mut i: usize = 0;
            while i < approvals.len()
                invariant
                    0 <= i <= approvals@.len(),
                    shown@ == if include_expired {
                        approvals@.take(i as int)
                    } else {
                        live_approvals(approvals@.take(i as int), *block)
                    },
                decreases approvals@.len() - i,
            {
                proof {
                    assert(approvals@.take(i + 1).drop_last() =~= approvals@.take(i as int));
                }
                let a = &approvals[i];
                if include_expired || !is_expired(&a.expires, block) {
                    shown.push(Approval { spender: a.spender.clone(), expires: a.expires });
                }
                proof {
                    if include_expired {
                        assert(shown@ =~= approvals@.take(i + 1));
                    }
                }
                i = i + 1;
            }
            proof {
                assert(approvals@.take(approvals@.len() as int) =~= approvals@);
            }
        },
    }
    Some((owner, shown))
}

/// The ids that `pledger` pledged, in the order they were pledged.
pub open spec fn pledges_by(log: Seq<PledgeRecord>, pledger: Seq<char>) -> Seq<u128>
    decreases log.len(),
{
    if log.len() == 0 {
        Seq::empty()
    } else {
        let rest = pledges_by(log.drop_last(), pledger);
        if log.last().pledger@ == pledger {
            rest.push(log.last().token_id)
        } else {
            rest
        }
    }
}

/// The ids that `address` pledged, in the order they were pledged.
pub fn query_pledged_list(state: &Collection, address: &String) -> (r: Vec<u128>)
    ensures
        r@ == pledges_by(state@.pledge_log, address@),
{
    let mut list: Vec<u128> = Vec::new();
    let mut i: usize = 0;
    while i < state.pledge_log.len()
        invariant
            0 <= i <= state@.pledge_log.len(),
            list@ == pledges_by(state@.pledge_log.take(i as int), address@),
        decreases state@.pledge_log.len() - i,
    {
        proof {
            assert(state@.pledge_log.take(i + 1).drop_last() =~= state@.pledge_log.take(i as int));
        }
        let rec = &state.pledge_log[i];
        if rec.pledger == *address {
            list.push(rec.token_id);
        }
        i = i + 1;
    }
    proof {
        assert(state@.pledge_log.take(state@.pledge_log.len() as int) =~= state@.pledge_log);
    }
    list
}

/// The grants of `owner` among `grants`, in order, those expired at `block`
/// left out unless `include_expired`.
pub open spec fn grants_of(grants: Seq<OperatorGrant>, owner: Seq<char>, include_expired: bool, block: Block) -> Seq<OperatorGrant>
    decreases grants.len(),
{
    if grants.len() == 0 {
        Seq::empty()
    } else {
        let rest = grants_of(grants.drop_last(), owner, include_expired, block);
        let g = grants.last();
        if g.owner@ == owner && (include_expired || !expired(g.expires, block)) {
            rest.push(g)
        } else {
            rest
        }
    }
}

/// The operators that `owner` has granted, in order, those expired at
/// `block` left out unless `include_expired`.
pub fn query_operators(state: &Collection, owner: &String, include_expired: bool, block: &Block) -> (r: Vec<OperatorGrant>)
    ensures
        r@ == grants_of(state@.operators, owner@, include_expired, *block),
{
    let mut shown: Vec<OperatorGrant> = Vec::new();
    let mut i: usize = 0;
    while i < state.operators.len()
        invariant
            0 <= i <= state@.operators.len(),
            shown@ == grants_of(state@.operators.take(i as int), owner@, include_expired, *block),
        decreases state@.operators.len() - i,
    {
        proof {
            assert(state@.operators.take(i + 1).drop_last() =~= state@.operators.take(i as int));
        }
        let g = &state.operators[i];
        if g.owner == *owner && (include_expired || !is_expired(&g.expires, block)) {
            shown.push(OperatorGrant { owner: g.owner.clone(), operator: g.operator.clone(), expires: g.expires });
        }
        i = i + 1;
    }
    proof {
        assert(state@.operators.take(state@.operators.len() as int) =~= state@.operators);
    }
    shown
}

} // verus!
