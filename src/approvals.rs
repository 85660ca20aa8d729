use vstd::prelude::*;
use crate::authorization::{check_token_ownership_operators, expired, is_expired, operates_for};
use crate::error::ContractError;
use crate::ledger::{Collection, CollectionView};
use crate::types::{Approval, Block, Expiration, OperatorGrant};

verus! {

broadcast use vstd::std_specs::hash::group_hash_axioms;

/// `approvals` without those that name `spender`, in order.
pub open spec fn drop_spender(approvals: Seq<Approval>, spender: Seq<char>) -> Seq<Approval>
    decreases approvals.len(),
{
    if approvals.len() == 0 {
        Seq::empty()
    } else {
        let rest = drop_spender(approvals.drop_last(), spender);
        if approvals.last().spender@ == spender {
            rest
        } else {
            rest.push(approvals.last())
        }
    }
}

/// `grants` without those of `owner` to `operator`, in order.
pub open spec fn drop_grant(grants: Seq<OperatorGrant>, owner: Seq<char>, operator: Seq<char>) -> Seq<OperatorGrant>
    decreases grants.len(),
{
    if grants.len() == 0 {
        Seq::empty()
    } else {
        let rest = drop_grant(grants.drop_last(), owner, operator);
        if grants.last().owner@ == owner && grants.last().operator@ == operator {
            rest
        } else {
            rest.push(grants.last())
        }
    }
}

/// Why `caller` may not change the approvals of item `id`, if it may not:
/// the item must exist, and the caller must own it or be an unexpired
/// operator of its owner.
pub open spec fn approve_refusal(s: CollectionView, id: u128, caller: Seq<char>, block: Block) -> Option<ContractError> {
    if !s.tokens.contains_key(id) {
        Some(ContractError::TokenNotFound { token_id: id })
    } else if caller != s.tokens[id].owner@ && !operates_for(s.operators, s.tokens[id].owner@, caller, block) {
        Some(ContractError::Unauthorized)
    } else {
        None
    }
}

/// Whether `after` is `before` with the approvals of item `id` set to
/// `approvals` and nothing else changed.
pub open spec fn approvals_set(before: CollectionView, after: CollectionView, id: u128, approvals: Seq<Approval>) -> bool {
    &&& after.approvals.contains_key(id)
    &&& after.approvals[id]@ == approvals
    &&& after.approvals.remove(id) == before.approvals.remove(id)
    &&& after == (CollectionView { approvals: after.approvals, ..before })
}

/// A copy of `approvals` without those that name `spender`.
fn without_spender(approvals: &Vec<Approval>, spender: &String) -> (r: Vec<Approval>)
    ensures
        r@ == drop_spender(approvals@, spender@),
{
    let mut kept: Vec<Approval> = Vec::new();
    let mut i: usize = 0;
    while i < approvals.len()
        invariant
            0 <= i <= approvals@.len(),
            kept@ == drop_spender(approvals@.take(i as int), spender@),
        decreases approvals@.len() - i,
    {
        proof {
            assert(approvals@.take(i + 1).drop_last() =~= approvals@.take(i as int));
        }
        let a = &approvals[i];
        if a.spender != *spender {
            kept.push(Approval { spender: a.spender.clone(), expires: a.expires });
        }
        i = i + 1;
    }
    proof {
        assert(approvals@.take(approvals@.len() as int) =~= approvals@);
    }
    kept
}

/// A copy of `grants` without those of `owner` to `operator`.
fn without_grant(grants: &Vec<OperatorGrant>, owner: &String, operator: &String) -> (r: Vec<OperatorGrant>)
    ensures
        r@ == drop_grant(grants@, owner@, operator@),
{
    let mut kept: Vec<OperatorGrant> = Vec::new();
    let mut i: usize = 0;
    while i < grants.len()
        invariant
            0 <= i <= grants@.len(),
            kept@ == drop_grant(grants@.take(i as int), owner@, operator@),
        decreases grants@.len() - i,
    {
        proof {
            assert(grants@.take(i + 1).drop_last() =~= grants@.take(i as int));
        }
        let g = &grants[i];
        if !(g.owner == *owner && g.operator == *operator) {
            kept.push(OperatorGrant { owner: g.owner.clone(), operator: g.operator.clone(), expires: g.expires });
        }
        i = i + 1;
    }
    proof {
        assert(grants@.take(grants@.len() as int) =~= grants@);
    }
    kept
}

/// Fails unless `caller` may change the approvals of item `id`.
fn check_can_approve(state: &Collection, id: u128, caller: &String, block: &Block) -> (r: Result<(), ContractError>)
    ensures
        match approve_refusal(state@, id, caller@, *block) {
            Some(e) => r == Err::<(), ContractError>(e),
            None => r is Ok,
        },
{
    match state.tokens.get(&id) {
        None => Err(ContractError::TokenNotFound { token_id: id }),
        Some(t) => {
            if *caller == t.owner || check_token_ownership_operators(&state.operators, &t.owner, caller, block) {
                Ok(())
            } else {
                Err(ContractError::Unauthorized)
            }
        },
    }
}

/// Lets `spender` transfer item `id` until `expires` (never, if unset),
/// replacing an earlier approval of the same spender. An expiry that has
/// already passed is refused with `Expired`.
pub fn execute_approve(
    state: &mut Collection,
    sender: &String,
    spender: &String,
    token_id: u128,
    expires: Option<Expiration>,
    block: &Block,
) -> (r: Result<(), ContractError>)
    ensures
        ({
            let e = match expires {
                Some(x) => x,
                None => Expiration::Never,
            };
            match approve_refusal(old(state)@, token_id, sender@, *block) {
                Some(err) => r == Err::<(), ContractError>(err) && final(state)@ == old(state)@,
                None => if expired(e, *block) {
                    r == Err::<(), ContractError>(ContractError::Expired) && final(state)@ == old(state)@
                } else {
                    r is Ok && approvals_set(
                        old(state)@,
                        final(state)@,
                        token_id,
                        drop_spender(old(state)@.approvals_of(token_id), spender@).push(Approval { spender: *spender, expires: e }),
                    )
                },
            }
        }),
{
    check_can_approve(state, token_id, sender, block)?;
    let e = match expires {
        Some(x) => x,
        None => Expiration::Never,
    };
    if is_expired(&e, block) {
        return Err(ContractError::Expired);
    }
    let mut kept = match state.approvals.get(&token_id) {
        Some(a) => without_spender(a, spender),
        None => {
            proof {
                assert(drop_spender(Seq::<Approval>::empty(), spender@) =~= Seq::<Approval>::empty());
            }
            Vec::new()
        },
    };
    kept.push(Approval { spender: spender.clone(), expires: e });
    state.approvals.insert(token_id, kept);
    proof {
        assert(state@.approvals.remove(token_id) =~= old(state)@.approvals.remove(token_id));
    }
    Ok(())
}

/// Withdraws the approvals of item `id` that name `spender`.
pub fn execute_revoke(state: &mut Collection, sender: &String, spender: &String, token_id: u128, block: &Block) -> (r: Result<
    (),
    ContractError,
>)
    ensures
        match approve_refusal(old(state)@, token_id, sender@, *block) {
            Some(err) => r == Err::<(), ContractError>(err) && final(state)@ == old(state)@,
            None => r is Ok && approvals_set(
                old(state)@,
                final(state)@,
                token_id,
                drop_spender(old(state)@.approvals_of(token_id), spender@),
            ),
        },
{
    check_can_approve(state, token_id, sender, block)?;
    let kept = match state.approvals.get(&token_id) {
        Some(a) => without_spender(a, spender),
        None => {
            proof {
                assert(drop_spender(Seq::<Approval>::empty(), spender@) =~= Seq::<Approval>::empty());
            }
            Vec::new()
        },
    };
    state.approvals.insert(token_id, kept);
    proof {
        assert(state@.approvals.remove(token_id) =~= old(state)@.approvals.remove(token_id));
    }
    Ok(())
}

/// Lets `operator` transfer and approve every item of `sender` until
/// `expires` (never, if unset), replacing an earlier grant to the same
/// operator. An expiry that has already passed is refused with `Expired`.
pub fn execute_approve_all(state: &mut Collection, sender: &String, operator: &String, expires: Option<Expiration>, block: &Block) -> (r:
    Result<(), ContractError>)
    ensures
        ({
            let e = match expires {
                Some(x) => x,
                None => Expiration::Never,
            };
            if expired(e, *block) {
                r == Err::<(), ContractError>(ContractError::Expired) && final(state)@ == old(state)@
            } else {
                &&& r is Ok
                &&& final(state)@.operators == drop_grant(old(state)@.operators, sender@, operator@).push(
                    OperatorGrant { owner: *sender, operator: *operator, expires: e },
                )
                &&& final(state)@ == (CollectionView { operators: final(state)@.operators, ..old(state)@ })
            }
        }),
{
    let e = match expires {
        Some(x) => x,
        None => Expiration::Never,
    };
    if is_expired(&e, block) {
        return Err(ContractError::Expired);
    }
    let mut grants = without_grant(&state.operators, sender, operator);
    grants.push(OperatorGrant { owner: sender.clone(), operator: operator.clone(), expires: e });
    state.operators = grants;
    Ok(())
}

/// Withdraws every grant of `sender` to `operator`.
pub fn execute_revoke_all(state: &mut Collection, sender: &String, operator: &String)
    ensures
        final(state)@.operators == drop_grant(old(state)@.operators, sender@, operator@),
        final(state)@ == (CollectionView { operators: final(state)@.operators, ..old(state)@ }),
{
    state.operators = without_grant(&state.operators, sender, operator);
}

} // verus!
