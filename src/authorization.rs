use vstd::prelude::*;
use crate::error::ContractError;
use crate::types::{Approval, Block, Burn, Expiration, OperatorGrant, TokenInfo};

verus! {

/// The path by which a burn is allowed.
#[derive(Debug, Clone, Copy, PartialEq, Eq, Structural)]
pub enum BurnRole {
    /// the holder burns an item it owns
    OwnerBurn,
    /// the creator burns an item owned by someone else
    CreatorBurn,
}

/// The outcome of the burn authorization matrix: a holder that is not the
/// creator may burn under `owner_can_burn`; the creator may burn an item owned
/// by someone else under `can_burn_owned`; everything else is refused. Where
/// the caller owns the item the owner path is taken.
pub open spec fn burn_decision(policy: Burn, owner: Seq<char>, creator: Seq<char>, caller: Seq<char>) -> Result<BurnRole, ContractError> {
    if caller == owner && owner != creator && policy.owner_can_burn {
        Ok(BurnRole::OwnerBurn)
    } else if caller == creator && owner != creator && policy.can_burn_owned {
        Ok(BurnRole::CreatorBurn)
    } else {
        Err(ContractError::Unauthorized)
    }
}

/// Whether `expires` has passed at `block`.
pub open spec fn expired(expires: Expiration, block: Block) -> bool {
    match expires {
        Expiration::AtHeight(h) => block.height >= h,
        Expiration::AtTime(t) => block.time >= t,
        Expiration::Never => false,
    }
}

/// Whether one of `approvals` names `caller` and has not expired.
pub open spec fn approved(approvals: Seq<Approval>, caller: Seq<char>, block: Block) -> bool {
    exists|i: int| 0 <= i < approvals.len() && #[trigger] approvals[i].spender@ == caller && !expired(approvals[i].expires, block)
}

/// Whether one of `grants` lets `caller` act for `owner` and has not expired.
pub open spec fn operates_for(grants: Seq<OperatorGrant>, owner: Seq<char>, caller: Seq<char>, block: Block) -> bool {
    exists|i: int|
        0 <= i < grants.len() && #[trigger] grants[i].owner@ == owner && grants[i].operator@ == caller && !expired(grants[i].expires, block)
}

/// Whether `caller` may transfer `token`, whose approvals are `approvals`:
/// it owns it, holds an unexpired approval on it, or is an unexpired operator
/// of its owner.
pub open spec fn may_transfer(token: TokenInfo, approvals: Seq<Approval>, grants: Seq<OperatorGrant>, caller: Seq<char>, block: Block) -> bool {
    token.owner@ == caller || approved(approvals, caller, block) || operates_for(grants, token.owner@, caller, block)
}

/// Whether `expires` has passed at `block`.
pub fn is_expired(expires: &Expiration, block: &Block) -> (r: bool)
    ensures
        r == expired(*expires, *block),
{
    match expires {
        Expiration::AtHeight(h) => block.height >= *h,
        Expiration::AtTime(t) => block.time >= *t,
        Expiration::Never => false,
    }
}

/// Decides by the burn policy whether `caller` may burn an item of `owner`.
pub fn burn_authorization(policy: &Burn, owner: &String, creator: &String, caller: &String) -> (r: Result<BurnRole, ContractError>)
    ensures
        r == burn_decision(*policy, owner@, creator@, caller@),
{
    let is_owner = *caller == *owner;
    let is_creator = *caller == *creator;
    let owned_by_creator = *owner == *creator;
    if is_owner && !owned_by_creator && policy.owner_can_burn {
        Ok(BurnRole::OwnerBurn)
    } else if is_creator && !owned_by_creator && policy.can_burn_owned {
        Ok(BurnRole::CreatorBurn)
    } else {
        Err(ContractError::Unauthorized)
    }
}

/// Whether one of `approvals` names `caller` and has not expired.
pub fn check_token_ownership_approvals(approvals: &Vec<Approval>, caller: &String, block: &Block) -> (r: bool)
    ensures
        r == approved(approvals@, caller@, *block),
{
    let mut i: usize = 0;
    while i < approvals.len()
        invariant
            0 <= i <= approvals@.len(),
            forall|k: int| 0 <= k < i ==> !(#[trigger] approvals@[k].spender@ == caller@ && !expired(approvals@[k].expires, *block)),
        decreases approvals@.len() - i,
    {
        let apr = &approvals[i];
        if apr.spender == *caller && !is_expired(&apr.expires, block) {
            return true;
        }
        i = i + 1;
    }
    false
}

/// Whether an unexpired grant of `grants` lets `caller` act for `owner`.
pub fn check_token_ownership_operators(grants: &Vec<OperatorGrant>, owner: &String, caller: &String, block: &Block) -> (r: bool)
    ensures
        r == operates_for(grants@, owner@, caller@, *block),
{
    let mut i: usize = 0;
    while i < grants.len()
        invariant
            0 <= i <= grants@.len(),
            forall|k: int|
                0 <= k < i ==> !(#[trigger] grants@[k].owner@ == owner@ && grants@[k].operator@ == caller@ && !expired(grants@[k].expires, *block)),
        decreases grants@.len() - i,
    {
        let g = &grants[i];
        if g.owner == *owner && g.operator == *caller && !is_expired(&g.expires, block) {
            return true;
        }
        i = i + 1;
    }
    false
}

/// Whether `caller` may transfer `token`, whose approvals are `approvals`:
/// as its owner, through an unexpired approval, or as an unexpired operator
/// of its owner.
pub fn check_token_ownership_complete(
    token: &TokenInfo,
    approvals: &Vec<Approval>,
    grants: &Vec<OperatorGrant>,
    caller: &String,
    block: &Block,
) -> (r: bool)
    ensures
        r == may_transfer(*token, approvals@, grants@, caller@, *block),
{
    if token.owner == *caller {
        return true;
    }
    if check_token_ownership_approvals(approvals, caller, block) {
        return true;
    }
    check_token_ownership_operators(grants, &token.owner, caller, block)
}

} // verus!
