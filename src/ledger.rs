use std::collections::{HashMap, HashSet};
use vstd::prelude::*;
use crate::authorization::{
    burn_authorization, burn_decision, check_token_ownership_complete, may_transfer, BurnRole,
};
use crate::error::ContractError;
use crate::types::{Approval, Block, Config, OperatorGrant, TokenInfo};

verus! {

broadcast use vstd::std_specs::hash::group_hash_axioms;

/// One burn, kept for reporting.
#[derive(Debug, Clone, PartialEq, Eq)]
pub struct BurnRecord {
    pub burner: String,
    pub token_id: u128,
    pub role: BurnRole,
}

/// One pledge, kept for reporting.
#[derive(Debug, Clone, PartialEq, Eq)]
pub struct PledgeRecord {
    pub pledger: String,
    pub token_id: u128,
}

/// The whole state of a collection: its configuration, the item registry,
/// and the pledge and burn records.
pub struct Collection {
    pub config: Config,
    /// the administrator of the registry, the placeholder owner of unsold items
    pub minter: String,
    /// the version the collection was instantiated or migrated with
    pub version: String,
    pub tokens: HashMap<u128, TokenInfo>,
    /// the approvals of each item, by id
    pub approvals: HashMap<u128, Vec<Approval>>,
    /// the registry's count of minted items, which is also the next id to mint
    pub minted: u64,
    /// ids that were ever minted; none is minted again
    pub issued: HashSet<u128>,
    /// ids that are pledged for burning
    pub pledged: HashMap<u128, bool>,
    /// tombstones of burnt ids
    pub burned: HashMap<u128, bool>,
    pub burn_log: Vec<BurnRecord>,
    pub pledge_log: Vec<PledgeRecord>,
    pub operators: Vec<OperatorGrant>,
}

/// The mathematical model of a `Collection`.
pub struct CollectionView {
    pub config: Config,
    pub minter: String,
    pub version: String,
    pub tokens: Map<u128, TokenInfo>,
    pub approvals: Map<u128, Vec<Approval>>,
    pub minted: u64,
    pub issued: Set<u128>,
    pub pledged: Map<u128, bool>,
    pub burned: Map<u128, bool>,
    pub burn_log: Seq<BurnRecord>,
    pub pledge_log: Seq<PledgeRecord>,
    pub operators: Seq<OperatorGrant>,
}

impl View for Collection {
    type V = CollectionView;

    open spec fn view(&self) -> CollectionView {
        CollectionView {
            config: self.config,
            minter: self.minter,
            version: self.version,
            tokens: self.tokens@,
            approvals: self.approvals@,
            minted: self.minted,
            issued: self.issued@,
            pledged: self.pledged@,
            burned: self.burned@,
            burn_log: self.burn_log@,
            pledge_log: self.pledge_log@,
            operators: self.operators@,
        }
    }
}

/// `m[k]` where `k` is present.
pub open spec fn lookup<V>(m: Map<u128, V>, k: u128) -> Option<V> {
    if m.contains_key(k) {
        Some(m[k])
    } else {
        None
    }
}

/// What the collection records of one item.
pub struct ItemState {
    pub token: Option<TokenInfo>,
    pub approvals: Option<Vec<Approval>>,
    pub pledged: Option<bool>,
    pub burned: Option<bool>,
}

impl CollectionView {
    /// The approvals of item `id`; none where it has no entry.
    pub open spec fn approvals_of(self, id: u128) -> Seq<Approval> {
        if self.approvals.contains_key(id) {
            self.approvals[id]@
        } else {
            Seq::empty()
        }
    }

    /// What the collection records of item `id`.
    pub open spec fn item(self, id: u128) -> ItemState {
        ItemState {
            token: lookup(self.tokens, id),
            approvals: lookup(self.approvals, id),
            pledged: lookup(self.pledged, id),
            burned: lookup(self.burned, id),
        }
    }

    /// Minting item `id` to `buyer`: the item must exist, never have been
    /// minted, and still belong to the minter; it then belongs to `buyer`,
    /// without approvals, is marked as issued, and the minted count grows by
    /// one (a full count refuses with `MaxTokens`).
    pub open spec fn mint_step(self, id: u128, buyer: String) -> (CollectionView, Result<(), ContractError>) {
        if !self.tokens.contains_key(id) {
            (self, Err(ContractError::TokenNotFound { token_id: id }))
        } else if self.issued.contains(id) || self.tokens[id].owner@ != self.minter@ {
            (self, Err(ContractError::Claimed))
        } else if self.minted == u64::MAX {
            (self, Err(ContractError::MaxTokens))
        } else {
            let t = self.tokens[id];
            (
                CollectionView {
                    tokens: self.tokens.insert(id, TokenInfo { owner: buyer, token_uri: t.token_uri, extension: t.extension }),
                    approvals: self.approvals.remove(id),
                    minted: (self.minted + 1) as u64,
                    issued: self.issued.insert(id),
                    ..self
                },
                Ok(()),
            )
        }
    }

    /// Burning item `id` on behalf of `caller`: the item must be pledged,
    /// exist, and the burn matrix must allow it. The item and its approvals
    /// are removed, a tombstone and a burn record are written, and the minted
    /// count shrinks by one (it stays at zero).
    pub open spec fn burn_step(self, id: u128, caller: String) -> (CollectionView, Result<BurnRole, ContractError>) {
        if !self.pledged.contains_key(id) {
            (self, Err(ContractError::TokenNotPledged { token_id: id }))
        } else if !self.tokens.contains_key(id) {
            (self, Err(ContractError::TokenNotFound { token_id: id }))
        } else {
            match burn_decision(self.config.burn, self.tokens[id].owner@, self.config.creator@, caller@) {
                Err(e) => (self, Err(e)),
                Ok(role) => (
                    CollectionView {
                        tokens: self.tokens.remove(id),
                        approvals: self.approvals.remove(id),
                        burned: self.burned.insert(id, true),
                        minted: if self.minted > 0 { (self.minted - 1) as u64 } else { 0 },
                        burn_log: self.burn_log.push(BurnRecord { burner: caller, token_id: id, role }),
                        ..self
                    },
                    Ok(role),
                ),
            }
        }
    }

    /// Pledging item `id` on behalf of `caller`: the item must exist, the
    /// caller must own it or be the creator, and it must not be pledged yet.
    pub open spec fn pledge_step(self, id: u128, caller: String) -> (CollectionView, Result<(), ContractError>) {
        if !self.tokens.contains_key(id) {
            (self, Err(ContractError::DontExists))
        } else if caller@ != self.tokens[id].owner@ && caller@ != self.config.creator@ {
            (self, Err(ContractError::Unauthorized))
        } else if self.pledged.contains_key(id) {
            (self, Err(ContractError::TokenPledged { token_id: id }))
        } else {
            (
                CollectionView {
                    pledged: self.pledged.insert(id, false),
                    pledge_log: self.pledge_log.push(PledgeRecord { pledger: caller, token_id: id }),
                    ..self
                },
                Ok(()),
            )
        }
    }

    /// Transferring item `id` to `recipient` on behalf of `caller`: the item
    /// must exist and the caller must own it, hold an unexpired approval on
    /// it, or be an unexpired operator of its owner. Its approvals are cleared.
    pub open spec fn transfer_step(self, id: u128, caller: String, recipient: String, block: Block) -> (CollectionView, Result<(), ContractError>) {
        if !self.tokens.contains_key(id) {
            (self, Err(ContractError::TokenNotFound { token_id: id }))
        } else if !may_transfer(self.tokens[id], self.approvals_of(id), self.operators, caller@, block) {
            (self, Err(ContractError::Unauthorized))
        } else {
            let t = self.tokens[id];
            (
                CollectionView {
                    tokens: self.tokens.insert(id, TokenInfo { owner: recipient, token_uri: t.token_uri, extension: t.extension }),
                    approvals: self.approvals.remove(id),
                    ..self
                },
                Ok(()),
            )
        }
    }
}

impl Collection {
    /// Fails with `TokenNotFound` unless item `id` exists.
    pub fn check_token_exists_or_err(&self, id: u128) -> (r: Result<(), ContractError>)
        ensures
            r is Ok <==> self@.tokens.contains_key(id),
            r is Err ==> r == Err::<(), ContractError>(ContractError::TokenNotFound { token_id: id }),
    {
        if self.tokens.contains_key(&id) {
            Ok(())
        } else {
            Err(ContractError::TokenNotFound { token_id: id })
        }
    }

    /// Hands item `id` from the minter to `buyer`; at most once per id, as
    /// an item minted before, or one that left the minter, is refused with
    /// `Claimed`.
    pub fn try_mint(&mut self, buyer: &String, id: u128) -> (r: Result<(), ContractError>)
        ensures
            (final(self)@, r) == old(self)@.mint_step(id, *buyer),
    {
        self.check_token_exists_or_err(id)?;
        match self.tokens.get(&id) {
            None => {
                return Err(ContractError::TokenNotFound { token_id: id });
            },
            Some(t) => {
                if self.issued.contains(&id) || t.owner != self.minter {
                    return Err(ContractError::Claimed);
                }
            },
        }
        if self.minted == u64::MAX {
            return Err(ContractError::MaxTokens);
        }
        match self.tokens.remove(&id) {
            None => Err(ContractError::TokenNotFound { token_id: id }),
            Some(t) => {
                let new_token = TokenInfo { owner: buyer.clone(), token_uri: t.token_uri, extension: t.extension };
                self.tokens.insert(id, new_token);
                self.approvals.remove(&id);
                self.minted = self.minted + 1;
                self.issued.insert(id);
                proof {
                    assert(self@.tokens =~= old(self)@.mint_step(id, *buyer).0.tokens);
                }
                Ok(())
            },
        }
    }

    /// Burns item `id` on behalf of `caller` by the burn policy, once it is
    /// pledged.
    pub fn burn_and_update(&mut self, id: u128, caller: &String) -> (r: Result<BurnRole, ContractError>)
        ensures
            (final(self)@, r) == old(self)@.burn_step(id, *caller),
    {
        if !self.pledged.contains_key(&id) {
            return Err(ContractError::TokenNotPledged { token_id: id });
        }
        let role = match self.tokens.get(&id) {
            None => {
                return Err(ContractError::TokenNotFound { token_id: id });
            },
            Some(t) => burn_authorization(&self.config.burn, &t.owner, &self.config.creator, caller)?,
        };
        self.tokens.remove(&id);
        self.approvals.remove(&id);
        self.burned.insert(id, true);
        self.minted = if self.minted > 0 { self.minted - 1 } else { 0 };
        self.burn_log.push(BurnRecord { burner: caller.clone(), token_id: id, role });
        Ok(role)
    }

    /// Pledges item `id` for burning on behalf of `caller`.
    pub fn pledge_token(&mut self, id: u128, caller: &String) -> (r: Result<(), ContractError>)
        ensures
            (final(self)@, r) == old(self)@.pledge_step(id, *caller),
    {
        match self.tokens.get(&id) {
            None => {
                return Err(ContractError::DontExists);
            },
            Some(t) => {
                if *caller != t.owner && *caller != self.config.creator {
                    return Err(ContractError::Unauthorized);
                }
            },
        }
        if self.pledged.contains_key(&id) {
            return Err(ContractError::TokenPledged { token_id: id });
        }
        self.pledged.insert(id, false);
        self.pledge_log.push(PledgeRecord { pledger: caller.clone(), token_id: id });
        Ok(())
    }

    /// Transfers item `id` to `recipient` on behalf of `caller`.
    pub fn transfer_nft(&mut self, id: u128, caller: &String, recipient: &String, block: &Block) -> (r: Result<(), ContractError>)
        ensures
            (final(self)@, r) == old(self)@.transfer_step(id, *caller, *recipient, *block),
    {
        let allowed = match self.tokens.get(&id) {
            None => {
                return Err(ContractError::TokenNotFound { token_id: id });
            },
            Some(t) => match self.approvals.get(&id) {
                Some(a) => check_token_ownership_complete(t, a, &self.operators, caller, block),
                None => {
                    let none: Vec<Approval> = Vec::new();
                    proof {
                        assert(none@ =~= self@.approvals_of(id));
                    }
                    check_token_ownership_complete(t, &none, &self.operators, caller, block)
                },
            },
        };
        if !allowed {
            return Err(ContractError::Unauthorized);
        }
        let old_token = self.tokens.remove(&id);
        match old_token {
            None => Err(ContractError::TokenNotFound { token_id: id }),
            Some(t) => {
                let new_token = TokenInfo { owner: recipient.clone(), token_uri: t.token_uri, extension: t.extension };
                self.tokens.insert(id, new_token);
                self.approvals.remove(&id);
                proof {
                    assert(self@.tokens =~= old(self)@.transfer_step(id, *caller, *recipient, *block).0.tokens);
                }
                Ok(())
            },
        }
    }
}

} // verus!
