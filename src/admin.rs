use std::collections::{HashMap, HashSet};
use vstd::prelude::*;
use crate::error::ContractError;
use crate::ledger::{Collection, CollectionView};
use crate::types::{config_from_msg, Config, InstantiateMsg, MigrateMsg};

verus! {

broadcast use vstd::std_specs::hash::group_hash_axioms;

impl CollectionView {
    /// This state with `config` in place of its configuration.
    pub open spec fn with_config(self, config: Config) -> CollectionView {
        CollectionView { config, ..self }
    }

    /// This state with the configuration's `frozen` flag set to `frozen`.
    pub open spec fn with_frozen(self, frozen: bool) -> CollectionView {
        self.with_config(Config { frozen, ..self.config })
    }

    /// This state with the configuration's `paused` flag set to `paused`.
    pub open spec fn with_paused(self, paused: bool) -> CollectionView {
        self.with_config(Config { paused, ..self.config })
    }
}

/// A new collection configured by `msg`, administered by its creator, at
/// `version`, with nothing stored.
pub fn instantiate(msg: InstantiateMsg, version: String) -> (r: Collection)
    ensures
        r@.config == config_from_msg(msg),
        r@.minter == msg.creator,
        r@.version == version,
        r@.tokens.is_empty(),
        r@.approvals.is_empty(),
        r@.minted == 0,
        r@.issued.is_empty(),
        r@.pledged.is_empty(),
        r@.burned.is_empty(),
        r@.burn_log.len() == 0,
        r@.pledge_log.len() == 0,
        r@.operators.len() == 0,
{
    let minter = msg.creator.clone();
    let config = msg.into_config();
    Collection {
        config,
        minter,
        version,
        tokens: HashMap::new(),
        approvals: HashMap::new(),
        minted: 0,
        issued: HashSet::new(),
        pledged: HashMap::new(),
        burned: HashMap::new(),
        burn_log: Vec::new(),
        pledge_log: Vec::new(),
        operators: Vec::new(),
    }
}

/// Fails with `Unauthorized` unless `sender` administers the collection.
pub fn can_update(state: &Collection, sender: &String) -> (r: Result<(), ContractError>)
    ensures
        r is Ok <==> sender@ == state@.minter@,
        r is Err ==> r == Err::<(), ContractError>(ContractError::Unauthorized),
{
    if *sender != state.minter {
        return Err(ContractError::Unauthorized);
    }
    Ok(())
}

/// Sets the `frozen` flag; nothing else changes.
pub fn execute_freeze(state: &mut Collection, sender: &String) -> (r: Result<(), ContractError>)
    ensures
        sender@ != old(state)@.minter@ ==> r == Err::<(), ContractError>(ContractError::Unauthorized) && final(state)@ == old(state)@,
        sender@ == old(state)@.minter@ ==> r is Ok && final(state)@ == old(state)@.with_frozen(true),
{
    can_update(state, sender)?;
    state.config.frozen = true;
    Ok(())
}

/// Clears the `frozen` flag; nothing else changes.
pub fn execute_unfreeze(state: &mut Collection, sender: &String) -> (r: Result<(), ContractError>)
    ensures
        sender@ != old(state)@.minter@ ==> r == Err::<(), ContractError>(ContractError::Unauthorized) && final(state)@ == old(state)@,
        sender@ == old(state)@.minter@ ==> r is Ok && final(state)@ == old(state)@.with_frozen(false),
{
    can_update(state, sender)?;
    state.config.frozen = false;
    Ok(())
}

/// Sets the `paused` flag; nothing else changes.
pub fn execute_pause(state: &mut Collection, sender: &String) -> (r: Result<(), ContractError>)
    ensures
        sender@ != old(state)@.minter@ ==> r == Err::<(), ContractError>(ContractError::Unauthorized) && final(state)@ == old(state)@,
        sender@ == old(state)@.minter@ ==> r is Ok && final(state)@ == old(state)@.with_paused(true),
{
    can_update(state, sender)?;
    state.config.paused = true;
    Ok(())
}

/// Clears the `paused` flag; nothing else changes.
pub fn execute_unpause(state: &mut Collection, sender: &String) -> (r: Result<(), ContractError>)
    ensures
        sender@ != old(state)@.minter@ ==> r == Err::<(), ContractError>(ContractError::Unauthorized) && final(state)@ == old(state)@,
        sender@ == old(state)@.minter@ ==> r is Ok && final(state)@ == old(state)@.with_paused(false),
{
    can_update(state, sender)?;
    state.config.paused = false;
    Ok(())
}

/// Replaces the whole configuration by the one `msg` describes, unless the
/// collection is frozen.
pub fn execute_update_conf(state: &mut Collection, sender: &String, msg: InstantiateMsg) -> (r: Result<(), ContractError>)
    ensures
        sender@ != old(state)@.minter@ ==> r == Err::<(), ContractError>(ContractError::Unauthorized) && final(state)@ == old(state)@,
        sender@ == old(state)@.minter@ && old(state)@.config.frozen ==> r == Err::<(), ContractError>(ContractError::ContractFrozen)
            && final(state)@ == old(state)@,
        sender@ == old(state)@.minter@ && !old(state)@.config.frozen ==> r is Ok && final(state)@ == old(state)@.with_config(
            config_from_msg(msg),
        ),
{
    can_update(state, sender)?;
    if state.config.frozen {
        return Err(ContractError::ContractFrozen);
    }
    state.config = msg.into_config();
    Ok(())
}

/// The state a migration leaves: the new version and configuration, with the
/// item, approval, issue, pledge and burn records wiped where `clear` is set.
pub open spec fn migrated(s: CollectionView, version: String, config: Config, clear: bool) -> CollectionView {
    if clear {
        CollectionView {
            config,
            version,
            tokens: Map::empty(),
            approvals: Map::empty(),
            issued: Set::empty(),
            pledged: Map::empty(),
            burned: Map::empty(),
            burn_log: Seq::empty(),
            pledge_log: Seq::empty(),
            ..s
        }
    } else {
        CollectionView { config, version, ..s }
    }
}

/// Migrates the collection to a new version, installing a new configuration
/// and, for `WithConfigClearState`, wiping the item, issue, pledge and burn
/// records first. A migration to the current version is refused.
pub fn migrate(state: &mut Collection, msg: MigrateMsg<Config>) -> (r: Result<(), ContractError>)
    ensures
        match msg {
            MigrateMsg::WithConfigClearState { version, config } => if version@ == old(state)@.version@ {
                r == Err::<(), ContractError>(ContractError::MigrationSameVersion { version }) && final(state)@ == old(state)@
            } else {
                r is Ok && final(state)@ == migrated(old(state)@, version, config, true)
            },
            MigrateMsg::WithConfig { version, config } => if version@ == old(state)@.version@ {
                r == Err::<(), ContractError>(ContractError::MigrationSameVersion { version }) && final(state)@ == old(state)@
            } else {
                r is Ok && final(state)@ == migrated(old(state)@, version, config, false)
            },
        },
{
    match msg {
        MigrateMsg::WithConfigClearState { version, config } => {
            if version == state.version {
                return Err(ContractError::MigrationSameVersion { version });
            }
            state.tokens.clear();
            state.approvals.clear();
            state.issued.clear();
            state.pledged.clear();
            state.burned.clear();
            state.burn_log = Vec::new();
            state.pledge_log = Vec::new();
            migrate_with_conf(state, version, config);
            Ok(())
        },
        MigrateMsg::WithConfig { version, config } => {
            if version == state.version {
                return Err(ContractError::MigrationSameVersion { version });
            }
            migrate_with_conf(state, version, config);
            Ok(())
        },
    }
}

/// Records `version` and installs `config`.
pub fn migrate_with_conf(state: &mut Collection, version: String, config: Config)
    ensures
        final(state)@ == (CollectionView { config, version, ..old(state)@ }),
{
    state.version = version;
    state.config = config;
}

} // verus!
