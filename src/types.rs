use vstd::prelude::*;

verus! {

/// A quantity of one fungible asset.
#[derive(Debug, Clone, PartialEq, Eq)]
pub struct Coin {
    pub denom: String,
    pub amount: u128,
}

/// The address that receives the proceeds of minting.
#[derive(Debug, Clone, PartialEq, Eq)]
pub struct Wallet {
    pub name: String,
    pub wallet: String,
}

impl Default for Wallet {
    fn default() -> (r: Wallet)
        ensures
            r.name@.len() == 0,
            r.wallet@.len() == 0,
    {
        Wallet { name: String::new(), wallet: String::new() }
    }
}

/// The accepted denomination and the price of one item.
#[derive(Debug, Clone, PartialEq, Eq)]
pub struct Costs {
    pub denom: String,
    pub amount: u128,
}

impl Default for Costs {
    fn default() -> (r: Costs)
        ensures
            r.denom@ == "ujuno"@,
            r.amount == 1000000,
    {
        Costs { denom: String::from_str("ujuno"), amount: 1000000 }
    }
}

/// Optional bounds of the minting window, in nanoseconds since the epoch.
/// An unset bound imposes no constraint on its side.
#[derive(Debug, Clone, Copy, PartialEq, Eq, Default)]
pub struct Dates {
    pub start: Option<u64>,
    pub end: Option<u64>,
}

/// Who may burn items.
#[derive(Debug, Clone, Copy, PartialEq, Eq, Default)]
pub struct Burn {
    /// holders may burn the items they own
    pub owner_can_burn: bool,
    /// the creator may burn items owned by others
    pub can_burn_owned: bool,
}

/// When an approval or an operator grant lapses.
#[derive(Debug, Clone, Copy, PartialEq, Eq)]
pub enum Expiration {
    AtHeight(u64),
    /// nanoseconds since the epoch
    AtTime(u64),
    Never,
}

/// The block a call executes in.
#[derive(Debug, Clone, Copy, PartialEq, Eq)]
pub struct Block {
    pub height: u64,
    /// nanoseconds since the epoch
    pub time: u64,
}

/// Permission for `spender` to transfer one item.
#[derive(Debug, Clone, PartialEq, Eq)]
pub struct Approval {
    pub spender: String,
    pub expires: Expiration,
}

/// Permission for `operator` to transfer every item of `owner`.
#[derive(Debug, Clone, PartialEq, Eq)]
pub struct OperatorGrant {
    pub owner: String,
    pub operator: String,
    pub expires: Expiration,
}

/// One attribute of an item's metadata.
#[derive(Debug, Clone, PartialEq, Eq)]
pub struct Trait {
    pub display_type: Option<String>,
    pub trait_type: String,
    pub value: String,
}

/// Descriptive metadata of an item.
#[derive(Debug, Clone, PartialEq, Eq)]
pub struct Metadata {
    pub image: Option<String>,
    pub image_data: Option<String>,
    pub external_url: Option<String>,
    pub description: Option<String>,
    pub name: Option<String>,
    pub attributes: Option<Vec<Trait>>,
    pub background_color: Option<String>,
    pub animation_url: Option<String>,
    pub youtube_url: Option<String>,
}

/// An entry of the item registry. Its approvals are kept beside it, by id.
#[derive(Debug, Clone, PartialEq, Eq)]
pub struct TokenInfo {
    pub owner: String,
    pub token_uri: Option<String>,
    pub extension: Option<Metadata>,
}

/// The template from which `execute_store_conf` builds items.
#[derive(Debug, Clone, PartialEq, Eq)]
pub struct StoreConf {
    pub name: String,
    pub desc: String,
    pub ipfs: String,
    /// the trait names, in order
    pub attributes: Vec<String>,
}

impl Default for StoreConf {
    fn default() -> (r: StoreConf)
        ensures
            r.name@ == "nft"@,
            r.desc@ == "desc"@,
            r.ipfs@ == "ipfs://"@,
            r.attributes@.len() == 0,
    {
        StoreConf {
            name: String::from_str("nft"),
            desc: String::from_str("desc"),
            ipfs: String::from_str("ipfs://"),
            attributes: Vec::new(),
        }
    }
}

/// Rows of trait values, one row per item to pre-allocate, and an optional
/// template that replaces the configured one for this call.
#[derive(Debug, Clone, PartialEq, Eq)]
pub struct StoreConfMsg {
    pub attributes: Vec<Vec<String>>,
    pub conf: Option<StoreConf>,
}

/// The data of one item to pre-allocate.
#[derive(Debug, Clone, PartialEq, Eq)]
pub struct TokenData {
    pub token_uri: Option<String>,
    pub extension: Option<Metadata>,
}

/// Items to pre-allocate in one call.
#[derive(Debug, Clone, PartialEq, Eq)]
pub struct BatchStoreMsg {
    pub batch: Vec<TokenData>,
}

/// A batch transfer of items to one recipient.
#[derive(Debug, Clone, PartialEq, Eq)]
pub struct TransferOperation {
    pub recipient: String,
    pub tokens: Vec<u128>,
}

/// A request to mint `amount` items at once.
#[derive(Debug, Clone, Copy, PartialEq, Eq)]
pub struct MintBatchMsg {
    pub amount: u128,
}

/// The configuration of a collection.
#[derive(Debug, Clone, PartialEq, Eq)]
pub struct Config {
    pub creator: String,
    pub name: String,
    /// the supply cap
    pub token_supply: u128,
    /// how many items were pre-allocated
    pub token_total: u128,
    pub cost: Costs,
    pub dates: Dates,
    pub max_mint_batch: Option<u128>,
    pub burn: Burn,
    pub wallet: Wallet,
    pub store_conf: StoreConf,
    pub frozen: bool,
    pub paused: bool,
}

/// The parameters a collection is created or reconfigured with.
#[derive(Debug, Clone, PartialEq, Eq)]
pub struct InstantiateMsg {
    pub creator: String,
    pub name: String,
    pub symbol: String,
    pub dates: Dates,
    pub cost: Costs,
    pub burn: Burn,
    pub token_supply: u128,
    pub wallet: Wallet,
    /// defaults to 10
    pub max_mint_batch: Option<u128>,
    pub store_conf: StoreConf,
}

/// The batch limit a configuration gets when none is given.
pub const DEFAULT_MAX_MINT_BATCH: u128 = 10;

/// The configuration that `msg` describes: nothing pre-allocated, neither
/// frozen nor paused, and the default batch limit where none is given.
pub open spec fn config_from_msg(msg: InstantiateMsg) -> Config {
    Config {
        creator: msg.creator,
        name: msg.name,
        token_supply: msg.token_supply,
        token_total: 0,
        cost: msg.cost,
        dates: msg.dates,
        max_mint_batch: match msg.max_mint_batch {
            Some(m) => Some(m),
            None => Some(DEFAULT_MAX_MINT_BATCH),
        },
        burn: msg.burn,
        wallet: msg.wallet,
        store_conf: msg.store_conf,
        frozen: false,
        paused: false,
    }
}

impl InstantiateMsg {
    pub fn new(creator: String) -> (r: InstantiateMsg)
        ensures
            r.creator == creator,
            r.name@.len() == 0,
            r.symbol@.len() == 0,
            r.dates == (Dates { start: None, end: None }),
            r.cost.denom@ == "ujuno"@,
            r.cost.amount == 1000000,
            r.burn == (Burn { owner_can_burn: false, can_burn_owned: false }),
            r.token_supply == 0,
            r.wallet.name@.len() == 0,
            r.wallet.wallet@.len() == 0,
            r.max_mint_batch.is_none(),
            r.store_conf.name@ == "nft"@,
            r.store_conf.desc@ == "desc"@,
            r.store_conf.ipfs@ == "ipfs://"@,
            r.store_conf.attributes@.len() == 0,
    {
        InstantiateMsg {
            creator,
            name: String::new(),
            symbol: String::new(),
            dates: Dates { start: None, end: None },
            cost: Costs::default(),
            burn: Burn { owner_can_burn: false, can_burn_owned: false },
            token_supply: 0,
            wallet: Wallet::default(),
            max_mint_batch: None,
            store_conf: StoreConf::default(),
        }
    }

    /// The configuration this message describes.
    pub fn into_config(self) -> (r: Config)
        ensures
            r == config_from_msg(self),
    {
        let max_mint_batch = match self.max_mint_batch {
            Some(m) => Some(m),
            None => Some(DEFAULT_MAX_MINT_BATCH),
        };
        Config {
            creator: self.creator,
            name: self.name,
            token_supply: self.token_supply,
            token_total: 0,
            cost: self.cost,
            dates: self.dates,
            max_mint_batch,
            burn: self.burn,
            wallet: self.wallet,
            store_conf: self.store_conf,
            frozen: false,
            paused: false,
        }
    }
}

/// A migration to `version` that installs `config`, optionally wiping the
/// item, pledge and burn records first.
#[derive(Debug, Clone, PartialEq, Eq)]
pub enum MigrateMsg<T> {
    WithConfigClearState { version: String, config: T },
    WithConfig { version: String, config: T },
}

} // verus!
