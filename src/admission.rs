use vstd::prelude::*;
use crate::error::ContractError;
use crate::types::{Coin, Config, Costs, Dates, DEFAULT_MAX_MINT_BATCH};

verus! {

/// What a payment of `funds` for `amount` items at the prices of `cost`
/// comes to: the one coin sent when it is of the configured denomination and
/// exactly the price, else the first rule it breaks.
pub open spec fn payment_result(cost: Costs, funds: Seq<Coin>, amount: u128) -> Result<Coin, ContractError> {
    if funds.len() > 1 {
        Err(ContractError::TooManyDenoms)
    } else if funds.len() == 0 {
        Err(ContractError::NoFundsSent)
    } else if funds[0].denom@ != cost.denom@ {
        Err(ContractError::WrongToken)
    } else if (funds[0].amount as int) < cost.amount * amount {
        Err(ContractError::NotEnoughFunds)
    } else if funds[0].amount as int != cost.amount * amount {
        Err(ContractError::IncorrectFunds)
    } else {
        Ok(funds[0])
    }
}

/// Whether `now` lies inside the window `dates`, where an unset bound
/// imposes nothing.
pub open spec fn in_window(dates: Dates, now: u64) -> bool {
    (dates.start matches Some(s) ==> s <= now) && (dates.end matches Some(e) ==> now <= e)
}

/// The most items one mint may ask for: the configured limit, else the
/// default one.
pub open spec fn batch_limit(config: Config) -> u128 {
    match config.max_mint_batch {
        Some(m) => m,
        None => DEFAULT_MAX_MINT_BATCH,
    }
}

/// The first admission rule that a mint of `amount` items breaks, checked in
/// order, or `None` when the mint may proceed.
pub open spec fn mint_refusal(
    count: u64,
    now: u64,
    config: Config,
    amount: u128,
    minter: Seq<char>,
    sender: Seq<char>,
) -> Option<ContractError> {
    if config.frozen {
        Some(ContractError::ContractFrozen)
    } else if config.paused {
        Some(ContractError::ContractPaused)
    } else if config.token_total == 0 {
        Some(ContractError::CantMintNothing)
    } else if amount == 0 {
        Some(ContractError::MintZero)
    } else if amount > batch_limit(config) {
        Some(ContractError::MintAmountLargerThanAllowed)
    } else if config.dates.start matches Some(s) && now < s {
        Some(ContractError::CantMintYet)
    } else if config.dates.end matches Some(e) && now > e {
        Some(ContractError::MintEnded)
    } else if count as int == config.token_supply {
        Some(ContractError::MaxTokenSupply)
    } else if count as int == config.token_total {
        Some(ContractError::MaxTokens)
    } else if sender == minter {
        Some(ContractError::Unauthorized)
    } else {
        None
    }
}

/// Checks a payment of `funds` for `amount` items against the configured
/// price: exactly one coin, of the configured denomination, of exactly the
/// price of `amount` items. Returns that coin.
pub fn can_pay(config: &Config, funds: &Vec<Coin>, amount: u128) -> (r: Result<Coin, ContractError>)
    ensures
        r == payment_result(config.cost, funds@, amount),
{
    if funds.len() > 1 {
        return Err(ContractError::TooManyDenoms);
    }
    if funds.len() == 0 {
        return Err(ContractError::NoFundsSent);
    }
    let coin = &funds[0];
    if coin.denom != config.cost.denom {
        return Err(ContractError::WrongToken);
    }
    match config.cost.amount.checked_mul(amount) {
        None => Err(ContractError::NotEnoughFunds),
        Some(total) => {
            if coin.amount < total {
                Err(ContractError::NotEnoughFunds)
            } else if coin.amount != total {
                Err(ContractError::IncorrectFunds)
            } else {
                Ok(Coin { denom: coin.denom.clone(), amount: coin.amount })
            }
        },
    }
}

/// Decides whether `sender` may mint `amount` items at time `now` when
/// `count` items are minted already. On success returns the id of the next
/// item to mint, which is `count`.
pub fn can_mint(
    count: u64,
    now: u64,
    config: &Config,
    amount: u128,
    minter: &String,
    sender: &String,
) -> (r: Result<u128, ContractError>)
    ensures
        match mint_refusal(count, now, *config, amount, minter@, sender@) {
            Some(e) => r == Err::<u128, ContractError>(e),
            None => r == Ok::<u128, ContractError>(count as u128),
        },
{
    if config.frozen {
        return Err(ContractError::ContractFrozen);
    }
    if config.paused {
        return Err(ContractError::ContractPaused);
    }
    if config.token_total == 0 {
        return Err(ContractError::CantMintNothing);
    }
    if amount == 0 {
        return Err(ContractError::MintZero);
    }
    let limit = match config.max_mint_batch {
        Some(m) => m,
        None => DEFAULT_MAX_MINT_BATCH,
    };
    if amount > limit {
        return Err(ContractError::MintAmountLargerThanAllowed);
    }
    if let Some(start) = config.dates.start {
        if now < start {
            return Err(ContractError::CantMintYet);
        }
    }
    if let Some(end) = config.dates.end {
        if now > end {
            return Err(ContractError::MintEnded);
        }
    }
    let current = count as u128;
    if current == config.token_supply {
        return Err(ContractError::MaxTokenSupply);
    }
    if current == config.token_total {
        return Err(ContractError::MaxTokens);
    }
    if *sender == *minter {
        return Err(ContractError::Unauthorized);
    }
    Ok(current)
}

} // verus!
