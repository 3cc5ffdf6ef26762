use vstd::prelude::*;
use crate::error::{ErrorCode, PoolError};
use crate::state::{AccountSnapshot, Pool, POOL_TYPE_NFT, POOL_TYPE_TOKEN, POOL_TYPE_TRADE};
use crate::utils::{
    assert_is_ata, assert_is_ata_spec, assert_keys_equal, provenance_gate, provenance_spec,
};

verus! {

/// The accounts of a deposit of one item.
#[derive(Clone, Debug, PartialEq, Eq)]
pub struct AddNFTLiquidity {
    pub pool: Pool,
    /// The item; its key is the item's identity.
    pub nft_mint: AccountSnapshot,
    pub mint_metadata: AccountSnapshot,
    /// The account that the item comes from.
    pub owner_ata: AccountSnapshot,
    /// The signer of the deposit.
    pub owner: [u8; 32],
}

/// The accounts of a withdrawal of one item.
#[derive(Clone, Debug, PartialEq, Eq)]
pub struct RemoveNFTLiquidity {
    pub pool: Pool,
    /// What the item's vault holds before the withdrawal.
    pub nft_vault_amount: u64,
    pub nft_mint: [u8; 32],
    /// The account that receives the item.
    pub owner_ata: AccountSnapshot,
    /// The signer of the withdrawal.
    pub owner: [u8; 32],
}

/// The accounts of a deposit of tokens.
#[derive(Clone, Debug, PartialEq, Eq)]
pub struct AddTokenLiquidity {
    pub pool: Pool,
    /// The account that the tokens come from.
    pub owner_ata: AccountSnapshot,
    /// The signer of the deposit.
    pub owner: [u8; 32],
}

/// The accounts of a withdrawal of tokens.
#[derive(Clone, Debug, PartialEq, Eq)]
pub struct RemoveTokenLiquidity {
    pub pool: Pool,
    /// What the token vault holds before the withdrawal.
    pub token_vault_amount: u64,
    pub token_mint: [u8; 32],
    /// The account that receives the tokens.
    pub owner_ata: AccountSnapshot,
    /// The signer of the withdrawal.
    pub owner: [u8; 32],
}

/// Whether a deposit of one item may go ahead, and with how many units.
pub open spec fn add_nft_spec(ctx: AddNFTLiquidity, merkle_proof: Seq<[u8; 32]>) -> Result<
    u64,
    PoolError,
> {
    if ctx.pool.owner@ != ctx.owner@ {
        Err(PoolError::Code(ErrorCode::PublicKeyMismatch))
    } else if ctx.pool.pool_type == POOL_TYPE_TOKEN {
        Err(PoolError::Code(ErrorCode::InvalidPoolType))
    } else if provenance_spec(ctx.pool, ctx.nft_mint, ctx.mint_metadata, merkle_proof) is Err {
        Err(provenance_spec(ctx.pool, ctx.nft_mint, ctx.mint_metadata, merkle_proof)->Err_0)
    } else if assert_is_ata_spec(ctx.owner_ata, ctx.owner@, ctx.nft_mint.key@) is Err {
        Err(assert_is_ata_spec(ctx.owner_ata, ctx.owner@, ctx.nft_mint.key@)->Err_0)
    } else {
        Ok(1u64)
    }
}

/// Authorises the deposit of one item by the pool's owner: the pool has an item
/// side, the item passes the provenance gate, and the account that the item
/// comes from is the owner's account for the item. The answer is the number of
/// units that custody is to move into the vault and to approve the pool for;
/// `record_nft_added` books the deposit once that is done.
pub fn add_nft(ctx: &AddNFTLiquidity, merkle_proof: Vec<[u8; 32]>) -> (r: Result<u64, PoolError>)
    ensures
        r == add_nft_spec(*ctx, merkle_proof@),
{
    match assert_keys_equal(ctx.pool.owner, ctx.owner) {
        Err(e) => {
            return Err(e);
        },
        Ok(_) => {},
    }
    if ctx.pool.pool_type == POOL_TYPE_TOKEN {
        return Err(PoolError::Code(ErrorCode::InvalidPoolType));
    }
    match provenance_gate(&ctx.pool, &ctx.nft_mint, &ctx.mint_metadata, merkle_proof) {
        Err(e) => {
            return Err(e);
        },
        Ok(_) => {},
    }
    match assert_is_ata(&ctx.owner_ata, &ctx.owner, &ctx.nft_mint.key) {
        Err(e) => {
            return Err(e);
        },
        Ok(_) => {},
    }
    Ok(1)
}

/// Whether a withdrawal of one item may go ahead, and with how many units.
pub open spec fn remove_nft_spec(ctx: RemoveNFTLiquidity) -> Result<u64, PoolError> {
    if ctx.pool.owner@ != ctx.owner@ {
        Err(PoolError::Code(ErrorCode::PublicKeyMismatch))
    } else if ctx.pool.pool_type == POOL_TYPE_TOKEN {
        Err(PoolError::Code(ErrorCode::InvalidPoolType))
    } else if assert_is_ata_spec(ctx.owner_ata, ctx.owner@, ctx.nft_mint@) is Err {
        Err(assert_is_ata_spec(ctx.owner_ata, ctx.owner@, ctx.nft_mint@)->Err_0)
    } else if ctx.nft_vault_amount < 1 {
        Err(PoolError::Code(ErrorCode::NotEnoughBalance))
    } else {
        Ok(1u64)
    }
}

/// Authorises the withdrawal of one item by the pool's owner: the pool has an
/// item side, the receiving account is the owner's account for the item, and
/// the vault holds the item. The answer is the number of units that custody is
/// to move out of the vault; `record_nft_removed` books the withdrawal once that
/// is done.
pub fn remove_nft(ctx: &RemoveNFTLiquidity) -> (r: Result<u64, PoolError>)
    ensures
        r == remove_nft_spec(*ctx),
{
    match assert_keys_equal(ctx.pool.owner, ctx.owner) {
        Err(e) => {
            return Err(e);
        },
        Ok(_) => {},
    }
    if ctx.pool.pool_type == POOL_TYPE_TOKEN {
        return Err(PoolError::Code(ErrorCode::InvalidPoolType));
    }
    match assert_is_ata(&ctx.owner_ata, &ctx.owner, &ctx.nft_mint) {
        Err(e) => {
            return Err(e);
        },
        Ok(_) => {},
    }
    if ctx.nft_vault_amount < 1 {
        return Err(PoolError::Code(ErrorCode::NotEnoughBalance));
    }
    Ok(1)
}

/// Whether a deposit of `amount` tokens may go ahead.
pub open spec fn add_token_liquidity_spec(ctx: AddTokenLiquidity, amount: u64) -> Result<
    u64,
    PoolError,
> {
    if ctx.pool.owner@ != ctx.owner@ {
        Err(PoolError::Code(ErrorCode::PublicKeyMismatch))
    } else if ctx.pool.pool_type == POOL_TYPE_NFT {
        Err(PoolError::Code(ErrorCode::InvalidPoolType))
    } else if assert_is_ata_spec(ctx.owner_ata, ctx.owner@, ctx.pool.mint@) is Err {
        Err(assert_is_ata_spec(ctx.owner_ata, ctx.owner@, ctx.pool.mint@)->Err_0)
    } else {
        Ok(amount)
    }
}

/// Authorises the deposit of `amount` tokens by the pool's owner: the pool has
/// a token side and the account that the tokens come from is the owner's
/// account for the pool's token. The answer is the amount that custody is to
/// move into the vault and to approve the pool for; `record_token_balance`
/// books what the vault holds once that is done.
pub fn add_token_liquidity(ctx: &AddTokenLiquidity, amount: u64) -> (r: Result<u64, PoolError>)
    ensures
        r == add_token_liquidity_spec(*ctx, amount),
{
    match assert_keys_equal(ctx.pool.owner, ctx.owner) {
        Err(e) => {
            return Err(e);
        },
        Ok(_) => {},
    }
    if ctx.pool.pool_type == POOL_TYPE_NFT {
        return Err(PoolError::Code(ErrorCode::InvalidPoolType));
    }
    match assert_is_ata(&ctx.owner_ata, &ctx.owner, &ctx.pool.mint) {
        Err(e) => {
            return Err(e);
        },
        Ok(_) => {},
    }
    Ok(amount)
}

/// Whether a withdrawal of `amount` tokens may go ahead.
pub open spec fn remove_token_liquidity_spec(ctx: RemoveTokenLiquidity, amount: u64) -> Result<
    u64,
    PoolError,
> {
    if ctx.pool.owner@ != ctx.owner@ {
        Err(PoolError::Code(ErrorCode::PublicKeyMismatch))
    } else if ctx.pool.pool_type == POOL_TYPE_NFT {
        Err(PoolError::Code(ErrorCode::InvalidPoolType))
    } else if assert_is_ata_spec(ctx.owner_ata, ctx.owner@, ctx.token_mint@) is Err {
        Err(assert_is_ata_spec(ctx.owner_ata, ctx.owner@, ctx.token_mint@)->Err_0)
    } else if ctx.token_vault_amount < amount {
        Err(PoolError::Code(ErrorCode::NotEnoughBalance))
    } else {
        Ok(amount)
    }
}

/// Authorises the withdrawal of `amount` tokens by the pool's owner: the pool
/// has a token side, the receiving account is the owner's account for the
/// token, and the vault holds the amount in full. The answer is the amount that
/// custody is to move out of the vault; `record_token_balance` books what the
/// vault holds once that is done.
pub fn remove_token_liquidity(ctx: &RemoveTokenLiquidity, amount: u64) -> (r: Result<
    u64,
    PoolError,
>)
    ensures
        r == remove_token_liquidity_spec(*ctx, amount),
{
    match assert_keys_equal(ctx.pool.owner, ctx.owner) {
        Err(e) => {
            return Err(e);
        },
        Ok(_) => {},
    }
    if ctx.pool.pool_type == POOL_TYPE_NFT {
        return Err(PoolError::Code(ErrorCode::InvalidPoolType));
    }
    match assert_is_ata(&ctx.owner_ata, &ctx.owner, &ctx.token_mint) {
        Err(e) => {
            return Err(e);
        },
        Ok(_) => {},
    }
    if ctx.token_vault_amount < amount {
        return Err(PoolError::Code(ErrorCode::NotEnoughBalance));
    }
    Ok(amount)
}

/// The pool after a recompute of its solvency flag. Only a two-sided pool has
/// the flag recomputed: it goes up where the ratio of tokens to items holds at
/// the spot price and down where it does not. A spot price of zero leaves no
/// ratio to test.
pub open spec fn solvency_spec(pool: Pool) -> Result<Pool, PoolError> {
    if pool.pool_type != POOL_TYPE_TRADE {
        Ok(pool)
    } else if pool.spot_price == 0 {
        Err(PoolError::Code(ErrorCode::InvalidSpotPrice))
    } else {
        Ok(Pool { valid: pool.ratio_holds(), ..pool })
    }
}

/// Recomputes the solvency flag of a two-sided pool and leaves every other pool
/// as it is. On a refusal the pool is unchanged.
pub fn update_pool_state(pool: &mut Pool) -> (r: Result<(), PoolError>)
    ensures
        match r {
            Ok(_) => solvency_spec(*old(pool)) == Ok::<Pool, PoolError>(*final(pool)),
            Err(e) => solvency_spec(*old(pool)) == Err::<Pool, PoolError>(e) && *final(pool)
                == *old(pool),
        },
        old(pool).pool_type == POOL_TYPE_TRADE && old(pool).n_token < old(pool).spot_price
            * old(pool).n_nft ==> r is Ok && !final(pool).valid,
        old(pool).pool_type == POOL_TYPE_TRADE && old(pool).spot_price > 0 ==> r is Ok
            && final(pool).valid == old(pool).ratio_holds(),
{
    if pool.pool_type != POOL_TYPE_TRADE {
        return Ok(());
    }
    if pool.spot_price == 0 {
        return Err(PoolError::Code(ErrorCode::InvalidSpotPrice));
    }
    assert(pool.spot_price * pool.n_nft <= u64::MAX * u64::MAX) by (nonlinear_arith)
        requires
            pool.spot_price <= u64::MAX,
            pool.n_nft <= u64::MAX,
    ;
    let owed: u128 = pool.spot_price as u128 * pool.n_nft as u128;
    let mut valid = true;
    if (pool.n_token as u128) < owed {
        valid = false;
    }
    if pool.n_nft < pool.n_token / pool.spot_price {
        valid = false;
    }
    pool.valid = valid;
    Ok(())
}

/// The pool after its item count moved by one and its flag was recomputed.
pub open spec fn nft_recorded_spec(pool: Pool, added: bool) -> Result<Pool, PoolError> {
    if added && pool.n_nft == u64::MAX {
        Err(PoolError::ArithmeticOverflow)
    } else if !added && pool.n_nft == 0 {
        Err(PoolError::ArithmeticOverflow)
    } else if added {
        solvency_spec(Pool { n_nft: (pool.n_nft + 1) as u64, ..pool })
    } else {
        solvency_spec(Pool { n_nft: (pool.n_nft - 1) as u64, ..pool })
    }
}

/// Books a deposit of one item that custody has carried out: the item count
/// goes up by one and the solvency flag is recomputed. On a refusal the pool is
/// unchanged.
pub fn record_nft_added(pool: &mut Pool) -> (r: Result<(), PoolError>)
    ensures
        match r {
            Ok(_) => nft_recorded_spec(*old(pool), true) == Ok::<Pool, PoolError>(*final(pool)),
            Err(e) => nft_recorded_spec(*old(pool), true) == Err::<Pool, PoolError>(e)
                && *final(pool) == *old(pool),
        },
{
    let mut next: Pool = *pool;
    next.n_nft = match pool.n_nft.checked_add(1) {
        None => {
            return Err(PoolError::ArithmeticOverflow);
        },
        Some(count) => count,
    };
    match update_pool_state(&mut next) {
        Err(e) => {
            return Err(e);
        },
        Ok(_) => {},
    }
    *pool = next;
    Ok(())
}

/// Books a withdrawal of one item that custody has carried out: the item count
/// goes down by one and the solvency flag is recomputed. On a refusal the pool
/// is unchanged.
pub fn record_nft_removed(pool: &mut Pool) -> (r: Result<(), PoolError>)
    ensures
        match r {
            Ok(_) => nft_recorded_spec(*old(pool), false) == Ok::<Pool, PoolError>(*final(pool)),
            Err(e) => nft_recorded_spec(*old(pool), false) == Err::<Pool, PoolError>(e)
                && *final(pool) == *old(pool),
        },
{
    let mut next: Pool = *pool;
    next.n_nft = match pool.n_nft.checked_sub(1) {
        None => {
            return Err(PoolError::ArithmeticOverflow);
        },
        Some(count) => count,
    };
    match update_pool_state(&mut next) {
        Err(e) => {
            return Err(e);
        },
        Ok(_) => {},
    }
    *pool = next;
    Ok(())
}

/// Books what the token vault holds after custody has moved tokens in or out:
/// the token balance becomes `vault_balance`, whatever amount was asked for, and
/// the solvency flag is recomputed. On a refusal the pool is unchanged.
pub fn record_token_balance(pool: &mut Pool, vault_balance: u64) -> (r: Result<(), PoolError>)
    ensures
        match r {
            Ok(_) => solvency_spec(Pool { n_token: vault_balance, ..*old(pool) }) == Ok::<
                Pool,
                PoolError,
            >(*final(pool)),
            Err(e) => solvency_spec(Pool { n_token: vault_balance, ..*old(pool) }) == Err::<
                Pool,
                PoolError,
            >(e) && *final(pool) == *old(pool),
        },
{
    let mut next: Pool = *pool;
    next.n_token = vault_balance;
    match update_pool_state(&mut next) {
        Err(e) => {
            return Err(e);
        },
        Ok(_) => {},
    }
    *pool = next;
    Ok(())
}

} // verus!
