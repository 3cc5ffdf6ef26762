use vstd::prelude::*;
use crate::curve::{fee, fee_spec, next_price, next_price_spec, CurveKind, Direction};
use crate::error::{ErrorCode, PoolError};
use crate::state::{AccountSnapshot, Pool, CURVE_TYPE_LINEAR, POOL_TYPE_TOKEN, POOL_TYPE_TRADE};
use crate::utils::{assert_is_ata, assert_is_ata_spec, provenance_gate, provenance_spec};

verus! {

/// The accounts of a trade in which the trader pays tokens and takes an item
/// out of the pool.
#[derive(Clone, Debug, PartialEq, Eq)]
pub struct SwapForNFT {
    pub pool: Pool,
    pub nft_mint: [u8; 32],
    /// The trader's account of the pool's token.
    pub authority_token_ata: AccountSnapshot,
    /// The trader's account of the item.
    pub authority_nft_ata: AccountSnapshot,
    /// The trader, who signs.
    pub authority: [u8; 32],
}

/// The accounts of a trade in which the trader hands an item to the pool and
/// takes tokens.
#[derive(Clone, Debug, PartialEq, Eq)]
pub struct SwapForToken {
    pub pool: Pool,
    /// The item; its key is the item's identity.
    pub nft_mint: AccountSnapshot,
    pub nft_mint_metadata: AccountSnapshot,
    /// The trader's account of the pool's token.
    pub authority_token_ata: AccountSnapshot,
    /// The trader's account of the item.
    pub authority_nft_ata: AccountSnapshot,
    /// The trader, who signs.
    pub authority: [u8; 32],
}

/// What one trade moves, in the order in which custody is to move it, and the
/// price that the pool quotes once it is done.
#[derive(Clone, Copy, Debug, PartialEq, Eq)]
pub struct Trade {
    /// `Up` where the item leaves the pool and the tokens enter it, `Down`
    /// where the item enters and the tokens leave.
    pub direction: Direction,
    /// Units of the item that change hands: always one.
    pub item_quantity: u64,
    /// Tokens that change hands against the item: the spot price.
    pub principal: u64,
    /// Tokens that the trader pays into the pool's vault on top, in a two-sided
    /// pool; no payment at all in a one-sided pool.
    pub pool_fee: Option<u64>,
    /// Tokens that the trader pays to the curator.
    pub curator_fee: u64,
    /// The spot price after the trade.
    pub new_spot_price: u64,
}

/// The curve that a pool's curve code selects.
pub open spec fn curve_of(curve_type: u8) -> CurveKind {
    if curve_type == CURVE_TYPE_LINEAR {
        CurveKind::Linear
    } else {
        CurveKind::Exponential
    }
}

/// The amounts of one trade at the pool's spot price: the fees first, then the
/// next price, so that a fee that overflows is reported before a price that
/// cannot be.
pub open spec fn quote_spec(pool: Pool, direction: Direction) -> Result<Trade, PoolError> {
    let pool_fee = fee_spec(pool.spot_price, pool.fee_bps);
    let curator_fee = fee_spec(pool.spot_price, pool.curator_fee_bps);
    let next = next_price_spec(pool.spot_price, pool.delta, curve_of(pool.curve_type), direction);
    if pool.pool_type == POOL_TYPE_TRADE && pool_fee is Err {
        Err(pool_fee->Err_0)
    } else if curator_fee is Err {
        Err(curator_fee->Err_0)
    } else if next is Err {
        Err(next->Err_0)
    } else {
        Ok(
            Trade {
                direction,
                item_quantity: 1,
                principal: pool.spot_price,
                pool_fee: if pool.pool_type == POOL_TYPE_TRADE {
                    Some(pool_fee->Ok_0)
                } else {
                    None
                },
                curator_fee: curator_fee->Ok_0,
                new_spot_price: next->Ok_0,
            },
        )
    }
}

/// Prices one trade of `pool` in the given direction.
pub fn quote(pool: &Pool, direction: Direction) -> (r: Result<Trade, PoolError>)
    ensures
        r == quote_spec(*pool, direction),
{
    let pool_fee = if pool.pool_type == POOL_TYPE_TRADE {
        match fee(pool.spot_price, pool.fee_bps) {
            Err(e) => {
                return Err(e);
            },
            Ok(amount) => Some(amount),
        }
    } else {
        None
    };
    let curator_fee = match fee(pool.spot_price, pool.curator_fee_bps) {
        Err(e) => {
            return Err(e);
        },
        Ok(amount) => amount,
    };
    let curve = if pool.curve_type == CURVE_TYPE_LINEAR {
        CurveKind::Linear
    } else {
        CurveKind::Exponential
    };
    let new_spot_price = match next_price(pool.spot_price, pool.delta, curve, direction) {
        Err(e) => {
            return Err(e);
        },
        Ok(price) => price,
    };
    Ok(
        Trade {
            direction,
            item_quantity: 1,
            principal: pool.spot_price,
            pool_fee,
            curator_fee,
            new_spot_price,
        },
    )
}

/// What `swap_for_nft` answers.
pub open spec fn swap_for_nft_spec(ctx: SwapForNFT) -> Result<Trade, PoolError> {
    if ctx.pool.pool_type == POOL_TYPE_TOKEN {
        Err(PoolError::Code(ErrorCode::InvalidPoolType))
    } else if !ctx.pool.valid {
        Err(PoolError::PoolNotValid)
    } else if assert_is_ata_spec(ctx.authority_token_ata, ctx.authority@, ctx.pool.mint@) is Err {
        Err(assert_is_ata_spec(ctx.authority_token_ata, ctx.authority@, ctx.pool.mint@)->Err_0)
    } else if assert_is_ata_spec(ctx.authority_nft_ata, ctx.authority@, ctx.nft_mint@) is Err {
        Err(assert_is_ata_spec(ctx.authority_nft_ata, ctx.authority@, ctx.nft_mint@)->Err_0)
    } else {
        quote_spec(ctx.pool, Direction::Up)
    }
}

/// Authorises and prices a trade in which the trader pays the spot price and
/// takes one item out of the pool. The pool has an item side and is solvent,
/// and both of the trader's accounts are the trader's. The answer says what
/// custody is to move: the item to the trader, the principal into the vault, the
/// pool's fee into the vault in a two-sided pool, the curator's fee to the
/// curator. `record_trade` books the trade once all of it is done.
pub fn swap_for_nft(ctx: &SwapForNFT) -> (r: Result<Trade, PoolError>)
    ensures
        r == swap_for_nft_spec(*ctx),
{
    if ctx.pool.pool_type == POOL_TYPE_TOKEN {
        return Err(PoolError::Code(ErrorCode::InvalidPoolType));
    }
    if !ctx.pool.valid {
        return Err(PoolError::PoolNotValid);
    }
    match assert_is_ata(&ctx.authority_token_ata, &ctx.authority, &ctx.pool.mint) {
        Err(e) => {
            return Err(e);
        },
        Ok(_) => {},
    }
    match assert_is_ata(&ctx.authority_nft_ata, &ctx.authority, &ctx.nft_mint) {
        Err(e) => {
            return Err(e);
        },
        Ok(_) => {},
    }
    quote(&ctx.pool, Direction::Up)
}

/// What `swap_for_token` answers.
pub open spec fn swap_for_token_spec(ctx: SwapForToken, merkle_proof: Seq<[u8; 32]>) -> Result<
    Trade,
    PoolError,
> {
    if ctx.pool.pool_type == POOL_TYPE_TOKEN {
        Err(PoolError::Code(ErrorCode::InvalidPoolType))
    } else if !ctx.pool.valid {
        Err(PoolError::PoolNotValid)
    } else if provenance_spec(ctx.pool, ctx.nft_mint, ctx.nft_mint_metadata, merkle_proof) is Err {
        Err(provenance_spec(ctx.pool, ctx.nft_mint, ctx.nft_mint_metadata, merkle_proof)->Err_0)
    } else if assert_is_ata_spec(ctx.authority_token_ata, ctx.authority@, ctx.pool.mint@) is Err {
        Err(assert_is_ata_spec(ctx.authority_token_ata, ctx.authority@, ctx.pool.mint@)->Err_0)
    } else if assert_is_ata_spec(ctx.authority_nft_ata, ctx.authority@, ctx.nft_mint.key@) is Err {
        Err(assert_is_ata_spec(ctx.authority_nft_ata, ctx.authority@, ctx.nft_mint.key@)->Err_0)
    } else {
        quote_spec(ctx.pool, Direction::Down)
    }
}

/// Authorises and prices a trade in which the trader hands one item to the pool
/// and takes the spot price. The pool has an item side and is solvent, the item
/// passes the provenance gate, and both of the trader's accounts are the
/// trader's. The answer says what custody is to move: the principal out of the
/// vault to the trader, the item into its vault, the pool's fee from the trader
/// into the vault in a two-sided pool, the curator's fee from the trader to the
/// curator. `record_trade` books the trade once all of it is done.
pub fn swap_for_token(ctx: &SwapForToken, merkle_proof: Vec<[u8; 32]>) -> (r: Result<
    Trade,
    PoolError,
>)
    ensures
        r == swap_for_token_spec(*ctx, merkle_proof@),
{
    if ctx.pool.pool_type == POOL_TYPE_TOKEN {
        return Err(PoolError::Code(ErrorCode::InvalidPoolType));
    }
    if !ctx.pool.valid {
        return Err(PoolError::PoolNotValid);
    }
    match provenance_gate(&ctx.pool, &ctx.nft_mint, &ctx.nft_mint_metadata, merkle_proof) {
        Err(e) => {
            return Err(e);
        },
        Ok(_) => {},
    }
    match assert_is_ata(&ctx.authority_token_ata, &ctx.authority, &ctx.pool.mint) {
        Err(e) => {
            return Err(e);
        },
        Ok(_) => {},
    }
    match assert_is_ata(&ctx.authority_nft_ata, &ctx.authority, &ctx.nft_mint.key) {
        Err(e) => {
            return Err(e);
        },
        Ok(_) => {},
    }
    quote(&ctx.pool, Direction::Down)
}

/// The pool after a trade is booked: the price is the trade's new price, the
/// token balance is what the vault reports, and the item count moves by the
/// trade's quantity. The solvency flag stays as it was.
pub open spec fn traded_spec(pool: Pool, trade: Trade, vault_balance: u64) -> Result<
    Pool,
    PoolError,
> {
    let count = match trade.direction {
        Direction::Up => pool.n_nft - trade.item_quantity,
        Direction::Down => pool.n_nft + trade.item_quantity,
    };
    if count < 0 || count > u64::MAX {
        Err(PoolError::ArithmeticOverflow)
    } else {
        Ok(
            Pool {
                spot_price: trade.new_spot_price,
                n_token: vault_balance,
                n_nft: count as u64,
                ..pool
            },
        )
    }
}

/// Books a trade that custody has carried out. `vault_balance` is what the
/// token vault holds after the trade; it is taken as it is, not computed from
/// the trade. The solvency flag is not recomputed: only liquidity accounting
/// does that. On a refusal the pool is unchanged.
pub fn record_trade(pool: &mut Pool, trade: &Trade, vault_balance: u64) -> (r: Result<
    (),
    PoolError,
>)
    ensures
        match r {
            Ok(_) => traded_spec(*old(pool), *trade, vault_balance) == Ok::<Pool, PoolError>(
                *final(pool),
            ),
            Err(e) => traded_spec(*old(pool), *trade, vault_balance) == Err::<Pool, PoolError>(e)
                && *final(pool) == *old(pool),
        },
        final(pool).valid == old(pool).valid,
{
    let moved = match trade.direction {
        Direction::Up => pool.n_nft.checked_sub(trade.item_quantity),
        Direction::Down => pool.n_nft.checked_add(trade.item_quantity),
    };
    match moved {
        None => Err(PoolError::ArithmeticOverflow),
        Some(count) => {
            pool.spot_price = trade.new_spot_price;
            pool.n_token = vault_balance;
            pool.n_nft = count;
            Ok(())
        },
    }
}

/// On a pool with the linear curve, a trade that takes an item out, followed at
/// once by a trade that puts an item in, leaves the spot price where it was.
/// With the exponential curve this does not hold: each trade rounds the price
/// toward zero, and `exponential_round_trip_drifts` shows a price that does not
/// come back.
pub proof fn law_linear_swaps_round_trip(
    first: SwapForNFT,
    first_balance: u64,
    second: SwapForToken,
    merkle_proof: Seq<[u8; 32]>,
    second_balance: u64,
)
    requires
        first.pool.curve_type == CURVE_TYPE_LINEAR,
        swap_for_nft_spec(first) is Ok,
        traded_spec(first.pool, swap_for_nft_spec(first)->Ok_0, first_balance) == Ok::<
            Pool,
            PoolError,
        >(second.pool),
        swap_for_token_spec(second, merkle_proof) is Ok,
    ensures
        traded_spec(second.pool, swap_for_token_spec(second, merkle_proof)->Ok_0, second_balance)
            is Ok,
        traded_spec(
            second.pool,
            swap_for_token_spec(second, merkle_proof)->Ok_0,
            second_balance,
        )->Ok_0.spot_price == first.pool.spot_price,
{
}

} // verus!
