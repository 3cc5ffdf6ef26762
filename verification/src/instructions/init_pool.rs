use vstd::prelude::*;
use crate::error::{ErrorCode, PoolError};
use crate::state::{delta_fits, Pool, CURVE_TYPE_EXPONENTIAL, POOL_TYPE_TRADE};
use crate::utils::{assert_curve_type, assert_delta, asset_pool_type, keys_equal};

verus! {

/// The accounts of the creation of a pool.
#[derive(Clone, Copy, Debug, PartialEq, Eq)]
pub struct InitializePool {
    /// The collection that items must belong to; the system program's address
    /// where the pool names none.
    pub collection: [u8; 32],
    pub mint: [u8; 32],
    pub curator: [u8; 32],
    /// The creator of the pool, who signs.
    pub owner: [u8; 32],
    pub system_program: [u8; 32],
}

/// Whether a Merkle root stands for "no allow-list": all of its bytes are zero.
pub open spec fn root_unset(root: Seq<u8>) -> bool {
    forall|i: int| 0 <= i < root.len() ==> root[i] == 0
}

/// Whether every byte of `root` is zero.
pub fn is_unset(root: &[u8; 32]) -> (unset: bool)
    ensures
        unset == root_unset(root@),
{
    let mut i: usize = 0;
    while i < 32
        invariant
            i <= 32,
            forall|j: int| 0 <= j < i ==> root@[j] == 0,
        decreases 32 - i,
    {
        if root[i] != 0 {
            return false;
        }
        i += 1;
    }
    true
}

/// Creates the record of a pool. The curve kind, the step against the price,
/// and the pool kind are checked in this order, and the first that fails names
/// the refusal; a refusal creates nothing. The new pool holds no item and no
/// token, trades, and names a collection and an allow-list only where the
/// caller gave one.
pub fn handler(
    ctx: &InitializePool,
    owner_nonce: u8,
    curve_type: u8,
    delta: i64,
    spot_price: u64,
    pool_type: u8,
    fee_bps: u64,
    curator_fee_bps: u64,
    merkle_root: [u8; 32],
) -> (r: Result<Pool, PoolError>)
    ensures
        match r {
            Ok(pool) => {
                &&& curve_type <= CURVE_TYPE_EXPONENTIAL
                &&& delta_fits(delta as int, spot_price as int)
                &&& pool_type <= POOL_TYPE_TRADE
                &&& pool.configured()
                &&& pool.collection == (if ctx.collection@ != ctx.system_program@ {
                    Some(ctx.collection)
                } else {
                    None
                })
                &&& pool.merkle_root == (if root_unset(merkle_root@) {
                    None
                } else {
                    Some(merkle_root)
                })
                &&& pool.n_nft == 0
                &&& pool.n_token == 0
                &&& pool.mint == ctx.mint
                &&& pool.owner == ctx.owner
                &&& pool.owner_nonce == owner_nonce
                &&& pool.fee_bps == fee_bps
                &&& pool.curator == ctx.curator
                &&& pool.curator_fee_bps == curator_fee_bps
                &&& pool.curve_type == curve_type
                &&& pool.pool_type == pool_type
                &&& pool.delta == delta
                &&& pool.spot_price == spot_price
                &&& pool.valid
            },
            Err(e) => e == (if curve_type > CURVE_TYPE_EXPONENTIAL {
                PoolError::Code(ErrorCode::InvalidCurveType)
            } else if !delta_fits(delta as int, spot_price as int) {
                PoolError::Code(ErrorCode::InvalidDelta)
            } else {
                PoolError::Code(ErrorCode::InvalidPoolType)
            }) && (curve_type > CURVE_TYPE_EXPONENTIAL || !delta_fits(
                delta as int,
                spot_price as int,
            ) || pool_type > POOL_TYPE_TRADE),
        },
{
    let collection = if !keys_equal(&ctx.collection, &ctx.system_program) {
        Some(ctx.collection)
    } else {
        None
    };
    let root = if !is_unset(&merkle_root) {
        Some(merkle_root)
    } else {
        None
    };
    match assert_curve_type(curve_type) {
        Err(e) => {
            return Err(e);
        },
        Ok(_) => {},
    }
    match assert_delta(delta, spot_price) {
        Err(e) => {
            return Err(e);
        },
        Ok(_) => {},
    }
    match asset_pool_type(pool_type) {
        Err(e) => {
            return Err(e);
        },
        Ok(_) => {},
    }
    Ok(
        Pool {
            collection,
            merkle_root: root,
            n_nft: 0,
            n_token: 0,
            mint: ctx.mint,
            owner: ctx.owner,
            owner_nonce,
            fee_bps,
            curator: ctx.curator,
            curator_fee_bps,
            curve_type,
            pool_type,
            delta,
            spot_price,
            valid: true,
        },
    )
}

} // verus!
