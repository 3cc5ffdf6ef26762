use vstd::prelude::*;
use crate::error::{ErrorCode, PoolError};
use crate::state::{delta_fits, Pool};
use crate::utils::{assert_delta, assert_keys_equal};

verus! {

/// The accounts of a change of the step.
#[derive(Clone, Copy, Debug, PartialEq, Eq)]
pub struct EditDelta {
    pub pool: Pool,
    /// The signer of the change.
    pub owner: [u8; 32],
}

/// The accounts of a change of the spot price.
#[derive(Clone, Copy, Debug, PartialEq, Eq)]
pub struct EditSpotPrice {
    pub pool: Pool,
    /// The signer of the change.
    pub owner: [u8; 32],
}

/// Sets the pool's step to `delta`, for the pool's owner and where the new step
/// goes with the current price. A refusal changes nothing.
pub fn edit_delta(ctx: &mut EditDelta, delta: i64) -> (r: Result<(), PoolError>)
    ensures
        final(ctx).owner == old(ctx).owner,
        r == (if old(ctx).pool.owner@ != old(ctx).owner@ {
            Err::<(), PoolError>(PoolError::Code(ErrorCode::PublicKeyMismatch))
        } else if !delta_fits(delta as int, old(ctx).pool.spot_price as int) {
            Err(PoolError::Code(ErrorCode::InvalidDelta))
        } else {
            Ok(())
        }),
        r is Ok ==> final(ctx).pool == (Pool { delta, ..old(ctx).pool }) && delta_fits(
            final(ctx).pool.delta as int,
            final(ctx).pool.spot_price as int,
        ),
        r is Err ==> final(ctx).pool == old(ctx).pool,
{
    match assert_keys_equal(ctx.pool.owner, ctx.owner) {
        Err(e) => {
            return Err(e);
        },
        Ok(_) => {},
    }
    match assert_delta(delta, ctx.pool.spot_price) {
        Err(e) => {
            return Err(e);
        },
        Ok(_) => {},
    }
    ctx.pool.delta = delta;
    Ok(())
}

/// Sets the pool's spot price to `spot_price`, for the pool's owner and where
/// the current step goes with the new price. A refusal changes nothing.
pub fn edit_spot_price(ctx: &mut EditSpotPrice, spot_price: u64) -> (r: Result<(), PoolError>)
    ensures
        final(ctx).owner == old(ctx).owner,
        r == (if old(ctx).pool.owner@ != old(ctx).owner@ {
            Err::<(), PoolError>(PoolError::Code(ErrorCode::PublicKeyMismatch))
        } else if !delta_fits(old(ctx).pool.delta as int, spot_price as int) {
            Err(PoolError::Code(ErrorCode::InvalidDelta))
        } else {
            Ok(())
        }),
        r is Ok ==> final(ctx).pool == (Pool { spot_price, ..old(ctx).pool }) && delta_fits(
            final(ctx).pool.delta as int,
            final(ctx).pool.spot_price as int,
        ),
        r is Err ==> final(ctx).pool == old(ctx).pool,
{
    match assert_keys_equal(ctx.pool.owner, ctx.owner) {
        Err(e) => {
            return Err(e);
        },
        Ok(_) => {},
    }
    match assert_delta(ctx.pool.delta, spot_price) {
        Err(e) => {
            return Err(e);
        },
        Ok(_) => {},
    }
    ctx.pool.spot_price = spot_price;
    Ok(())
}

} // verus!
