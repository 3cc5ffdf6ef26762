use vstd::prelude::*;
use crate::error::{ErrorCode, PoolError};

verus! {

/// The shape of the price curve.
#[derive(Clone, Copy, Debug, PartialEq, Eq, Structural)]
pub enum CurveKind {
    Linear,
    Exponential,
}

/// Which way a trade moves the price.
#[derive(Clone, Copy, Debug, PartialEq, Eq, Structural)]
pub enum Direction {
    /// An item left the pool.
    Up,
    /// An item entered the pool.
    Down,
}

impl Direction {
    pub open spec fn sign(self) -> int {
        match self {
            Direction::Up => 1,
            Direction::Down => -1,
        }
    }
}

/// Fees are stated in parts of this.
pub const BPS_DENOMINATOR: u64 = 10000;

/// The quotient of `a` by a positive `b`, rounded toward zero.
pub open spec fn trunc_div(a: int, b: int) -> int {
    if a >= 0 {
        a / b
    } else {
        -((-a) / b)
    }
}

pub open spec fn fits_i64(x: int) -> bool {
    i64::MIN <= x <= i64::MAX
}

/// The price after one trade. The curve is computed in signed 64-bit integers:
/// a price, a factor or a product outside them is an overflow, and a negative
/// price is refused, never clamped.
pub open spec fn next_price_spec(
    spot_price: u64,
    delta: i64,
    curve: CurveKind,
    direction: Direction,
) -> Result<u64, PoolError> {
    let step = direction.sign() * delta;
    if spot_price > i64::MAX {
        Err(PoolError::ArithmeticOverflow)
    } else {
        match curve {
            CurveKind::Linear => {
                let next = spot_price + step;
                if !fits_i64(next) {
                    Err(PoolError::ArithmeticOverflow)
                } else if next < 0 {
                    Err(PoolError::Code(ErrorCode::InvalidSpotPrice))
                } else {
                    Ok(next as u64)
                }
            },
            CurveKind::Exponential => {
                let factor = 100 + step;
                let product = spot_price * factor;
                if !fits_i64(factor) || !fits_i64(product) {
                    Err(PoolError::ArithmeticOverflow)
                } else if trunc_div(product, 100) < 0 {
                    Err(PoolError::Code(ErrorCode::InvalidSpotPrice))
                } else {
                    Ok(trunc_div(product, 100) as u64)
                }
            },
        }
    }
}

pub fn next_price(spot_price: u64, delta: i64, curve: CurveKind, direction: Direction) -> (next:
    Result<u64, PoolError>)
    ensures
        next == next_price_spec(spot_price, delta, curve, direction),
{
    if spot_price > i64::MAX as u64 {
        return Err(PoolError::ArithmeticOverflow);
    }
    let spot: i64 = spot_price as i64;
    match curve {
        CurveKind::Linear => {
            let moved = match direction {
                Direction::Up => spot.checked_add(delta),
                Direction::Down => spot.checked_sub(delta),
            };
            match moved {
                None => Err(PoolError::ArithmeticOverflow),
                Some(price) => {
                    if price < 0 {
                        Err(PoolError::Code(ErrorCode::InvalidSpotPrice))
                    } else {
                        Ok(price as u64)
                    }
                },
            }
        },
        CurveKind::Exponential => {
            let hundred: i64 = 100;
            let scaled = match direction {
                Direction::Up => hundred.checked_add(delta),
                Direction::Down => hundred.checked_sub(delta),
            };
            match scaled {
                None => Err(PoolError::ArithmeticOverflow),
                Some(factor) => {
                    match spot.checked_mul(factor) {
                        None => Err(PoolError::ArithmeticOverflow),
                        Some(product) => {
                            if product <= -100 {
                                Err(PoolError::Code(ErrorCode::InvalidSpotPrice))
                            } else if product < 0 {
                                Ok(0)
                            } else {
                                Ok(product as u64 / 100)
                            }
                        },
                    }
                },
            }
        },
    }
}

/// On the linear curve, the price after an item leaves and the price after an
/// item enters lie two steps apart, wherever the step goes with the price and
/// the higher of the two prices is still a signed 64-bit integer.
pub proof fn law_linear_spread(spot_price: u64, delta: i64)
    requires
        -spot_price <= delta <= spot_price,
        spot_price + delta <= i64::MAX,
        spot_price - delta <= i64::MAX,
    ensures
        next_price_spec(spot_price, delta, CurveKind::Linear, Direction::Up) is Ok,
        next_price_spec(spot_price, delta, CurveKind::Linear, Direction::Down) is Ok,
        next_price_spec(spot_price, delta, CurveKind::Linear, Direction::Up)->Ok_0
            - next_price_spec(spot_price, delta, CurveKind::Linear, Direction::Down)->Ok_0 == 2
            * delta,
{
}

/// No curve gives a price below zero: where the curve's value, rounded toward
/// zero, is negative and nothing overflowed on the way, the price is refused as
/// invalid; every price that is given is the curve's value.
pub proof fn law_negative_price_refused(
    spot_price: u64,
    delta: i64,
    curve: CurveKind,
    direction: Direction,
)
    ensures
        ({
            let step = direction.sign() * delta;
            let value = match curve {
                CurveKind::Linear => spot_price + step,
                CurveKind::Exponential => trunc_div(spot_price * (100 + step), 100),
            };
            let in_range = match curve {
                CurveKind::Linear => spot_price <= i64::MAX && fits_i64(value),
                CurveKind::Exponential => spot_price <= i64::MAX && fits_i64(100 + step)
                    && fits_i64(spot_price * (100 + step)),
            };
            match next_price_spec(spot_price, delta, curve, direction) {
                Ok(next) => in_range && 0 <= value && next == value,
                Err(PoolError::Code(ErrorCode::InvalidSpotPrice)) => in_range && value < 0,
                Err(e) => !in_range && e == PoolError::ArithmeticOverflow,
            }
        }),
{
}

/// On the linear curve a step up followed by a step down gives the price back.
pub proof fn law_linear_round_trip(spot_price: u64, delta: i64)
    requires
        next_price_spec(spot_price, delta, CurveKind::Linear, Direction::Up) is Ok,
    ensures
        next_price_spec(
            next_price_spec(spot_price, delta, CurveKind::Linear, Direction::Up)->Ok_0,
            delta,
            CurveKind::Linear,
            Direction::Down,
        ) == Ok::<u64, PoolError>(spot_price),
{
}

/// The exponential curve rounds at every step, so a step up followed by a step
/// down need not give the price back: from 10 at ten percent the price goes to
/// 11 and then to 9.
pub proof fn exponential_round_trip_drifts()
    ensures
        next_price_spec(10, 10, CurveKind::Exponential, Direction::Up) == Ok::<u64, PoolError>(11),
        next_price_spec(11, 10, CurveKind::Exponential, Direction::Down) == Ok::<u64, PoolError>(
            9,
        ),
{
}

/// A fee of `bps` basis points of `spot_price`, rounded down.
pub open spec fn fee_spec(spot_price: u64, bps: u64) -> Result<u64, PoolError> {
    if spot_price * bps > u64::MAX {
        Err(PoolError::ArithmeticOverflow)
    } else {
        Ok((spot_price * bps / BPS_DENOMINATOR as int) as u64)
    }
}

pub fn fee(spot_price: u64, bps: u64) -> (amount: Result<u64, PoolError>)
    ensures
        amount == fee_spec(spot_price, bps),
{
    match spot_price.checked_mul(bps) {
        None => Err(PoolError::ArithmeticOverflow),
        Some(product) => Ok(product / BPS_DENOMINATOR),
    }
}

} // verus!
