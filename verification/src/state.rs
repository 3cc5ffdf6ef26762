use vstd::prelude::*;

verus! {

/// Pool kind: only the token side takes liquidity.
pub const POOL_TYPE_TOKEN: u8 = 0;

/// Pool kind: only the item side takes liquidity.
pub const POOL_TYPE_NFT: u8 = 1;

/// Pool kind: both sides take liquidity, and trades pay the pool a fee.
pub const POOL_TYPE_TRADE: u8 = 2;

/// Curve kind: each trade moves the price by `delta`.
pub const CURVE_TYPE_LINEAR: u8 = 0;

/// Curve kind: each trade moves the price by `delta` percent.
pub const CURVE_TYPE_EXPONENTIAL: u8 = 1;

/// Whether a step of `delta` goes with a price of `spot_price`: its magnitude
/// does not exceed the price.
pub open spec fn delta_fits(delta: int, spot_price: int) -> bool {
    -spot_price <= delta <= spot_price
}

/// The record of one pool.
#[derive(Clone, Copy, Debug, PartialEq, Eq)]
pub struct Pool {
    /// If set, every item that enters must belong to this collection.
    pub collection: Option<[u8; 32]>,
    /// If set, every item that enters must be a leaf under this Merkle root.
    pub merkle_root: Option<[u8; 32]>,
    /// Items in the pool's custody.
    pub n_nft: u64,
    /// Tokens in the pool's custody, as last reported by the vault.
    pub n_token: u64,
    /// The mint of the token the pool trades against.
    pub mint: [u8; 32],
    pub owner: [u8; 32],
    pub owner_nonce: u8,
    /// Trade fee in basis points of the spot price, paid to the pool.
    pub fee_bps: u64,
    pub curator: [u8; 32],
    /// Curator fee in basis points of the spot price.
    pub curator_fee_bps: u64,
    /// `CURVE_TYPE_LINEAR` or `CURVE_TYPE_EXPONENTIAL`.
    pub curve_type: u8,
    /// `POOL_TYPE_TOKEN`, `POOL_TYPE_NFT` or `POOL_TYPE_TRADE`.
    pub pool_type: u8,
    /// How far one trade moves the price.
    pub delta: i64,
    /// The price of the next item, in tokens.
    pub spot_price: u64,
    /// The solvency flag: the pool trades only while it is up.
    pub valid: bool,
}

impl Pool {
    /// The kinds are known ones and the step goes with the price. Creation and
    /// every edit leave a pool in this state; trades keep the kinds and move the
    /// price.
    pub open spec fn configured(&self) -> bool {
        &&& self.curve_type <= CURVE_TYPE_EXPONENTIAL
        &&& self.pool_type <= POOL_TYPE_TRADE
        &&& delta_fits(self.delta as int, self.spot_price as int)
    }

    /// What the solvency flag of a two-sided pool is after a recompute: the
    /// tokens buy back every item at the spot price, and the items cover every
    /// whole multiple of the spot price that the tokens hold.
    pub open spec fn ratio_holds(&self) -> bool {
        &&& self.n_token >= self.spot_price * self.n_nft
        &&& self.n_nft >= self.n_token as int / self.spot_price as int
    }
}

/// What the logic reads of an account of the ledger: its address, the program
/// that owns it, and its bytes.
#[derive(Clone, Debug, PartialEq, Eq)]
pub struct AccountSnapshot {
    pub key: [u8; 32],
    pub owner: [u8; 32],
    pub data: Vec<u8>,
}

} // verus!
