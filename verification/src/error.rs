use vstd::prelude::*;

verus! {

/// The pool's own rejections.
#[derive(Clone, Copy, Debug, PartialEq, Eq, Structural)]
pub enum ErrorCode {
    NotEnoughBalance,
    NoPoolMintOutput,
    BurnTooMuch,
    NotEnoughOut,
    PublicKeyMismatch,
    NotInitialized,
    IncorrectOwner,
    InvalidMetadataAccount,
    InvalidPoolType,
    InvalidSpotPrice,
    InvalidCurveType,
    InvalidDelta,
    InvalidProof,
}

impl ErrorCode {
    /// The text that goes with each rejection.
    pub open spec fn message_text(self) -> Seq<char> {
        match self {
            ErrorCode::NotEnoughBalance => "Src Balance < LP Deposit Amount."@,
            ErrorCode::NoPoolMintOutput => "Pool Mint Amount < 0 on LP Deposit"@,
            ErrorCode::BurnTooMuch => "Trying to burn too much"@,
            ErrorCode::NotEnoughOut => "Not enough out"@,
            ErrorCode::PublicKeyMismatch => "Public key mismatch"@,
            ErrorCode::NotInitialized => "Not initialized"@,
            ErrorCode::IncorrectOwner => "Incorrect owner"@,
            ErrorCode::InvalidMetadataAccount => "Not a metadata account"@,
            ErrorCode::InvalidPoolType => "Invalid pool type"@,
            ErrorCode::InvalidSpotPrice => "Invalid spot price"@,
            ErrorCode::InvalidCurveType => "Invalid curve type"@,
            ErrorCode::InvalidDelta => "Invalid delta"@,
            ErrorCode::InvalidProof => "Invalid proof"@,
        }
    }

    pub fn message(&self) -> (text: &'static str)
        ensures
            text@ == self.message_text(),
    {
        match self {
            ErrorCode::NotEnoughBalance => "Src Balance < LP Deposit Amount.",
            ErrorCode::NoPoolMintOutput => "Pool Mint Amount < 0 on LP Deposit",
            ErrorCode::BurnTooMuch => "Trying to burn too much",
            ErrorCode::NotEnoughOut => "Not enough out",
            ErrorCode::PublicKeyMismatch => "Public key mismatch",
            ErrorCode::NotInitialized => "Not initialized",
            ErrorCode::IncorrectOwner => "Incorrect owner",
            ErrorCode::InvalidMetadataAccount => "Not a metadata account",
            ErrorCode::InvalidPoolType => "Invalid pool type",
            ErrorCode::InvalidSpotPrice => "Invalid spot price",
            ErrorCode::InvalidCurveType => "Invalid curve type",
            ErrorCode::InvalidDelta => "Invalid delta",
            ErrorCode::InvalidProof => "Invalid proof",
        }
    }
}

/// Every way an operation of the pool can end without effect.
#[derive(Clone, Copy, Debug, PartialEq, Eq, Structural)]
pub enum PoolError {
    /// One of the pool's own rejections.
    Code(ErrorCode),
    /// The pool's solvency flag is down, so it does not trade.
    PoolNotValid,
    /// A price, fee or count left the range of its integer type.
    ArithmeticOverflow,
    /// An account's bytes are not a token account.
    InvalidAccountData,
}

} // verus!
