use vstd::prelude::*;

verus! {

/// Every way an instruction of the market can be refused.
#[derive(Clone, Copy, Debug, PartialEq, Eq, Structural)]
pub enum MarketError {
    MarketEnded,
    MarketNotEnded,
    MarketNotResolved,
    MarketAlreadyResolved,
    BetAlreadyClaimed,
    InvalidBetAmount,
    InvalidPrediction,
    AbortedComputation,
    InvalidEncryptedData,
    Unauthorized,
    /// A correlation id is reused while its computation is still outstanding.
    DuplicateComputation,
    /// A callback arrives for a correlation id with no outstanding request.
    UnknownComputation,
    /// A bet id names no bet of the market.
    BetNotFound,
    /// A checked counter or amount would leave its integer range.
    ArithmeticOverflow,
}

/// The message of each error.
pub open spec fn message_of(e: MarketError) -> Seq<char> {
    match e {
        MarketError::MarketEnded => "Market has already ended"@,
        MarketError::MarketNotEnded => "Market has not ended yet"@,
        MarketError::MarketNotResolved => "Market is not resolved"@,
        MarketError::MarketAlreadyResolved => "Market is already resolved"@,
        MarketError::BetAlreadyClaimed => "Bet has already been claimed"@,
        MarketError::InvalidBetAmount => "Invalid bet amount"@,
        MarketError::InvalidPrediction => "Invalid prediction value"@,
        MarketError::AbortedComputation => "Computation aborted"@,
        MarketError::InvalidEncryptedData => "Invalid encrypted data"@,
        MarketError::Unauthorized => "Unauthorized"@,
        MarketError::DuplicateComputation => "Computation id is already in flight"@,
        MarketError::UnknownComputation => "No outstanding computation with this id"@,
        MarketError::BetNotFound => "Bet not found"@,
        MarketError::ArithmeticOverflow => "Arithmetic overflow"@,
    }
}

impl MarketError {
    /// The message shown for this error.
    pub fn message(&self) -> (r: &'static str)
        ensures
            r@ == message_of(*self),
    {
        match self {
            MarketError::MarketEnded => "Market has already ended",
            MarketError::MarketNotEnded => "Market has not ended yet",
            MarketError::MarketNotResolved => "Market is not resolved",
            MarketError::MarketAlreadyResolved => "Market is already resolved",
            MarketError::BetAlreadyClaimed => "Bet has already been claimed",
            MarketError::InvalidBetAmount => "Invalid bet amount",
            MarketError::InvalidPrediction => "Invalid prediction value",
            MarketError::AbortedComputation => "Computation aborted",
            MarketError::InvalidEncryptedData => "Invalid encrypted data",
            MarketError::Unauthorized => "Unauthorized",
            MarketError::DuplicateComputation => "Computation id is already in flight",
            MarketError::UnknownComputation => "No outstanding computation with this id",
            MarketError::BetNotFound => "Bet not found",
            MarketError::ArithmeticOverflow => "Arithmetic overflow",
        }
    }
}

} // verus!
