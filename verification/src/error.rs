//! The flat error taxonomy of the lottery core. Every guard violation
//! surfaces as one of these variants; nothing is retried or coerced.

use vstd::prelude::*;
use crate::types::Coin;
use crate::state::WinnerSelection;

verus! {

/// Why an attached payment was rejected.
#[derive(Clone, Debug, PartialEq, Eq)]
pub enum PaymentError {
    /// The required denomination was not among the attached funds.
    MissingDenom(String),
    /// More than one denomination was attached.
    MultipleDenoms {},
    /// No funds, or only a zero amount, were attached.
    NoFunds {},
}

/// The error taxonomy of the lottery contract.
#[derive(Clone, Debug, PartialEq, Eq)]
pub enum ContractError {
    /// The caller does not hold the required capability.
    Unauthorized {},
    /// The given text is not a recognized lottery period token.
    InvalidLottoryPeriod { value: String },
    /// The configured unit price is not a positive amount.
    InvalidUnitPrice { value: u128 },
    /// The given text is not a recognized lottery category.
    InvalidCategory { value: String },
    /// The requested operation is not implemented.
    Unimplemented {},
    /// The instance's balance is below the requested amount.
    BalanceTooSmall { balance: Coin },
    /// The payment's denomination is not the configured one.
    UnSupportedDenom { denom: String },
    /// The configured winner selection mode is not supported.
    UnSupportedWinnerSelection { selection: WinnerSelection },
    /// The player already holds a ticket.
    LotteryCanBuyOnce { player: String },
    /// The payment amount is below the unit price.
    PaymentNotEnough { amount: u128 },
    /// The participant cap is already reached.
    PlayerExceededMaximum { max_players: u64 },
    /// The lottery is still active, so a draw is not yet legal.
    LotteryIsActiving {},
    /// The configured expiry lies before the creation time.
    InstantiateExpirationInvalid { expiration_secs: u64, created_at: u64 },
    /// The attached payment could not be accepted.
    PaymentError(PaymentError),
    /// The current block height is below the lottery's creation height.
    LotteryHeightNotMatch { current_height: u64, lottery_height: u64 },
    /// The lottery is already closed.
    LotteryAlreadyClosed {},
    /// There is nothing for the caller to claim.
    NothingToClaim {},
    /// The buying window is already past its expiry.
    AlreadyExpired {},
}

/// An error of the shared randomness utilities.
#[derive(Clone, Debug, PartialEq, Eq)]
pub enum CommonError {
    /// The given text is not a well-formed seed.
    InvalidSeed { seed: String },
}

} // verus!
