use vstd::prelude::*;

verus! {

/// Every way an instruction can be refused. Each check maps to exactly one kind.
#[derive(Clone, Copy, Debug, PartialEq, Eq, Structural)]
pub enum FeePaymentError {
    Unauthorized,
    InvalidAmount,
    InvalidRecipient,
    InvalidFee,
    InsufficientProgramFunds,
    InvalidAdId,
    InvalidAdUrl,
    InvalidAdContent,
    InvalidDisplayTime,
    RewardTooLow,
    ProgramPaused,
    RequestExpired,
    InvalidStatus,
    AdNotActive,
    RecipientMismatch,
    AdMismatch,
    AdNotStarted,
    InsufficientViewTime,
    MathOverflow,
    MathUnderflow,
}

impl FeePaymentError {
    /// A human-readable description of the error.
    pub fn message(&self) -> &'static str {
        match self {
            FeePaymentError::Unauthorized => "Unauthorized access",
            FeePaymentError::InvalidAmount => "Invalid amount",
            FeePaymentError::InvalidRecipient => "Invalid recipient address",
            FeePaymentError::InvalidFee => "Invalid fee amount",
            FeePaymentError::InsufficientProgramFunds => "Program has insufficient funds to sponsor gas fees",
            FeePaymentError::InvalidAdId => "Invalid ad ID",
            FeePaymentError::InvalidAdUrl => "Invalid ad URL - must be HTTPS",
            FeePaymentError::InvalidAdContent => "Invalid ad content",
            FeePaymentError::InvalidDisplayTime => "Invalid display time",
            FeePaymentError::RewardTooLow => "Reward amount too low",
            FeePaymentError::ProgramPaused => "Program is paused",
            FeePaymentError::RequestExpired => "Request has expired",
            FeePaymentError::InvalidStatus => "Invalid request status",
            FeePaymentError::AdNotActive => "Advertisement not active",
            FeePaymentError::RecipientMismatch => "Recipient address mismatch",
            FeePaymentError::AdMismatch => "Ad ID mismatch",
            FeePaymentError::AdNotStarted => "Ad display not started",
            FeePaymentError::InsufficientViewTime => "Insufficient ad viewing time",
            FeePaymentError::MathOverflow => "Math overflow",
            FeePaymentError::MathUnderflow => "Math underflow",
        }
    }
}

} // verus!
