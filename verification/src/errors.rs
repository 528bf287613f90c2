//! The typed failures of escrow operations.

use vstd::prelude::*;

verus! {

/// Why an escrow operation was refused.
#[derive(Clone, Copy, Debug, PartialEq, Eq, Structural)]
pub enum EscrowError {
    /// The operation is illegal for the escrow's current status.
    InvalidState,
    /// The caller lacks the role that the operation asks for.
    Unauthorized,
    /// A transfer would take a balance below zero.
    InsufficientFunds,
    /// The escrow has already reached a terminal status.
    AlreadyFinalized,
    /// The amount is outside the allowed range.
    InvalidAmount,
    /// Buyer and seller are the same identity.
    InvalidParties,
    /// The caller is not the buyer of this escrow.
    NotBuyer,
    /// The caller is not the seller of this escrow.
    NotSeller,
    /// Arithmetic would leave the representable range.
    Overflow,
    /// The arbiter has no record, is not the caller, or has been deactivated.
    UnauthorizedArbiter,
    /// The fee vault handed in is not the protocol's own.
    InvalidFeeCollector,
}

impl EscrowError {
    /// The human-readable text of the failure.
    pub fn message(&self) -> (text: String)
        ensures
            text@ == self.message_text(),
    {
        match self {
            EscrowError::InvalidState => "Invalid escrow state".to_owned(),
            EscrowError::Unauthorized => "Unauthorized action".to_owned(),
            EscrowError::InsufficientFunds => "Insufficient funds".to_owned(),
            EscrowError::AlreadyFinalized => "Escrow already finalized".to_owned(),
            EscrowError::InvalidAmount => "Invalid amount - must be within allowed range".to_owned(),
            EscrowError::InvalidParties => "Buyer and seller must be different accounts".to_owned(),
            EscrowError::NotBuyer => "Not the buyer of this escrow".to_owned(),
            EscrowError::NotSeller => "Not the seller of this escrow".to_owned(),
            EscrowError::Overflow => "Arithmetic overflow".to_owned(),
            EscrowError::UnauthorizedArbiter => "Arbiter is not authorized or has been deactivated".to_owned(),
            EscrowError::InvalidFeeCollector => "Fee collector is not the protocol's fee vault".to_owned(),
        }
    }

    /// The text that `message` returns, as a sequence of characters.
    pub open spec fn message_text(&self) -> Seq<char> {
        match self {
            EscrowError::InvalidState => "Invalid escrow state"@,
            EscrowError::Unauthorized => "Unauthorized action"@,
            EscrowError::InsufficientFunds => "Insufficient funds"@,
            EscrowError::AlreadyFinalized => "Escrow already finalized"@,
            EscrowError::InvalidAmount => "Invalid amount - must be within allowed range"@,
            EscrowError::InvalidParties => "Buyer and seller must be different accounts"@,
            EscrowError::NotBuyer => "Not the buyer of this escrow"@,
            EscrowError::NotSeller => "Not the seller of this escrow"@,
            EscrowError::Overflow => "Arithmetic overflow"@,
            EscrowError::UnauthorizedArbiter => "Arbiter is not authorized or has been deactivated"@,
            EscrowError::InvalidFeeCollector => "Fee collector is not the protocol's fee vault"@,
        }
    }
}

/// Why a configuration or fee-vault operation was refused.
#[derive(Clone, Copy, Debug, PartialEq, Eq, Structural)]
pub enum ConfigError {
    /// The fee exceeds 10% (1000 basis points).
    FeeTooHigh,
    /// The caller is not the admin.
    Unauthorized,
    /// The fee vault holds less than the amount asked for.
    InsufficientFunds,
}

impl ConfigError {
    /// The human-readable text of the failure.
    pub fn message(&self) -> (text: String)
        ensures
            text@ == self.message_text(),
    {
        match self {
            ConfigError::FeeTooHigh => "Fee cannot exceed 10% (1000 basis points)".to_owned(),
            ConfigError::Unauthorized => "Unauthorized action".to_owned(),
            ConfigError::InsufficientFunds => "Insufficient funds".to_owned(),
        }
    }

    /// The text that `message` returns, as a sequence of characters.
    pub open spec fn message_text(&self) -> Seq<char> {
        match self {
            ConfigError::FeeTooHigh => "Fee cannot exceed 10% (1000 basis points)"@,
            ConfigError::Unauthorized => "Unauthorized action"@,
            ConfigError::InsufficientFunds => "Insufficient funds"@,
        }
    }
}

} // verus!
