use vstd::prelude::*;

verus! {

/// Why a settlement instruction was refused.
#[derive(Clone, Copy, Debug, PartialEq, Eq, Structural)]
pub enum VaultError {
    /// The amount is zero.
    InvalidAmount,
    /// The available balance does not cover a withdrawal.
    InsufficientBalance,
    /// The available balance does not cover a lock.
    InsufficientBalanceToLock,
    /// More was to be unlocked than is locked.
    InvalidUnlockAmount,
    /// The calling program is not on the authority's list.
    UnauthorizedProgram,
    /// The vault backs open positions.
    HasOpenPositions,
    /// A balance computation overflowed.
    OverflowError,
    /// A subtraction would go below zero.
    ArithmeticUnderflow,
    /// The source's total balance does not cover a transfer.
    InsufficientTransferBalance,
    /// The signer is not the vault's owner.
    UnauthorizedOwner,
    /// The signer is not the authority's admin.
    UnauthorizedAdmin,
    /// The authority's list of programs is full.
    MaxAuthorizedProgramsReached,
    /// The program is not on the authority's list.
    ProgramNotAuthorized,
    /// The computed state would break `total == locked + available`.
    InvariantViolation,
    /// An addition would exceed the 64-bit range.
    ArithmeticOverflow,
}

impl VaultError {
    /// The error's message.
    pub open spec fn message_text(self) -> Seq<char> {
        match self {
            VaultError::InvalidAmount => "Invalid amount specified"@,
            VaultError::InsufficientBalance => "Insufficient available balance"@,
            VaultError::InsufficientBalanceToLock => "Insufficient balance to lock"@,
            VaultError::InvalidUnlockAmount => "Cannot unlock more than locked balance"@,
            VaultError::UnauthorizedProgram => "Unauthorized program attempting to access vault"@,
            VaultError::HasOpenPositions => "Vault has open positions, cannot withdraw"@,
            VaultError::OverflowError => "Overflow in balance calculation"@,
            VaultError::ArithmeticUnderflow => "Underflow in balance calculation"@,
            VaultError::InsufficientTransferBalance => "Transfer amount exceeds available balance"@,
            VaultError::UnauthorizedOwner => "Only vault owner can perform this operation"@,
            VaultError::UnauthorizedAdmin => "Only admin can modify authority"@,
            VaultError::MaxAuthorizedProgramsReached => "Maximum authorized programs limit reached"@,
            VaultError::ProgramNotAuthorized => "Program not found in authorized list"@,
            VaultError::InvariantViolation => "Invalid vault state"@,
            VaultError::ArithmeticOverflow => "Numerical overflow occurred"@,
        }
    }

    /// The error's message.
    pub fn message(&self) -> (text: String)
        ensures
            text@ == self.message_text(),
    {
        match self {
            VaultError::InvalidAmount => String::from_str("Invalid amount specified"),
            VaultError::InsufficientBalance => String::from_str("Insufficient available balance"),
            VaultError::InsufficientBalanceToLock => String::from_str("Insufficient balance to lock"),
            VaultError::InvalidUnlockAmount => String::from_str("Cannot unlock more than locked balance"),
            VaultError::UnauthorizedProgram => String::from_str("Unauthorized program attempting to access vault"),
            VaultError::HasOpenPositions => String::from_str("Vault has open positions, cannot withdraw"),
            VaultError::OverflowError => String::from_str("Overflow in balance calculation"),
            VaultError::ArithmeticUnderflow => String::from_str("Underflow in balance calculation"),
            VaultError::InsufficientTransferBalance => String::from_str("Transfer amount exceeds available balance"),
            VaultError::UnauthorizedOwner => String::from_str("Only vault owner can perform this operation"),
            VaultError::UnauthorizedAdmin => String::from_str("Only admin can modify authority"),
            VaultError::MaxAuthorizedProgramsReached => String::from_str("Maximum authorized programs limit reached"),
            VaultError::ProgramNotAuthorized => String::from_str("Program not found in authorized list"),
            VaultError::InvariantViolation => String::from_str("Invalid vault state"),
            VaultError::ArithmeticOverflow => String::from_str("Numerical overflow occurred"),
        }
    }
}

} // verus!
