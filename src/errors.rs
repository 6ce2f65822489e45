use vstd::prelude::*;

verus! {

/// Why an entry point refused to run. A refused call changes nothing.
#[derive(Clone, Copy, Debug, PartialEq, Eq, Structural)]
pub enum MushiStakeVaultError {
    /// The primary asset balance that the call draws on is below the amount.
    InsufficientMushiTokenAmount,
    /// The secondary asset balance that the call draws on is below the amount.
    InsufficientEclipseTokenAmount,
    /// The user holds fewer receipt tokens than the amount to burn.
    InsufficientStakeTokenAmount,
    /// Neither the current call nor the one just before it comes from the upstream authority.
    UnauthorizedProgramCall,
    /// The signer of a pool update is not the pool's admin.
    UnauthorizedAdminAction,
    /// A counter or a balance would leave the range of a `u64`.
    ArithmeticOverflow,
    /// The pool ledger has already been created.
    PoolAlreadyInitialized,
}

impl MushiStakeVaultError {
    /// The message shown for the error.
    pub fn message(&self) -> (r: &'static str) {
        match self {
            MushiStakeVaultError::InsufficientMushiTokenAmount => "Insufficient mushi token amount",
            MushiStakeVaultError::InsufficientEclipseTokenAmount => "Insufficient eclipse token amount",
            MushiStakeVaultError::InsufficientStakeTokenAmount => "Insufficient stake token amount",
            MushiStakeVaultError::UnauthorizedProgramCall => "Unauthorized program call",
            MushiStakeVaultError::UnauthorizedAdminAction => "Only admin can perform this action",
            MushiStakeVaultError::ArithmeticOverflow => "Arithmetic overflow",
            MushiStakeVaultError::PoolAlreadyInitialized => "Pool is already initialized",
        }
    }
}

} // verus!
