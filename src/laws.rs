use vstd::prelude::*;
use crate::errors::MushiStakeVaultError;
use crate::ixs::stake::Stake;
use crate::ixs::unstake::{SecondaryRoute, Unstake};
use crate::state::MainState;

verus! {

/// Staking `a` and then unstaking `a`, with the secondary asset returned to the user,
/// succeeds and gives back the ledger counters, the user's balances and the vault's
/// balances as they were before the stake.
pub proof fn lemma_stake_unstake_round_trip(s: Stake, u: Unstake, a: u64)
    requires
        a > 0,
        s.stake_error(a) is None,
        u.secondary_route == SecondaryRoute::ReturnToUser,
        u.main_state == s.staked(a).main_state,
        u.user_mushi_token_ata == s.staked(a).user_mushi_token_ata,
        u.user_eclipse_token_ata == s.staked(a).user_eclipse_token_ata,
        u.user_stake_token_ata == s.staked(a).user_stake_token_ata,
        u.mushi_token_vault == s.staked(a).mushi_token_vault,
        u.eclipse_token_vault == s.staked(a).eclipse_token_vault,
        u.instruction_sysvar.authorizes(u.main_state.mushi_program),
    ensures
        u.unstake_error(a) is None,
        u.unstaked(a).main_state == s.main_state,
        u.unstaked(a).user_mushi_token_ata == s.user_mushi_token_ata,
        u.unstaked(a).user_eclipse_token_ata == s.user_eclipse_token_ata,
        u.unstaked(a).user_stake_token_ata == s.user_stake_token_ata,
        u.unstaked(a).mushi_token_vault == s.mushi_token_vault,
        u.unstaked(a).eclipse_token_vault == s.eclipse_token_vault,
{
}

/// A stake or an unstake keeps the receipt supply equal to the primary and to the
/// secondary deposits.
pub proof fn lemma_balanced_preserved(m: MainState, a: u64)
    requires
        m.is_balanced(),
    ensures
        m.can_deposit(a) ==> m.deposited(a).is_balanced(),
        m.can_withdraw(a) ==> m.withdrawn(a).is_balanced(),
{
}

/// Where the caller is authorized, a stake is refused for want of the primary asset
/// exactly when the user holds less of it than the amount.
pub proof fn lemma_stake_insufficient_primary(s: Stake, a: u64)
    requires
        s.instruction_sysvar.authorizes(s.main_state.mushi_program),
    ensures
        s.stake_error(a) == Some(MushiStakeVaultError::InsufficientMushiTokenAmount)
            <==> s.user_mushi_token_ata.amount < a,
{
}

/// Where the caller is authorized, an unstake is refused for want of the primary or
/// the secondary asset exactly when the vault holds less of either than the amount.
pub proof fn lemma_unstake_insufficient_vault(u: Unstake, a: u64)
    requires
        u.instruction_sysvar.authorizes(u.main_state.mushi_program),
    ensures
        (u.unstake_error(a) == Some(MushiStakeVaultError::InsufficientMushiTokenAmount)
            || u.unstake_error(a) == Some(MushiStakeVaultError::InsufficientEclipseTokenAmount))
            <==> (u.mushi_token_vault.amount < a || u.eclipse_token_vault.amount < a),
{
}

/// A stake or an unstake issued by another identity, with no call of the upstream
/// authority just before it, is refused as unauthorized.
pub proof fn lemma_unrelated_caller_refused(s: Stake, u: Unstake, a: u64)
    requires
        s.instruction_sysvar.wf(),
        s.instruction_sysvar.program_ids@[s.instruction_sysvar.current_index as int]
            != s.main_state.mushi_program,
        s.instruction_sysvar.current_index == 0
            || s.instruction_sysvar.program_ids@[s.instruction_sysvar.current_index - 1]
            != s.main_state.mushi_program,
        u.instruction_sysvar.wf(),
        u.instruction_sysvar.program_ids@[u.instruction_sysvar.current_index as int]
            != u.main_state.mushi_program,
        u.instruction_sysvar.current_index == 0
            || u.instruction_sysvar.program_ids@[u.instruction_sysvar.current_index - 1]
            != u.main_state.mushi_program,
    ensures
        s.stake_error(a) == Some(MushiStakeVaultError::UnauthorizedProgramCall),
        u.unstake_error(a) == Some(MushiStakeVaultError::UnauthorizedProgramCall),
{
}

} // verus!
