pub mod authority;
pub mod errors;
pub mod guard;
pub mod ixs;
pub mod laws;
pub mod pubkey;
pub mod state;
pub mod token;

pub use errors::MushiStakeVaultError;
pub use ixs::init_pool::{init_pool, InitPlan, InitPoolInput, InitializeStakePool};
pub use ixs::stake::{Stake, StakeInput};
pub use ixs::unstake::{SecondaryRoute, Unstake, UnstakeInput};
pub use ixs::update_pool::{UpdatePool, UpdatePoolInput};
pub use pubkey::Pubkey;
pub use state::{MainState, StakeEntry};
pub use token::{TokenAccount, TokenOp};

use vstd::prelude::*;

verus! {

/// Creates the pool ledger; see `init_pool`.
pub fn initialize(ctx: &mut InitializeStakePool, input: InitPoolInput) -> (r: Result<InitPlan, MushiStakeVaultError>)
    ensures
        r is Err <==> old(ctx).main_state is Some,
        r is Err ==> r == Err::<InitPlan, MushiStakeVaultError>(MushiStakeVaultError::PoolAlreadyInitialized)
            && *final(ctx) == *old(ctx),
        r is Ok ==> *final(ctx) == (InitializeStakePool {
            main_state: Some(old(ctx).new_main_state(input.mushi_program)),
            ..*old(ctx)
        }),
        r matches Ok(plan) ==> old(ctx).is_plan_for(plan, input),
{
    init_pool(ctx, input)
}

/// Stakes an amount of each asset for receipt tokens; see `ixs::stake::handler`.
pub fn stake(ctx: &mut Stake, input: StakeInput) -> (r: Result<Vec<TokenOp>, MushiStakeVaultError>)
    requires
        old(ctx).instruction_sysvar.wf(),
    ensures
        match r {
            Ok(ops) => {
                &&& old(ctx).stake_error(input.amount) is None
                &&& *final(ctx) == old(ctx).staked(input.amount)
                &&& ops@ == old(ctx).stake_ops(input.amount)
            },
            Err(e) => {
                &&& old(ctx).stake_error(input.amount) == Some(e)
                &&& *final(ctx) == *old(ctx)
            },
        },
{
    ixs::stake::handler(ctx, input)
}

/// Returns an amount of each asset for receipt tokens; see `ixs::unstake::handler`.
pub fn unstake(ctx: &mut Unstake, input: UnstakeInput) -> (r: Result<Vec<TokenOp>, MushiStakeVaultError>)
    requires
        old(ctx).instruction_sysvar.wf(),
    ensures
        match r {
            Ok(ops) => {
                &&& old(ctx).unstake_error(input.amount) is None
                &&& *final(ctx) == old(ctx).unstaked(input.amount)
                &&& ops@ == old(ctx).unstake_ops(input.amount)
            },
            Err(e) => {
                &&& old(ctx).unstake_error(input.amount) == Some(e)
                &&& *final(ctx) == *old(ctx)
            },
        },
{
    ixs::unstake::handler(ctx, input)
}

/// Replaces the upstream authority, for the admin only; see `ixs::update_pool::handler`.
pub fn update_pool(ctx: &mut UpdatePool, input: UpdatePoolInput) -> (r: Result<(), MushiStakeVaultError>)
    ensures
        r is Ok <==> old(ctx).admin == old(ctx).main_state.admin,
        r is Ok ==> *final(ctx) == old(ctx).updated(input.mushi_program),
        r is Err ==> r == Err::<(), MushiStakeVaultError>(MushiStakeVaultError::UnauthorizedAdminAction)
            && *final(ctx) == *old(ctx),
{
    ixs::update_pool::handler(ctx, input)
}

} // verus!
