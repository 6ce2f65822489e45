use vstd::prelude::*;
use crate::errors::MushiStakeVaultError;
use crate::pubkey::Pubkey;
use crate::state::MainState;

verus! {

#[derive(Clone, Copy, Debug)]
pub struct UpdatePoolInput {
    pub mushi_program: Pubkey,
}

/// What a pool update reads and changes: the signer and the ledger.
#[derive(Clone, Copy, Debug)]
pub struct UpdatePool {
    /// The identity that signed the call.
    pub admin: Pubkey,
    pub main_state: MainState,
}

impl UpdatePool {
    /// The ledger with `upstream` as its upstream authority and all else kept.
    pub open spec fn updated(self, upstream: Pubkey) -> UpdatePool {
        UpdatePool { main_state: MainState { mushi_program: upstream, ..self.main_state }, ..self }
    }
}

/// Replaces the registered upstream authority. Only the admin may do so; no other
/// field of the ledger changes.
pub fn handler(ctx: &mut UpdatePool, input: UpdatePoolInput) -> (r: Result<(), MushiStakeVaultError>)
    ensures
        r is Ok <==> old(ctx).admin == old(ctx).main_state.admin,
        r is Ok ==> *final(ctx) == old(ctx).updated(input.mushi_program),
        r is Err ==> r == Err::<(), MushiStakeVaultError>(MushiStakeVaultError::UnauthorizedAdminAction)
            && *final(ctx) == *old(ctx),
{
    if !ctx.admin.same_key(&ctx.main_state.admin) {
        return Err(MushiStakeVaultError::UnauthorizedAdminAction);
    }
    ctx.main_state.mushi_program = input.mushi_program;
    Ok(())
}

} // verus!
