use vstd::prelude::*;
use crate::authority::{AuthorityScope, VaultAuthority};
use crate::errors::MushiStakeVaultError;
use crate::guard::{verify_caller, ExecutionTrace};
use crate::pubkey::Pubkey;
use crate::state::MainState;
use crate::token::{
    mint_to_tokens_by_main_state, transfer_token_2022, transfer_tokens, Signer, TokenAccount,
    TokenOp, TransferToken2022Input, TransferTokenInput,
};

verus! {

#[derive(Clone, Copy, Debug)]
pub struct StakeInput {
    pub amount: u64,
}

/// What a stake call reads and changes: the ledger, the call sequence and the
/// balances of the token accounts involved.
#[derive(Clone, Debug)]
pub struct Stake {
    pub user: Pubkey,
    pub main_state: MainState,
    /// Verification byte of the ledger's own identity.
    pub main_state_bump: u8,
    pub instruction_sysvar: ExecutionTrace,
    pub user_mushi_token_ata: TokenAccount,
    pub user_eclipse_token_ata: TokenAccount,
    pub user_stake_token_ata: TokenAccount,
    pub mushi_token_vault: TokenAccount,
    pub eclipse_token_vault: TokenAccount,
    /// Decimal precision of the secondary asset.
    pub eclipse_token_decimals: u8,
}

impl Stake {
    /// No balance and no counter leaves `u64` when `a` is staked.
    pub open spec fn fits(&self, a: u64) -> bool {
        &&& self.user_stake_token_ata.amount + a <= u64::MAX
        &&& self.mushi_token_vault.amount + a <= u64::MAX
        &&& self.eclipse_token_vault.amount + a <= u64::MAX
        &&& self.main_state.can_deposit(a)
    }

    /// The error with which a stake of `a` is refused, if any, in the order of the checks.
    pub open spec fn stake_error(&self, a: u64) -> Option<MushiStakeVaultError> {
        if !self.instruction_sysvar.authorizes(self.main_state.mushi_program) {
            Some(MushiStakeVaultError::UnauthorizedProgramCall)
        } else if self.user_mushi_token_ata.amount < a {
            Some(MushiStakeVaultError::InsufficientMushiTokenAmount)
        } else if self.user_eclipse_token_ata.amount < a {
            Some(MushiStakeVaultError::InsufficientEclipseTokenAmount)
        } else if !self.fits(a) {
            Some(MushiStakeVaultError::ArithmeticOverflow)
        } else {
            None
        }
    }

    /// The accounts after a stake of `a`: `a` of each asset moves from the user to
    /// the vault, the user gets `a` receipt tokens, and the ledger counts `a` more.
    pub open spec fn staked(self, a: u64) -> Stake {
        Stake {
            main_state: self.main_state.deposited(a),
            user_mushi_token_ata: self.user_mushi_token_ata.debited(a),
            user_eclipse_token_ata: self.user_eclipse_token_ata.debited(a),
            user_stake_token_ata: self.user_stake_token_ata.credited(a),
            mushi_token_vault: self.mushi_token_vault.credited(a),
            eclipse_token_vault: self.eclipse_token_vault.credited(a),
            ..self
        }
    }

    /// The instructions of a stake of `a`, in order.
    pub open spec fn stake_ops(&self, a: u64) -> Seq<TokenOp> {
        seq![
            TokenOp::Transfer {
                mint: self.main_state.mushi_token_mint,
                from: self.user_mushi_token_ata.key,
                to: self.mushi_token_vault.key,
                amount: a,
                signer: Signer::AccountOwner,
            },
            TokenOp::TransferChecked {
                mint: self.main_state.eclipse_token_mint,
                from: self.user_eclipse_token_ata.key,
                to: self.eclipse_token_vault.key,
                amount: a,
                decimals: self.eclipse_token_decimals,
                signer: Signer::AccountOwner,
            },
            TokenOp::MintTo {
                mint: self.main_state.stake_token_mint,
                to: self.user_stake_token_ata.key,
                amount: a,
                authority: VaultAuthority::spec_derive(AuthorityScope::MainState, self.main_state_bump),
            },
        ]
    }
}

/// Stakes `input.amount` of each asset for the same amount of receipt tokens.
/// On success the accounts are as `staked` says and the instructions to carry out
/// are returned; on failure nothing changes.
pub fn handler(ctx: &mut Stake, input: StakeInput) -> (r: Result<Vec<TokenOp>, MushiStakeVaultError>)
    requires
        old(ctx).instruction_sysvar.wf(),
    ensures
        match r {
            Ok(ops) => {
                &&& old(ctx).stake_error(input.amount) is None
                &&& *final(ctx) == old(ctx).staked(input.amount)
                &&& ops@ == old(ctx).stake_ops(input.amount)
            },
            Err(e) => {
                &&& old(ctx).stake_error(input.amount) == Some(e)
                &&& *final(ctx) == *old(ctx)
            },
        },
        old(ctx).main_state.is_balanced() && r is Ok ==> final(ctx).main_state.is_balanced(),
{
    let amount = input.amount;
    verify_caller(&ctx.instruction_sysvar, &ctx.main_state.mushi_program)?;
    if amount > ctx.user_mushi_token_ata.amount {
        return Err(MushiStakeVaultError::InsufficientMushiTokenAmount);
    }
    if amount > ctx.user_eclipse_token_ata.amount {
        return Err(MushiStakeVaultError::InsufficientEclipseTokenAmount);
    }
    if amount > u64::MAX - ctx.user_stake_token_ata.amount
        || amount > u64::MAX - ctx.mushi_token_vault.amount
        || amount > u64::MAX - ctx.eclipse_token_vault.amount
        || !ctx.main_state.check_deposit(amount)
    {
        return Err(MushiStakeVaultError::ArithmeticOverflow);
    }
    let mut ops: Vec<TokenOp> = Vec::new();
    let op = transfer_tokens(
        TransferTokenInput {
            mint: ctx.main_state.mushi_token_mint,
            amount,
            signer: Signer::AccountOwner,
        },
        &mut ctx.user_mushi_token_ata,
        &mut ctx.mushi_token_vault,
    );
    ops.push(op);
    let op = transfer_token_2022(
        TransferToken2022Input {
            mint: ctx.main_state.eclipse_token_mint,
            amount,
            decimals: ctx.eclipse_token_decimals,
            signer: Signer::AccountOwner,
        },
        &mut ctx.user_eclipse_token_ata,
        &mut ctx.eclipse_token_vault,
    );
    ops.push(op);
    let op = mint_to_tokens_by_main_state(
        ctx.main_state.stake_token_mint,
        &mut ctx.user_stake_token_ata,
        amount,
        ctx.main_state_bump,
    );
    ops.push(op);
    ctx.main_state.record_deposit(amount);
    assert(ops@ =~= old(ctx).stake_ops(amount));
    Ok(ops)
}

} // verus!
