use vstd::prelude::*;
use crate::authority::{AuthorityScope, VaultAuthority};
use crate::errors::MushiStakeVaultError;
use crate::guard::{verify_caller, ExecutionTrace};
use crate::pubkey::Pubkey;
use crate::state::MainState;
use crate::token::{
    burn_tokens, transfer_token_2022, transfer_tokens, Signer, TokenAccount, TokenOp,
    TransferToken2022Input, TransferTokenInput,
};

verus! {

#[derive(Clone, Copy, Debug)]
pub struct UnstakeInput {
    pub amount: u64,
}

/// Where the secondary asset goes on unstake; a choice of the deployment.
#[derive(Clone, Copy, Debug, PartialEq, Eq, Structural)]
pub enum SecondaryRoute {
    /// Back to the user's own account, signed by the user.
    ReturnToUser,
    /// To the upstream authority's own vault, signed by that vault's capability.
    ForwardToUpstream,
}

/// What an unstake call reads and changes: the ledger, the call sequence and the
/// balances of the token accounts involved.
#[derive(Clone, Debug)]
pub struct Unstake {
    pub user: Pubkey,
    pub main_state: MainState,
    pub instruction_sysvar: ExecutionTrace,
    pub user_mushi_token_ata: TokenAccount,
    pub user_eclipse_token_ata: TokenAccount,
    pub user_stake_token_ata: TokenAccount,
    pub mushi_token_vault: TokenAccount,
    pub eclipse_token_vault: TokenAccount,
    /// The upstream authority's own vault of the secondary asset.
    pub eclipse_token_mushi_program_vault: TokenAccount,
    /// Decimal precision of the secondary asset.
    pub eclipse_token_decimals: u8,
    /// Verification byte of the vault owner.
    pub token_vault_owner_bump: u8,
    /// Verification byte of the owner of the upstream authority's vault.
    pub mushi_program_vault_owner_bump: u8,
    pub secondary_route: SecondaryRoute,
}

impl Unstake {
    /// The account that receives the secondary asset.
    pub open spec fn eclipse_destination(&self) -> TokenAccount {
        match self.secondary_route {
            SecondaryRoute::ReturnToUser => self.user_eclipse_token_ata,
            SecondaryRoute::ForwardToUpstream => self.eclipse_token_mushi_program_vault,
        }
    }

    /// Who signs the transfer of the secondary asset.
    pub open spec fn eclipse_signer(&self) -> Signer {
        match self.secondary_route {
            SecondaryRoute::ReturnToUser => Signer::AccountOwner,
            SecondaryRoute::ForwardToUpstream => Signer::Vault(
                VaultAuthority::spec_derive(AuthorityScope::UpstreamVault, self.mushi_program_vault_owner_bump),
            ),
        }
    }

    /// No balance leaves `u64` and no counter drops below zero when `a` is unstaked.
    pub open spec fn fits(&self, a: u64) -> bool {
        &&& self.user_mushi_token_ata.amount + a <= u64::MAX
        &&& self.eclipse_destination().amount + a <= u64::MAX
        &&& self.main_state.can_withdraw(a)
    }

    /// The error with which an unstake of `a` is refused, if any, in the order of the checks.
    pub open spec fn unstake_error(&self, a: u64) -> Option<MushiStakeVaultError> {
        if !self.instruction_sysvar.authorizes(self.main_state.mushi_program) {
            Some(MushiStakeVaultError::UnauthorizedProgramCall)
        } else if self.mushi_token_vault.amount < a {
            Some(MushiStakeVaultError::InsufficientMushiTokenAmount)
        } else if self.eclipse_token_vault.amount < a {
            Some(MushiStakeVaultError::InsufficientEclipseTokenAmount)
        } else if self.user_stake_token_ata.amount < a {
            Some(MushiStakeVaultError::InsufficientStakeTokenAmount)
        } else if !self.fits(a) {
            Some(MushiStakeVaultError::ArithmeticOverflow)
        } else {
            None
        }
    }

    /// The accounts after an unstake of `a`: `a` of each asset leaves the vault,
    /// the primary to the user and the secondary along the route, the user's
    /// receipt tokens shrink by `a`, and the ledger counts `a` less.
    pub open spec fn unstaked(self, a: u64) -> Unstake {
        let moved = Unstake {
            main_state: self.main_state.withdrawn(a),
            user_mushi_token_ata: self.user_mushi_token_ata.credited(a),
            user_stake_token_ata: self.user_stake_token_ata.debited(a),
            mushi_token_vault: self.mushi_token_vault.debited(a),
            eclipse_token_vault: self.eclipse_token_vault.debited(a),
            ..self
        };
        match self.secondary_route {
            SecondaryRoute::ReturnToUser => Unstake {
                user_eclipse_token_ata: self.user_eclipse_token_ata.credited(a),
                ..moved
            },
            SecondaryRoute::ForwardToUpstream => Unstake {
                eclipse_token_mushi_program_vault: self.eclipse_token_mushi_program_vault.credited(a),
                ..moved
            },
        }
    }

    /// The instructions of an unstake of `a`, in order.
    pub open spec fn unstake_ops(&self, a: u64) -> Seq<TokenOp> {
        seq![
            TokenOp::Transfer {
                mint: self.main_state.mushi_token_mint,
                from: self.mushi_token_vault.key,
                to: self.user_mushi_token_ata.key,
                amount: a,
                signer: Signer::Vault(
                    VaultAuthority::spec_derive(AuthorityScope::VaultOwner, self.token_vault_owner_bump),
                ),
            },
            TokenOp::TransferChecked {
                mint: self.main_state.eclipse_token_mint,
                from: self.eclipse_token_vault.key,
                to: self.eclipse_destination().key,
                amount: a,
                decimals: self.eclipse_token_decimals,
                signer: self.eclipse_signer(),
            },
            TokenOp::Burn {
                mint: self.main_state.stake_token_mint,
                from: self.user_stake_token_ata.key,
                amount: a,
                signer: Signer::AccountOwner,
            },
        ]
    }
}

/// Unstakes `input.amount`: the vault pays out `input.amount` of each asset and the
/// user's receipt tokens of that amount are burnt. On success the accounts are as
/// `unstaked` says and the instructions to carry out are returned; on failure
/// nothing changes.
pub fn handler(ctx: &mut Unstake, input: UnstakeInput) -> (r: Result<Vec<TokenOp>, MushiStakeVaultError>)
    requires
        old(ctx).instruction_sysvar.wf(),
    ensures
        match r {
            Ok(ops) => {
                &&& old(ctx).unstake_error(input.amount) is None
                &&& *final(ctx) == old(ctx).unstaked(input.amount)
                &&& ops@ == old(ctx).unstake_ops(input.amount)
            },
            Err(e) => {
                &&& old(ctx).unstake_error(input.amount) == Some(e)
                &&& *final(ctx) == *old(ctx)
            },
        },
        old(ctx).main_state.is_balanced() && r is Ok ==> final(ctx).main_state.is_balanced(),
{
    let amount = input.amount;
    verify_caller(&ctx.instruction_sysvar, &ctx.main_state.mushi_program)?;
    if amount > ctx.mushi_token_vault.amount {
        return Err(MushiStakeVaultError::InsufficientMushiTokenAmount);
    }
    if amount > ctx.eclipse_token_vault.amount {
        return Err(MushiStakeVaultError::InsufficientEclipseTokenAmount);
    }
    if amount > ctx.user_stake_token_ata.amount {
        return Err(MushiStakeVaultError::InsufficientStakeTokenAmount);
    }
    let destination_amount = match ctx.secondary_route {
        SecondaryRoute::ReturnToUser => ctx.user_eclipse_token_ata.amount,
        SecondaryRoute::ForwardToUpstream => ctx.eclipse_token_mushi_program_vault.amount,
    };
    if amount > u64::MAX - ctx.user_mushi_token_ata.amount
        || amount > u64::MAX - destination_amount
        || !ctx.main_state.check_withdrawal(amount)
    {
        return Err(MushiStakeVaultError::ArithmeticOverflow);
    }
    let mut ops: Vec<TokenOp> = Vec::new();
    let vault_owner = VaultAuthority::derive(AuthorityScope::VaultOwner, ctx.token_vault_owner_bump);
    let op = transfer_tokens(
        TransferTokenInput {
            mint: ctx.main_state.mushi_token_mint,
            amount,
            signer: Signer::Vault(vault_owner),
        },
        &mut ctx.mushi_token_vault,
        &mut ctx.user_mushi_token_ata,
    );
    ops.push(op);
    let op = match ctx.secondary_route {
        SecondaryRoute::ReturnToUser => transfer_token_2022(
            TransferToken2022Input {
                mint: ctx.main_state.eclipse_token_mint,
                amount,
                decimals: ctx.eclipse_token_decimals,
                signer: Signer::AccountOwner,
            },
            &mut ctx.eclipse_token_vault,
            &mut ctx.user_eclipse_token_ata,
        ),
        SecondaryRoute::ForwardToUpstream => {
            let upstream_vault = VaultAuthority::derive(
                AuthorityScope::UpstreamVault,
                ctx.mushi_program_vault_owner_bump,
            );
            transfer_token_2022(
                TransferToken2022Input {
                    mint: ctx.main_state.eclipse_token_mint,
                    amount,
                    decimals: ctx.eclipse_token_decimals,
                    signer: Signer::Vault(upstream_vault),
                },
                &mut ctx.eclipse_token_vault,
                &mut ctx.eclipse_token_mushi_program_vault,
            )
        },
    };
    ops.push(op);
    let op = burn_tokens(
        ctx.main_state.stake_token_mint,
        &mut ctx.user_stake_token_ata,
        amount,
        Signer::AccountOwner,
    );
    ops.push(op);
    ctx.main_state.record_withdrawal(amount);
    assert(ops@ =~= old(ctx).unstake_ops(amount));
    Ok(ops)
}

} // verus!
