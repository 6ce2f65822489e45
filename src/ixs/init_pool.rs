use vstd::prelude::*;
use crate::authority::{AuthorityScope, VaultAuthority};
use crate::errors::MushiStakeVaultError;
use crate::pubkey::Pubkey;
use crate::state::MainState;
use crate::token::{Signer, TokenOp};

verus! {

/// Decimal precision of the receipt asset.
pub const STAKE_TOKEN_DECIMALS: u8 = 9;

/// Receipt tokens minted into the vault and burnt again at creation.
pub const BOOTSTRAP_AMOUNT: u64 = 1_000_000_000;

/// Share of the single creator in the receipt asset's metadata, in percent.
pub const CREATOR_SHARE: u8 = 100;

/// Royalty recorded in the receipt asset's metadata, in basis points.
pub const SELLER_FEE_BASIS_POINTS: u16 = 100;

#[derive(Clone, Debug)]
pub struct InitPoolInput {
    pub stake_token_name: String,
    pub stake_token_symbol: String,
    pub stake_token_uri: String,
    /// The upstream authority to register.
    pub mushi_program: Pubkey,
}

/// What pool creation reads and changes.
#[derive(Clone, Debug)]
pub struct InitializeStakePool {
    /// The identity that signed the call and becomes the admin.
    pub admin: Pubkey,
    /// The ledger; `None` until it is created.
    pub main_state: Option<MainState>,
    /// The ledger's derived identity and its verification byte.
    pub main_state_key: Pubkey,
    pub main_state_bump: u8,
    pub mushi_token_mint: Pubkey,
    pub eclipse_token_mint: Pubkey,
    /// The receipt asset, created by this call.
    pub stake_token_mint: Pubkey,
    /// The vault's receipt account, created by this call.
    pub stake_token_vault: Pubkey,
    /// Verification byte of the vault owner.
    pub token_vault_owner_bump: u8,
}

/// How the receipt asset is to be created.
#[derive(Clone, Copy, Debug)]
pub struct ReceiptMintConfig {
    pub mint: Pubkey,
    pub decimals: u8,
    pub mint_authority: Pubkey,
    pub freeze_authority: Pubkey,
}

/// A creator listed in display metadata.
#[derive(Clone, Copy, Debug)]
pub struct Creator {
    pub address: Pubkey,
    pub verified: bool,
    pub share: u8,
}

/// The request to attach display metadata to the receipt asset.
#[derive(Clone, Debug)]
pub struct MetadataRequest {
    pub mint: Pubkey,
    pub name: String,
    pub symbol: String,
    pub uri: String,
    pub creator: Creator,
    pub seller_fee_basis_points: u16,
    pub is_mutable: bool,
    pub update_authority: Pubkey,
    pub signer: VaultAuthority,
}

/// What the host carries out for a pool creation, in this order: create the
/// receipt mint, run the instructions, attach the metadata.
#[derive(Clone, Debug)]
pub struct InitPlan {
    pub receipt_mint: ReceiptMintConfig,
    pub ops: Vec<TokenOp>,
    pub metadata: MetadataRequest,
}

impl InitializeStakePool {
    /// The ledger as creation leaves it.
    pub open spec fn new_main_state(&self, upstream: Pubkey) -> MainState {
        MainState {
            admin: self.admin,
            mushi_token_amount: 0,
            eclipse_token_amount: 0,
            staking_token_total_supply: 0,
            mushi_token_mint: self.mushi_token_mint,
            eclipse_token_mint: self.eclipse_token_mint,
            stake_token_mint: self.stake_token_mint,
            mushi_program: upstream,
        }
    }

    /// `plan` creates the receipt asset with the ledger's identity as mint and
    /// freeze authority, runs `bootstrap_ops`, and attaches non-mutable metadata
    /// named after `input` whose one creator is the ledger with the whole share.
    pub open spec fn is_plan_for(&self, plan: InitPlan, input: InitPoolInput) -> bool {
        &&& plan.receipt_mint == (ReceiptMintConfig {
            mint: self.stake_token_mint,
            decimals: STAKE_TOKEN_DECIMALS,
            mint_authority: self.main_state_key,
            freeze_authority: self.main_state_key,
        })
        &&& plan.ops@ == self.bootstrap_ops()
        &&& plan.metadata.mint == self.stake_token_mint
        &&& plan.metadata.name@ == input.stake_token_name@
        &&& plan.metadata.symbol@ == input.stake_token_symbol@
        &&& plan.metadata.uri@ == input.stake_token_uri@
        &&& plan.metadata.creator == (Creator {
            address: self.main_state_key,
            verified: true,
            share: CREATOR_SHARE,
        })
        &&& plan.metadata.seller_fee_basis_points == SELLER_FEE_BASIS_POINTS
        &&& !plan.metadata.is_mutable
        &&& plan.metadata.update_authority == self.main_state_key
        &&& plan.metadata.signer == VaultAuthority::spec_derive(AuthorityScope::MainState, self.main_state_bump)
    }

    /// The mint-then-burn of the bootstrap quantity through the vault's receipt account.
    pub open spec fn bootstrap_ops(&self) -> Seq<TokenOp> {
        seq![
            TokenOp::MintTo {
                mint: self.stake_token_mint,
                to: self.stake_token_vault,
                amount: BOOTSTRAP_AMOUNT,
                authority: VaultAuthority::spec_derive(AuthorityScope::MainState, self.main_state_bump),
            },
            TokenOp::Burn {
                mint: self.stake_token_mint,
                from: self.stake_token_vault,
                amount: BOOTSTRAP_AMOUNT,
                signer: Signer::Vault(
                    VaultAuthority::spec_derive(AuthorityScope::VaultOwner, self.token_vault_owner_bump),
                ),
            },
        ]
    }
}

/// Creates the ledger, once. The plan that comes back creates the receipt asset
/// with the ledger's identity as mint and freeze authority, mints and burns the
/// bootstrap quantity in the vault, and attaches non-mutable metadata whose one
/// creator is the ledger with the whole share.
pub fn init_pool(ctx: &mut InitializeStakePool, input: InitPoolInput) -> (r: Result<InitPlan, MushiStakeVaultError>)
    ensures
        r is Err <==> old(ctx).main_state is Some,
        r is Err ==> r == Err::<InitPlan, MushiStakeVaultError>(MushiStakeVaultError::PoolAlreadyInitialized)
            && *final(ctx) == *old(ctx),
        r is Ok ==> *final(ctx) == (InitializeStakePool {
            main_state: Some(old(ctx).new_main_state(input.mushi_program)),
            ..*old(ctx)
        }),
        r matches Ok(plan) ==> old(ctx).is_plan_for(plan, input),
{
    if ctx.main_state.is_some() {
        return Err(MushiStakeVaultError::PoolAlreadyInitialized);
    }
    ctx.main_state = Some(
        MainState {
            admin: ctx.admin,
            mushi_token_amount: 0,
            eclipse_token_amount: 0,
            staking_token_total_supply: 0,
            mushi_token_mint: ctx.mushi_token_mint,
            eclipse_token_mint: ctx.eclipse_token_mint,
            stake_token_mint: ctx.stake_token_mint,
            mushi_program: input.mushi_program,
        },
    );
    let main_authority = VaultAuthority::derive(AuthorityScope::MainState, ctx.main_state_bump);
    let vault_owner = VaultAuthority::derive(AuthorityScope::VaultOwner, ctx.token_vault_owner_bump);
    let mut ops: Vec<TokenOp> = Vec::new();
    ops.push(
        TokenOp::MintTo {
            mint: ctx.stake_token_mint,
            to: ctx.stake_token_vault,
            amount: BOOTSTRAP_AMOUNT,
            authority: main_authority,
        },
    );
    ops.push(
        TokenOp::Burn {
            mint: ctx.stake_token_mint,
            from: ctx.stake_token_vault,
            amount: BOOTSTRAP_AMOUNT,
            signer: Signer::Vault(vault_owner),
        },
    );
    assert(ops@ =~= ctx.bootstrap_ops());
    let receipt_mint = ReceiptMintConfig {
        mint: ctx.stake_token_mint,
        decimals: STAKE_TOKEN_DECIMALS,
        mint_authority: ctx.main_state_key,
        freeze_authority: ctx.main_state_key,
    };
    let metadata = MetadataRequest {
        mint: ctx.stake_token_mint,
        name: input.stake_token_name,
        symbol: input.stake_token_symbol,
        uri: input.stake_token_uri,
        creator: Creator { address: ctx.main_state_key, verified: true, share: CREATOR_SHARE },
        seller_fee_basis_points: SELLER_FEE_BASIS_POINTS,
        is_mutable: false,
        update_authority: ctx.main_state_key,
        signer: main_authority,
    };
    Ok(InitPlan { receipt_mint, ops, metadata })
}

} // verus!
