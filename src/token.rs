use vstd::prelude::*;
use crate::authority::{AuthorityScope, VaultAuthority};
use crate::pubkey::Pubkey;

verus! {

/// What the pool knows of a token account at the start of a call: its address,
/// its asset, its owner and its balance.
#[derive(Clone, Copy, Debug)]
pub struct TokenAccount {
    pub key: Pubkey,
    pub mint: Pubkey,
    pub owner: Pubkey,
    pub amount: u64,
}

impl TokenAccount {
    /// The account with `a` more.
    pub open spec fn credited(self, a: u64) -> TokenAccount {
        TokenAccount { amount: (self.amount + a) as u64, ..self }
    }

    /// The account with `a` less.
    pub open spec fn debited(self, a: u64) -> TokenAccount {
        TokenAccount { amount: (self.amount - a) as u64, ..self }
    }
}

/// Who signs for the account that an instruction draws on.
#[derive(Clone, Copy, Debug)]
pub enum Signer {
    /// The account's owner, who signed the current call.
    AccountOwner,
    /// A vault capability, rebuilt for this call.
    Vault(VaultAuthority),
}

/// An instruction for the asset ledger service. The entry points hand these back,
/// in order; the host carries them out within the same all-or-nothing call.
#[derive(Clone, Copy, Debug)]
pub enum TokenOp {
    /// A plain transfer between two accounts of `mint`.
    Transfer { mint: Pubkey, from: Pubkey, to: Pubkey, amount: u64, signer: Signer },
    /// A transfer that also states the decimal precision of `mint`; the service
    /// refuses it where the precision differs.
    TransferChecked {
        mint: Pubkey,
        from: Pubkey,
        to: Pubkey,
        amount: u64,
        decimals: u8,
        signer: Signer,
    },
    /// New tokens of `mint` for account `to`.
    MintTo { mint: Pubkey, to: Pubkey, amount: u64, authority: VaultAuthority },
    /// Tokens of `mint` taken out of account `from` and out of supply.
    Burn { mint: Pubkey, from: Pubkey, amount: u64, signer: Signer },
}

/// Arguments of a plain transfer.
#[derive(Clone, Copy, Debug)]
pub struct TransferTokenInput {
    pub mint: Pubkey,
    pub amount: u64,
    pub signer: Signer,
}

/// Arguments of a decimal-checked transfer.
#[derive(Clone, Copy, Debug)]
pub struct TransferToken2022Input {
    pub mint: Pubkey,
    pub amount: u64,
    pub decimals: u8,
    pub signer: Signer,
}

/// Mints `amount` of `mint` into `receiver`, signed by the ledger's own identity.
pub fn mint_to_tokens_by_main_state(mint: Pubkey, receiver: &mut TokenAccount, amount: u64, bump: u8) -> (r: TokenOp)
    requires
        old(receiver).amount + amount <= u64::MAX,
    ensures
        *final(receiver) == old(receiver).credited(amount),
        r == (TokenOp::MintTo {
            mint,
            to: old(receiver).key,
            amount,
            authority: VaultAuthority::spec_derive(AuthorityScope::MainState, bump),
        }),
{
    receiver.amount = receiver.amount + amount;
    TokenOp::MintTo {
        mint,
        to: receiver.key,
        amount,
        authority: VaultAuthority::derive(AuthorityScope::MainState, bump),
    }
}

/// Burns `amount` of `mint` held in `account`.
pub fn burn_tokens(mint: Pubkey, account: &mut TokenAccount, amount: u64, signer: Signer) -> (r: TokenOp)
    requires
        old(account).amount >= amount,
    ensures
        *final(account) == old(account).debited(amount),
        r == (TokenOp::Burn { mint, from: old(account).key, amount, signer }),
{
    account.amount = account.amount - amount;
    TokenOp::Burn { mint, from: account.key, amount, signer }
}

/// Moves `input.amount` from `from` to `to` by a plain transfer.
pub fn transfer_tokens(input: TransferTokenInput, from: &mut TokenAccount, to: &mut TokenAccount) -> (r: TokenOp)
    requires
        old(from).amount >= input.amount,
        old(to).amount + input.amount <= u64::MAX,
    ensures
        *final(from) == old(from).debited(input.amount),
        *final(to) == old(to).credited(input.amount),
        r == (TokenOp::Transfer {
            mint: input.mint,
            from: old(from).key,
            to: old(to).key,
            amount: input.amount,
            signer: input.signer,
        }),
{
    from.amount = from.amount - input.amount;
    to.amount = to.amount + input.amount;
    TokenOp::Transfer {
        mint: input.mint,
        from: from.key,
        to: to.key,
        amount: input.amount,
        signer: input.signer,
    }
}

/// Moves `input.amount` from `from` to `to` by a decimal-checked transfer.
pub fn transfer_token_2022(input: TransferToken2022Input, from: &mut TokenAccount, to: &mut TokenAccount) -> (r: TokenOp)
    requires
        old(from).amount >= input.amount,
        old(to).amount + input.amount <= u64::MAX,
    ensures
        *final(from) == old(from).debited(input.amount),
        *final(to) == old(to).credited(input.amount),
        r == (TokenOp::TransferChecked {
            mint: input.mint,
            from: old(from).key,
            to: old(to).key,
            amount: input.amount,
            decimals: input.decimals,
            signer: input.signer,
        }),
{
    from.amount = from.amount - input.amount;
    to.amount = to.amount + input.amount;
    TokenOp::TransferChecked {
        mint: input.mint,
        from: from.key,
        to: to.key,
        amount: input.amount,
        decimals: input.decimals,
        signer: input.signer,
    }
}

} // verus!
