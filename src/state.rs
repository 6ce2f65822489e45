use vstd::prelude::*;
use crate::pubkey::Pubkey;

verus! {

/// Label of the per-user stake record.
pub const STAKE_ENTRY_SEED: &'static str = "stake_entry";

/// The pool ledger: configuration and cumulative balances. There is one per
/// deployment; `initialize` creates it and the other entry points change it.
#[derive(Clone, Copy, Debug)]
pub struct MainState {
    pub admin: Pubkey,
    /// Primary asset deposited and not yet withdrawn.
    pub mushi_token_amount: u64,
    /// Secondary asset deposited and not yet withdrawn.
    pub eclipse_token_amount: u64,
    /// Receipt tokens issued and not yet burnt.
    pub staking_token_total_supply: u64,
    pub mushi_token_mint: Pubkey,
    pub eclipse_token_mint: Pubkey,
    pub stake_token_mint: Pubkey,
    /// The registered upstream authority.
    pub mushi_program: Pubkey,
}

impl MainState {
    /// Receipt supply, primary deposits and secondary deposits agree.
    pub open spec fn is_balanced(&self) -> bool {
        &&& self.staking_token_total_supply == self.mushi_token_amount
        &&& self.mushi_token_amount == self.eclipse_token_amount
    }

    /// Each counter stays within `u64` when `a` is added to it.
    pub open spec fn can_deposit(&self, a: u64) -> bool {
        &&& self.mushi_token_amount + a <= u64::MAX
        &&& self.eclipse_token_amount + a <= u64::MAX
        &&& self.staking_token_total_supply + a <= u64::MAX
    }

    /// Each counter is at least `a`.
    pub open spec fn can_withdraw(&self, a: u64) -> bool {
        &&& self.mushi_token_amount >= a
        &&& self.eclipse_token_amount >= a
        &&& self.staking_token_total_supply >= a
    }

    /// The ledger after a stake of `a`: each counter grows by `a`.
    pub open spec fn deposited(self, a: u64) -> MainState {
        MainState {
            mushi_token_amount: (self.mushi_token_amount + a) as u64,
            eclipse_token_amount: (self.eclipse_token_amount + a) as u64,
            staking_token_total_supply: (self.staking_token_total_supply + a) as u64,
            ..self
        }
    }

    /// The ledger after an unstake of `a`: each counter shrinks by `a`.
    pub open spec fn withdrawn(self, a: u64) -> MainState {
        MainState {
            mushi_token_amount: (self.mushi_token_amount - a) as u64,
            eclipse_token_amount: (self.eclipse_token_amount - a) as u64,
            staking_token_total_supply: (self.staking_token_total_supply - a) as u64,
            ..self
        }
    }

    pub fn check_deposit(&self, a: u64) -> (r: bool)
        ensures
            r == self.can_deposit(a),
    {
        a <= u64::MAX - self.mushi_token_amount
            && a <= u64::MAX - self.eclipse_token_amount
            && a <= u64::MAX - self.staking_token_total_supply
    }

    pub fn check_withdrawal(&self, a: u64) -> (r: bool)
        ensures
            r == self.can_withdraw(a),
    {
        a <= self.mushi_token_amount && a <= self.eclipse_token_amount
            && a <= self.staking_token_total_supply
    }

    /// Adds `a` to each counter.
    pub fn record_deposit(&mut self, a: u64)
        requires
            old(self).can_deposit(a),
        ensures
            *final(self) == old(self).deposited(a),
    {
        self.mushi_token_amount = self.mushi_token_amount + a;
        self.eclipse_token_amount = self.eclipse_token_amount + a;
        self.staking_token_total_supply = self.staking_token_total_supply + a;
    }

    /// Takes `a` from each counter.
    pub fn record_withdrawal(&mut self, a: u64)
        requires
            old(self).can_withdraw(a),
        ensures
            *final(self) == old(self).withdrawn(a),
    {
        self.mushi_token_amount = self.mushi_token_amount - a;
        self.eclipse_token_amount = self.eclipse_token_amount - a;
        self.staking_token_total_supply = self.staking_token_total_supply - a;
    }
}

/// A per-user stake record. No entry point reads or writes it: it is reserved
/// for a later extension and carries no behaviour.
#[derive(Clone, Copy, Debug)]
pub struct StakeEntry {
    pub last_staked: i64,
    pub mushi_token_staked_amount: u64,
    pub eclipse_token_staked_amount: u64,
    pub stake_token_balance: u64,
    pub rewards_amount: u64,
}

} // verus!
