use mushi_stake_vault::authority::AuthorityScope;
use mushi_stake_vault::guard::{verify_caller, ExecutionTrace};
use mushi_stake_vault::ixs::init_pool::{BOOTSTRAP_AMOUNT, STAKE_TOKEN_DECIMALS};
use mushi_stake_vault::token::Signer;
use mushi_stake_vault::{
    initialize, stake, unstake, update_pool, InitPoolInput, InitializeStakePool, MainState,
    MushiStakeVaultError, Pubkey, SecondaryRoute, Stake, StakeInput, TokenAccount, TokenOp,
    Unstake, UnstakeInput, UpdatePool, UpdatePoolInput,
};

fn key(n: u8) -> Pubkey {
    Pubkey::new_from_array([n; 32])
}

const ADMIN: u8 = 1;
const M1: u8 = 2;
const M2: u8 = 3;
const RECEIPT: u8 = 4;
const UPSTREAM: u8 = 5;
const USER: u8 = 6;
const VAULT_OWNER: u8 = 7;
const OTHER: u8 = 8;
const LEDGER: u8 = 9;
const UPSTREAM_VAULT_OWNER: u8 = 10;

fn account(addr: u8, mint: u8, owner: u8, amount: u64) -> TokenAccount {
    TokenAccount { key: key(addr), mint: key(mint), owner: key(owner), amount }
}

fn fresh_ledger() -> MainState {
    let mut ctx = InitializeStakePool {
        admin: key(ADMIN),
        main_state: None,
        main_state_key: key(LEDGER),
        main_state_bump: 254,
        mushi_token_mint: key(M1),
        eclipse_token_mint: key(M2),
        stake_token_mint: key(RECEIPT),
        stake_token_vault: key(40),
        token_vault_owner_bump: 253,
    };
    initialize(&mut ctx, init_input()).unwrap();
    ctx.main_state.unwrap()
}

fn init_input() -> InitPoolInput {
    InitPoolInput {
        stake_token_name: "Mushi Stake".to_string(),
        stake_token_symbol: "MSTK".to_string(),
        stake_token_uri: "https://example.org/m.json".to_string(),
        mushi_program: key(UPSTREAM),
    }
}

fn trace(ids: &[u8], current: usize) -> ExecutionTrace {
    ExecutionTrace { current_index: current, program_ids: ids.iter().map(|n| key(*n)).collect() }
}

fn stake_ctx(ledger: MainState, caller: &[u8], current: usize, user_m1: u64, user_m2: u64) -> Stake {
    Stake {
        user: key(USER),
        main_state: ledger,
        main_state_bump: 254,
        instruction_sysvar: trace(caller, current),
        user_mushi_token_ata: account(20, M1, USER, user_m1),
        user_eclipse_token_ata: account(21, M2, USER, user_m2),
        user_stake_token_ata: account(22, RECEIPT, USER, 0),
        mushi_token_vault: account(30, M1, VAULT_OWNER, 0),
        eclipse_token_vault: account(31, M2, VAULT_OWNER, 0),
        eclipse_token_decimals: 6,
    }
}

fn unstake_ctx_after(s: &Stake, caller: &[u8], current: usize, route: SecondaryRoute) -> Unstake {
    Unstake {
        user: s.user,
        main_state: s.main_state,
        instruction_sysvar: trace(caller, current),
        user_mushi_token_ata: s.user_mushi_token_ata,
        user_eclipse_token_ata: s.user_eclipse_token_ata,
        user_stake_token_ata: s.user_stake_token_ata,
        mushi_token_vault: s.mushi_token_vault,
        eclipse_token_vault: s.eclipse_token_vault,
        eclipse_token_mushi_program_vault: account(50, M2, UPSTREAM_VAULT_OWNER, 0),
        eclipse_token_decimals: 6,
        token_vault_owner_bump: 253,
        mushi_program_vault_owner_bump: 252,
        secondary_route: route,
    }
}

fn balanced(m: &MainState) -> bool {
    m.staking_token_total_supply == m.mushi_token_amount
        && m.mushi_token_amount == m.eclipse_token_amount
}

#[test]
fn scenario_stake_then_partial_unstake() {
    let ledger = fresh_ledger();
    let mut s = stake_ctx(ledger, &[UPSTREAM], 0, 150, 150);
    stake(&mut s, StakeInput { amount: 100 }).unwrap();
    assert_eq!(s.main_state.mushi_token_amount, 100);
    assert_eq!(s.user_stake_token_ata.amount, 100);
    assert_eq!(s.user_mushi_token_ata.amount, 50);

    let mut u = unstake_ctx_after(&s, &[UPSTREAM], 0, SecondaryRoute::ReturnToUser);
    assert!(u.mushi_token_vault.amount >= 60 && u.eclipse_token_vault.amount >= 60);
    unstake(&mut u, UnstakeInput { amount: 60 }).unwrap();
    assert_eq!(u.main_state.mushi_token_amount, 40);
    assert_eq!(u.user_stake_token_ata.amount, 40);
    assert_eq!(u.user_mushi_token_ata.amount, 110);
}

#[test]
fn round_trip_restores_ledger_and_balances() {
    let ledger = fresh_ledger();
    let before = stake_ctx(ledger, &[UPSTREAM], 0, 500, 300);
    let mut s = before.clone();
    stake(&mut s, StakeInput { amount: 250 }).unwrap();
    let mut u = unstake_ctx_after(&s, &[UPSTREAM], 0, SecondaryRoute::ReturnToUser);
    unstake(&mut u, UnstakeInput { amount: 250 }).unwrap();
    assert_eq!(u.main_state.mushi_token_amount, before.main_state.mushi_token_amount);
    assert_eq!(u.main_state.eclipse_token_amount, before.main_state.eclipse_token_amount);
    assert_eq!(u.main_state.staking_token_total_supply, before.main_state.staking_token_total_supply);
    assert_eq!(u.user_mushi_token_ata.amount, 500);
    assert_eq!(u.user_eclipse_token_ata.amount, 300);
    assert_eq!(u.user_stake_token_ata.amount, 0);
    assert_eq!(u.mushi_token_vault.amount, 0);
    assert_eq!(u.eclipse_token_vault.amount, 0);
}

#[test]
fn counters_stay_balanced() {
    let ledger = fresh_ledger();
    assert!(balanced(&ledger));
    let mut s = stake_ctx(ledger, &[UPSTREAM], 0, 1000, 1000);
    stake(&mut s, StakeInput { amount: 300 }).unwrap();
    assert!(balanced(&s.main_state));
    let mut s2 = s.clone();
    stake(&mut s2, StakeInput { amount: 200 }).unwrap();
    assert!(balanced(&s2.main_state));
    assert_eq!(s2.main_state.staking_token_total_supply, 500);
    let mut u = unstake_ctx_after(&s2, &[UPSTREAM], 0, SecondaryRoute::ForwardToUpstream);
    unstake(&mut u, UnstakeInput { amount: 120 }).unwrap();
    assert!(balanced(&u.main_state));
    assert_eq!(u.main_state.eclipse_token_amount, 380);
}

#[test]
fn stake_refused_when_primary_short() {
    let ledger = fresh_ledger();
    let mut s = stake_ctx(ledger, &[UPSTREAM], 0, 99, 1000);
    let before = s.clone();
    assert_eq!(stake(&mut s, StakeInput { amount: 100 }).err(), Some(MushiStakeVaultError::InsufficientMushiTokenAmount));
    assert_eq!(s.user_mushi_token_ata.amount, before.user_mushi_token_ata.amount);
    assert_eq!(s.main_state.mushi_token_amount, 0);
    let mut exact = stake_ctx(ledger, &[UPSTREAM], 0, 100, 100);
    assert!(stake(&mut exact, StakeInput { amount: 100 }).is_ok());
    assert_eq!(exact.user_mushi_token_ata.amount, 0);
}

#[test]
fn stake_refused_when_secondary_short() {
    let ledger = fresh_ledger();
    let mut s = stake_ctx(ledger, &[UPSTREAM], 0, 100, 10);
    assert_eq!(stake(&mut s, StakeInput { amount: 11 }).err(), Some(MushiStakeVaultError::InsufficientEclipseTokenAmount));
    assert_eq!(s.user_eclipse_token_ata.amount, 10);
}

#[test]
fn stake_refused_on_overflow() {
    let mut ledger = fresh_ledger();
    ledger.mushi_token_amount = u64::MAX - 5;
    let mut s = stake_ctx(ledger, &[UPSTREAM], 0, 100, 100);
    assert_eq!(stake(&mut s, StakeInput { amount: 6 }).err(), Some(MushiStakeVaultError::ArithmeticOverflow));
    assert_eq!(s.main_state.mushi_token_amount, u64::MAX - 5);
    assert!(stake(&mut s, StakeInput { amount: 5 }).is_ok());
    assert_eq!(s.main_state.mushi_token_amount, u64::MAX);
}

#[test]
fn unstake_refused_when_vault_short() {
    let ledger = fresh_ledger();
    let mut s = stake_ctx(ledger, &[UPSTREAM], 0, 100, 100);
    stake(&mut s, StakeInput { amount: 50 }).unwrap();

    let mut u = unstake_ctx_after(&s, &[UPSTREAM], 0, SecondaryRoute::ReturnToUser);
    u.mushi_token_vault.amount = 40;
    assert_eq!(unstake(&mut u, UnstakeInput { amount: 45 }).err(), Some(MushiStakeVaultError::InsufficientMushiTokenAmount));

    let mut u = unstake_ctx_after(&s, &[UPSTREAM], 0, SecondaryRoute::ReturnToUser);
    u.eclipse_token_vault.amount = 40;
    assert_eq!(unstake(&mut u, UnstakeInput { amount: 45 }).err(), Some(MushiStakeVaultError::InsufficientEclipseTokenAmount));
    assert_eq!(u.user_mushi_token_ata.amount, 50);

    let mut u = unstake_ctx_after(&s, &[UPSTREAM], 0, SecondaryRoute::ReturnToUser);
    assert!(unstake(&mut u, UnstakeInput { amount: 50 }).is_ok());
}

#[test]
fn unstake_refused_when_receipts_short() {
    let ledger = fresh_ledger();
    let mut s = stake_ctx(ledger, &[UPSTREAM], 0, 100, 100);
    stake(&mut s, StakeInput { amount: 50 }).unwrap();
    let mut u = unstake_ctx_after(&s, &[UPSTREAM], 0, SecondaryRoute::ReturnToUser);
    u.user_stake_token_ata.amount = 10;
    assert_eq!(unstake(&mut u, UnstakeInput { amount: 20 }).err(), Some(MushiStakeVaultError::InsufficientStakeTokenAmount));
}

#[test]
fn unstake_refused_on_counter_underflow() {
    let ledger = fresh_ledger();
    let s = stake_ctx(ledger, &[UPSTREAM], 0, 100, 100);
    let mut u = unstake_ctx_after(&s, &[UPSTREAM], 0, SecondaryRoute::ReturnToUser);
    u.mushi_token_vault.amount = 10;
    u.eclipse_token_vault.amount = 10;
    u.user_stake_token_ata.amount = 10;
    assert_eq!(unstake(&mut u, UnstakeInput { amount: 5 }).err(), Some(MushiStakeVaultError::ArithmeticOverflow));
}

#[test]
fn unrelated_caller_refused() {
    let ledger = fresh_ledger();
    let mut first = stake_ctx(ledger, &[OTHER], 0, 100, 100);
    assert_eq!(stake(&mut first, StakeInput { amount: 1 }).err(), Some(MushiStakeVaultError::UnauthorizedProgramCall));
    let mut later = stake_ctx(ledger, &[UPSTREAM, OTHER, OTHER], 2, 100, 100);
    assert_eq!(stake(&mut later, StakeInput { amount: 1 }).err(), Some(MushiStakeVaultError::UnauthorizedProgramCall));
    let s = stake_ctx(ledger, &[UPSTREAM], 0, 100, 100);
    let mut u = unstake_ctx_after(&s, &[OTHER], 0, SecondaryRoute::ReturnToUser);
    assert_eq!(unstake(&mut u, UnstakeInput { amount: 0 }).err(), Some(MushiStakeVaultError::UnauthorizedProgramCall));
}

#[test]
fn caller_right_after_upstream_accepted() {
    let ledger = fresh_ledger();
    let mut s = stake_ctx(ledger, &[OTHER, UPSTREAM, OTHER], 2, 100, 100);
    assert!(stake(&mut s, StakeInput { amount: 10 }).is_ok());
    assert_eq!(s.main_state.staking_token_total_supply, 10);
}

#[test]
fn guard_checks_position() {
    let up = key(UPSTREAM);
    assert!(verify_caller(&trace(&[UPSTREAM], 0), &up).is_ok());
    assert!(verify_caller(&trace(&[UPSTREAM, OTHER], 1), &up).is_ok());
    assert_eq!(verify_caller(&trace(&[OTHER, UPSTREAM], 0), &up), Err(MushiStakeVaultError::UnauthorizedProgramCall));
    assert_eq!(verify_caller(&trace(&[UPSTREAM, OTHER, OTHER], 2), &up), Err(MushiStakeVaultError::UnauthorizedProgramCall));
}

#[test]
fn update_pool_admin_only() {
    let ledger = fresh_ledger();
    let mut ctx = UpdatePool { admin: key(OTHER), main_state: ledger };
    assert_eq!(update_pool(&mut ctx, UpdatePoolInput { mushi_program: key(OTHER) }), Err(MushiStakeVaultError::UnauthorizedAdminAction));
    assert!(ctx.main_state.mushi_program == key(UPSTREAM));
    let mut ctx = UpdatePool { admin: key(ADMIN), main_state: ledger };
    assert!(update_pool(&mut ctx, UpdatePoolInput { mushi_program: key(OTHER) }).is_ok());
    assert!(ctx.main_state.mushi_program == key(OTHER));
    assert!(ctx.main_state.admin == key(ADMIN));
    assert!(ctx.main_state.mushi_token_mint == key(M1));
}

#[test]
fn initialize_once() {
    let mut ctx = InitializeStakePool {
        admin: key(ADMIN),
        main_state: None,
        main_state_key: key(LEDGER),
        main_state_bump: 254,
        mushi_token_mint: key(M1),
        eclipse_token_mint: key(M2),
        stake_token_mint: key(RECEIPT),
        stake_token_vault: key(40),
        token_vault_owner_bump: 253,
    };
    let plan = initialize(&mut ctx, init_input()).unwrap();
    let m = ctx.main_state.unwrap();
    assert!(m.admin == key(ADMIN));
    assert!(m.mushi_program == key(UPSTREAM));
    assert!(m.stake_token_mint == key(RECEIPT));
    assert_eq!((m.mushi_token_amount, m.eclipse_token_amount, m.staking_token_total_supply), (0, 0, 0));
    assert_eq!(plan.receipt_mint.decimals, STAKE_TOKEN_DECIMALS);
    assert_eq!(plan.receipt_mint.decimals, 9);
    assert!(plan.receipt_mint.mint_authority == key(LEDGER));
    assert!(plan.receipt_mint.freeze_authority == key(LEDGER));
    assert_eq!(plan.ops.len(), 2);
    match plan.ops[0] {
        TokenOp::MintTo { to, amount, authority, .. } => {
            assert!(to == key(40));
            assert_eq!(amount, BOOTSTRAP_AMOUNT);
            assert_eq!(amount, 1_000_000_000);
            assert_eq!(authority.scope(), AuthorityScope::MainState);
            assert_eq!(authority.bump(), 254);
            assert_eq!(authority.seed(), "main_state");
        }
        _ => panic!("first instruction is not a mint"),
    }
    match plan.ops[1] {
        TokenOp::Burn { from, amount, signer: Signer::Vault(a), .. } => {
            assert!(from == key(40));
            assert_eq!(amount, 1_000_000_000);
            assert_eq!(a.seed(), "vault_owner");
            assert_eq!(a.bump(), 253);
        }
        _ => panic!("second instruction is not a vault-signed burn"),
    }
    assert_eq!(plan.metadata.name, "Mushi Stake");
    assert_eq!(plan.metadata.symbol, "MSTK");
    assert!(!plan.metadata.is_mutable);
    assert_eq!(plan.metadata.creator.share, 100);
    assert!(plan.metadata.creator.address == key(LEDGER));

    assert_eq!(initialize(&mut ctx, init_input()).err(), Some(MushiStakeVaultError::PoolAlreadyInitialized));
    assert!(ctx.main_state.unwrap().mushi_program == key(UPSTREAM));
}

#[test]
fn stake_instructions_in_order() {
    let ledger = fresh_ledger();
    let mut s = stake_ctx(ledger, &[UPSTREAM], 0, 100, 100);
    let ops = stake(&mut s, StakeInput { amount: 7 }).unwrap();
    assert_eq!(ops.len(), 3);
    match ops[0] {
        TokenOp::Transfer { from, to, amount, signer: Signer::AccountOwner, mint } => {
            assert!(from == key(20) && to == key(30) && mint == key(M1));
            assert_eq!(amount, 7);
        }
        _ => panic!("first instruction is not a user-signed transfer"),
    }
    match ops[1] {
        TokenOp::TransferChecked { from, to, amount, decimals, mint, .. } => {
            assert!(from == key(21) && to == key(31) && mint == key(M2));
            assert_eq!((amount, decimals), (7, 6));
        }
        _ => panic!("second instruction is not a checked transfer"),
    }
    match ops[2] {
        TokenOp::MintTo { to, amount, authority, mint } => {
            assert!(to == key(22) && mint == key(RECEIPT));
            assert_eq!(amount, 7);
            assert_eq!(authority.scope(), AuthorityScope::MainState);
        }
        _ => panic!("third instruction is not a mint"),
    }
}

#[test]
fn unstake_routes_secondary() {
    let ledger = fresh_ledger();
    let mut s = stake_ctx(ledger, &[UPSTREAM], 0, 100, 100);
    stake(&mut s, StakeInput { amount: 30 }).unwrap();

    let mut to_user = unstake_ctx_after(&s, &[UPSTREAM], 0, SecondaryRoute::ReturnToUser);
    let ops = unstake(&mut to_user, UnstakeInput { amount: 30 }).unwrap();
    assert_eq!(to_user.user_eclipse_token_ata.amount, 100);
    assert_eq!(to_user.eclipse_token_mushi_program_vault.amount, 0);
    match ops[1] {
        TokenOp::TransferChecked { to, signer: Signer::AccountOwner, .. } => assert!(to == key(21)),
        _ => panic!("secondary not returned to the user"),
    }
    match ops[0] {
        TokenOp::Transfer { signer: Signer::Vault(a), .. } => assert_eq!(a.scope(), AuthorityScope::VaultOwner),
        _ => panic!("primary not signed by the vault owner"),
    }
    match ops[2] {
        TokenOp::Burn { from, amount, signer: Signer::AccountOwner, .. } => {
            assert!(from == key(22));
            assert_eq!(amount, 30);
        }
        _ => panic!("receipts not burnt by the user"),
    }

    let mut forward = unstake_ctx_after(&s, &[UPSTREAM], 0, SecondaryRoute::ForwardToUpstream);
    let ops = unstake(&mut forward, UnstakeInput { amount: 30 }).unwrap();
    assert_eq!(forward.user_eclipse_token_ata.amount, 70);
    assert_eq!(forward.eclipse_token_mushi_program_vault.amount, 30);
    match ops[1] {
        TokenOp::TransferChecked { to, signer: Signer::Vault(a), .. } => {
            assert!(to == key(50));
            assert_eq!(a.scope(), AuthorityScope::UpstreamVault);
            assert_eq!(a.seed(), "vault_authority");
            assert_eq!(a.bump(), 252);
        }
        _ => panic!("secondary not forwarded upstream"),
    }
}

#[test]
fn pubkey_comparison() {
    let a = key(3);
    let mut bytes = [3u8; 32];
    assert!(a.same_key(&Pubkey::new_from_array(bytes)));
    bytes[31] = 4;
    assert!(!a.same_key(&Pubkey::new_from_array(bytes)));
    assert!(a != Pubkey::new_from_array(bytes));
    assert_eq!(a.to_bytes(), [3u8; 32]);
}

#[test]
fn error_messages() {
    assert_eq!(MushiStakeVaultError::UnauthorizedAdminAction.message(), "Only admin can perform this action");
    assert_eq!(MushiStakeVaultError::InsufficientMushiTokenAmount.message(), "Insufficient mushi token amount");
}
