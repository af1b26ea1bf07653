use anchor_lang::prelude::Pubkey;
use trap_ledgers::vault::{
    initialize_vault, stake, transfer, unstake, InitializeVault, Stake, StakeAccount,
    TokenHolding, Unstake, Vault,
};
use trap_ledgers::ErrorCode;

fn key(tag: u8) -> Pubkey {
    Pubkey::new_from_array([tag; 32])
}

#[test]
fn initialize_vault_creates_aggregate() {
    let admin = key(1);
    let mut ctx = InitializeVault {
        vault: None,
        authority: admin,
    };
    assert_eq!(initialize_vault(&mut ctx), Ok(()));
    let vault = ctx.vault.expect("vault must exist after initialize");
    assert!(vault.authority == admin);
    assert_eq!(vault.total_staked, 0);
}

#[test]
fn initialize_vault_twice_already_exists() {
    let admin = key(1);
    let mut ctx = InitializeVault {
        vault: None,
        authority: admin,
    };
    assert_eq!(initialize_vault(&mut ctx), Ok(()));
    let r = initialize_vault(&mut ctx);
    assert_eq!(r, Err(ErrorCode::AlreadyExists));
    let vault = ctx.vault.expect("first-created vault must survive");
    assert_eq!(vault.total_staked, 0);
}

#[test]
fn transfer_moves_value_or_fails_entirely() {
    let alice = key(2);
    let pool = key(9);
    let mut from = TokenHolding { owner: alice, amount: 100 };
    let mut to = TokenHolding { owner: pool, amount: 7 };

    assert_eq!(transfer(&mut from, &mut to, 40, alice), Ok(()));
    assert_eq!(from.amount, 60);
    assert_eq!(to.amount, 47);

    // Authorizing identity does not own the source holding.
    assert_eq!(transfer(&mut from, &mut to, 1, pool), Err(ErrorCode::TransferFailure));
    assert_eq!(from.amount, 60);
    assert_eq!(to.amount, 47);

    // Source does not cover the amount.
    assert_eq!(transfer(&mut from, &mut to, 61, alice), Err(ErrorCode::TransferFailure));
    assert_eq!(from.amount, 60);
    assert_eq!(to.amount, 47);

    // Destination balance would overflow.
    let mut brim = TokenHolding { owner: pool, amount: u64::MAX - 10 };
    assert_eq!(transfer(&mut from, &mut brim, 11, alice), Err(ErrorCode::TransferFailure));
    assert_eq!(from.amount, 60);
    assert_eq!(brim.amount, u64::MAX - 10);
    assert_eq!(transfer(&mut from, &mut brim, 10, alice), Ok(()));
    assert_eq!(brim.amount, u64::MAX);
}

#[test]
fn stake_moves_tokens_and_bookkeeps() {
    let admin = key(1);
    let alice = key(2);
    let pool = key(9);
    let mut ctx = Stake {
        vault: Vault { authority: admin, total_staked: 0 },
        stake_account: None,
        user_token_account: TokenHolding { owner: alice, amount: 500 },
        vault_token_account: TokenHolding { owner: pool, amount: 0 },
        user: alice,
    };
    assert_eq!(stake(&mut ctx, 200, 1_000), Ok(()));
    assert_eq!(ctx.user_token_account.amount, 300);
    assert_eq!(ctx.vault_token_account.amount, 200);
    assert_eq!(ctx.vault.total_staked, 200);
    let account = ctx.stake_account.expect("stake account created on first stake");
    assert!(account.owner == alice);
    assert_eq!(account.amount, 200);
    assert_eq!(account.last_stake_time, 1_000);
}

#[test]
fn stake_reuses_existing_account() {
    let admin = key(1);
    let alice = key(2);
    let pool = key(9);
    let mut ctx = Stake {
        vault: Vault { authority: admin, total_staked: 200 },
        stake_account: Some(StakeAccount { owner: alice, amount: 200, last_stake_time: 1_000 }),
        user_token_account: TokenHolding { owner: alice, amount: 300 },
        vault_token_account: TokenHolding { owner: pool, amount: 200 },
        user: alice,
    };
    assert_eq!(stake(&mut ctx, 50, 2_000), Ok(()));
    let account = ctx.stake_account.expect("stake account kept");
    assert_eq!(account.amount, 250);
    assert_eq!(account.last_stake_time, 2_000);
    assert_eq!(ctx.vault.total_staked, 250);
    assert_eq!(ctx.user_token_account.amount, 250);
    assert_eq!(ctx.vault_token_account.amount, 250);
}

#[test]
fn stake_failed_transfer_changes_nothing() {
    let admin = key(1);
    let alice = key(2);
    let pool = key(9);
    let mut ctx = Stake {
        vault: Vault { authority: admin, total_staked: 200 },
        stake_account: Some(StakeAccount { owner: alice, amount: 200, last_stake_time: 1_000 }),
        user_token_account: TokenHolding { owner: alice, amount: 30 },
        vault_token_account: TokenHolding { owner: pool, amount: 200 },
        user: alice,
    };
    // The user's holding does not cover the amount: the custody movement
    // fails, and no bookkeeping field may change.
    let r = stake(&mut ctx, 31, 2_000);
    assert_eq!(r, Err(ErrorCode::TransferFailure));
    assert_eq!(ctx.vault.total_staked, 200);
    assert_eq!(ctx.user_token_account.amount, 30);
    assert_eq!(ctx.vault_token_account.amount, 200);
    let account = ctx.stake_account.expect("stake account kept");
    assert_eq!(account.amount, 200);
    assert_eq!(account.last_stake_time, 1_000);
}

#[test]
fn stake_into_foreign_account_rejected() {
    let admin = key(1);
    let alice = key(2);
    let bob = key(3);
    let pool = key(9);
    let mut ctx = Stake {
        vault: Vault { authority: admin, total_staked: 200 },
        // The slot holds bob's record; alice must not be able to absorb it.
        stake_account: Some(StakeAccount { owner: bob, amount: 200, last_stake_time: 1_000 }),
        user_token_account: TokenHolding { owner: alice, amount: 500 },
        vault_token_account: TokenHolding { owner: pool, amount: 200 },
        user: alice,
    };
    let r = stake(&mut ctx, 50, 2_000);
    assert_eq!(r, Err(ErrorCode::Unauthorized));
    let account = ctx.stake_account.expect("the held record must survive");
    assert!(account.owner == bob);
    assert_eq!(account.amount, 200);
    assert_eq!(account.last_stake_time, 1_000);
    assert_eq!(ctx.vault.total_staked, 200);
    assert_eq!(ctx.user_token_account.amount, 500);
    assert_eq!(ctx.vault_token_account.amount, 200);
}

#[test]
fn unstake_lowers_stake_and_total() {
    let admin = key(1);
    let alice = key(2);
    let mut ctx = Unstake {
        vault: Vault { authority: admin, total_staked: 300 },
        stake_account: StakeAccount { owner: alice, amount: 250, last_stake_time: 1_000 },
        owner: alice,
    };
    assert_eq!(unstake(&mut ctx, 100), Ok(()));
    assert_eq!(ctx.stake_account.amount, 150);
    assert_eq!(ctx.vault.total_staked, 200);
    assert_eq!(ctx.stake_account.last_stake_time, 1_000);

    // Unstaking everything that is left is allowed (amount == held).
    assert_eq!(unstake(&mut ctx, 150), Ok(()));
    assert_eq!(ctx.stake_account.amount, 0);
    assert_eq!(ctx.vault.total_staked, 50);
}

#[test]
fn unstake_exceeding_held_amount_rejected_in_full() {
    let admin = key(1);
    let alice = key(2);
    let mut ctx = Unstake {
        vault: Vault { authority: admin, total_staked: 300 },
        stake_account: StakeAccount { owner: alice, amount: 250, last_stake_time: 1_000 },
        owner: alice,
    };
    let r = unstake(&mut ctx, 251);
    assert_eq!(r, Err(ErrorCode::InsufficientFunds));
    assert_eq!(ctx.stake_account.amount, 250);
    assert_eq!(ctx.vault.total_staked, 300);
}

#[test]
fn unstake_by_other_identity_rejected() {
    let admin = key(1);
    let alice = key(2);
    let mallory = key(3);
    let mut ctx = Unstake {
        vault: Vault { authority: admin, total_staked: 300 },
        stake_account: StakeAccount { owner: alice, amount: 250, last_stake_time: 1_000 },
        owner: mallory,
    };
    let r = unstake(&mut ctx, 10);
    assert_eq!(r, Err(ErrorCode::Unauthorized));
    assert_eq!(ctx.stake_account.amount, 250);
    assert_eq!(ctx.vault.total_staked, 300);
}

/// Replays a mixed stake/unstake history over two depositors and checks the
/// conservation invariant — the aggregate equals the sum of all per-account
/// amounts — after every single operation.
#[test]
fn conservation_across_operation_sequence() {
    let admin = key(1);
    let alice = key(2);
    let bob = key(3);
    let pool = key(9);

    let mut vault = Vault { authority: admin, total_staked: 0 };
    let mut alice_stake: Option<StakeAccount> = None;
    let mut bob_stake: Option<StakeAccount> = None;
    let mut alice_tokens = TokenHolding { owner: alice, amount: 1_000 };
    let mut bob_tokens = TokenHolding { owner: bob, amount: 400 };
    let mut pool_tokens = TokenHolding { owner: pool, amount: 0 };

    let held = |acc: &Option<StakeAccount>| acc.map_or(0u64, |a| a.amount);
    // (who stakes: true for alice, amount, stake? otherwise unstake)
    let script: [(bool, u64, bool); 7] = [
        (true, 300, true),
        (false, 400, true),
        (true, 150, false),
        (false, 399, false),
        (true, 150, true),
        (true, 400, false),
        (false, 2, false), // exceeds bob's single remaining unit: rejected
    ];
    for (is_alice, amount, is_stake) in script {
        if is_stake {
            let (tokens, account) = if is_alice {
                (&mut alice_tokens, &mut alice_stake)
            } else {
                (&mut bob_tokens, &mut bob_stake)
            };
            let mut ctx = Stake {
                vault,
                stake_account: *account,
                user_token_account: *tokens,
                vault_token_account: pool_tokens,
                user: if is_alice { alice } else { bob },
            };
            let _ = stake(&mut ctx, amount, 5);
            vault = ctx.vault;
            *account = ctx.stake_account;
            *tokens = ctx.user_token_account;
            pool_tokens = ctx.vault_token_account;
        } else {
            let (who, account) = if is_alice {
                (alice, &mut alice_stake)
            } else {
                (bob, &mut bob_stake)
            };
            if let Some(existing) = *account {
                let mut ctx = Unstake {
                    vault,
                    stake_account: existing,
                    owner: who,
                };
                let _ = unstake(&mut ctx, amount);
                vault = ctx.vault;
                *account = Some(ctx.stake_account);
            }
        }
        assert_eq!(
            vault.total_staked,
            held(&alice_stake) + held(&bob_stake),
            "conservation must hold after every operation"
        );
        // The outbound movement on unstake is deferred by design, so the
        // pooled holding always covers the bookkept total.
        assert!(pool_tokens.amount >= vault.total_staked);
    }
    assert_eq!(vault.total_staked, 301);
    assert_eq!(held(&alice_stake), 300);
    assert_eq!(held(&bob_stake), 1);
}
