//! The token-custody staking vault: one global aggregate record summing all
//! stake, one stake record per depositor, and a model of the fungible token
//! holdings that staking moves value between.
//!
//! The conservation invariant — the aggregate `total_staked` equals the sum of
//! all per-depositor amounts at all times — is stated by [`conserves`] and
//! proved to be established by initialization and preserved by every stake and
//! unstake outcome.

use vstd::prelude::*;
use anchor_lang::prelude::Pubkey;
use crate::identity::pubkey_eq;
use crate::ErrorCode;

verus! {

/// The global aggregate for staking. Created once; `total_staked` is raised
/// by every stake and lowered by every unstake.
#[derive(Clone, Copy)]
pub struct Vault {
    pub authority: Pubkey,
    /// Sum of all `StakeAccount` amounts (the conservation invariant).
    pub total_staked: u64,
}

/// One depositor's staked position; created on first stake, never deleted.
#[derive(Clone, Copy)]
pub struct StakeAccount {
    /// The depositor; only this identity may unstake from the account.
    pub owner: Pubkey,
    /// The held stake. Unsigned, so it can never be negative.
    pub amount: u64,
    /// Timestamp of the most recent stake into this account.
    pub last_stake_time: i64,
}

/// A fungible token holding kept by the token-custody collaborator: the
/// balance of one account, and the identity that may move value out of it.
#[derive(Clone, Copy)]
pub struct TokenHolding {
    pub owner: Pubkey,
    pub amount: u64,
}

/// The token-custody collaborator's one operation: atomically move `amount`
/// units from one holding to another, or fail with no partial movement. The
/// movement completes exactly when the authorizing identity owns the source
/// holding, the source covers the amount, and the destination balance does
/// not overflow; any other request fails with `TransferFailure` and leaves
/// both holdings unchanged.
pub fn transfer(
    from: &mut TokenHolding,
    to: &mut TokenHolding,
    amount: u64,
    authorizing: Pubkey,
) -> (r: Result<(), ErrorCode>)
    ensures
        r is Ok <==> old(from).owner == authorizing
            && old(from).amount >= amount
            && old(to).amount + amount <= u64::MAX,
        r is Err ==> *final(from) == *old(from)
            && *final(to) == *old(to)
            && r == Err::<(), ErrorCode>(ErrorCode::TransferFailure),
        r is Ok ==> *final(from) == (TokenHolding {
            owner: old(from).owner,
            amount: (old(from).amount - amount) as u64,
        }),
        r is Ok ==> *final(to) == (TokenHolding {
            owner: old(to).owner,
            amount: (old(to).amount + amount) as u64,
        }),
{
    if !pubkey_eq(&from.owner, &authorizing) {
        return Err(ErrorCode::TransferFailure);
    }
    if from.amount < amount {
        return Err(ErrorCode::TransferFailure);
    }
    if to.amount > u64::MAX - amount {
        return Err(ErrorCode::TransferFailure);
    }
    from.amount = from.amount - amount;
    to.amount = to.amount + amount;
    Ok(())
}

/// Records touched by `initialize_vault`: the slot where the aggregate is to
/// be created, and the verified identity of the caller.
pub struct InitializeVault {
    /// `None` while the aggregate's address is uninitialized.
    pub vault: Option<Vault>,
    pub authority: Pubkey,
}

/// Creates the `Vault` aggregate with the caller as authority and zero total
/// stake. Fails with `AlreadyExists`, changing nothing, if the aggregate has
/// already been created.
pub fn initialize_vault(ctx: &mut InitializeVault) -> (r: Result<(), ErrorCode>)
    ensures
        r is Ok <==> old(ctx).vault is None,
        r is Err ==> *final(ctx) == *old(ctx) && r == Err::<(), ErrorCode>(ErrorCode::AlreadyExists),
        r is Ok ==> final(ctx).vault == (Some(Vault {
            authority: old(ctx).authority,
            total_staked: 0,
        })),
        final(ctx).authority == old(ctx).authority,
{
    if ctx.vault.is_some() {
        return Err(ErrorCode::AlreadyExists);
    }
    ctx.vault = Some(Vault { authority: ctx.authority, total_staked: 0 });
    Ok(())
}

/// The stake a depositor's record slot currently holds: the account's amount,
/// or 0 while no account exists yet.
pub open spec fn held_amount(account: Option<StakeAccount>) -> int {
    match account {
        Some(a) => a.amount as int,
        None => 0,
    }
}

/// Records touched by `stake`: the aggregate, the depositor's stake-record
/// slot (`None` before the first stake), the depositor's and the vault's
/// token holdings, and the verified identity of the depositor.
pub struct Stake {
    pub vault: Vault,
    pub stake_account: Option<StakeAccount>,
    pub user_token_account: TokenHolding,
    pub vault_token_account: TokenHolding,
    pub user: Pubkey,
}

/// Moves `amount` of fungible value from the depositor's holding into the
/// vault's pooled holding, then — only if that movement completed — creates
/// or tops up the depositor's stake record and raises the aggregate by the
/// same amount, as one atomic unit. If the movement fails, the whole
/// transition fails with `TransferFailure` and no record changes at all.
///
/// A stake record is the depositor's own: when the slot already holds an
/// account recorded to a different owner, the transition is rejected with
/// `Unauthorized` before any value moves — staking must never reattribute a
/// previously held balance.
pub fn stake(ctx: &mut Stake, amount: u64, now: i64) -> (r: Result<(), ErrorCode>)
    requires
        old(ctx).vault.total_staked + amount <= u64::MAX,
        held_amount(old(ctx).stake_account) + amount <= u64::MAX,
    ensures
        r is Ok <==> (old(ctx).stake_account matches Some(a) ==> a.owner == old(ctx).user)
            && old(ctx).user_token_account.owner == old(ctx).user
            && old(ctx).user_token_account.amount >= amount
            && old(ctx).vault_token_account.amount + amount <= u64::MAX,
        r is Err ==> *final(ctx) == *old(ctx),
        old(ctx).stake_account matches Some(a) && a.owner != old(ctx).user ==>
            r == Err::<(), ErrorCode>(ErrorCode::Unauthorized),
        (old(ctx).stake_account matches Some(a) ==> a.owner == old(ctx).user) && r is Err ==>
            r == Err::<(), ErrorCode>(ErrorCode::TransferFailure),
        r is Ok ==> final(ctx).user_token_account == (TokenHolding {
            owner: old(ctx).user_token_account.owner,
            amount: (old(ctx).user_token_account.amount - amount) as u64,
        }),
        r is Ok ==> final(ctx).vault_token_account == (TokenHolding {
            owner: old(ctx).vault_token_account.owner,
            amount: (old(ctx).vault_token_account.amount + amount) as u64,
        }),
        r is Ok ==> final(ctx).stake_account == (Some(StakeAccount {
            owner: old(ctx).user,
            amount: (held_amount(old(ctx).stake_account) + amount) as u64,
            last_stake_time: now,
        })),
        r is Ok ==> final(ctx).vault == (Vault {
            authority: old(ctx).vault.authority,
            total_staked: (old(ctx).vault.total_staked + amount) as u64,
        }),
        final(ctx).user == old(ctx).user,
{
    match &ctx.stake_account {
        Some(account) => {
            if !pubkey_eq(&account.owner, &ctx.user) {
                return Err(ErrorCode::Unauthorized);
            }
        }
        None => {}
    }
    let moved = transfer(
        &mut ctx.user_token_account,
        &mut ctx.vault_token_account,
        amount,
        ctx.user,
    );
    match moved {
        Err(e) => Err(e),
        Ok(()) => {
            let held: u64 = match &ctx.stake_account {
                Some(a) => a.amount,
                None => 0,
            };
            ctx.stake_account = Some(StakeAccount {
                owner: ctx.user,
                amount: held + amount,
                last_stake_time: now,
            });
            ctx.vault.total_staked = ctx.vault.total_staked + amount;
            Ok(())
        }
    }
}

/// Records touched by `unstake`: the aggregate, the depositor's stake record,
/// and the verified identity of the caller.
pub struct Unstake {
    pub vault: Vault,
    pub stake_account: StakeAccount,
    /// The verified identity of the caller; must be the account's owner.
    pub owner: Pubkey,
}

/// Lowers the depositor's stake and the aggregate by `amount`. Only the
/// account's recorded owner may unstake, and only up to the held amount: any
/// other caller is rejected with `Unauthorized`, and a request exceeding the
/// held stake is rejected in full with `InsufficientFunds` — no partial
/// withdrawal. A rejected call changes nothing.
///
/// The precondition is the conservation invariant's consequence for this one
/// account: its amount never exceeds the vault's total.
pub fn unstake(ctx: &mut Unstake, amount: u64) -> (r: Result<(), ErrorCode>)
    requires
        old(ctx).vault.total_staked >= old(ctx).stake_account.amount,
    ensures
        r is Ok <==> old(ctx).owner == old(ctx).stake_account.owner
            && old(ctx).stake_account.amount >= amount,
        r is Err ==> *final(ctx) == *old(ctx),
        old(ctx).owner != old(ctx).stake_account.owner ==>
            r == Err::<(), ErrorCode>(ErrorCode::Unauthorized),
        old(ctx).owner == old(ctx).stake_account.owner
            && old(ctx).stake_account.amount < amount ==>
            r == Err::<(), ErrorCode>(ErrorCode::InsufficientFunds),
        r is Ok ==> final(ctx).stake_account == (StakeAccount {
            owner: old(ctx).stake_account.owner,
            amount: (old(ctx).stake_account.amount - amount) as u64,
            last_stake_time: old(ctx).stake_account.last_stake_time,
        }),
        r is Ok ==> final(ctx).vault == (Vault {
            authority: old(ctx).vault.authority,
            total_staked: (old(ctx).vault.total_staked - amount) as u64,
        }),
        final(ctx).owner == old(ctx).owner,
{
    if !pubkey_eq(&ctx.owner, &ctx.stake_account.owner) {
        return Err(ErrorCode::Unauthorized);
    }
    if ctx.stake_account.amount < amount {
        return Err(ErrorCode::InsufficientFunds);
    }
    ctx.stake_account.amount = ctx.stake_account.amount - amount;
    ctx.vault.total_staked = ctx.vault.total_staked - amount;
    Ok(())
}

/// Sum of the amounts held by a collection of stake accounts.
pub open spec fn total_held(accounts: Seq<StakeAccount>) -> int
    decreases accounts.len(),
{
    if accounts.len() == 0 {
        0
    } else {
        total_held(accounts.drop_last()) + accounts.last().amount
    }
}

/// The conservation invariant: the vault aggregate equals the sum of all
/// per-depositor stake amounts.
pub open spec fn conserves(vault: Vault, accounts: Seq<StakeAccount>) -> bool {
    vault.total_staked == total_held(accounts)
}

/// Conservation law, initialization: the vault that `initialize_vault`
/// creates (total 0) together with the then-empty set of stake accounts
/// satisfies the conservation invariant.
pub proof fn lemma_conservation_init(vault: Vault)
    requires
        vault.total_staked == 0,
    ensures
        conserves(vault, Seq::<StakeAccount>::empty()),
{
}

/// Updating one account changes the sum by the difference at that position.
proof fn lemma_total_held_update(accounts: Seq<StakeAccount>, i: int, account: StakeAccount)
    requires
        0 <= i < accounts.len(),
    ensures
        total_held(accounts.update(i, account))
            == total_held(accounts) - accounts[i].amount + account.amount,
    decreases accounts.len(),
{
    let updated = accounts.update(i, account);
    if i == accounts.len() - 1 {
        assert(updated.drop_last() =~= accounts.drop_last());
        assert(updated.last() == account);
    } else {
        assert(updated.drop_last() =~= accounts.drop_last().update(i, account));
        assert(updated.last() == accounts.last());
        lemma_total_held_update(accounts.drop_last(), i, account);
    }
}

/// Conservation law, first stake: a successful first stake appends the newly
/// created account and raises the aggregate by exactly the new account's
/// amount (what `stake` ensures when the record slot was empty), so the
/// invariant is preserved.
pub proof fn lemma_conservation_stake_new(
    old_vault: Vault,
    new_vault: Vault,
    accounts: Seq<StakeAccount>,
    account: StakeAccount,
)
    requires
        conserves(old_vault, accounts),
        new_vault.total_staked == old_vault.total_staked + account.amount,
    ensures
        conserves(new_vault, accounts.push(account)),
{
    assert(accounts.push(account).drop_last() =~= accounts);
    assert(accounts.push(account).last() == account);
}

/// One step of the vault's bookkeeping history, as the `ensures` of `stake`
/// and `unstake` describe the possible outcomes of one transition:
/// - a successful first stake appends a new account and raises the aggregate
///   by that account's amount;
/// - a successful stake into, or unstake from, an existing account replaces
///   that one account and moves the aggregate by the change in its amount;
/// - a rejected transition changes nothing.
pub open spec fn vault_step(
    v0: Vault,
    a0: Seq<StakeAccount>,
    v1: Vault,
    a1: Seq<StakeAccount>,
) -> bool {
    ||| (exists|acc: StakeAccount|
            a1 == #[trigger] a0.push(acc) && v1.total_staked == v0.total_staked + acc.amount)
    ||| (exists|i: int, acc: StakeAccount|
            0 <= i < a0.len() && a1 == #[trigger] a0.update(i, acc)
                && v1.total_staked == v0.total_staked - a0[i].amount + acc.amount)
    ||| (a1 == a0 && v1.total_staked == v0.total_staked)
}

/// Conservation law over whole histories: for any sequence of vault states
/// and stake-account sets that starts from the initialized state (total 0, no
/// accounts) and in which every step is a stake or unstake outcome
/// (`vault_step`), every state of the history satisfies the conservation
/// invariant — `total_staked` always equals the sum of all stake-account
/// amounts.
pub proof fn lemma_conservation_sequence(vaults: Seq<Vault>, accounts: Seq<Seq<StakeAccount>>)
    requires
        vaults.len() == accounts.len(),
        vaults.len() >= 1,
        vaults[0].total_staked == 0,
        accounts[0] == Seq::<StakeAccount>::empty(),
        forall|k: int| 0 <= k < vaults.len() - 1 ==>
            #[trigger] vault_step(vaults[k], accounts[k], vaults[k + 1], accounts[k + 1]),
    ensures
        forall|k: int| 0 <= k < vaults.len() ==> #[trigger] conserves(vaults[k], accounts[k]),
    decreases vaults.len(),
{
    let n = vaults.len() as int;
    if n >= 2 {
        let pv = vaults.drop_last();
        let pa = accounts.drop_last();
        assert forall|k: int| 0 <= k < pv.len() - 1 implies
            #[trigger] vault_step(pv[k], pa[k], pv[k + 1], pa[k + 1]) by {
            assert(vault_step(vaults[k], accounts[k], vaults[k + 1], accounts[k + 1]));
        }
        lemma_conservation_sequence(pv, pa);
        let v0 = vaults[n - 2];
        let a0 = accounts[n - 2];
        let v1 = vaults[n - 1];
        let a1 = accounts[n - 1];
        assert(conserves(pv[n - 2], pa[n - 2]));
        assert(vault_step(vaults[n - 2], accounts[n - 2], vaults[n - 2 + 1], accounts[n - 2 + 1]));
        assert(vault_step(v0, a0, v1, a1));
        if exists|acc: StakeAccount|
            a1 == #[trigger] a0.push(acc) && v1.total_staked == v0.total_staked + acc.amount {
            let acc = choose|acc: StakeAccount|
                a1 == #[trigger] a0.push(acc) && v1.total_staked == v0.total_staked + acc.amount;
            lemma_conservation_stake_new(v0, v1, a0, acc);
        } else if exists|i: int, acc: StakeAccount|
            0 <= i < a0.len() && a1 == #[trigger] a0.update(i, acc)
                && v1.total_staked == v0.total_staked - a0[i].amount + acc.amount {
            let (i, acc) = choose|i: int, acc: StakeAccount|
                0 <= i < a0.len() && a1 == #[trigger] a0.update(i, acc)
                    && v1.total_staked == v0.total_staked - a0[i].amount + acc.amount;
            lemma_conservation_update(v0, v1, a0, i, acc);
        }
        assert(conserves(v1, a1));
        assert forall|k: int| 0 <= k < vaults.len() implies
            #[trigger] conserves(vaults[k], accounts[k]) by {
            if k < n - 1 {
                assert(conserves(pv[k], pa[k]));
            }
        }
    }
}

/// Conservation law, existing account: a successful stake into — or unstake
/// from — an existing account replaces that one account and moves the
/// aggregate by exactly the change in the account's amount (what `stake` and
/// `unstake` ensure), so the invariant is preserved.
pub proof fn lemma_conservation_update(
    old_vault: Vault,
    new_vault: Vault,
    accounts: Seq<StakeAccount>,
    i: int,
    account: StakeAccount,
)
    requires
        conserves(old_vault, accounts),
        0 <= i < accounts.len(),
        new_vault.total_staked == old_vault.total_staked - accounts[i].amount + account.amount,
    ensures
        conserves(new_vault, accounts.update(i, account)),
{
    lemma_total_held_update(accounts, i, account);
}

} // verus!
