//! The player-leaderboard ledger: one global aggregate record that counts
//! registered players, and one profile record per player.
//!
//! The substrate hands each transition the records it touches (`None` for a
//! record slot whose address is not yet initialized), the verified identity of
//! the caller, and the current timestamp.

use vstd::prelude::*;
use anchor_lang::prelude::Pubkey;
use crate::identity::pubkey_eq;
use crate::ErrorCode;

verus! {

/// Number of defined trap categories; a profile's `trap_type` must be below it.
pub const TRAP_TYPE_COUNT: u8 = 4;

/// The global aggregate for the player ledger. Created once; `total_players`
/// counts every profile ever created and is never decremented.
#[derive(Clone, Copy)]
pub struct Leaderboard {
    /// The only identity allowed to overwrite players' scores.
    pub authority: Pubkey,
    /// Number of `PlayerProfile` records ever created.
    pub total_players: u64,
}

/// One player's game-state snapshot; one record per player identity.
#[derive(Clone, Copy)]
pub struct PlayerProfile {
    /// The player's own identity.
    pub authority: Pubkey,
    /// Category of the player's trap, in `0 .. TRAP_TYPE_COUNT`.
    pub trap_type: u8,
    pub score: u64,
    /// Timestamp of the most recent mutation of this profile.
    pub last_active: i64,
    /// Reserved for an external ranking pass; never computed here.
    pub rank: u64,
}

/// Records touched by `initialize`: the slot where the aggregate is to be
/// created, and the verified identity of the caller.
pub struct Initialize {
    /// `None` while the aggregate's address is uninitialized.
    pub leaderboard: Option<Leaderboard>,
    pub authority: Pubkey,
}

/// Creates the `Leaderboard` aggregate with the caller as authority and a
/// player count of zero. Fails with `AlreadyExists`, changing nothing, if the
/// aggregate has already been created.
pub fn initialize(ctx: &mut Initialize) -> (r: Result<(), ErrorCode>)
    ensures
        r is Ok <==> old(ctx).leaderboard is None,
        r is Err ==> *final(ctx) == *old(ctx) && r == Err::<(), ErrorCode>(ErrorCode::AlreadyExists),
        r is Ok ==> final(ctx).leaderboard == (Some(Leaderboard {
            authority: old(ctx).authority,
            total_players: 0,
        })),
        final(ctx).authority == old(ctx).authority,
{
    if ctx.leaderboard.is_some() {
        return Err(ErrorCode::AlreadyExists);
    }
    ctx.leaderboard = Some(Leaderboard { authority: ctx.authority, total_players: 0 });
    Ok(())
}

/// Records touched by `register_player`: the slot for the new profile, the
/// aggregate, and the verified identity of the registering player.
pub struct RegisterPlayer {
    /// `None` while no profile exists for this player's derived address.
    pub player_profile: Option<PlayerProfile>,
    pub leaderboard: Leaderboard,
    pub player: Pubkey,
}

/// Creates the calling player's profile (score 0, rank 0, the given trap
/// category, `last_active = now`) and increments the aggregate player count.
/// Rejects a trap category outside the defined range with `InvalidArgument`,
/// and a second registration for the same player with `AlreadyExists`; a
/// rejected call changes nothing.
pub fn register_player(ctx: &mut RegisterPlayer, trap_type: u8, now: i64) -> (r: Result<(), ErrorCode>)
    requires
        old(ctx).leaderboard.total_players < u64::MAX,
    ensures
        r is Ok <==> trap_type < TRAP_TYPE_COUNT && old(ctx).player_profile is None,
        r is Err ==> *final(ctx) == *old(ctx),
        trap_type >= TRAP_TYPE_COUNT ==> r == Err::<(), ErrorCode>(ErrorCode::InvalidArgument),
        trap_type < TRAP_TYPE_COUNT && old(ctx).player_profile is Some ==>
            r == Err::<(), ErrorCode>(ErrorCode::AlreadyExists),
        r is Ok ==> final(ctx).player_profile == (Some(PlayerProfile {
            authority: old(ctx).player,
            trap_type,
            score: 0,
            last_active: now,
            rank: 0,
        })),
        r is Ok ==> final(ctx).leaderboard == (Leaderboard {
            authority: old(ctx).leaderboard.authority,
            total_players: (old(ctx).leaderboard.total_players + 1) as u64,
        }),
        final(ctx).player == old(ctx).player,
{
    if trap_type >= TRAP_TYPE_COUNT {
        return Err(ErrorCode::InvalidArgument);
    }
    if ctx.player_profile.is_some() {
        return Err(ErrorCode::AlreadyExists);
    }
    ctx.player_profile = Some(PlayerProfile {
        authority: ctx.player,
        trap_type,
        score: 0,
        last_active: now,
        rank: 0,
    });
    ctx.leaderboard.total_players = ctx.leaderboard.total_players + 1;
    Ok(())
}

/// Records touched by `update_score`: the profile being rewritten, the
/// aggregate holding the designated authority, and the verified identity of
/// the caller.
pub struct UpdateScore {
    pub player_profile: PlayerProfile,
    pub leaderboard: Leaderboard,
    pub authority: Pubkey,
}

/// Overwrites the profile's score and refreshes `last_active`. Only the
/// identity recorded as the leaderboard's authority may do this, for any
/// player's profile; any other caller is rejected with `Unauthorized` and
/// changes nothing.
pub fn update_score(ctx: &mut UpdateScore, new_score: u64, now: i64) -> (r: Result<(), ErrorCode>)
    ensures
        r is Ok <==> old(ctx).authority == old(ctx).leaderboard.authority,
        r is Err ==> *final(ctx) == *old(ctx) && r == Err::<(), ErrorCode>(ErrorCode::Unauthorized),
        r is Ok ==> final(ctx).player_profile == (PlayerProfile {
            authority: old(ctx).player_profile.authority,
            trap_type: old(ctx).player_profile.trap_type,
            score: new_score,
            last_active: now,
            rank: old(ctx).player_profile.rank,
        }),
        final(ctx).leaderboard == old(ctx).leaderboard,
        final(ctx).authority == old(ctx).authority,
{
    if !pubkey_eq(&ctx.authority, &ctx.leaderboard.authority) {
        return Err(ErrorCode::Unauthorized);
    }
    ctx.player_profile.score = new_score;
    ctx.player_profile.last_active = now;
    Ok(())
}

/// Number of successful registrations in a sequence of attempt outcomes
/// (`true` for a registration that succeeded).
pub open spec fn successful_registrations(outcomes: Seq<bool>) -> int
    decreases outcomes.len(),
{
    if outcomes.len() == 0 {
        0
    } else {
        successful_registrations(outcomes.drop_last()) + (if outcomes.last() { 1int } else { 0int })
    }
}

/// From per-step monotonicity of a trace to monotonicity between any two
/// points of it.
proof fn lemma_monotone_steps(totals: Seq<u64>)
    requires
        forall|k: int| 0 <= k < totals.len() - 1 ==> #[trigger] totals[k] <= totals[k + 1],
    ensures
        forall|i: int, j: int| 0 <= i <= j < totals.len() ==> #[trigger] totals[i] <= #[trigger] totals[j],
    decreases totals.len(),
{
    if totals.len() >= 2 {
        let prefix = totals.drop_last();
        assert forall|k: int| 0 <= k < prefix.len() - 1 implies #[trigger] prefix[k] <= prefix[k + 1] by {
            assert(prefix[k] == totals[k]);
            assert(prefix[k + 1] == totals[k + 1]);
        }
        lemma_monotone_steps(prefix);
        assert forall|i: int, j: int| 0 <= i <= j < totals.len() implies #[trigger] totals[i] <= #[trigger] totals[j] by {
            if j < totals.len() - 1 {
                assert(prefix[i] <= prefix[j]);
            } else if i < j {
                assert(prefix[i] <= prefix[j - 1]);
            }
        }
    }
}

/// Monotonic count law. Consider any trace of the aggregate's `total_players`
/// value: it starts at 0 (what `initialize` writes), and each step either
/// leaves it unchanged (a failed registration) or raises it by exactly 1 (a
/// successful one), which is what `register_player` ensures. Then the final
/// count equals the number of successful registrations, and the count never
/// decreases anywhere along the trace.
pub proof fn lemma_total_players_counts_registrations(totals: Seq<u64>, outcomes: Seq<bool>)
    requires
        totals.len() == outcomes.len() + 1,
        totals[0] == 0,
        forall|k: int| 0 <= k < outcomes.len() ==>
            totals[k + 1] == totals[k] + (if outcomes[k] { 1int } else { 0int }),
    ensures
        totals.last() == successful_registrations(outcomes),
        forall|i: int, j: int| 0 <= i <= j < totals.len() ==> #[trigger] totals[i] <= #[trigger] totals[j],
    decreases outcomes.len(),
{
    if outcomes.len() == 0 {
        assert(totals.last() == totals[0]);
    } else {
        let prev_totals = totals.drop_last();
        let prev_outcomes = outcomes.drop_last();
        assert forall|k: int| 0 <= k < prev_outcomes.len() implies
            #[trigger] prev_totals[k + 1] == prev_totals[k] + (if prev_outcomes[k] { 1int } else { 0int }) by {
            assert(prev_totals[k] == totals[k]);
            assert(prev_totals[k + 1] == totals[k + 1]);
            assert(prev_outcomes[k] == outcomes[k]);
        }
        lemma_total_players_counts_registrations(prev_totals, prev_outcomes);
        assert(prev_totals.last() == totals[totals.len() - 2]);
        assert(totals.last() ==
            totals[totals.len() - 2] + (if outcomes.last() { 1int } else { 0int }));
    }
    assert forall|k: int| 0 <= k < totals.len() - 1 implies #[trigger] totals[k] <= totals[k + 1] by {
        assert(totals[k + 1] == totals[k] + (if outcomes[k] { 1int } else { 0int }));
    }
    lemma_monotone_steps(totals);
}

} // verus!
