//! The contested-territory zone map: one record per zone, holding its owner,
//! defense strength and yield rate. Zones are created once per id (the
//! substrate derives the record's address deterministically from the id, so a
//! second creation for the same id finds the slot occupied) and are then
//! perpetually contestable through `attack_zone`.

use vstd::prelude::*;
use anchor_lang::prelude::Pubkey;
use crate::ErrorCode;

verus! {

/// The yield rate every zone starts with.
pub const BASE_YIELD_RATE: u64 = 10;

/// The defense a zone is reset to when captured: the new owner's starting
/// fortification, deliberately not zero.
pub const CAPTURE_BASELINE_DEFENSE: u64 = 50;

/// One contestable territory record.
#[derive(Clone, Copy)]
pub struct Zone {
    /// The stable id the record's address is derived from.
    pub id: u8,
    /// The identity currently holding the zone.
    pub owner: Pubkey,
    /// Remaining defense strength; unsigned, so never negative.
    pub defense: u64,
    pub yield_rate: u64,
}

/// Records touched by `initialize_zone`: the slot at the address derived
/// from the zone id, and the verified identity of the initializer.
pub struct InitializeZone {
    /// `None` while no zone exists for this id.
    pub zone: Option<Zone>,
    pub authority: Pubkey,
}

/// Creates the zone record for `zone_id` with the caller as first owner, the
/// given starting defense, and the base yield rate. Fails with
/// `AlreadyExists`, changing nothing, if a zone was already created for this
/// id.
pub fn initialize_zone(ctx: &mut InitializeZone, zone_id: u8, defense: u64) -> (r: Result<(), ErrorCode>)
    ensures
        r is Ok <==> old(ctx).zone is None,
        r is Err ==> *final(ctx) == *old(ctx) && r == Err::<(), ErrorCode>(ErrorCode::AlreadyExists),
        r is Ok ==> final(ctx).zone == (Some(Zone {
            id: zone_id,
            owner: old(ctx).authority,
            defense,
            yield_rate: BASE_YIELD_RATE,
        })),
        final(ctx).authority == old(ctx).authority,
{
    if ctx.zone.is_some() {
        return Err(ErrorCode::AlreadyExists);
    }
    ctx.zone = Some(Zone {
        id: zone_id,
        owner: ctx.authority,
        defense,
        yield_rate: BASE_YIELD_RATE,
    });
    Ok(())
}

/// The zone state machine's transition function: with defense strictly above
/// the attack power the zone holds, losing that much defense; otherwise it is
/// captured — the attacker becomes owner and defense resets to the capture
/// baseline. Id and yield rate never change.
pub open spec fn attack_outcome(zone: Zone, attacker: Pubkey, attack_power: u64) -> Zone {
    if zone.defense > attack_power {
        Zone {
            id: zone.id,
            owner: zone.owner,
            defense: (zone.defense - attack_power) as u64,
            yield_rate: zone.yield_rate,
        }
    } else {
        Zone {
            id: zone.id,
            owner: attacker,
            defense: CAPTURE_BASELINE_DEFENSE,
            yield_rate: zone.yield_rate,
        }
    }
}

/// Records touched by `attack_zone`: the zone under attack and the verified
/// identity of the attacker.
pub struct AttackZone {
    pub zone: Zone,
    pub attacker: Pubkey,
}

/// Resolves one attack. The outcome is exactly `attack_outcome` of the prior
/// zone state, the attacker and the attack power — a pure function of those
/// three values, so the state machine is deterministic. An attack never
/// fails: either the defense absorbs it or the zone changes hands.
pub fn attack_zone(ctx: &mut AttackZone, attack_power: u64) -> (r: Result<(), ErrorCode>)
    ensures
        r is Ok,
        final(ctx).zone == attack_outcome(old(ctx).zone, old(ctx).attacker, attack_power),
        final(ctx).attacker == old(ctx).attacker,
{
    if ctx.zone.defense > attack_power {
        ctx.zone.defense = ctx.zone.defense - attack_power;
    } else {
        ctx.zone.defense = CAPTURE_BASELINE_DEFENSE;
        ctx.zone.owner = ctx.attacker;
    }
    Ok(())
}

} // verus!
