use vstd::prelude::*;

use crate::boat::Boat;
use crate::damage::apply_damage;
use crate::kinds::{AttackKind, AttackSet, PartKind, PartSet};
use crate::rng::next_byte;

verus! {

/// Percentage of attacks that miss a boat whose helm is intact.
pub const MISS_PERCENT: u32 = 55;

/// A roll below this value misses a boat whose helm is intact: the number
/// of byte values nearest to `MISS_PERCENT` percent of all 256.
pub const MISS_THRESHOLD: u8 = 141;

/// Damage of a harpoon hit, whatever the parts.
pub const HARPOON_DAMAGE: i64 = 7;

/// Rounds a netted boat sits out.
pub const NET_SKIP_TURNS: u32 = 2;

/// The largest damage one attack can deal.
pub const MAX_STRIKE: i64 = 7;

/// How an attack ended.
#[derive(Clone, Copy, Debug, PartialEq, Eq, Structural)]
pub enum AttackOutcome {
    Missed,
    Hit,
    Defeated,
}

/// Whether a roll of `roll` misses `defender`.
pub open spec fn misses(defender: Boat, roll: u8) -> bool {
    defender.enabled_parts.helm && roll < MISS_THRESHOLD
}

/// What one cannon adds to a normal attack.
pub open spec fn cannon_value(owned: bool, enabled: bool) -> int {
    if enabled {
        2
    } else if owned {
        1
    } else {
        0
    }
}

/// Base damage of the attacker's normal attack.
pub open spec fn cannon_damage(attacker: Boat) -> int {
    cannon_value(attacker.parts.cannon1, attacker.enabled_parts.cannon1) + cannon_value(
        attacker.parts.cannon2,
        attacker.enabled_parts.cannon2,
    )
}

/// Damage an attack deals on a hit. A normal attack on an intact mast deals
/// one and a half times the cannon damage, rounded down; on a mast already
/// down it deals the plain cannon damage.
pub open spec fn strike_damage(
    attacker: Boat,
    defender: Boat,
    kind: AttackKind,
    target: Option<PartKind>,
) -> int {
    match kind {
        AttackKind::Normal => if target == Some(PartKind::Mast) && defender.enabled_parts.mast {
            cannon_damage(attacker) * 3 / 2
        } else {
            cannon_damage(attacker)
        },
        AttackKind::Harpoon => HARPOON_DAMAGE as int,
        AttackKind::Net => 0,
    }
}

/// The attacks left after using `kind`: a one-shot attack is spent.
pub open spec fn attacks_after_use(enabled: AttackSet, kind: AttackKind) -> AttackSet {
    if kind.is_one_shot() {
        enabled.without(kind)
    } else {
        enabled
    }
}

/// The defender's parts after a hit: a normal attack disables its target.
pub open spec fn parts_after_hit(
    enabled: PartSet,
    kind: AttackKind,
    target: Option<PartKind>,
) -> PartSet {
    match (kind, target) {
        (AttackKind::Normal, Some(p)) => enabled.without(p),
        _ => enabled,
    }
}

/// The attacker after an attack, hit or miss.
pub open spec fn attacker_after(attacker: Boat, kind: AttackKind) -> Boat {
    Boat { enabled_attacks: attacks_after_use(attacker.enabled_attacks, kind), ..attacker }
}

/// The defender after an attack with roll `roll`.
pub open spec fn defender_after(
    attacker: Boat,
    defender: Boat,
    kind: AttackKind,
    target: Option<PartKind>,
    roll: u8,
) -> Boat {
    if misses(defender, roll) {
        defender
    } else if kind == AttackKind::Net {
        Boat { skip_turns: NET_SKIP_TURNS, ..defender }
    } else {
        Boat {
            enabled_parts: parts_after_hit(defender.enabled_parts, kind, target),
            ..defender
        }.damaged(strike_damage(attacker, defender, kind, target))
    }
}

/// How an attack with roll `roll` ends.
pub open spec fn outcome_of(
    attacker: Boat,
    defender: Boat,
    kind: AttackKind,
    target: Option<PartKind>,
    roll: u8,
) -> AttackOutcome {
    if misses(defender, roll) {
        AttackOutcome::Missed
    } else if kind == AttackKind::Net {
        AttackOutcome::Hit
    } else if defender_after(attacker, defender, kind, target, roll).health <= 0 {
        AttackOutcome::Defeated
    } else {
        AttackOutcome::Hit
    }
}

/// What an attack may be given: an attack the attacker still has, and for a
/// normal attack a target among the defender's parts, if any.
pub open spec fn attack_allowed(
    attacker: Boat,
    defender: Boat,
    kind: AttackKind,
    target: Option<PartKind>,
) -> bool {
    &&& attacker.enabled_attacks.has(kind)
    &&& (kind == AttackKind::Normal && target.is_some()) ==> defender.parts.has(target.unwrap())
}

/// A one-shot attack is spent by its use, whether it hits or misses; a
/// normal attack is never spent.
pub proof fn one_shot_spent_hit_or_miss(attacker: Boat, kind: AttackKind)
    requires
        attacker.wf(),
    ensures
        kind.is_one_shot() ==> !attacker_after(attacker, kind).enabled_attacks.has(kind),
        attacker_after(attacker, kind).enabled_attacks.has(AttackKind::Normal),
        forall|a: AttackKind|
            a != kind ==> (#[trigger] attacker_after(attacker, kind).enabled_attacks.has(a)
                == attacker.enabled_attacks.has(a)),
{
}

/// Only an intact helm makes a defender missable, and then exactly the rolls
/// below the threshold miss; the threshold is the number of byte values
/// nearest to `MISS_PERCENT` percent of all 256.
pub proof fn miss_gated_by_helm(defender: Boat, roll: u8)
    ensures
        !defender.enabled_parts.helm ==> !misses(defender, roll),
        defender.enabled_parts.helm ==> (misses(defender, roll) <==> roll < MISS_THRESHOLD),
        -50 <= (MISS_THRESHOLD as int) * 100 - (MISS_PERCENT as int) * 256 <= 50,
{
}

/// A normal attack that lands on an intact mast deals one and a half times
/// the cannon damage and brings the mast down; a second one on the fallen
/// mast leaves the parts as they are and deals the plain cannon damage.
pub proof fn mast_multiplier(attacker: Boat, defender: Boat, roll: u8, second_roll: u8)
    requires
        attacker.wf(),
        defender.wf(),
        defender.enabled_parts.mast,
        defender.health >= i64::MIN + MAX_STRIKE,
        !misses(defender, roll),
    ensures
        strike_damage(attacker, defender, AttackKind::Normal, Some(PartKind::Mast)) == cannon_damage(
            attacker,
        ) * 3 / 2,
        ({
            let after = defender_after(attacker, defender, AttackKind::Normal, Some(PartKind::Mast), roll);
            &&& !after.enabled_parts.mast
            &&& after.health == defender.health - crate::damage::hull_damage(
                defender.shield as int,
                cannon_damage(attacker) * 3 / 2,
            )
            &&& strike_damage(attacker, after, AttackKind::Normal, Some(PartKind::Mast))
                == cannon_damage(attacker)
            &&& !misses(after, second_roll) ==> defender_after(
                attacker,
                after,
                AttackKind::Normal,
                Some(PartKind::Mast),
                second_roll,
            ).enabled_parts == after.enabled_parts
        }),
{
}

/// A net that lands makes the defender sit out exactly `NET_SKIP_TURNS`
/// rounds and deals no damage.
pub proof fn net_sets_skip(attacker: Boat, defender: Boat, roll: u8)
    requires
        !misses(defender, roll),
    ensures
        defender_after(attacker, defender, AttackKind::Net, None, roll).skip_turns == 2,
        defender_after(attacker, defender, AttackKind::Net, None, roll).health == defender.health,
        defender_after(attacker, defender, AttackKind::Net, None, roll).shield == defender.shield,
{
}

/// Whether `roll` misses `defender`: only a boat with an intact helm can
/// be missed.
pub fn is_miss(defender: &Boat, roll: u8) -> (r: bool)
    ensures
        r == misses(*defender, roll),
{
    defender.enabled_parts.contains(PartKind::Helm) && roll < MISS_THRESHOLD
}

/// Base damage of the attacker's normal attack: two per working cannon, one
/// per broken one.
pub fn normal_damage(attacker: &Boat) -> (r: i64)
    ensures
        r == cannon_damage(*attacker),
        0 <= r <= 4,
{
    let mut damage: i64 = 0;
    if attacker.enabled_parts.contains(PartKind::Cannon1) {
        damage = damage + 2;
    } else if attacker.parts.contains(PartKind::Cannon1) {
        damage = damage + 1;
    }
    if attacker.enabled_parts.contains(PartKind::Cannon2) {
        damage = damage + 2;
    } else if attacker.parts.contains(PartKind::Cannon2) {
        damage = damage + 1;
    }
    damage
}

/// Resolves one attack with the given miss roll: the miss check, the part
/// hit, the net or the damage, and the use of a one-shot attack.
pub fn resolve_attack_with_roll(
    attacker: &mut Boat,
    defender: &mut Boat,
    kind: AttackKind,
    target: Option<PartKind>,
    roll: u8,
) -> (r: AttackOutcome)
    requires
        old(attacker).wf(),
        old(defender).wf(),
        attack_allowed(*old(attacker), *old(defender), kind, target),
        old(defender).health >= i64::MIN + MAX_STRIKE,
    ensures
        *final(attacker) == attacker_after(*old(attacker), kind),
        *final(defender) == defender_after(*old(attacker), *old(defender), kind, target, roll),
        r == outcome_of(*old(attacker), *old(defender), kind, target, roll),
        final(attacker).enabled_attacks == attacks_after_use(old(attacker).enabled_attacks, kind),
        final(attacker).wf(),
        final(defender).wf(),
{
    let miss = is_miss(defender, roll);
    let outcome = if miss {
        AttackOutcome::Missed
    } else {
        match kind {
            AttackKind::Net => {
                defender.skip_turns = NET_SKIP_TURNS;
                AttackOutcome::Hit
            },
            AttackKind::Harpoon => {
                if apply_damage(defender, HARPOON_DAMAGE) {
                    AttackOutcome::Defeated
                } else {
                    AttackOutcome::Hit
                }
            },
            AttackKind::Normal => {
                let mut damage = normal_damage(attacker);
                match target {
                    Some(p) => {
                        if p == PartKind::Mast && defender.enabled_parts.contains(PartKind::Mast) {
                            damage = damage * 3 / 2;
                        }
                        defender.enabled_parts.remove(p);
                    },
                    None => {},
                }
                if apply_damage(defender, damage) {
                    AttackOutcome::Defeated
                } else {
                    AttackOutcome::Hit
                }
            },
        }
    };
    if kind != AttackKind::Normal {
        attacker.enabled_attacks.remove(kind);
    }
    outcome
}

/// Resolves one attack, drawing the miss roll from `rng`.
pub fn resolve_attack(
    attacker: &mut Boat,
    defender: &mut Boat,
    kind: AttackKind,
    target: Option<PartKind>,
    rng: &mut rand::rngs::StdRng,
) -> (r: AttackOutcome)
    requires
        old(attacker).wf(),
        old(defender).wf(),
        attack_allowed(*old(attacker), *old(defender), kind, target),
        old(defender).health >= i64::MIN + MAX_STRIKE,
    ensures
        final(attacker).enabled_attacks == attacks_after_use(old(attacker).enabled_attacks, kind),
        *final(attacker) == attacker_after(*old(attacker), kind),
        exists|roll: u8|
            {
                &&& *final(defender) == defender_after(
                    *old(attacker),
                    *old(defender),
                    kind,
                    target,
                    roll,
                )
                &&& r == outcome_of(*old(attacker), *old(defender), kind, target, roll)
            },
{
    let roll = next_byte(rng);
    resolve_attack_with_roll(attacker, defender, kind, target, roll)
}

} // verus!
