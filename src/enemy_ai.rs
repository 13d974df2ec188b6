use vstd::prelude::*;

use crate::boat::Boat;
use crate::kinds::{AttackKind, PartKind};
use crate::rng::next_draw;

verus! {

/// An attack locked in for a round, with its target for a normal attack.
#[derive(Clone, Copy, Debug, PartialEq, Eq, Structural)]
pub struct Action {
    pub kind: AttackKind,
    pub target: Option<PartKind>,
}

/// The enemy's choice for draws `attack_draw` and `target_draw`: the attack
/// and the target are each picked by index among the members of the set.
pub open spec fn enemy_pick(player: Boat, enemy: Boat, attack_draw: u64, target_draw: u64) -> Action {
    let attacks = enemy.enabled_attacks.members();
    let parts = player.enabled_parts.members();
    Action {
        kind: attacks[(attack_draw % (attacks.len() as u64)) as int],
        target: if parts.len() == 0 {
            None
        } else {
            Some(parts[(target_draw % (parts.len() as u64)) as int])
        },
    }
}

/// The enemy boat after choosing: a netted enemy counts one skipped round
/// down.
pub open spec fn enemy_after_choice(enemy: Boat) -> Boat {
    if enemy.skip_turns > 0 {
        Boat { skip_turns: (enemy.skip_turns - 1) as u32, ..enemy }
    } else {
        enemy
    }
}

/// The enemy's action: none while it must sit out a round.
pub open spec fn enemy_choice(player: Boat, enemy: Boat, attack_draw: u64, target_draw: u64) -> Option<Action> {
    if enemy.skip_turns > 0 {
        None
    } else {
        Some(enemy_pick(player, enemy, attack_draw, target_draw))
    }
}

/// Chooses the enemy's action with the given draws. A netted enemy counts
/// one skipped round down and chooses nothing.
pub fn select_enemy_action_with_draws(
    player: &Boat,
    enemy: &mut Boat,
    attack_draw: u64,
    target_draw: u64,
) -> (r: Option<Action>)
    requires
        old(enemy).wf(),
    ensures
        *final(enemy) == enemy_after_choice(*old(enemy)),
        r == enemy_choice(*player, *old(enemy), attack_draw, target_draw),
        r matches Some(a) ==> old(enemy).enabled_attacks.has(a.kind),
        r matches Some(a) ==> (a.target matches Some(p) ==> player.enabled_parts.has(p)),
{
    if enemy.skip_turns > 0 {
        enemy.skip_turns = enemy.skip_turns - 1;
        return None;
    }
    let attacks = enemy.enabled_attacks.to_vec();
    proof {
        assert(attacks@.len() >= 1);
    }
    let kind = attacks[(attack_draw % (attacks.len() as u64)) as usize];
    let parts = player.enabled_parts.to_vec();
    let target = if parts.len() == 0 {
        None
    } else {
        Some(parts[(target_draw % (parts.len() as u64)) as usize])
    };
    proof {
        let a = kind;
        assert(enemy.enabled_attacks.members().contains(a));
        if let Some(p) = target {
            assert(player.enabled_parts.members().contains(p));
        }
    }
    Some(Action { kind, target })
}

/// Chooses the enemy's action, drawing from `rng`.
pub fn select_enemy_action(player: &Boat, enemy: &mut Boat, rng: &mut rand::rngs::StdRng) -> (r:
    Option<Action>)
    requires
        old(enemy).wf(),
    ensures
        *final(enemy) == enemy_after_choice(*old(enemy)),
        exists|attack_draw: u64, target_draw: u64|
            r == enemy_choice(*player, *old(enemy), attack_draw, target_draw),
        r matches Some(a) ==> old(enemy).enabled_attacks.has(a.kind),
        r matches Some(a) ==> (a.target matches Some(p) ==> player.enabled_parts.has(p)),
{
    let attack_draw = next_draw(rng);
    let target_draw = next_draw(rng);
    select_enemy_action_with_draws(player, enemy, attack_draw, target_draw)
}

} // verus!
