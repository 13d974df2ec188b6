use vstd::prelude::*;

use crate::boat::{Boat, Object};
use crate::kinds::{AttackSet, PartSet};
use crate::rng::next_draw;

verus! {

/// Wood spent per health point, and mineral per shield point, on repair.
pub const REPAIR_COST: i64 = 5;

/// Texture of the first enemy boat.
pub const FIRST_ENEMY_TEXTURE: usize = 11;

/// Textures of the two skins a new enemy is drawn with.
pub const LIGHT_SHIP_TEXTURE: usize = 19;

pub const DARK_SHIP_TEXTURE: usize = 22;

/// An enemy texture plus this shift is the same hull facing the other way,
/// as the player's boat faces.
pub const UPGRADE_TEXTURE_SHIFT: usize = 2;

/// Where the enemy boat stands in combat.
pub const ENEMY_COMBAT_X: i64 = 10;

pub const ENEMY_COMBAT_Y: i64 = 4;

/// Pixel offset of a small boat's sprite.
pub const BOAT_OFFSET_X: i64 = 0;

pub const BOAT_OFFSET_Y: i64 = 30;

/// Pixel offset of a large ship's sprite.
pub const LARGE_BOAT_OFFSET_X: i64 = -200;

pub const LARGE_BOAT_OFFSET_Y: i64 = -200;

/// Ranges of a new enemy's stats: health in `[5, 17]`, shield in `[0, 7]`,
/// wood in `[0, 40]`, mineral in `[0, 15]`.
pub const ENEMY_MIN_HEALTH: u64 = 5;

pub const ENEMY_HEALTH_SPAN: u64 = 13;

pub const ENEMY_SHIELD_SPAN: u64 = 8;

pub const ENEMY_WOOD_SPAN: u64 = 41;

pub const ENEMY_MINERAL_SPAN: u64 = 16;

/// The draws a new enemy is made from, one per independent choice.
#[derive(Clone, Copy, Debug, PartialEq, Eq, Structural)]
pub struct EnemyRolls {
    pub health: u64,
    pub shield: u64,
    pub wood: u64,
    pub mineral: u64,
    pub repertoire: u64,
    pub layout: u64,
    pub skin: u64,
}

/// The player after taking the defeated enemy's resources.
pub open spec fn with_reward(player: Boat, enemy: Boat) -> Boat {
    Boat {
        wood: (player.wood + enemy.wood) as i64,
        mineral: (player.mineral + enemy.mineral) as i64,
        ..player
    }
}

/// Whether the reward for `enemy` fits in the player's counters.
pub open spec fn reward_fits(player: Boat, enemy: Boat) -> bool {
    &&& player.wood + enemy.wood <= i64::MAX
    &&& player.mineral + enemy.mineral <= i64::MAX
}

/// The player's sprite after taking over the enemy's hull.
pub open spec fn upgraded_sprite(mine: Option<Object>, theirs: Option<Object>) -> Option<Object> {
    match (mine, theirs) {
        (Some(m), Some(t)) => Some(
            Object {
                texture_id: (t.texture_id + UPGRADE_TEXTURE_SHIFT) as usize,
                offset_x: t.offset_x,
                offset_y: t.offset_y,
                ..m
            },
        ),
        _ => mine,
    }
}

/// The player after taking over the defeated enemy's boat: half its maximum
/// health rounded up, no shield, its parts and attacks.
pub open spec fn upgraded(player: Boat, enemy: Boat) -> Boat {
    Boat {
        health: ((enemy.max_health + 1) / 2) as i64,
        max_health: enemy.max_health,
        shield: 0,
        attacks: enemy.attacks,
        enabled_attacks: enemy.attacks,
        parts: enemy.parts,
        enabled_parts: enemy.parts,
        obj: upgraded_sprite(player.obj, enemy.obj),
        ..player
    }
}

/// Health points a repair buys: as many as the wood pays for, up to the
/// missing health.
pub open spec fn health_bought(b: Boat) -> int {
    let affordable = b.wood as int / (REPAIR_COST as int);
    let missing = b.max_health - b.health;
    if affordable < missing {
        affordable
    } else {
        missing
    }
}

/// Shield points a repair buys: as many as the mineral pays for.
pub open spec fn shield_bought(b: Boat) -> int {
    b.mineral as int / (REPAIR_COST as int)
}

/// Whether a repair's shield fits in the shield counter.
pub open spec fn repair_fits(b: Boat) -> bool {
    b.shield + shield_bought(b) <= i64::MAX
}

/// The boat after a repair.
pub open spec fn repaired(b: Boat) -> Boat {
    Boat {
        health: (b.health + health_bought(b)) as i64,
        wood: (b.wood - REPAIR_COST * health_bought(b)) as i64,
        shield: (b.shield + shield_bought(b)) as i64,
        mineral: (b.mineral - REPAIR_COST * shield_bought(b)) as i64,
        ..b
    }
}

/// The attacks of a new enemy: Normal alone, or with Net, or with Harpoon.
pub open spec fn repertoire_of(roll: u64) -> AttackSet {
    AttackSet { normal: true, net: roll % 3 == 1, harpoon: roll % 3 == 2 }
}

/// The parts of a new enemy: helm, mast and one cannon, or with a second.
pub open spec fn layout_of(roll: u64) -> PartSet {
    PartSet { helm: true, mast: true, cannon1: true, cannon2: roll % 2 == 0 }
}

/// The skin of a new enemy.
pub open spec fn skin_of(roll: u64) -> usize {
    if roll % 2 == 0 {
        LIGHT_SHIP_TEXTURE
    } else {
        DARK_SHIP_TEXTURE
    }
}

/// The enemy made from `rolls`.
pub open spec fn generated_enemy(rolls: EnemyRolls) -> Boat {
    let health = (ENEMY_MIN_HEALTH + rolls.health % ENEMY_HEALTH_SPAN) as i64;
    Boat {
        health,
        max_health: health,
        shield: (rolls.shield % ENEMY_SHIELD_SPAN) as i64,
        wood: (rolls.wood % ENEMY_WOOD_SPAN) as i64,
        mineral: (rolls.mineral % ENEMY_MINERAL_SPAN) as i64,
        obj: Some(
            Object {
                texture_id: skin_of(rolls.skin),
                x: ENEMY_COMBAT_X,
                y: ENEMY_COMBAT_Y,
                offset_x: LARGE_BOAT_OFFSET_X,
                offset_y: LARGE_BOAT_OFFSET_Y,
            },
        ),
        attacks: repertoire_of(rolls.repertoire),
        enabled_attacks: repertoire_of(rolls.repertoire),
        parts: layout_of(rolls.layout),
        enabled_parts: layout_of(rolls.layout),
        skip_turns: 0,
    }
}

/// The enemy met first: a small boat with one cannon.
pub open spec fn first_enemy_spec() -> Boat {
    Boat {
        health: 3,
        max_health: 3,
        shield: 0,
        wood: 15,
        mineral: 5,
        obj: Some(
            Object {
                texture_id: FIRST_ENEMY_TEXTURE,
                x: ENEMY_COMBAT_X,
                y: ENEMY_COMBAT_Y,
                offset_x: BOAT_OFFSET_X,
                offset_y: BOAT_OFFSET_Y,
            },
        ),
        attacks: AttackSet { normal: true, net: false, harpoon: false },
        enabled_attacks: AttackSet { normal: true, net: false, harpoon: false },
        parts: PartSet { helm: true, mast: true, cannon1: true, cannon2: false },
        enabled_parts: PartSet { helm: true, mast: true, cannon1: true, cannon2: false },
        skip_turns: 0,
    }
}

/// Credits the defeated enemy's wood and mineral to the player.
pub fn collect_reward(player: &mut Boat, enemy: &Boat)
    requires
        old(player).wf(),
        enemy.wf(),
        reward_fits(*old(player), *enemy),
    ensures
        *final(player) == with_reward(*old(player), *enemy),
        final(player).wf(),
{
    player.wood = player.wood + enemy.wood;
    player.mineral = player.mineral + enemy.mineral;
}

/// Replaces the player's boat with the defeated enemy's shape.
pub fn upgrade_boat(player: &mut Boat, enemy: &Boat)
    requires
        enemy.wf(),
        enemy.obj matches Some(o) ==> o.texture_id <= usize::MAX - UPGRADE_TEXTURE_SHIFT,
    ensures
        *final(player) == upgraded(*old(player), *enemy),
{
    player.health = enemy.max_health / 2 + enemy.max_health % 2;
    player.shield = 0;
    player.max_health = enemy.max_health;
    player.attacks = enemy.attacks;
    player.enabled_attacks = enemy.attacks;
    player.parts = enemy.parts;
    player.enabled_parts = enemy.parts;
    match (player.obj, enemy.obj) {
        (Some(mine), Some(theirs)) => {
            player.obj = Some(
                Object {
                    texture_id: theirs.texture_id + UPGRADE_TEXTURE_SHIFT,
                    offset_x: theirs.offset_x,
                    offset_y: theirs.offset_y,
                    ..mine
                },
            );
        },
        _ => {},
    }
}

/// Spends wood on missing health and mineral on shield, five of each per
/// point, as far as they go.
pub fn repair_boat(player: &mut Boat)
    requires
        old(player).wf(),
        repair_fits(*old(player)),
    ensures
        *final(player) == repaired(*old(player)),
        final(player).wf(),
{
    let affordable = player.wood / REPAIR_COST;
    let missing: i128 = player.max_health as i128 - player.health as i128;
    let health_to_buy: i64 = if (affordable as i128) < missing {
        affordable
    } else {
        missing as i64
    };
    let shield_to_buy = player.mineral / REPAIR_COST;
    player.health = player.health + health_to_buy;
    player.wood = player.wood - health_to_buy * REPAIR_COST;
    player.shield = player.shield + shield_to_buy;
    player.mineral = player.mineral - shield_to_buy * REPAIR_COST;
}

/// The enemy met first.
pub fn first_enemy() -> (r: Boat)
    ensures
        r == first_enemy_spec(),
        r.wf(),
{
    let attacks = AttackSet { normal: true, net: false, harpoon: false };
    let parts = PartSet { helm: true, mast: true, cannon1: true, cannon2: false };
    Boat {
        health: 3,
        max_health: 3,
        shield: 0,
        wood: 15,
        mineral: 5,
        obj: Some(
            Object {
                texture_id: FIRST_ENEMY_TEXTURE,
                x: ENEMY_COMBAT_X,
                y: ENEMY_COMBAT_Y,
                offset_x: BOAT_OFFSET_X,
                offset_y: BOAT_OFFSET_Y,
            },
        ),
        attacks,
        enabled_attacks: attacks,
        parts,
        enabled_parts: parts,
        skip_turns: 0,
    }
}

/// Makes the next enemy from the given draws.
pub fn generate_enemy_from_rolls(rolls: &EnemyRolls) -> (r: Boat)
    ensures
        r == generated_enemy(*rolls),
        r.wf(),
{
    let health = (ENEMY_MIN_HEALTH + rolls.health % ENEMY_HEALTH_SPAN) as i64;
    let shield = (rolls.shield % ENEMY_SHIELD_SPAN) as i64;
    let wood = (rolls.wood % ENEMY_WOOD_SPAN) as i64;
    let mineral = (rolls.mineral % ENEMY_MINERAL_SPAN) as i64;
    let attacks = AttackSet {
        normal: true,
        net: rolls.repertoire % 3 == 1,
        harpoon: rolls.repertoire % 3 == 2,
    };
    let parts = PartSet { helm: true, mast: true, cannon1: true, cannon2: rolls.layout % 2 == 0 };
    let texture_id = if rolls.skin % 2 == 0 {
        LIGHT_SHIP_TEXTURE
    } else {
        DARK_SHIP_TEXTURE
    };
    Boat {
        health,
        max_health: health,
        shield,
        wood,
        mineral,
        obj: Some(
            Object {
                texture_id,
                x: ENEMY_COMBAT_X,
                y: ENEMY_COMBAT_Y,
                offset_x: LARGE_BOAT_OFFSET_X,
                offset_y: LARGE_BOAT_OFFSET_Y,
            },
        ),
        attacks,
        enabled_attacks: attacks,
        parts,
        enabled_parts: parts,
        skip_turns: 0,
    }
}

/// Draws the seven independent choices of a new enemy from `rng`.
pub fn roll_enemy(rng: &mut rand::rngs::StdRng) -> (r: EnemyRolls) {
    let health = next_draw(rng);
    let shield = next_draw(rng);
    let wood = next_draw(rng);
    let mineral = next_draw(rng);
    let repertoire = next_draw(rng);
    let layout = next_draw(rng);
    let skin = next_draw(rng);
    EnemyRolls { health, shield, wood, mineral, repertoire, layout, skin }
}

/// Makes the next enemy, drawing from `rng`.
pub fn generate_enemy(rng: &mut rand::rngs::StdRng) -> (r: Boat)
    ensures
        exists|rolls: EnemyRolls| r == generated_enemy(rolls),
        r.wf(),
{
    let rolls = roll_enemy(rng);
    generate_enemy_from_rolls(&rolls)
}

} // verus!
