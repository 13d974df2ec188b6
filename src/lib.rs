//! Turn-based naval combat rules: boats, damage, attacks, the enemy's
//! choices, the combat turn state machine and the reward loop, with the
//! overworld's few rules beside them.

pub mod attack;
pub mod boat;
pub mod damage;
pub mod encounter;
pub mod enemy_ai;
pub mod kinds;
pub mod menu;
pub mod overworld;
pub mod progression;
mod rng;

pub use attack::{
    AttackOutcome, HARPOON_DAMAGE, MISS_PERCENT, MISS_THRESHOLD, NET_SKIP_TURNS, is_miss,
    normal_damage, resolve_attack, resolve_attack_with_roll,
};
pub use boat::{Boat, Object};
pub use damage::apply_damage;
pub use encounter::{ANIMATION_TICKS, ActionError, CombatEncounter, Phase, enter_combat};
pub use enemy_ai::{Action, select_enemy_action, select_enemy_action_with_draws};
pub use kinds::{AttackKind, AttackSet, PartKind, PartSet};
pub use menu::{Button, ButtonKind, update_menu_with_abilities};
pub use overworld::{bubble_sort, build_boat, can_walk, gather_resource, near_boat_site};
pub use progression::{
    EnemyRolls, collect_reward, first_enemy, generate_enemy, generate_enemy_from_rolls,
    repair_boat, roll_enemy, upgrade_boat,
};
