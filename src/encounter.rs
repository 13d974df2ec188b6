use vstd::prelude::*;

use crate::attack::{
    attack_allowed, attacker_after, defender_after, resolve_attack_with_roll,
};
use crate::boat::{Boat, Object};
use crate::enemy_ai::{enemy_after_choice, enemy_choice, select_enemy_action_with_draws, Action};
use crate::kinds::{AttackKind, PartKind};
use crate::menu::{
    ability_button, choice_menu, choice_menu_spec, closed_menu, closed_menu_spec, idle_menu,
    idle_menu_spec, target_menu, target_menu_spec, Button, ButtonKind,
};
use crate::progression::{
    collect_reward, first_enemy, first_enemy_spec, generate_enemy_from_rolls, generated_enemy,
    repair_boat, repair_fits, repaired, reward_fits, roll_enemy, upgrade_boat, upgraded,
    with_reward, EnemyRolls, UPGRADE_TEXTURE_SHIFT,
};
use crate::overworld::{NEW_BOAT_OFFSET_X, NEW_BOAT_OFFSET_Y, NEW_BOAT_TEXTURE};
use crate::rng::{next_byte, next_draw};

verus! {

/// Ticks the shots fly before a round is resolved.
pub const ANIMATION_TICKS: u32 = 20;

/// Where the player's boat stands in combat.
pub const PLAYER_COMBAT_X: i64 = 9;

pub const PLAYER_COMBAT_Y: i64 = 12;

/// Where an encounter stands.
#[derive(Clone, Copy, Debug, PartialEq, Eq, Structural)]
pub enum Phase {
    /// The top-level menu is shown.
    Idle,
    /// The player picks the enemy part to shoot at.
    TargetSelect,
    /// Both actions are locked in and the shots fly.
    Animating,
    /// The enemy is defeated; the player keeps its boat or takes the enemy's.
    Victory,
    /// The player repairs or goes on.
    RepairChoice,
    /// The player's boat is defeated: nothing more happens.
    Defeat,
}

/// A button that the current menu does not offer was pressed.
#[derive(Clone, Copy, Debug, PartialEq, Eq, Structural)]
pub enum ActionError {
    InvalidAction,
}

/// One fight between the player's boat and an enemy boat, and the rewards
/// that follow it.
#[derive(Clone, Copy, Debug, PartialEq, Eq, Structural)]
pub struct CombatEncounter {
    pub player: Boat,
    pub enemy: Boat,
    pub phase: Phase,
    /// The player's action locked in for the round.
    pub player_action: Action,
    /// The enemy's action locked in for the round; none when it sits out.
    pub enemy_action: Option<Action>,
    /// Ticks left until the round is resolved.
    pub ticks_left: u32,
}

/// The player's sprite placed for combat.
pub open spec fn combat_sprite(obj: Option<Object>) -> Object {
    match obj {
        Some(o) => Object { x: PLAYER_COMBAT_X, y: PLAYER_COMBAT_Y, ..o },
        None => Object {
            texture_id: NEW_BOAT_TEXTURE,
            x: PLAYER_COMBAT_X,
            y: PLAYER_COMBAT_Y,
            offset_x: NEW_BOAT_OFFSET_X,
            offset_y: NEW_BOAT_OFFSET_Y,
        },
    }
}

/// The encounter that starts when the player sails out with `player`.
pub open spec fn entered(player: Boat) -> CombatEncounter {
    CombatEncounter {
        player: Boat { obj: Some(combat_sprite(player.obj)), ..player.refreshed() },
        enemy: first_enemy_spec(),
        phase: Phase::Idle,
        player_action: Action { kind: AttackKind::Normal, target: None },
        enemy_action: None,
        ticks_left: 0,
    }
}

/// The player's part of a round, as (player, enemy): a netted player sits
/// the round out and counts it down.
pub open spec fn player_turn(player: Boat, enemy: Boat, action: Action, roll: u8) -> (Boat, Boat) {
    if player.skip_turns > 0 {
        (Boat { skip_turns: (player.skip_turns - 1) as u32, ..player }, enemy)
    } else {
        (
            attacker_after(player, action.kind),
            defender_after(player, enemy, action.kind, action.target, roll),
        )
    }
}

/// The enemy's part of a round, as (player, enemy): an enemy that the
/// player's action has already beaten does not fire.
pub open spec fn enemy_turn(player: Boat, enemy: Boat, action: Option<Action>, roll: u8) -> (
    Boat,
    Boat,
) {
    match action {
        None => (player, enemy),
        Some(a) => if enemy.health <= 0 {
            (player, enemy)
        } else {
            (defender_after(enemy, player, a.kind, a.target, roll), attacker_after(enemy, a.kind))
        },
    }
}

impl CombatEncounter {
    /// Whether both boats are still fighting.
    pub open spec fn in_fight(self) -> bool {
        self.phase == Phase::Idle || self.phase == Phase::TargetSelect || self.phase
            == Phase::Animating
    }

    /// The encounter's invariant: a boat that is still fighting is afloat,
    /// and the player's boat is afloat in every phase but `Defeat`.
    pub open spec fn wf(self) -> bool {
        &&& self.player.wf()
        &&& self.enemy.wf()
        &&& self.enemy.obj matches Some(o) ==> o.texture_id <= usize::MAX - UPGRADE_TEXTURE_SHIFT
        &&& self.phase != Phase::Defeat ==> self.player.health > 0
        &&& self.in_fight() ==> self.enemy.health > 0
        &&& self.phase == Phase::Animating ==> {
            &&& 1 <= self.ticks_left <= ANIMATION_TICKS
            &&& attack_allowed(
                self.player,
                self.enemy,
                self.player_action.kind,
                self.player_action.target,
            )
            &&& self.enemy_action matches Some(a) ==> attack_allowed(
                self.enemy,
                self.player,
                a.kind,
                a.target,
            )
        }
    }

    /// The counters stay within 64 bits through the next step: the reward
    /// and a repair fit.
    pub open spec fn counters_fit(self) -> bool {
        &&& reward_fits(self.player, self.enemy)
        &&& repair_fits(self.player)
    }

    /// The buttons the current phase accepts.
    pub open spec fn offers(self, b: ButtonKind) -> bool {
        match self.phase {
            Phase::Idle => b == ButtonKind::Attack || (b matches ButtonKind::Ability(a)
                && a.is_one_shot() && self.player.enabled_attacks.has(a)),
            Phase::TargetSelect => b matches ButtonKind::Target(p) && self.enemy.parts.has(p),
            Phase::Victory => b == ButtonKind::KeepBoat || b == ButtonKind::Upgrade,
            Phase::RepairChoice => b == ButtonKind::Repair || b == ButtonKind::SkipRepair,
            _ => false,
        }
    }

    /// The menu the current phase shows.
    pub open spec fn menu_spec(self) -> Seq<Button> {
        match self.phase {
            Phase::Idle => idle_menu_spec(self.player),
            Phase::TargetSelect => target_menu_spec(self.enemy),
            Phase::Victory => choice_menu_spec(ButtonKind::KeepBoat, ButtonKind::Upgrade),
            Phase::RepairChoice => choice_menu_spec(ButtonKind::Repair, ButtonKind::SkipRepair),
            _ => closed_menu_spec(),
        }
    }

    /// Both actions locked in: the player's `action`, and the enemy's choice
    /// for the given draws. The shots start to fly.
    pub open spec fn locked_in(self, action: Action, attack_draw: u64, target_draw: u64) -> Self {
        CombatEncounter {
            phase: Phase::Animating,
            ticks_left: ANIMATION_TICKS,
            player_action: action,
            enemy: enemy_after_choice(self.enemy),
            enemy_action: enemy_choice(self.player, self.enemy, attack_draw, target_draw),
            ..self
        }
    }

    /// The next fight with `player` against the enemy made from `rolls`.
    pub open spec fn next_fight(self, player: Boat, rolls: EnemyRolls) -> Self {
        CombatEncounter {
            player: player.refreshed(),
            enemy: generated_enemy(rolls),
            phase: Phase::Idle,
            enemy_action: None,
            ticks_left: 0,
            ..self
        }
    }

    /// The encounter after pressing `b`, with the draws the step may use.
    pub open spec fn after_press(
        self,
        b: ButtonKind,
        attack_draw: u64,
        target_draw: u64,
        rolls: EnemyRolls,
    ) -> Self {
        if !self.offers(b) {
            if self.phase == Phase::TargetSelect {
                CombatEncounter { phase: Phase::Idle, ..self }
            } else {
                self
            }
        } else {
            match b {
                ButtonKind::Attack => CombatEncounter { phase: Phase::TargetSelect, ..self },
                ButtonKind::Ability(a) => self.locked_in(
                    Action { kind: a, target: None },
                    attack_draw,
                    target_draw,
                ),
                ButtonKind::Target(p) => self.locked_in(
                    Action { kind: AttackKind::Normal, target: Some(p) },
                    attack_draw,
                    target_draw,
                ),
                ButtonKind::KeepBoat => CombatEncounter { phase: Phase::RepairChoice, ..self },
                ButtonKind::Upgrade => CombatEncounter {
                    phase: Phase::RepairChoice,
                    player: upgraded(self.player, self.enemy),
                    ..self
                },
                ButtonKind::Repair => self.next_fight(repaired(self.player), rolls),
                ButtonKind::SkipRepair => self.next_fight(self.player, rolls),
                ButtonKind::Empty => self,
            }
        }
    }

    /// The round resolved with the two miss rolls: the player's action first,
    /// then the enemy's, unless the player's action beat it. A beaten enemy
    /// makes the round a victory, and its resources go to the player.
    pub open spec fn resolved(self, player_roll: u8, enemy_roll: u8) -> Self {
        let (mid_player, mid_enemy) = player_turn(self.player, self.enemy, self.player_action, player_roll);
        let (end_player, end_enemy) = enemy_turn(mid_player, mid_enemy, self.enemy_action, enemy_roll);
        if end_enemy.health <= 0 {
            CombatEncounter {
                player: with_reward(end_player, end_enemy),
                enemy: end_enemy,
                phase: Phase::Victory,
                ticks_left: 0,
                ..self
            }
        } else if end_player.health <= 0 {
            CombatEncounter { player: end_player, enemy: end_enemy, phase: Phase::Defeat, ticks_left: 0, ..self }
        } else {
            CombatEncounter { player: end_player, enemy: end_enemy, phase: Phase::Idle, ticks_left: 0, ..self }
        }
    }

    /// The encounter after one tick: the shots fly on, and land on the last
    /// tick.
    pub open spec fn after_tick(self, player_roll: u8, enemy_roll: u8) -> Self {
        if self.phase != Phase::Animating {
            self
        } else if self.ticks_left > 1 {
            CombatEncounter { ticks_left: (self.ticks_left - 1) as u32, ..self }
        } else {
            self.resolved(player_roll, enemy_roll)
        }
    }
}

/// Starts an encounter: the player's boat is placed for combat with every
/// attack and part restored, against the first enemy.
pub fn enter_combat(player: Boat) -> (r: CombatEncounter)
    requires
        player.wf(),
        player.health > 0,
    ensures
        r == entered(player),
        r.wf(),
        r.player.enabled_attacks == r.player.attacks,
        r.player.enabled_parts == r.player.parts,
        r.player.skip_turns == 0,
        r.enemy.skip_turns == 0,
{
    let mut player = player;
    player.reset_for_encounter();
    let sprite = match player.obj {
        Some(o) => Object { x: PLAYER_COMBAT_X, y: PLAYER_COMBAT_Y, ..o },
        None => Object {
            texture_id: NEW_BOAT_TEXTURE,
            x: PLAYER_COMBAT_X,
            y: PLAYER_COMBAT_Y,
            offset_x: NEW_BOAT_OFFSET_X,
            offset_y: NEW_BOAT_OFFSET_Y,
        },
    };
    player.obj = Some(sprite);
    CombatEncounter {
        player,
        enemy: first_enemy(),
        phase: Phase::Idle,
        player_action: Action { kind: AttackKind::Normal, target: None },
        enemy_action: None,
        ticks_left: 0,
    }
}

impl CombatEncounter {
    /// Whether the counters stay within 64 bits through the next step.
    pub fn counters_fit_now(&self) -> (r: bool)
        requires
            self.wf(),
        ensures
            r == self.counters_fit(),
    {
        let p = &self.player;
        let e = &self.enemy;
        p.wood <= i64::MAX - e.wood && p.mineral <= i64::MAX - e.mineral && p.shield <= i64::MAX
            - p.mineral / 5
    }

    /// Ends the encounter after a victory, before the next fight: hands back
    /// the player's boat with every attack and part restored. Refused while
    /// a fight is on or after a defeat.
    pub fn end_encounter(&self) -> (r: Result<Boat, ActionError>)
        ensures
            (self.phase == Phase::Victory || self.phase == Phase::RepairChoice) ==> r == Ok::<
                Boat,
                ActionError,
            >(self.player.refreshed()),
            !(self.phase == Phase::Victory || self.phase == Phase::RepairChoice) ==> r == Err::<
                Boat,
                ActionError,
            >(ActionError::InvalidAction),
    {
        match self.phase {
            Phase::Victory | Phase::RepairChoice => {
                let mut player = self.player;
                player.reset_for_encounter();
                Ok(player)
            },
            _ => Err(ActionError::InvalidAction),
        }
    }

    /// Whether the current phase accepts `b`.
    pub fn accepts(&self, b: ButtonKind) -> (r: bool)
        ensures
            r == self.offers(b),
    {
        match self.phase {
            Phase::Idle => match b {
                ButtonKind::Attack => true,
                ButtonKind::Ability(a) => a != AttackKind::Normal
                    && self.player.enabled_attacks.contains(a),
                _ => false,
            },
            Phase::TargetSelect => match b {
                ButtonKind::Target(p) => self.enemy.parts.contains(p),
                _ => false,
            },
            Phase::Victory => b == ButtonKind::KeepBoat || b == ButtonKind::Upgrade,
            Phase::RepairChoice => b == ButtonKind::Repair || b == ButtonKind::SkipRepair,
            _ => false,
        }
    }

    /// The menu the current phase shows.
    pub fn menu(&self) -> (r: Vec<Button>)
        ensures
            r@ == self.menu_spec(),
    {
        match self.phase {
            Phase::Idle => idle_menu(&self.player),
            Phase::TargetSelect => target_menu(&self.enemy),
            Phase::Victory => choice_menu(ButtonKind::KeepBoat, ButtonKind::Upgrade),
            Phase::RepairChoice => choice_menu(ButtonKind::Repair, ButtonKind::SkipRepair),
            _ => closed_menu(),
        }
    }

    /// Locks in the player's `action` and the enemy's choice for the given
    /// draws, and starts the shots.
    pub fn lock_in(&mut self, action: Action, attack_draw: u64, target_draw: u64)
        requires
            old(self).wf(),
            old(self).in_fight(),
            attack_allowed(old(self).player, old(self).enemy, action.kind, action.target),
        ensures
            *final(self) == old(self).locked_in(action, attack_draw, target_draw),
            final(self).wf(),
    {
        self.player_action = action;
        let chosen = select_enemy_action_with_draws(
            &self.player,
            &mut self.enemy,
            attack_draw,
            target_draw,
        );
        proof {
            if let Some(a) = chosen {
                assert(self.enemy.enabled_attacks.has(a.kind));
                if let Some(p) = a.target {
                    assert(self.player.enabled_parts.has(p));
                    assert(self.player.parts.has(p));
                }
            }
        }
        self.enemy_action = chosen;
        self.ticks_left = ANIMATION_TICKS;
        self.phase = Phase::Animating;
    }

    /// Presses `b` with the given draws: for the enemy's choice when the
    /// press locks in an action, for the next enemy when it starts the next
    /// fight. A button the phase does not offer is refused, and a pending
    /// choice of target is dropped.
    pub fn press_with_draws(
        &mut self,
        b: ButtonKind,
        attack_draw: u64,
        target_draw: u64,
        rolls: &EnemyRolls,
    ) -> (r: Result<(), ActionError>)
        requires
            old(self).wf(),
            old(self).counters_fit(),
        ensures
            *final(self) == old(self).after_press(b, attack_draw, target_draw, *rolls),
            final(self).wf(),
            r is Err <==> !old(self).offers(b),
    {
        if !self.accepts(b) {
            if self.phase == Phase::TargetSelect {
                self.phase = Phase::Idle;
            }
            return Err(ActionError::InvalidAction);
        }
        match b {
            ButtonKind::Attack => {
                self.phase = Phase::TargetSelect;
            },
            ButtonKind::Ability(a) => {
                self.lock_in(Action { kind: a, target: None }, attack_draw, target_draw);
            },
            ButtonKind::Target(p) => {
                self.lock_in(
                    Action { kind: AttackKind::Normal, target: Some(p) },
                    attack_draw,
                    target_draw,
                );
            },
            ButtonKind::KeepBoat => {
                self.phase = Phase::RepairChoice;
            },
            ButtonKind::Upgrade => {
                upgrade_boat(&mut self.player, &self.enemy);
                self.phase = Phase::RepairChoice;
            },
            ButtonKind::Repair => {
                repair_boat(&mut self.player);
                self.start_next_fight(rolls);
            },
            ButtonKind::SkipRepair => {
                self.start_next_fight(rolls);
            },
            ButtonKind::Empty => {},
        }
        Ok(())
    }

    /// Restores the player's boat and brings on the enemy made from `rolls`.
    pub fn start_next_fight(&mut self, rolls: &EnemyRolls)
        requires
            old(self).player.wf(),
            old(self).player.health > 0,
        ensures
            *final(self) == old(self).next_fight(old(self).player, *rolls),
            final(self).wf(),
            final(self).player.enabled_attacks == final(self).player.attacks,
            final(self).player.enabled_parts == final(self).player.parts,
            final(self).player.skip_turns == 0,
            final(self).enemy.skip_turns == 0,
    {
        self.player.reset_for_encounter();
        self.enemy = generate_enemy_from_rolls(rolls);
        self.phase = Phase::Idle;
        self.enemy_action = None;
        self.ticks_left = 0;
    }

    /// Resolves the locked-in round with the two miss rolls: the player's
    /// action first, then the enemy's, then the verdict.
    pub fn resolve_round(&mut self, player_roll: u8, enemy_roll: u8)
        requires
            old(self).wf(),
            old(self).phase == Phase::Animating,
            old(self).counters_fit(),
        ensures
            *final(self) == old(self).resolved(player_roll, enemy_roll),
            final(self).wf(),
    {
        if self.player.skip_turns > 0 {
            self.player.skip_turns = self.player.skip_turns - 1;
        } else {
            let action = self.player_action;
            resolve_attack_with_roll(
                &mut self.player,
                &mut self.enemy,
                action.kind,
                action.target,
                player_roll,
            );
        }
        match self.enemy_action {
            Some(a) => if self.enemy.health > 0 {
                resolve_attack_with_roll(
                    &mut self.enemy,
                    &mut self.player,
                    a.kind,
                    a.target,
                    enemy_roll,
                );
            },
            None => {},
        }
        self.ticks_left = 0;
        if self.enemy.health <= 0 {
            collect_reward(&mut self.player, &self.enemy);
            self.phase = Phase::Victory;
        } else if self.player.health <= 0 {
            self.phase = Phase::Defeat;
        } else {
            self.phase = Phase::Idle;
        }
    }

    /// Advances the shots one tick, resolving the round on the last one with
    /// the two miss rolls.
    pub fn tick_with_rolls(&mut self, player_roll: u8, enemy_roll: u8)
        requires
            old(self).wf(),
            old(self).counters_fit(),
        ensures
            *final(self) == old(self).after_tick(player_roll, enemy_roll),
            final(self).wf(),
    {
        if self.phase != Phase::Animating {
            return;
        }
        if self.ticks_left > 1 {
            self.ticks_left = self.ticks_left - 1;
        } else {
            self.resolve_round(player_roll, enemy_roll);
        }
    }

    /// Presses `b`, drawing from `rng` what the step needs.
    pub fn press(&mut self, b: ButtonKind, rng: &mut rand::rngs::StdRng) -> (r: Result<
        (),
        ActionError,
    >)
        requires
            old(self).wf(),
            old(self).counters_fit(),
        ensures
            exists|attack_draw: u64, target_draw: u64, rolls: EnemyRolls|
                *final(self) == old(self).after_press(b, attack_draw, target_draw, rolls),
            final(self).wf(),
            r is Err <==> !old(self).offers(b),
    {
        let mut attack_draw: u64 = 0;
        let mut target_draw: u64 = 0;
        let mut rolls = EnemyRolls {
            health: 0,
            shield: 0,
            wood: 0,
            mineral: 0,
            repertoire: 0,
            layout: 0,
            skin: 0,
        };
        if self.accepts(b) {
            match b {
                ButtonKind::Ability(_) | ButtonKind::Target(_) => {
                    attack_draw = next_draw(rng);
                    target_draw = next_draw(rng);
                },
                ButtonKind::Repair | ButtonKind::SkipRepair => {
                    rolls = roll_enemy(rng);
                },
                _ => {},
            }
        }
        self.press_with_draws(b, attack_draw, target_draw, &rolls)
    }

    /// Advances one tick, drawing the miss rolls from `rng` when the round
    /// is resolved.
    pub fn tick(&mut self, rng: &mut rand::rngs::StdRng)
        requires
            old(self).wf(),
            old(self).counters_fit(),
        ensures
            exists|player_roll: u8, enemy_roll: u8|
                *final(self) == old(self).after_tick(player_roll, enemy_roll),
            final(self).wf(),
    {
        let mut player_roll: u8 = 0;
        let mut enemy_roll: u8 = 0;
        if self.phase == Phase::Animating && self.ticks_left <= 1 {
            player_roll = next_byte(rng);
            enemy_roll = next_byte(rng);
        }
        self.tick_with_rolls(player_roll, enemy_roll)
    }
}

/// A netted enemy chooses nothing in the next two rounds, and its counter
/// runs down to zero; then it chooses again.
pub proof fn netted_enemy_sits_out_two_rounds(
    player: Boat,
    enemy: Boat,
    draws: Seq<u64>,
)
    requires
        enemy.skip_turns == 2,
        draws.len() == 6,
    ensures
        ({
            let once = enemy_after_choice(enemy);
            let twice = enemy_after_choice(once);
            &&& enemy_choice(player, enemy, draws[0], draws[1]) is None
            &&& enemy_choice(player, once, draws[2], draws[3]) is None
            &&& twice.skip_turns == 0
            &&& twice == Boat { skip_turns: 0, ..enemy }
            &&& enemy_choice(player, twice, draws[4], draws[5]) is Some
        }),
{
}

/// A netted player's next two rounds leave the enemy untouched, and its
/// counter runs down to zero.
pub proof fn netted_player_sits_out_two_rounds(
    player: Boat,
    enemy: Boat,
    action: Action,
    first_roll: u8,
    second_roll: u8,
)
    requires
        player.skip_turns == 2,
    ensures
        ({
            let (mid_player, mid_enemy) = player_turn(player, enemy, action, first_roll);
            let (end_player, end_enemy) = player_turn(mid_player, mid_enemy, action, second_roll);
            &&& mid_enemy == enemy
            &&& end_enemy == enemy
            &&& end_player == Boat { skip_turns: 0, ..player }
        }),
{
}

/// Within a round the player's action resolves first and the enemy's acts
/// on what it left; an enemy that the player's action defeats does not fire,
/// and the round is a victory.
pub proof fn player_resolves_first(enc: CombatEncounter, player_roll: u8, enemy_roll: u8)
    requires
        enc.wf(),
        enc.phase == Phase::Animating,
    ensures
        ({
            let (mid_player, mid_enemy) = player_turn(enc.player, enc.enemy, enc.player_action, player_roll);
            let (end_player, end_enemy) = enemy_turn(mid_player, mid_enemy, enc.enemy_action, enemy_roll);
            let r = enc.resolved(player_roll, enemy_roll);
            &&& r.enemy == end_enemy
            &&& r.phase != Phase::Victory ==> r.player == end_player
            &&& mid_enemy.health <= 0 ==> r.phase == Phase::Victory && r.player == with_reward(
                mid_player,
                mid_enemy,
            )
        }),
{
}

/// Winning a round credits the enemy's wood and mineral to the player.
pub proof fn victory_credits_reward(enc: CombatEncounter, player_roll: u8, enemy_roll: u8)
    requires
        enc.wf(),
        enc.phase == Phase::Animating,
        enc.counters_fit(),
        enc.resolved(player_roll, enemy_roll).phase == Phase::Victory,
    ensures
        enc.resolved(player_roll, enemy_roll).player.wood == enc.player.wood + enc.enemy.wood,
        enc.resolved(player_roll, enemy_roll).player.mineral == enc.player.mineral
            + enc.enemy.mineral,
{
}

/// Declining the upgrade and then the repair leaves the player's health,
/// shield, maximum health, parts, attacks, wood and mineral as the victory
/// left them.
pub proof fn declining_keeps_the_boat(
    enc: CombatEncounter,
    attack_draw: u64,
    target_draw: u64,
    rolls: EnemyRolls,
)
    requires
        enc.wf(),
        enc.phase == Phase::Victory,
    ensures
        ({
            let kept = enc.after_press(ButtonKind::KeepBoat, attack_draw, target_draw, rolls);
            let next = kept.after_press(ButtonKind::SkipRepair, attack_draw, target_draw, rolls);
            &&& next.phase == Phase::Idle
            &&& next.player.health == enc.player.health
            &&& next.player.shield == enc.player.shield
            &&& next.player.max_health == enc.player.max_health
            &&& next.player.parts == enc.player.parts
            &&& next.player.attacks == enc.player.attacks
            &&& next.player.wood == enc.player.wood
            &&& next.player.mineral == enc.player.mineral
        }),
{
}

/// Every new fight starts with all of the player's attacks and parts usable
/// and neither side netted.
pub proof fn new_fight_is_reset(
    enc: CombatEncounter,
    b: ButtonKind,
    attack_draw: u64,
    target_draw: u64,
    rolls: EnemyRolls,
)
    requires
        enc.wf(),
        enc.phase == Phase::RepairChoice,
        enc.offers(b),
    ensures
        ({
            let next = enc.after_press(b, attack_draw, target_draw, rolls);
            &&& next.phase == Phase::Idle
            &&& next.player.enabled_attacks == next.player.attacks
            &&& next.player.enabled_parts == next.player.parts
            &&& next.player.skip_turns == 0
            &&& next.enemy.skip_turns == 0
            &&& next.enemy.enabled_attacks == next.enemy.attacks
            &&& next.enemy.enabled_parts == next.enemy.parts
        }),
{
}

/// The buttons the menu shows enabled are exactly those the phase accepts.
pub proof fn menu_shows_what_is_accepted(enc: CombatEncounter)
    ensures
        enc.menu_spec().len() == 4,
        forall|i: int|
            0 <= i < 4 && (#[trigger] enc.menu_spec()[i]).enabled ==> enc.offers(
                enc.menu_spec()[i].kind,
            ),
        forall|b: ButtonKind|
            #[trigger] enc.offers(b) ==> exists|i: int|
                0 <= i < 4 && enc.menu_spec()[i] == (Button { kind: b, enabled: true }),
{
    let m = enc.menu_spec();
    if enc.phase == Phase::Idle {
        let abilities = enc.player.enabled_attacks.abilities();
        assert(m.len() == 4);
        assert forall|i: int| 0 <= i < 4 && (#[trigger] m[i]).enabled implies enc.offers(
            m[i].kind,
        ) by {
            if 1 <= i <= abilities.len() {
                assert(m[i] == ability_button(abilities[i - 1]));
            }
        }
        assert forall|b: ButtonKind| #[trigger] enc.offers(b) implies exists|i: int|
            0 <= i < 4 && m[i] == (Button { kind: b, enabled: true }) by {
            if b == ButtonKind::Attack {
                assert(m[0] == Button { kind: b, enabled: true });
            } else if b == ButtonKind::Ability(AttackKind::Net) {
                assert(m[1] == Button { kind: b, enabled: true });
            } else if b == ButtonKind::Ability(AttackKind::Harpoon) {
                if enc.player.enabled_attacks.net {
                    assert(m[2] == Button { kind: b, enabled: true });
                } else {
                    assert(m[1] == Button { kind: b, enabled: true });
                }
            }
        }
    } else if enc.phase == Phase::TargetSelect {
        assert forall|b: ButtonKind| #[trigger] enc.offers(b) implies exists|i: int|
            0 <= i < 4 && m[i] == (Button { kind: b, enabled: true }) by {
            if b == ButtonKind::Target(PartKind::Mast) {
                assert(m[0] == Button { kind: b, enabled: true });
            } else if b == ButtonKind::Target(PartKind::Helm) {
                assert(m[1] == Button { kind: b, enabled: true });
            } else if b == ButtonKind::Target(PartKind::Cannon1) {
                assert(m[2] == Button { kind: b, enabled: true });
            } else {
                assert(m[3] == Button { kind: b, enabled: true });
            }
        }
    } else if enc.phase == Phase::Victory || enc.phase == Phase::RepairChoice {
        assert forall|b: ButtonKind| #[trigger] enc.offers(b) implies exists|i: int|
            0 <= i < 4 && m[i] == (Button { kind: b, enabled: true }) by {
            if m[0].kind == b {
                assert(m[0] == Button { kind: b, enabled: true });
            } else {
                assert(m[1] == Button { kind: b, enabled: true });
            }
        }
    }
}

} // verus!
