use pocket_pirates::{
    enter_combat, Action, ActionError, AttackKind, AttackSet, Boat, Button, ButtonKind,
    CombatEncounter, EnemyRolls, Object, PartKind, PartSet, Phase, ANIMATION_TICKS,
};
use rand::rngs::StdRng;
use rand::SeedableRng;

fn starting_boat() -> Boat {
    let attacks = AttackSet { normal: true, net: true, harpoon: false };
    let parts = PartSet { helm: true, mast: true, cannon1: true, cannon2: false };
    Boat {
        health: 5,
        max_health: 6,
        shield: 2,
        wood: 0,
        mineral: 0,
        obj: Some(Object { texture_id: 13, x: 8, y: 12, offset_x: 0, offset_y: 30 }),
        attacks,
        enabled_attacks: attacks,
        parts,
        enabled_parts: parts,
        skip_turns: 0,
    }
}

fn rolls() -> EnemyRolls {
    EnemyRolls { health: 3, shield: 2, wood: 40, mineral: 15, repertoire: 1, layout: 0, skin: 1 }
}

fn press(enc: &mut CombatEncounter, b: ButtonKind) -> Result<(), ActionError> {
    enc.press_with_draws(b, 0, 0, &rolls())
}

fn run_round(enc: &mut CombatEncounter, player_roll: u8, enemy_roll: u8) {
    for _ in 0..ANIMATION_TICKS {
        assert_eq!(enc.phase, Phase::Animating);
        enc.tick_with_rolls(player_roll, enemy_roll);
    }
}

#[test]
fn entering_combat_places_and_refreshes_the_player() {
    let mut boat = starting_boat();
    boat.enabled_attacks.net = false;
    boat.enabled_parts.helm = false;
    boat.skip_turns = 1;
    let enc = enter_combat(boat);
    assert_eq!(enc.phase, Phase::Idle);
    assert_eq!(enc.player.enabled_attacks, enc.player.attacks);
    assert_eq!(enc.player.enabled_parts, enc.player.parts);
    assert_eq!(enc.player.skip_turns, 0);
    assert_eq!(enc.enemy.skip_turns, 0);
    let obj = enc.player.obj.unwrap();
    assert_eq!((obj.x, obj.y, obj.texture_id), (9, 12, 13));
    assert_eq!(enc.enemy.health, 3);
    assert_eq!(enc.enemy.wood, 15);
    assert_eq!(enc.enemy.mineral, 5);
}

#[test]
fn entering_combat_without_sprite_gives_the_small_boat() {
    let mut boat = starting_boat();
    boat.obj = None;
    let enc = enter_combat(boat);
    assert_eq!(enc.player.obj, Some(Object { texture_id: 13, x: 9, y: 12, offset_x: 0, offset_y: 30 }));
}

#[test]
fn idle_menu_lists_attack_and_abilities() {
    let enc = enter_combat(starting_boat());
    let menu = enc.menu();
    assert_eq!(menu.len(), 4);
    assert_eq!(menu[0], Button { kind: ButtonKind::Attack, enabled: true });
    assert_eq!(menu[1], Button { kind: ButtonKind::Ability(AttackKind::Net), enabled: true });
    assert!(!menu[2].enabled);
    assert!(!menu[3].enabled);
}

#[test]
fn attack_opens_targets_of_present_parts() {
    let mut enc = enter_combat(starting_boat());
    assert_eq!(press(&mut enc, ButtonKind::Attack), Ok(()));
    assert_eq!(enc.phase, Phase::TargetSelect);
    let menu = enc.menu();
    assert_eq!(menu[0], Button { kind: ButtonKind::Target(PartKind::Mast), enabled: true });
    assert_eq!(menu[1], Button { kind: ButtonKind::Target(PartKind::Helm), enabled: true });
    assert_eq!(menu[2], Button { kind: ButtonKind::Target(PartKind::Cannon1), enabled: true });
    assert_eq!(menu[3], Button { kind: ButtonKind::Target(PartKind::Cannon2), enabled: false });
}

#[test]
fn invalid_target_is_refused_and_returns_to_idle() {
    let mut enc = enter_combat(starting_boat());
    press(&mut enc, ButtonKind::Attack).unwrap();
    let before = enc;
    assert_eq!(press(&mut enc, ButtonKind::Target(PartKind::Cannon2)), Err(ActionError::InvalidAction));
    assert_eq!(enc.phase, Phase::Idle);
    assert_eq!(enc.player, before.player);
    assert_eq!(enc.enemy, before.enemy);
}

#[test]
fn spent_ability_is_refused() {
    let mut boat = starting_boat();
    boat.attacks.harpoon = false;
    let mut enc = enter_combat(boat);
    assert_eq!(
        press(&mut enc, ButtonKind::Ability(AttackKind::Harpoon)),
        Err(ActionError::InvalidAction)
    );
    assert_eq!(press(&mut enc, ButtonKind::Ability(AttackKind::Normal)), Err(ActionError::InvalidAction));
    assert_eq!(enc.phase, Phase::Idle);
}

#[test]
fn presses_while_animating_are_refused() {
    let mut enc = enter_combat(starting_boat());
    press(&mut enc, ButtonKind::Attack).unwrap();
    press(&mut enc, ButtonKind::Target(PartKind::Helm)).unwrap();
    assert_eq!(enc.phase, Phase::Animating);
    assert_eq!(press(&mut enc, ButtonKind::Attack), Err(ActionError::InvalidAction));
    assert_eq!(enc.phase, Phase::Animating);
}

#[test]
fn round_resolves_after_the_animation() {
    let mut enc = enter_combat(starting_boat());
    press(&mut enc, ButtonKind::Attack).unwrap();
    press(&mut enc, ButtonKind::Target(PartKind::Helm)).unwrap();
    assert_eq!(enc.player_action, Action { kind: AttackKind::Normal, target: Some(PartKind::Helm) });
    assert_eq!(enc.enemy_action, Some(Action { kind: AttackKind::Normal, target: Some(PartKind::Helm) }));
    assert_eq!(enc.ticks_left, ANIMATION_TICKS);
    for _ in 0..ANIMATION_TICKS - 1 {
        enc.tick_with_rolls(255, 255);
    }
    assert_eq!(enc.phase, Phase::Animating);
    assert_eq!(enc.enemy.health, 3);
    enc.tick_with_rolls(255, 255);
    assert_eq!(enc.phase, Phase::Idle);
    // player: one working cannon, 2 damage; enemy helm down
    assert_eq!(enc.enemy.health, 1);
    assert!(!enc.enemy.enabled_parts.helm);
    // enemy: one working cannon, 2 damage into a shield of 2
    assert_eq!(enc.player.shield, 0);
    assert_eq!(enc.player.health, 5);
    assert!(!enc.player.enabled_parts.helm);
}

#[test]
fn beaten_enemy_does_not_fire() {
    let mut boat = starting_boat();
    boat.health = 1;
    boat.shield = 0;
    let mut enc = enter_combat(boat);
    enc.enemy.health = 2;
    press(&mut enc, ButtonKind::Attack).unwrap();
    press(&mut enc, ButtonKind::Target(PartKind::Cannon1)).unwrap();
    assert!(enc.enemy_action.is_some());
    run_round(&mut enc, 255, 255);
    assert_eq!(enc.enemy.health, 0);
    assert_eq!(enc.phase, Phase::Victory);
    assert_eq!(enc.player.health, 1);
}

#[test]
fn enemy_fires_with_what_the_player_left() {
    let mut boat = starting_boat();
    boat.shield = 0;
    let mut enc = enter_combat(boat);
    enc.enemy.health = 3;
    press(&mut enc, ButtonKind::Attack).unwrap();
    press(&mut enc, ButtonKind::Target(PartKind::Cannon1)).unwrap();
    run_round(&mut enc, 255, 255);
    assert_eq!(enc.phase, Phase::Idle);
    assert_eq!(enc.enemy.health, 1);
    assert!(!enc.enemy.enabled_parts.cannon1);
    // the enemy's cannon is down before it fires: 1 damage, not 2
    assert_eq!(enc.player.health, 4);
}

#[test]
fn encounter_ends_only_after_a_victory() {
    let mut enc = enter_combat(starting_boat());
    assert_eq!(enc.end_encounter(), Err(ActionError::InvalidAction));
    enc.enemy.health = 1;
    enc.player.enabled_parts.mast = false;
    press(&mut enc, ButtonKind::Attack).unwrap();
    press(&mut enc, ButtonKind::Target(PartKind::Helm)).unwrap();
    run_round(&mut enc, 255, 0);
    let boat = enc.end_encounter().unwrap();
    assert_eq!(boat.wood, 15);
    assert_eq!(boat.enabled_parts, boat.parts);
    press(&mut enc, ButtonKind::KeepBoat).unwrap();
    assert!(enc.end_encounter().is_ok());
}

#[test]
fn defeat_is_terminal() {
    let mut boat = starting_boat();
    boat.health = 1;
    boat.shield = 0;
    let mut enc = enter_combat(boat);
    press(&mut enc, ButtonKind::Attack).unwrap();
    press(&mut enc, ButtonKind::Target(PartKind::Cannon1)).unwrap();
    run_round(&mut enc, 0, 255);
    assert_eq!(enc.phase, Phase::Defeat);
    assert!(enc.menu().iter().all(|b| !b.enabled));
    assert_eq!(press(&mut enc, ButtonKind::KeepBoat), Err(ActionError::InvalidAction));
    enc.tick_with_rolls(255, 255);
    assert_eq!(enc.phase, Phase::Defeat);
}

#[test]
fn net_keeps_the_enemy_out_for_two_rounds() {
    let mut boat = starting_boat();
    boat.health = 6;
    let mut enc = enter_combat(boat);
    enc.enemy.health = 50;
    enc.enemy.max_health = 50;
    press(&mut enc, ButtonKind::Ability(AttackKind::Net)).unwrap();
    run_round(&mut enc, 255, 0);
    assert_eq!(enc.enemy.skip_turns, 2);
    assert!(!enc.player.enabled_attacks.net);
    for expected_left in [1u32, 0] {
        press(&mut enc, ButtonKind::Attack).unwrap();
        press(&mut enc, ButtonKind::Target(PartKind::Mast)).unwrap();
        assert_eq!(enc.enemy_action, None);
        assert_eq!(enc.enemy.skip_turns, expected_left);
        let player_before = enc.player;
        run_round(&mut enc, 0, 255);
        assert_eq!(enc.player, player_before);
    }
    press(&mut enc, ButtonKind::Attack).unwrap();
    press(&mut enc, ButtonKind::Target(PartKind::Mast)).unwrap();
    assert!(enc.enemy_action.is_some());
}

#[test]
fn netted_player_sits_out_two_rounds() {
    let mut enc = enter_combat(starting_boat());
    enc.enemy.health = 50;
    enc.enemy.max_health = 50;
    enc.player.skip_turns = 2;
    for expected_left in [1u32, 0] {
        press(&mut enc, ButtonKind::Attack).unwrap();
        press(&mut enc, ButtonKind::Target(PartKind::Mast)).unwrap();
        let enemy_before = enc.enemy;
        run_round(&mut enc, 255, 0);
        assert_eq!(enc.enemy, enemy_before);
        assert_eq!(enc.player.skip_turns, expected_left);
    }
    press(&mut enc, ButtonKind::Attack).unwrap();
    press(&mut enc, ButtonKind::Target(PartKind::Mast)).unwrap();
    run_round(&mut enc, 255, 0);
    assert_eq!(enc.enemy.health, 47);
}

fn win_first_fight() -> CombatEncounter {
    let mut enc = enter_combat(starting_boat());
    enc.enemy.health = 1;
    press(&mut enc, ButtonKind::Attack).unwrap();
    press(&mut enc, ButtonKind::Target(PartKind::Helm)).unwrap();
    run_round(&mut enc, 255, 0);
    assert_eq!(enc.phase, Phase::Victory);
    enc
}

#[test]
fn victory_credits_resources() {
    let enc = win_first_fight();
    assert_eq!(enc.player.wood, 15);
    assert_eq!(enc.player.mineral, 5);
    let menu = enc.menu();
    assert_eq!(menu[0], Button { kind: ButtonKind::KeepBoat, enabled: true });
    assert_eq!(menu[1], Button { kind: ButtonKind::Upgrade, enabled: true });
}

#[test]
fn declining_upgrade_and_repair_keeps_the_boat() {
    let mut enc = win_first_fight();
    let before = enc.player;
    press(&mut enc, ButtonKind::KeepBoat).unwrap();
    assert_eq!(enc.phase, Phase::RepairChoice);
    press(&mut enc, ButtonKind::SkipRepair).unwrap();
    assert_eq!(enc.phase, Phase::Idle);
    let p = enc.player;
    assert_eq!(
        (p.health, p.shield, p.max_health, p.parts, p.attacks, p.wood, p.mineral),
        (before.health, before.shield, before.max_health, before.parts, before.attacks, before.wood, before.mineral)
    );
}

#[test]
fn upgrade_takes_the_enemy_hull() {
    let mut enc = win_first_fight();
    enc.enemy.max_health = 9;
    press(&mut enc, ButtonKind::Upgrade).unwrap();
    assert_eq!(enc.player.health, 5);
    assert_eq!(enc.player.max_health, 9);
    assert_eq!(enc.player.shield, 0);
    assert_eq!(enc.player.attacks, AttackSet { normal: true, net: false, harpoon: false });
    assert_eq!(enc.player.parts, enc.enemy.parts);
    let obj = enc.player.obj.unwrap();
    assert_eq!(obj.texture_id, 13);
    assert_eq!((obj.x, obj.y), (9, 12));
}

#[test]
fn repair_then_new_enemy_resets_everything() {
    let mut enc = win_first_fight();
    enc.player.health = 2;
    enc.player.wood = 12;
    enc.player.mineral = 11;
    enc.player.skip_turns = 1;
    enc.player.enabled_parts.mast = false;
    press(&mut enc, ButtonKind::KeepBoat).unwrap();
    press(&mut enc, ButtonKind::Repair).unwrap();
    assert_eq!(enc.phase, Phase::Idle);
    assert_eq!(enc.player.health, 4);
    assert_eq!(enc.player.wood, 2);
    assert_eq!(enc.player.shield, 2 + 2);
    assert_eq!(enc.player.mineral, 1);
    assert_eq!(enc.player.enabled_attacks, enc.player.attacks);
    assert_eq!(enc.player.enabled_parts, enc.player.parts);
    assert_eq!(enc.player.skip_turns, 0);
    assert_eq!(enc.enemy.skip_turns, 0);
    // the enemy made from the rolls
    assert_eq!(enc.enemy.health, 8);
    assert_eq!(enc.enemy.max_health, 8);
    assert_eq!(enc.enemy.shield, 2);
    assert_eq!(enc.enemy.wood, 40);
    assert_eq!(enc.enemy.mineral, 15);
    assert_eq!(enc.enemy.attacks, AttackSet { normal: true, net: true, harpoon: false });
    assert!(enc.enemy.parts.cannon2);
    assert_eq!(enc.enemy.obj.unwrap().texture_id, 22);
}

#[test]
fn seeded_session_runs_to_an_end() {
    let mut rng = StdRng::seed_from_u64(99);
    let mut enc = enter_combat(starting_boat());
    let mut victories = 0;
    for _ in 0..2000 {
        match enc.phase {
            Phase::Idle => {
                enc.press(ButtonKind::Attack, &mut rng).unwrap();
            }
            Phase::TargetSelect => {
                enc.press(ButtonKind::Target(PartKind::Cannon1), &mut rng).unwrap();
            }
            Phase::Animating => {
                assert!(enc.counters_fit_now());
                enc.tick(&mut rng);
            }
            Phase::Victory => {
                victories += 1;
                enc.press(ButtonKind::KeepBoat, &mut rng).unwrap();
            }
            Phase::RepairChoice => {
                enc.press(ButtonKind::Repair, &mut rng).unwrap();
                assert!(enc.enemy.health >= 5 && enc.enemy.health <= 17);
                assert!(enc.enemy.shield <= 7 && enc.enemy.wood <= 40 && enc.enemy.mineral <= 15);
            }
            Phase::Defeat => break,
        }
        assert!(enc.player.enabled_attacks.normal);
    }
    assert!(victories >= 1 || enc.phase == Phase::Defeat);
}
