use vstd::prelude::*;

use crate::boat::Boat;
use crate::kinds::{AttackKind, PartKind};

verus! {

/// What pressing a menu button asks for.
#[derive(Clone, Copy, Debug, PartialEq, Eq, Structural)]
pub enum ButtonKind {
    /// An unused slot.
    Empty,
    /// Open the choice of the enemy part to shoot at.
    Attack,
    /// Use a one-shot attack.
    Ability(AttackKind),
    /// Shoot at this enemy part.
    Target(PartKind),
    /// Keep the current boat after a victory.
    KeepBoat,
    /// Take over the defeated enemy's boat.
    Upgrade,
    /// Spend resources on health and shield.
    Repair,
    /// Go on without repairing.
    SkipRepair,
}

/// One slot of the action menu.
#[derive(Clone, Copy, Debug, PartialEq, Eq, Structural)]
pub struct Button {
    pub kind: ButtonKind,
    pub enabled: bool,
}


pub open spec fn blank_button() -> Button {
    Button { kind: ButtonKind::Empty, enabled: false }
}

pub open spec fn ability_button(a: AttackKind) -> Button {
    Button { kind: ButtonKind::Ability(a), enabled: true }
}

/// The top-level menu: Attack, then each one-shot attack the player still
/// has, then empty slots.
pub open spec fn idle_menu_spec(player: Boat) -> Seq<Button> {
    let abilities = player.enabled_attacks.abilities();
    seq![Button { kind: ButtonKind::Attack, enabled: true }] + abilities.map_values(
        |a: AttackKind| ability_button(a),
    ) + Seq::new((3 - abilities.len()) as nat, |i: int| blank_button())
}

pub open spec fn target_button(enemy: Boat, p: PartKind) -> Button {
    Button { kind: ButtonKind::Target(p), enabled: enemy.parts.has(p) }
}

/// The targeting menu: one button per part, enabled where the enemy has it.
pub open spec fn target_menu_spec(enemy: Boat) -> Seq<Button> {
    seq![
        target_button(enemy, PartKind::Mast),
        target_button(enemy, PartKind::Helm),
        target_button(enemy, PartKind::Cannon1),
        target_button(enemy, PartKind::Cannon2),
    ]
}

/// A menu of two enabled choices.
pub open spec fn choice_menu_spec(first: ButtonKind, second: ButtonKind) -> Seq<Button> {
    seq![
        Button { kind: first, enabled: true },
        Button { kind: second, enabled: true },
        blank_button(),
        blank_button(),
    ]
}

/// A menu with nothing to press.
pub open spec fn closed_menu_spec() -> Seq<Button> {
    seq![blank_button(), blank_button(), blank_button(), blank_button()]
}

/// Writes the player's remaining one-shot attacks into the slots from the
/// second on, one per attack; the other slots keep what they held.
pub fn update_menu_with_abilities(player: &Boat, buttons: &mut Vec<Button>)
    requires
        old(buttons).len() >= 1 + player.enabled_attacks.abilities().len(),
    ensures
        final(buttons).len() == old(buttons).len(),
        forall|i: int|
            0 <= i < player.enabled_attacks.abilities().len() ==> #[trigger] final(buttons)@[i + 1]
                == ability_button(player.enabled_attacks.abilities()[i]),
        final(buttons)@[0] == old(buttons)@[0],
        forall|i: int|
            player.enabled_attacks.abilities().len() + 1 <= i < old(buttons).len()
                ==> #[trigger] final(buttons)@[i] == old(buttons)@[i],
{
    let mut slot: usize = 1;
    if player.enabled_attacks.contains(AttackKind::Net) {
        buttons.set(slot, Button { kind: ButtonKind::Ability(AttackKind::Net), enabled: true });
        slot = slot + 1;
    }
    if player.enabled_attacks.contains(AttackKind::Harpoon) {
        buttons.set(slot, Button { kind: ButtonKind::Ability(AttackKind::Harpoon), enabled: true });
    }
}

/// The top-level menu for the player's boat.
pub fn idle_menu(player: &Boat) -> (r: Vec<Button>)
    ensures
        r@ == idle_menu_spec(*player),
{
    let blank = Button { kind: ButtonKind::Empty, enabled: false };
    let mut buttons = vec![Button { kind: ButtonKind::Attack, enabled: true }, blank, blank, blank];
    update_menu_with_abilities(player, &mut buttons);
    proof {
        let abilities = player.enabled_attacks.abilities();
        let expected = idle_menu_spec(*player);
        assert(abilities.len() <= 2);
        assert forall|i: int| 0 <= i < 4 implies buttons@[i] == expected[i] by {
            if 1 <= i <= abilities.len() {
                assert(buttons@[(i - 1) + 1] == ability_button(abilities[i - 1]));
            }
        }
        assert(buttons@ =~= expected);
    }
    buttons
}

/// The targeting menu against `enemy`.
pub fn target_menu(enemy: &Boat) -> (r: Vec<Button>)
    ensures
        r@ == target_menu_spec(*enemy),
{
    let r = vec![
        Button { kind: ButtonKind::Target(PartKind::Mast), enabled: enemy.parts.contains(PartKind::Mast) },
        Button { kind: ButtonKind::Target(PartKind::Helm), enabled: enemy.parts.contains(PartKind::Helm) },
        Button {
            kind: ButtonKind::Target(PartKind::Cannon1),
            enabled: enemy.parts.contains(PartKind::Cannon1),
        },
        Button {
            kind: ButtonKind::Target(PartKind::Cannon2),
            enabled: enemy.parts.contains(PartKind::Cannon2),
        },
    ];
    proof {
        assert(r@ =~= target_menu_spec(*enemy));
    }
    r
}

/// A menu of two enabled choices.
pub fn choice_menu(first: ButtonKind, second: ButtonKind) -> (r: Vec<Button>)
    ensures
        r@ == choice_menu_spec(first, second),
{
    let blank = Button { kind: ButtonKind::Empty, enabled: false };
    let r = vec![Button { kind: first, enabled: true }, Button { kind: second, enabled: true }, blank, blank];
    proof {
        assert(r@ =~= choice_menu_spec(first, second));
    }
    r
}

/// A menu with nothing to press.
pub fn closed_menu() -> (r: Vec<Button>)
    ensures
        r@ == closed_menu_spec(),
{
    let blank = Button { kind: ButtonKind::Empty, enabled: false };
    let r = vec![blank, blank, blank, blank];
    proof {
        assert(r@ =~= closed_menu_spec());
    }
    r
}

} // verus!
