use vstd::prelude::*;

use crate::boat::Boat;

verus! {

/// What of `amount` gets past a shield of `shield` points.
pub open spec fn hull_damage(shield: int, amount: int) -> int {
    if amount > shield {
        amount - shield
    } else {
        0
    }
}

/// What is left of a shield of `shield` points after `amount` damage.
pub open spec fn shield_left(shield: int, amount: int) -> int {
    if amount >= shield {
        0
    } else {
        shield - amount
    }
}

impl Boat {
    /// The boat after taking `amount` damage: the shield absorbs first, the
    /// rest comes off health.
    pub open spec fn damaged(self, amount: int) -> Boat {
        Boat {
            shield: shield_left(self.shield as int, amount) as i64,
            health: (self.health - hull_damage(self.shield as int, amount)) as i64,
            ..self
        }
    }
}

/// Deals `amount` damage to `boat`, shield first. Returns whether the boat
/// is defeated afterwards.
pub fn apply_damage(boat: &mut Boat, amount: i64) -> (defeated: bool)
    requires
        old(boat).shield >= 0,
        amount >= 0,
        old(boat).health - amount >= i64::MIN,
    ensures
        *final(boat) == old(boat).damaged(amount as int),
        final(boat).shield == shield_left(old(boat).shield as int, amount as int),
        final(boat).health == old(boat).health - hull_damage(old(boat).shield as int, amount as int),
        defeated == (final(boat).health <= 0),
{
    let mut remaining = amount;
    if boat.shield > 0 {
        if boat.shield < amount {
            remaining = amount - boat.shield;
            boat.shield = 0;
        } else {
            boat.shield = boat.shield - amount;
            remaining = 0;
        }
    }
    boat.health = boat.health - remaining;
    boat.health <= 0
}

} // verus!
