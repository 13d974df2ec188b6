use vstd::prelude::*;

use crate::kinds::{AttackKind, AttackSet, PartKind, PartSet};

verus! {

/// Where and how a thing is drawn: a texture, a tile position and a pixel
/// offset. The rules only carry it along.
#[derive(Clone, Copy, Debug, PartialEq, Eq, Structural)]
pub struct Object {
    pub texture_id: usize,
    pub x: i64,
    pub y: i64,
    pub offset_x: i64,
    pub offset_y: i64,
}

/// One combatant: hull, shield, resources, parts and attacks.
#[derive(Clone, Copy, Debug, PartialEq, Eq, Structural)]
pub struct Boat {
    pub health: i64,
    pub max_health: i64,
    pub shield: i64,
    pub wood: i64,
    pub mineral: i64,
    pub obj: Option<Object>,
    pub attacks: AttackSet,
    pub enabled_attacks: AttackSet,
    pub parts: PartSet,
    pub enabled_parts: PartSet,
    /// Rounds this boat still has to sit out after being netted.
    pub skip_turns: u32,
}

impl Boat {
    /// The boat's invariant. Health may fall below zero: a boat with
    /// `health <= 0` is defeated.
    pub open spec fn wf(self) -> bool {
        &&& 0 <= self.shield
        &&& self.health <= self.max_health
        &&& 1 <= self.max_health
        &&& 0 <= self.wood
        &&& 0 <= self.mineral
        &&& self.attacks.normal
        &&& self.enabled_attacks.normal
        &&& self.enabled_attacks.subset_of(self.attacks)
        &&& self.enabled_parts.subset_of(self.parts)
    }

    /// The boat going into a fight: every attack and part usable again, no
    /// turns to skip.
    pub open spec fn refreshed(self) -> Boat {
        Boat {
            enabled_attacks: self.attacks,
            enabled_parts: self.parts,
            skip_turns: 0,
            ..self
        }
    }

    /// Whether the boat meets its invariant.
    pub fn is_well_formed(&self) -> (r: bool)
        ensures
            r == self.wf(),
    {
        let a = &self.attacks;
        let ea = &self.enabled_attacks;
        let p = &self.parts;
        let ep = &self.enabled_parts;
        proof {
            assert forall|k: AttackKind|
                (!ea.net || a.net) && (!ea.harpoon || a.harpoon) && a.normal && ea.has(k) implies a.has(
                k,
            ) by {
                match k {
                    AttackKind::Normal => {},
                    AttackKind::Net => {},
                    AttackKind::Harpoon => {},
                }
            }
            assert forall|k: PartKind|
                (!ep.helm || p.helm) && (!ep.mast || p.mast) && (!ep.cannon1 || p.cannon1) && (
                !ep.cannon2 || p.cannon2) && ep.has(k) implies p.has(k) by {
                match k {
                    PartKind::Helm => {},
                    PartKind::Mast => {},
                    PartKind::Cannon1 => {},
                    PartKind::Cannon2 => {},
                }
            }
            assert(ea.subset_of(*a) ==> (!ea.net || a.net) && (!ea.harpoon || a.harpoon)) by {
                if ea.subset_of(*a) {
                    assert(ea.has(AttackKind::Net) ==> a.has(AttackKind::Net));
                    assert(ea.has(AttackKind::Harpoon) ==> a.has(AttackKind::Harpoon));
                }
            }
            assert(ep.subset_of(*p) ==> (!ep.helm || p.helm) && (!ep.mast || p.mast) && (!ep.cannon1
                || p.cannon1) && (!ep.cannon2 || p.cannon2)) by {
                if ep.subset_of(*p) {
                    assert(ep.has(PartKind::Helm) ==> p.has(PartKind::Helm));
                    assert(ep.has(PartKind::Mast) ==> p.has(PartKind::Mast));
                    assert(ep.has(PartKind::Cannon1) ==> p.has(PartKind::Cannon1));
                    assert(ep.has(PartKind::Cannon2) ==> p.has(PartKind::Cannon2));
                }
            }
        }
        0 <= self.shield && self.health <= self.max_health && 1 <= self.max_health && 0
            <= self.wood && 0 <= self.mineral && a.normal && ea.normal && (!ea.net || a.net) && (
        !ea.harpoon || a.harpoon) && (!ep.helm || p.helm) && (!ep.mast || p.mast) && (!ep.cannon1
            || p.cannon1) && (!ep.cannon2 || p.cannon2)
    }

    /// Restores the boat's attacks and parts for a new encounter.
    pub fn reset_for_encounter(&mut self)
        ensures
            *final(self) == old(self).refreshed(),
    {
        self.enabled_attacks = self.attacks;
        self.enabled_parts = self.parts;
        self.skip_turns = 0;
    }
}

} // verus!
