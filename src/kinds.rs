use vstd::prelude::*;

verus! {

/// An attack in a boat's repertoire.
#[derive(Clone, Copy, Debug, PartialEq, Eq, Structural)]
pub enum AttackKind {
    Normal,
    Net,
    Harpoon,
}

/// A destructible module of a boat.
#[derive(Clone, Copy, Debug, PartialEq, Eq, Structural)]
pub enum PartKind {
    Helm,
    Mast,
    Cannon1,
    Cannon2,
}

impl AttackKind {
    /// Net and Harpoon can be used once per encounter.
    pub open spec fn is_one_shot(self) -> bool {
        self != AttackKind::Normal
    }
}

/// A set of attacks, one flag per kind.
#[derive(Clone, Copy, Debug, PartialEq, Eq, Structural)]
pub struct AttackSet {
    pub normal: bool,
    pub net: bool,
    pub harpoon: bool,
}

/// A set of parts, one flag per kind.
#[derive(Clone, Copy, Debug, PartialEq, Eq, Structural)]
pub struct PartSet {
    pub helm: bool,
    pub mast: bool,
    pub cannon1: bool,
    pub cannon2: bool,
}

impl AttackSet {
    pub open spec fn has(self, a: AttackKind) -> bool {
        match a {
            AttackKind::Normal => self.normal,
            AttackKind::Net => self.net,
            AttackKind::Harpoon => self.harpoon,
        }
    }

    /// The same set with `a` taken out.
    pub open spec fn without(self, a: AttackKind) -> AttackSet {
        match a {
            AttackKind::Normal => AttackSet { normal: false, ..self },
            AttackKind::Net => AttackSet { net: false, ..self },
            AttackKind::Harpoon => AttackSet { harpoon: false, ..self },
        }
    }

    pub open spec fn subset_of(self, other: AttackSet) -> bool {
        forall|a: AttackKind| self.has(a) ==> #[trigger] other.has(a)
    }

    /// The attacks in the set, in declaration order.
    pub open spec fn members(self) -> Seq<AttackKind> {
        (if self.normal { seq![AttackKind::Normal] } else { Seq::empty() }) + (if self.net {
            seq![AttackKind::Net]
        } else {
            Seq::empty()
        }) + (if self.harpoon { seq![AttackKind::Harpoon] } else { Seq::empty() })
    }

    /// The one-shot attacks in the set, in declaration order.
    pub open spec fn abilities(self) -> Seq<AttackKind> {
        (if self.net { seq![AttackKind::Net] } else { Seq::empty() }) + (if self.harpoon {
            seq![AttackKind::Harpoon]
        } else {
            Seq::empty()
        })
    }

    /// The attacks in the set, in declaration order.
    pub fn to_vec(&self) -> (r: Vec<AttackKind>)
        ensures
            r@ == self.members(),
    {
        let mut v: Vec<AttackKind> = Vec::new();
        if self.normal {
            v.push(AttackKind::Normal);
        }
        if self.net {
            v.push(AttackKind::Net);
        }
        if self.harpoon {
            v.push(AttackKind::Harpoon);
        }
        proof {
            assert(v@ =~= self.members());
        }
        v
    }

    pub fn contains(&self, a: AttackKind) -> (r: bool)
        ensures
            r == self.has(a),
    {
        match a {
            AttackKind::Normal => self.normal,
            AttackKind::Net => self.net,
            AttackKind::Harpoon => self.harpoon,
        }
    }

    pub fn remove(&mut self, a: AttackKind)
        ensures
            *final(self) == old(self).without(a),
    {
        match a {
            AttackKind::Normal => self.normal = false,
            AttackKind::Net => self.net = false,
            AttackKind::Harpoon => self.harpoon = false,
        }
    }
}

impl PartSet {
    pub open spec fn has(self, p: PartKind) -> bool {
        match p {
            PartKind::Helm => self.helm,
            PartKind::Mast => self.mast,
            PartKind::Cannon1 => self.cannon1,
            PartKind::Cannon2 => self.cannon2,
        }
    }

    /// The same set with `p` taken out.
    pub open spec fn without(self, p: PartKind) -> PartSet {
        match p {
            PartKind::Helm => PartSet { helm: false, ..self },
            PartKind::Mast => PartSet { mast: false, ..self },
            PartKind::Cannon1 => PartSet { cannon1: false, ..self },
            PartKind::Cannon2 => PartSet { cannon2: false, ..self },
        }
    }

    pub open spec fn subset_of(self, other: PartSet) -> bool {
        forall|p: PartKind| self.has(p) ==> #[trigger] other.has(p)
    }

    /// The parts in the set, in declaration order.
    pub open spec fn members(self) -> Seq<PartKind> {
        (if self.helm { seq![PartKind::Helm] } else { Seq::empty() }) + (if self.mast {
            seq![PartKind::Mast]
        } else {
            Seq::empty()
        }) + (if self.cannon1 { seq![PartKind::Cannon1] } else { Seq::empty() }) + (
        if self.cannon2 {
            seq![PartKind::Cannon2]
        } else {
            Seq::empty()
        })
    }

    /// The parts in the set, in declaration order.
    pub fn to_vec(&self) -> (r: Vec<PartKind>)
        ensures
            r@ == self.members(),
    {
        let mut v: Vec<PartKind> = Vec::new();
        if self.helm {
            v.push(PartKind::Helm);
        }
        if self.mast {
            v.push(PartKind::Mast);
        }
        if self.cannon1 {
            v.push(PartKind::Cannon1);
        }
        if self.cannon2 {
            v.push(PartKind::Cannon2);
        }
        proof {
            assert(v@ =~= self.members());
        }
        v
    }

    pub fn contains(&self, p: PartKind) -> (r: bool)
        ensures
            r == self.has(p),
    {
        match p {
            PartKind::Helm => self.helm,
            PartKind::Mast => self.mast,
            PartKind::Cannon1 => self.cannon1,
            PartKind::Cannon2 => self.cannon2,
        }
    }

    pub fn remove(&mut self, p: PartKind)
        ensures
            *final(self) == old(self).without(p),
    {
        match p {
            PartKind::Helm => self.helm = false,
            PartKind::Mast => self.mast = false,
            PartKind::Cannon1 => self.cannon1 = false,
            PartKind::Cannon2 => self.cannon2 = false,
        }
    }
}

} // verus!
