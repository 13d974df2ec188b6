use vstd::prelude::*;

use crate::boat::{Boat, Object};

verus! {

broadcast use {vstd::seq_lib::to_multiset_update, vstd::seq_lib::to_multiset_contains};

/// Texture of a tree.
pub const TREE_TEXTURE: usize = 1;

/// Textures of the player facing north-east, north-west, south-west and
/// south-east; the facing decides which tile the player works on.
pub const PLAYER_NE_TEXTURE: usize = 4;

pub const PLAYER_NW_TEXTURE: usize = 5;

pub const PLAYER_SW_TEXTURE: usize = 6;

pub const PLAYER_SE_TEXTURE: usize = 7;

/// Wood gained from one tree.
pub const WOOD_PER_TREE: i64 = 5;

/// Wood a boat costs to build.
pub const BOAT_COST: i64 = 10;

/// The tile where boats are built, and the sprite a new boat gets.
pub const BOAT_SITE_X: i64 = 8;

pub const BOAT_SITE_Y: i64 = 12;

pub const NEW_BOAT_TEXTURE: usize = 13;

pub const NEW_BOAT_OFFSET_X: i64 = 0;

pub const NEW_BOAT_OFFSET_Y: i64 = 30;

/// The map tile that cannot be walked on.
pub const WATER_TILE: usize = 2;

/// The tile in front of the player, by the way its texture faces; the
/// origin for a texture that faces no way.
pub open spec fn facing_tile(player: Object, texture_id: usize) -> (int, int) {
    if texture_id == PLAYER_NE_TEXTURE {
        (player.x as int, player.y - 1)
    } else if texture_id == PLAYER_NW_TEXTURE {
        (player.x - 1, player.y as int)
    } else if texture_id == PLAYER_SW_TEXTURE {
        (player.x as int, player.y + 1)
    } else if texture_id == PLAYER_SE_TEXTURE {
        (player.x + 1, player.y as int)
    } else {
        (0, 0)
    }
}

pub open spec fn is_tree_at(o: Object, x: int, y: int) -> bool {
    o.x == x && o.y == y && o.texture_id == TREE_TEXTURE
}

/// The index of the last tree on tile `(x, y)`.
pub open spec fn last_tree_at(s: Seq<Object>, x: int, y: int) -> Option<int>
    decreases s.len(),
{
    if s.len() == 0 {
        None
    } else if is_tree_at(s.last(), x, y) {
        Some(s.len() - 1)
    } else {
        last_tree_at(s.drop_last(), x, y)
    }
}

proof fn lemma_last_tree_bounds(s: Seq<Object>, x: int, y: int)
    ensures
        last_tree_at(s, x, y) matches Some(t) ==> 0 <= t < s.len() && is_tree_at(s[t], x, y),
    decreases s.len(),
{
    if s.len() > 0 {
        lemma_last_tree_bounds(s.drop_last(), x, y);
    }
}

/// Cuts the tree the player faces, if there is one: it leaves the objects,
/// the player's index follows the player, and the boat gains its wood.
pub fn gather_resource(
    player_id: &mut usize,
    player_boat: &mut Boat,
    objects: &mut Vec<Object>,
    texture_id: usize,
)
    requires
        *old(player_id) < old(objects).len(),
        i64::MIN < old(objects)@[*old(player_id) as int].x < i64::MAX,
        i64::MIN < old(objects)@[*old(player_id) as int].y < i64::MAX,
        old(player_boat).wood <= i64::MAX - WOOD_PER_TREE,
    ensures
        ({
            let (x, y) = facing_tile(old(objects)@[*old(player_id) as int], texture_id);
            match last_tree_at(old(objects)@, x, y) {
                None => {
                    &&& *final(player_id) == *old(player_id)
                    &&& final(objects)@ == old(objects)@
                    &&& *final(player_boat) == *old(player_boat)
                },
                Some(t) => {
                    &&& final(objects)@ == old(objects)@.remove(t)
                    &&& *final(player_id) == if *old(player_id) > t {
                        (*old(player_id) - 1) as usize
                    } else {
                        *old(player_id)
                    }
                    &&& *final(player_boat) == Boat {
                        wood: (old(player_boat).wood + WOOD_PER_TREE) as i64,
                        ..*old(player_boat)
                    }
                },
            }
        }),
{
    let me = objects[*player_id];
    let (x, y): (i64, i64) = if texture_id == PLAYER_NE_TEXTURE {
        (me.x, me.y - 1)
    } else if texture_id == PLAYER_NW_TEXTURE {
        (me.x - 1, me.y)
    } else if texture_id == PLAYER_SW_TEXTURE {
        (me.x, me.y + 1)
    } else if texture_id == PLAYER_SE_TEXTURE {
        (me.x + 1, me.y)
    } else {
        (0, 0)
    };
    let ghost s = objects@;
    let mut target: Option<usize> = None;
    let mut i: usize = 0;
    while i < objects.len()
        invariant
            objects@ == s,
            0 <= i <= s.len(),
            target == (match last_tree_at(s.subrange(0, i as int), x as int, y as int) {
                Some(t) => Some(t as usize),
                None => None::<usize>,
            }),
        decreases s.len() - i,
    {
        let o = objects[i];
        proof {
            assert(s.subrange(0, i + 1).drop_last() =~= s.subrange(0, i as int));
        }
        if o.x == x && o.y == y && o.texture_id == TREE_TEXTURE {
            target = Some(i);
        }
        i = i + 1;
    }
    proof {
        assert(s.subrange(0, s.len() as int) =~= s);
        lemma_last_tree_bounds(s, x as int, y as int);
    }
    match target {
        Some(t) => {
            if *player_id > t {
                *player_id = *player_id - 1;
            }
            objects.remove(t);
            player_boat.wood = player_boat.wood + WOOD_PER_TREE;
        },
        None => {},
    }
}

/// Whether `a` is drawn no later than `b`: by row, then by column.
pub open spec fn drawn_before(a: Object, b: Object) -> bool {
    a.y < b.y || (a.y == b.y && a.x <= b.x)
}

/// Whether the objects are in drawing order.
pub open spec fn in_drawing_order(s: Seq<Object>) -> bool {
    forall|i: int, j: int| 0 <= i < j < s.len() ==> drawn_before(#[trigger] s[i], #[trigger] s[j])
}

/// Puts the objects in drawing order, by row and then by column, so that
/// nearer objects are drawn over farther ones; the player's index follows
/// the player.
pub fn bubble_sort(obj: &mut Vec<Object>, player_id: &mut usize)
    ensures
        final(obj)@.to_multiset() == old(obj)@.to_multiset(),
        final(obj)@.len() == old(obj)@.len(),
        in_drawing_order(final(obj)@),
        *old(player_id) < old(obj)@.len() ==> {
            &&& *final(player_id) < final(obj)@.len()
            &&& final(obj)@[*final(player_id) as int] == old(obj)@[*old(player_id) as int]
        },
        *old(player_id) >= old(obj)@.len() ==> *final(player_id) == *old(player_id),
        in_drawing_order(old(obj)@) ==> final(obj)@ == old(obj)@ && *final(player_id)
            == *old(player_id),
{
    let ghost orig = obj@;
    let ghost orig_id = *player_id;
    let n = obj.len();
    let mut i: usize = 0;
    while i < n
        invariant
            n == obj@.len() == orig.len(),
            0 <= i <= n,
            obj@.to_multiset() == orig.to_multiset(),
            forall|a: int, b: int|
                0 <= a < i && a < b < n ==> drawn_before(#[trigger] obj@[a], #[trigger] obj@[b]),
            orig_id < n ==> *player_id < n && obj@[*player_id as int] == orig[orig_id as int],
            orig_id >= n ==> *player_id == orig_id,
            in_drawing_order(orig) ==> obj@ == orig && *player_id == orig_id,
        decreases n - i,
    {
        let mut j: usize = i + 1;
        while j < n
            invariant
                n == obj@.len() == orig.len(),
                0 <= i < n,
                i + 1 <= j <= n,
                obj@.to_multiset() == orig.to_multiset(),
                forall|a: int, b: int|
                    0 <= a < i && a < b < n ==> drawn_before(#[trigger] obj@[a], #[trigger] obj@[b]),
                forall|b: int| i < b < j ==> drawn_before(obj@[i as int], #[trigger] obj@[b]),
                orig_id < n ==> *player_id < n && obj@[*player_id as int] == orig[orig_id as int],
                orig_id >= n ==> *player_id == orig_id,
                in_drawing_order(orig) ==> obj@ == orig && *player_id == orig_id,
            decreases n - j,
        {
            let a = obj[i];
            let b = obj[j];
            if a.y > b.y || (a.y == b.y && a.x > b.x) {
                if i == *player_id {
                    *player_id = j;
                } else if j == *player_id {
                    *player_id = i;
                }
                let ghost before = obj@;
                obj.set(i, b);
                obj.set(j, a);
                proof {
                    let mid = before.update(i as int, b);
                    assert(obj@ == mid.update(j as int, a));
                    assert(mid[j as int] == b);
                    assert(before.to_multiset().count(a) > 0) by {
                        assert(before.contains(a)) by {
                            assert(before[i as int] == a);
                        }
                    }
                    assert(mid.to_multiset() == before.to_multiset().insert(b).remove(a));
                    assert(obj@.to_multiset() == mid.to_multiset().insert(a).remove(b));
                    assert(obj@.to_multiset() =~= before.to_multiset());
                    assert forall|c: int| 0 <= c < i && c < n implies drawn_before(
                        obj@[c],
                        obj@[i as int],
                    ) by {
                        assert(drawn_before(before[c], before[j as int]));
                    }
                }
            }
            j = j + 1;
        }
        i = i + 1;
    }
}

/// Whether the player stands within one tile, in both directions, of the
/// boat site.
pub fn near_boat_site(player: &Object) -> (r: bool)
    ensures
        r == (-1 <= player.x - BOAT_SITE_X <= 1 && -1 <= player.y - BOAT_SITE_Y <= 1),
{
    player.x >= BOAT_SITE_X - 1 && player.x <= BOAT_SITE_X + 1 && player.y >= BOAT_SITE_Y - 1
        && player.y <= BOAT_SITE_Y + 1
}

/// Builds a boat at the boat site when the wood pays for it. Returns
/// whether it was built.
pub fn build_boat(boat: &mut Boat) -> (built: bool)
    ensures
        built == (old(boat).wood >= BOAT_COST),
        built ==> *final(boat) == (Boat {
            wood: (old(boat).wood - BOAT_COST) as i64,
            obj: Some(
                Object {
                    texture_id: NEW_BOAT_TEXTURE,
                    x: BOAT_SITE_X,
                    y: BOAT_SITE_Y,
                    offset_x: NEW_BOAT_OFFSET_X,
                    offset_y: NEW_BOAT_OFFSET_Y,
                },
            ),
            ..*old(boat)
        }),
        !built ==> *final(boat) == *old(boat),
{
    if boat.wood >= BOAT_COST {
        boat.wood = boat.wood - BOAT_COST;
        boat.obj = Some(
            Object {
                texture_id: NEW_BOAT_TEXTURE,
                x: BOAT_SITE_X,
                y: BOAT_SITE_Y,
                offset_x: NEW_BOAT_OFFSET_X,
                offset_y: NEW_BOAT_OFFSET_Y,
            },
        );
        true
    } else {
        false
    }
}

/// Whether the player may step onto tile `(x, y)`, whose map tile is
/// `tile`: not onto water, nor onto another object.
pub fn can_walk(objects: &Vec<Object>, x: i64, y: i64, tile: usize) -> (r: bool)
    ensures
        r == (tile != WATER_TILE && forall|i: int|
            0 <= i < objects@.len() ==> !(#[trigger] objects@[i].x == x && objects@[i].y == y)),
{
    if tile == WATER_TILE {
        return false;
    }
    let mut i: usize = 0;
    while i < objects.len()
        invariant
            0 <= i <= objects@.len(),
            forall|k: int| 0 <= k < i ==> !(#[trigger] objects@[k].x == x && objects@[k].y == y),
        decreases objects@.len() - i,
    {
        if objects[i].x == x && objects[i].y == y {
            return false;
        }
        i = i + 1;
    }
    true
}

} // verus!
