use vstd::prelude::*;
use crate::objects::{Object, ObjectKind};
use crate::places::Place;

verus! {

/// One of the four directions of the compass.
#[derive(Clone, Copy, PartialEq, Eq, Structural, Debug)]
pub enum Direction {
    North,
    East,
    South,
    West,
}

/// The direction at position `i` of the order North, East, South, West.
pub open spec fn spec_direction_at(i: int) -> Option<Direction> {
    if i == 0 {
        Some(Direction::North)
    } else if i == 1 {
        Some(Direction::East)
    } else if i == 2 {
        Some(Direction::South)
    } else if i == 3 {
        Some(Direction::West)
    } else {
        None
    }
}

impl Direction {
    /// The direction at position `i` of the order North, East, South, West.
    pub fn from_index(i: usize) -> (r: Option<Direction>)
        ensures
            r == spec_direction_at(i as int),
    {
        match i {
            0 => Some(Direction::North),
            1 => Some(Direction::East),
            2 => Some(Direction::South),
            3 => Some(Direction::West),
            _ => None,
        }
    }
}

/// The player: where they stand and what they carry.
pub struct Player {
    pub current_place: usize,
    pub inventory: Vec<Object>,
}

/// An effect on the world.
#[derive(Clone, Copy, PartialEq, Eq, Structural, Debug)]
pub enum WorldAction {
    MoveToPlace(usize),
    TakeItem(usize),
}

/// The places and the player.
pub struct World {
    pub player: Player,
    pub places: Vec<Place>,
}

/// Whether every exit among `places` leads to one of them.
pub open spec fn exits_lead_within(places: Seq<Place>) -> bool {
    forall|p: int, i: int|
        0 <= p < places.len() && 0 <= i < places[p].objects@.len() ==> match #[trigger] places[p].objects@[i].kind {
            ObjectKind::Exit(e) => e.destination < places.len(),
            _ => true,
        }
}

impl World {
    /// The player stands in one of the places and every exit leads to one.
    pub open spec fn wf(&self) -> bool {
        &&& self.player.current_place < self.places@.len()
        &&& exits_lead_within(self.places@)
    }

    /// The objects of the place where the player stands.
    pub open spec fn here(&self) -> Seq<Object> {
        self.places@[self.player.current_place as int].objects@
    }

    /// Whether `action` can be applied: a move leads to a place, and a taken
    /// object is one of those where the player stands.
    pub open spec fn admits(&self, action: WorldAction) -> bool {
        match action {
            WorldAction::MoveToPlace(id) => id < self.places@.len(),
            WorldAction::TakeItem(i) => i < self.here().len(),
        }
    }

    /// Whether `next` is this world after `action`: a move overwrites the
    /// current place and keeps the rest; a take removes the object from the
    /// current place, appends it to the inventory, and keeps the rest.
    pub open spec fn applied(self, action: WorldAction, next: World) -> bool {
        match action {
            WorldAction::MoveToPlace(id) => {
                &&& next.player.current_place == id
                &&& next.player.inventory@ == self.player.inventory@
                &&& next.places@ == self.places@
            },
            WorldAction::TakeItem(i) => {
                let cur = self.player.current_place as int;
                &&& next.player.current_place == self.player.current_place
                &&& next.player.inventory@ == self.player.inventory@.push(self.here()[i as int])
                &&& next.here() == self.here().remove(i as int)
                &&& next.places@.len() == self.places@.len()
                &&& forall|p: int| 0 <= p < self.places@.len() && p != cur
                    ==> #[trigger] next.places@[p] == self.places@[p]
                &&& next.places@[cur].description@ == self.places@[cur].description@
            },
        }
    }

    /// Builds a world from its player and places, or `None` where the player
    /// stands outside the places or an exit leads outside them.
    pub fn new(player: Player, places: Vec<Place>) -> (r: Option<World>)
        ensures
            r is Some <==> (player.current_place < places@.len() && exits_lead_within(places@)),
            r matches Some(w) ==> w.player == player && w.places@ == places@ && w.wf(),
    {
        let n = places.len();
        if player.current_place >= n {
            return None;
        }
        let mut p: usize = 0;
        while p < n
            invariant
                n == places@.len(),
                p <= n,
                forall|q: int, i: int|
                    0 <= q < p && 0 <= i < places@[q].objects@.len() ==> match #[trigger] places@[q].objects@[i].kind {
                        ObjectKind::Exit(e) => e.destination < n,
                        _ => true,
                    },
            decreases n - p,
        {
            let objects = &places[p].objects;
            let mut i: usize = 0;
            while i < objects.len()
                invariant
                    n == places@.len(),
                    p < n,
                    objects@ == places@[p as int].objects@,
                    i <= objects@.len(),
                    forall|q: int, j: int|
                        0 <= q < p && 0 <= j < places@[q].objects@.len() ==> match #[trigger] places@[q].objects@[j].kind {
                            ObjectKind::Exit(e) => e.destination < n,
                            _ => true,
                        },
                    forall|j: int|
                        0 <= j < i ==> match #[trigger] objects@[j].kind {
                            ObjectKind::Exit(e) => e.destination < n,
                            _ => true,
                        },
                decreases objects@.len() - i,
            {
                if let ObjectKind::Exit(e) = &objects[i].kind {
                    if e.destination >= n {
                        assert(!exits_lead_within(places@)) by {
                            assert(match places@[p as int].objects@[i as int].kind {
                                ObjectKind::Exit(e) => e.destination >= places@.len(),
                                _ => false,
                            });
                        }
                        return None;
                    }
                }
                i = i + 1;
            }
            p = p + 1;
        }
        Some(World { player, places })
    }

    pub fn get_place(&self, id: usize) -> (r: &Place)
        requires
            id < self.places@.len(),
        ensures
            *r == self.places@[id as int],
    {
        &self.places[id]
    }

    /// Applies `action`: a move overwrites the current place, with no
    /// further check; a take moves the object out of the current place and
    /// appends it to the inventory.
    pub fn perform_action(&mut self, action: WorldAction)
        requires
            old(self).wf(),
            old(self).admits(action),
        ensures
            final(self).wf(),
            old(self).applied(action, *final(self)),
    {
        match action {
            WorldAction::MoveToPlace(place_id) => {
                self.player.current_place = place_id;
            },
            WorldAction::TakeItem(object_id) => {
                let cur = self.player.current_place;
                let ghost old_places = self.places@;
                let mut place = self.places.remove(cur);
                let object = place.objects.remove(object_id);
                self.places.insert(cur, place);
                self.player.inventory.push(object);
                proof {
                    assert forall|p: int, i: int|
                        0 <= p < self.places@.len() && 0 <= i < self.places@[p].objects@.len() implies match #[trigger] self.places@[p].objects@[i].kind {
                            ObjectKind::Exit(e) => e.destination < self.places@.len(),
                            _ => true,
                        } by {
                        if p == cur {
                            let k = if i < object_id { i } else { i + 1 };
                            assert(self.places@[p].objects@[i] == old_places[p].objects@[k]);
                        } else {
                            assert(self.places@[p] == old_places[p]);
                        }
                    }
                }
            },
        }
    }
}

/// Taking an object moves it, and it alone, from the current place to the
/// end of the inventory: together the two hold the same objects as before,
/// the inventory one more of it and the place one fewer.
pub proof fn lemma_take_moves_object(world: World, i: usize, next: World)
    requires
        world.wf(),
        world.admits(WorldAction::TakeItem(i)),
        world.applied(WorldAction::TakeItem(i), next),
    ensures
        next.player.inventory@.last() == world.here()[i as int],
        next.player.inventory@.to_multiset().add(next.here().to_multiset()) == world.player.inventory@.to_multiset().add(
            world.here().to_multiset(),
        ),
        next.player.inventory@.to_multiset().count(world.here()[i as int]) == world.player.inventory@.to_multiset().count(
            world.here()[i as int],
        ) + 1,
        next.here().to_multiset().count(world.here()[i as int]) + 1 == world.here().to_multiset().count(
            world.here()[i as int],
        ),
{
    broadcast use vstd::seq_lib::group_to_multiset_ensures;
    let o = world.here()[i as int];
    vstd::seq_lib::to_multiset_build(world.player.inventory@, o);
    vstd::seq_lib::to_multiset_remove(world.here(), i as int);
    vstd::seq_lib::to_multiset_contains(world.here(), o);
    assert(next.player.inventory@.to_multiset().add(next.here().to_multiset()) =~= world.player.inventory@.to_multiset().add(
        world.here().to_multiset(),
    ));
}

} // verus!
