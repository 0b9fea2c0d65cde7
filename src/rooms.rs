use vstd::prelude::*;
use crate::world::Direction;

verus! {

/// A described passage from a room towards another.
pub struct Exit {
    pub description: String,
    pub destination: usize,
    pub direction: Direction,
}

impl Exit {
    pub fn new(direction: Direction, destination: usize, description: String) -> (r: Self)
        ensures
            r.direction == direction,
            r.destination == destination,
            r.description == description,
    {
        Self { description, destination, direction }
    }
}

/// A room: a description and its exits.
pub struct Room {
    pub description: String,
    pub exits: Vec<Exit>,
}

/// The descriptions of `exits`, each on a line of its own after a line break.
pub open spec fn exit_lines(exits: Seq<Exit>) -> Seq<char>
    decreases exits.len(),
{
    if exits.len() == 0 {
        Seq::empty()
    } else {
        exit_lines(exits.drop_last()) + "\n"@ + exits.last().description@
    }
}

impl Room {
    pub fn new(description: String, exits: Vec<Exit>) -> (r: Room)
        ensures
            r.description == description,
            r.exits@ == exits@,
    {
        Room { description, exits }
    }

    /// The first exit towards `dir`, if any.
    pub fn get_exit(&self, dir: Direction) -> (r: Option<&Exit>)
        ensures
            r matches Some(e) ==> exists|i: int|
                0 <= i < self.exits@.len() && self.exits@[i] == *e && e.direction == dir && forall|j: int|
                    0 <= j < i ==> (#[trigger] self.exits@[j]).direction != dir,
            r is None ==> forall|j: int| 0 <= j < self.exits@.len() ==> (#[trigger] self.exits@[j]).direction != dir,
    {
        let mut i: usize = 0;
        while i < self.exits.len()
            invariant
                i <= self.exits@.len(),
                forall|j: int| 0 <= j < i ==> (#[trigger] self.exits@[j]).direction != dir,
            decreases self.exits@.len() - i,
        {
            if self.exits[i].direction == dir {
                return Some(&self.exits[i]);
            }
            i = i + 1;
        }
        None
    }

    /// The description followed by those of the exits, one per line.
    pub fn describe(&self) -> (r: String)
        ensures
            r@ == self.description@ + exit_lines(self.exits@),
    {
        let mut s = self.description.clone();
        let mut i: usize = 0;
        while i < self.exits.len()
            invariant
                i <= self.exits@.len(),
                s@ == self.description@ + exit_lines(self.exits@.subrange(0, i as int)),
            decreases self.exits@.len() - i,
        {
            assert(self.exits@.subrange(0, i + 1).drop_last() =~= self.exits@.subrange(0, i as int));
            s.append("\n");
            s.append(self.exits[i].description.as_str());
            assert(s@ =~= self.description@ + exit_lines(self.exits@.subrange(0, i + 1)));
            i = i + 1;
        }
        assert(self.exits@.subrange(0, i as int) =~= self.exits@);
        s
    }
}

} // verus!
