use vstd::prelude::*;
use crate::named::Named;
use crate::world::Direction;

verus! {

/// Something that sits in a place, in a container or in the inventory.
pub struct Object {
    pub aliases: Vec<String>,
    pub carryable: bool,
    pub description: String,
    pub kind: ObjectKind,
}

/// What an object is.
pub enum ObjectKind {
    Container { capacity: u32, content: Vec<Object> },
    Exit(Exit),
    Item,
    Weapon(Weapon),
}

/// A passage towards another place.
#[derive(Clone, Copy, PartialEq, Eq, Structural, Debug)]
pub struct Exit {
    pub destination: usize,
    pub direction: Direction,
}

#[derive(Clone, Copy, PartialEq, Eq, Structural, Debug)]
pub struct Weapon {
    pub damages: u32,
    pub durability: u32,
}

/// Whether `o` is an exit, in any direction.
pub open spec fn is_exit(o: Object) -> bool {
    o.kind is Exit
}

/// Whether `o` is an exit towards `d`.
pub open spec fn is_exit_towards(o: Object, d: Direction) -> bool {
    match o.kind {
        ObjectKind::Exit(e) => e.direction == d,
        _ => false,
    }
}

impl Object {
    pub fn new(aliases: Vec<String>, carryable: bool, description: String, kind: ObjectKind) -> (r: Object)
        ensures
            r.aliases@ == aliases@,
            r.carryable == carryable,
            r.description@ == description@,
            r.kind == kind,
    {
        Object { aliases, carryable, description, kind }
    }
}

impl Named for Object {
    open spec fn spec_aliases(&self) -> Seq<String> {
        self.aliases@
    }

    open spec fn spec_description(&self) -> Seq<char> {
        self.description@
    }

    fn get_aliases(&self) -> (r: &[String]) {
        self.aliases.as_slice()
    }

    fn get_description(&self) -> (r: &str) {
        self.description.as_str()
    }
}

} // verus!
