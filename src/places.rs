use vstd::prelude::*;
use crate::objects::{is_exit, is_exit_towards, Object, ObjectKind};
use crate::world::Direction;

verus! {

/// The index of the first of `objects` that is an exit towards `d`.
pub open spec fn first_exit(objects: Seq<Object>, d: Direction) -> Option<int>
    decreases objects.len(),
{
    if objects.len() == 0 {
        None
    } else {
        match first_exit(objects.drop_last(), d) {
            Some(i) => Some(i),
            None => if is_exit_towards(objects.last(), d) {
                Some(objects.len() - 1)
            } else {
                None
            },
        }
    }
}

/// The descriptions of `objects`, each on a line of its own after a line break.
pub open spec fn description_lines(objects: Seq<Object>) -> Seq<char>
    decreases objects.len(),
{
    if objects.len() == 0 {
        Seq::empty()
    } else {
        description_lines(objects.drop_last()) + "\n"@ + objects.last().description@
    }
}

/// What a place shows: its description, then the exits, then the other
/// objects, one per line.
pub open spec fn place_text(p: Place) -> Seq<char> {
    p.description@ + description_lines(p.objects@.filter(|o: Object| is_exit(o)))
        + description_lines(p.objects@.filter(|o: Object| !is_exit(o)))
}

/// A location of the world.
pub struct Place {
    pub description: String,
    pub objects: Vec<Object>,
}

impl Place {
    pub fn new(description: String, objects: Vec<Object>) -> (r: Place)
        ensures
            r.description@ == description@,
            r.objects@ == objects@,
    {
        Place { description, objects }
    }

    /// The description followed by those of the exits and of the other objects.
    pub fn describe(&self) -> (r: String)
        ensures
            r@ == place_text(*self),
    {
        let mut s = self.description.clone();
        let mut i: usize = 0;
        while i < self.objects.len()
            invariant
                i <= self.objects@.len(),
                s@ == self.description@ + description_lines(
                    self.objects@.subrange(0, i as int).filter(|o: Object| is_exit(o)),
                ),
            decreases self.objects@.len() - i,
        {
            let ghost pre = self.objects@.subrange(0, i as int);
            let ghost next = self.objects@.subrange(0, i + 1);
            proof {
                assert(next.drop_last() =~= pre);
                reveal(Seq::filter);
                let f = pre.filter(|o: Object| is_exit(o));
                assert(f.push(self.objects@[i as int]).drop_last() =~= f);
            }
            let o = &self.objects[i];
            if let ObjectKind::Exit(_) = &o.kind {
                s.append("\n");
                s.append(o.description.as_str());
            }
            assert(s@ =~= self.description@ + description_lines(next.filter(|o: Object| is_exit(o))));
            i = i + 1;
        }
        assert(self.objects@.subrange(0, i as int) =~= self.objects@);
        let ghost head = s@;
        let mut i: usize = 0;
        while i < self.objects.len()
            invariant
                i <= self.objects@.len(),
                s@ == head + description_lines(
                    self.objects@.subrange(0, i as int).filter(|o: Object| !is_exit(o)),
                ),
            decreases self.objects@.len() - i,
        {
            let ghost pre = self.objects@.subrange(0, i as int);
            let ghost next = self.objects@.subrange(0, i + 1);
            proof {
                assert(next.drop_last() =~= pre);
                reveal(Seq::filter);
                let f = pre.filter(|o: Object| !is_exit(o));
                assert(f.push(self.objects@[i as int]).drop_last() =~= f);
            }
            let o = &self.objects[i];
            match &o.kind {
                ObjectKind::Exit(_) => {},
                _ => {
                    s.append("\n");
                    s.append(o.description.as_str());
                },
            }
            assert(s@ =~= head + description_lines(next.filter(|o: Object| !is_exit(o))));
            i = i + 1;
        }
        assert(self.objects@.subrange(0, i as int) =~= self.objects@);
        s
    }

    /// The position among the objects of the first exit towards `dir`.
    pub fn find_exit(&self, dir: Direction) -> (r: Option<usize>)
        ensures
            r matches Some(i) ==> first_exit(self.objects@, dir) == Some(i as int),
            r is None ==> first_exit(self.objects@, dir) is None,
    {
        let mut i: usize = 0;
        while i < self.objects.len()
            invariant
                i <= self.objects@.len(),
                first_exit(self.objects@.subrange(0, i as int), dir) is None,
            decreases self.objects@.len() - i,
        {
            assert(self.objects@.subrange(0, i + 1).drop_last() =~= self.objects@.subrange(0, i as int));
            if let ObjectKind::Exit(e) = &self.objects[i].kind {
                if e.direction == dir {
                    proof {
                        lemma_first_exit_prefix(self.objects@, dir, i + 1);
                    }
                    return Some(i);
                }
            }
            i = i + 1;
        }
        assert(self.objects@.subrange(0, i as int) =~= self.objects@);
        None
    }

    /// The first exit towards `dir`, if any.
    pub fn get_exit(&self, dir: Direction) -> (r: Option<&Object>)
        ensures
            match first_exit(self.objects@, dir) {
                Some(i) => r matches Some(o) && *o == self.objects@[i],
                None => r is None,
            },
    {
        proof {
            lemma_first_exit(self.objects@, dir);
        }
        match self.find_exit(dir) {
            Some(i) => Some(&self.objects[i]),
            None => None,
        }
    }

    /// The exits, in order.
    pub fn get_exits(&self) -> (r: Vec<&Object>)
        ensures
            r@.map_values(|o: &Object| *o) == self.objects@.filter(|o: Object| is_exit(o)),
    {
        let mut r: Vec<&Object> = Vec::new();
        let mut i: usize = 0;
        while i < self.objects.len()
            invariant
                i <= self.objects@.len(),
                r@.map_values(|o: &Object| *o) == self.objects@.subrange(0, i as int).filter(|o: Object| is_exit(o)),
            decreases self.objects@.len() - i,
        {
            proof {
                assert(self.objects@.subrange(0, i + 1).drop_last() =~= self.objects@.subrange(0, i as int));
                reveal(Seq::filter);
            }
            let o = &self.objects[i];
            if let ObjectKind::Exit(_) = &o.kind {
                r.push(o);
            }
            assert(r@.map_values(|o: &Object| *o) =~= self.objects@.subrange(0, i + 1).filter(|o: Object| is_exit(o)));
            i = i + 1;
        }
        assert(self.objects@.subrange(0, i as int) =~= self.objects@);
        r
    }

    /// The objects that are not exits, in order.
    pub fn get_objects_except_exits(&self) -> (r: Vec<&Object>)
        ensures
            r@.map_values(|o: &Object| *o) == self.objects@.filter(|o: Object| !is_exit(o)),
    {
        let mut r: Vec<&Object> = Vec::new();
        let mut i: usize = 0;
        while i < self.objects.len()
            invariant
                i <= self.objects@.len(),
                r@.map_values(|o: &Object| *o) == self.objects@.subrange(0, i as int).filter(|o: Object| !is_exit(o)),
            decreases self.objects@.len() - i,
        {
            proof {
                assert(self.objects@.subrange(0, i + 1).drop_last() =~= self.objects@.subrange(0, i as int));
                reveal(Seq::filter);
            }
            let o = &self.objects[i];
            match &o.kind {
                ObjectKind::Exit(_) => {},
                _ => {
                    r.push(o);
                },
            }
            assert(r@.map_values(|o: &Object| *o) =~= self.objects@.subrange(0, i + 1).filter(|o: Object| !is_exit(o)));
            i = i + 1;
        }
        assert(self.objects@.subrange(0, i as int) =~= self.objects@);
        r
    }
}

/// The first exit towards `d` is one, and none comes before it; without a
/// first one there is none at all.
pub proof fn lemma_first_exit(objects: Seq<Object>, d: Direction)
    ensures
        match first_exit(objects, d) {
            Some(i) => {
                &&& 0 <= i < objects.len()
                &&& is_exit_towards(objects[i], d)
                &&& forall|j: int| 0 <= j < i ==> !is_exit_towards(#[trigger] objects[j], d)
            },
            None => forall|j: int| 0 <= j < objects.len() ==> !is_exit_towards(#[trigger] objects[j], d),
        },
    decreases objects.len(),
{
    if objects.len() > 0 {
        let init = objects.drop_last();
        lemma_first_exit(init, d);
        assert forall|j: int| 0 <= j < objects.len() - 1 implies objects[j] == #[trigger] init[j] by {}
        match first_exit(init, d) {
            Some(i) => {
                assert forall|j: int| 0 <= j < i implies !is_exit_towards(#[trigger] objects[j], d) by {
                    assert(objects[j] == init[j]);
                }
            },
            None => {
                assert forall|j: int| 0 <= j < objects.len() - 1 implies !is_exit_towards(#[trigger] objects[j], d) by {
                    assert(objects[j] == init[j]);
                }
            },
        }
    }
}

/// Where the first exit lies within a prefix, it is the first exit of the whole.
pub proof fn lemma_first_exit_prefix(objects: Seq<Object>, d: Direction, k: int)
    requires
        0 <= k <= objects.len(),
        first_exit(objects.subrange(0, k), d) is Some,
    ensures
        first_exit(objects, d) == first_exit(objects.subrange(0, k), d),
    decreases objects.len() - k,
{
    if k < objects.len() {
        assert(objects.subrange(0, k + 1).drop_last() =~= objects.subrange(0, k));
        lemma_first_exit_prefix(objects, d, k + 1);
    } else {
        assert(objects.subrange(0, k) =~= objects);
    }
}

} // verus!
