use vstd::prelude::*;
use crate::builtins::BuiltinCommand;
use crate::game::Game;
use crate::named::{best_score, Named};
use crate::objects::Object;
use crate::utils::{compare_words, word_score};
use crate::world::{spec_direction_at, Direction};

verus! {

/// The value that a parameter resolves to.
#[derive(Clone, Copy, PartialEq, Eq, Structural, Debug)]
pub enum Selectable {
    Command(usize),
    Direction(Direction),
    Nothing,
    Object(usize),
}

/// The best of the first `n` of `items` against `input`: the greatest
/// score and the first position that reaches it, or `(0, 0)` where every
/// score is zero.
pub open spec fn best_named<T: Named>(items: Seq<T>, input: Seq<char>, n: int) -> (nat, int)
    decreases n,
{
    if n <= 0 {
        (0, 0)
    } else {
        let (m, i) = best_named(items, input, n - 1);
        let s = best_score(items[n - 1].spec_aliases(), input);
        if s > m {
            (s, n - 1)
        } else {
            (m, i)
        }
    }
}

/// The word of the direction at position `i`.
pub open spec fn direction_word(i: int) -> Seq<char> {
    if i == 0 {
        "north"@
    } else if i == 1 {
        "east"@
    } else if i == 2 {
        "south"@
    } else {
        "west"@
    }
}

/// The best of the first `n` direction words against `input`, as for
/// `best_named`.
pub open spec fn best_direction(input: Seq<char>, n: int) -> (nat, int)
    decreases n,
{
    if n <= 0 {
        (0, 0)
    } else {
        let (m, i) = best_direction(input, n - 1);
        let s = word_score(input, direction_word(n - 1));
        if s > m {
            (s, n - 1)
        } else {
            (m, i)
        }
    }
}

/// The command of `commands` that best matches `input`, with its score.
pub open spec fn spec_parse_command(commands: Seq<BuiltinCommand>, input: Seq<char>) -> (nat, Selectable) {
    let (m, i) = best_named(commands, input, commands.len() as int);
    if m == 0 {
        (0, Selectable::Nothing)
    } else {
        (m, Selectable::Command(i as usize))
    }
}

/// The direction that best matches `input`, with its score.
pub open spec fn spec_parse_direction(input: Seq<char>) -> (nat, Selectable) {
    let (m, i) = best_direction(input, 4);
    if m == 0 {
        (0, Selectable::Nothing)
    } else {
        (m, Selectable::Direction(spec_direction_at(i)->0))
    }
}

/// The object of `objects` that best matches `input`, with its score.
pub open spec fn spec_parse_object(objects: Seq<Object>, input: Seq<char>) -> (nat, Selectable) {
    let (m, i) = best_named(objects, input, objects.len() as int);
    if m == 0 {
        (0, Selectable::Nothing)
    } else {
        (m, Selectable::Object(i as usize))
    }
}

/// The best position lies among the first `n`, and reaches every score.
pub proof fn lemma_best_named<T: Named>(items: Seq<T>, input: Seq<char>, n: int)
    requires
        0 <= n <= items.len(),
    ensures
        best_named(items, input, n).0 > 0 ==> 0 <= best_named(items, input, n).1 < n,
        best_named(items, input, n).0 > 0 ==> best_named(items, input, n).0 == best_score(
            items[best_named(items, input, n).1].spec_aliases(),
            input,
        ),
        forall|j: int| 0 <= j < n ==> best_score(#[trigger] items[j].spec_aliases(), input) <= best_named(items, input, n).0,
    decreases n,
{
    if n > 0 {
        lemma_best_named(items, input, n - 1);
    }
}

/// Reads a value out of the start of an input line.
pub trait InputParser {
    /// What `parse` returns: the number of characters consumed and the value.
    spec fn spec_parse(&self, game: &Game, input: Seq<char>) -> (nat, Selectable);

    fn parse(&self, game: &Game, input: &str) -> (r: (usize, Selectable))
        requires
            game.wf(),
        ensures
            (r.0 as nat, r.1) == self.spec_parse(game, input@),
    ;
}

/// Resolves to the best matching command of the game.
#[derive(Clone, Copy, PartialEq, Eq, Structural, Debug)]
pub struct CommandSelector;

/// Resolves to the best matching direction.
#[derive(Clone, Copy, PartialEq, Eq, Structural, Debug)]
pub struct DirectionSelector;

/// Resolves to the best matching object of the place where the player stands.
#[derive(Clone, Copy, PartialEq, Eq, Structural, Debug)]
pub struct CurrentPlaceObjectSelector;

/// Finds the command of `commands` that best matches `input`.
pub fn parse_command(commands: &Vec<BuiltinCommand>, input: &str) -> (r: (usize, Selectable))
    ensures
        (r.0 as nat, r.1) == spec_parse_command(commands@, input@),
{
    let mut max_length: usize = 0;
    let mut max_index: usize = 0;
    let mut i: usize = 0;
    while i < commands.len()
        invariant
            i <= commands@.len(),
            (max_length as nat, max_index as int) == best_named(commands@, input@, i as int),
        decreases commands@.len() - i,
    {
        let cmp = commands[i].find(input);
        if cmp > max_length {
            max_length = cmp;
            max_index = i;
        }
        i = i + 1;
    }
    if max_length == 0 {
        return (0, Selectable::Nothing);
    }
    (max_length, Selectable::Command(max_index))
}

/// Finds the object of `objects` that best matches `input`.
pub fn parse_object(objects: &Vec<Object>, input: &str) -> (r: (usize, Selectable))
    ensures
        (r.0 as nat, r.1) == spec_parse_object(objects@, input@),
{
    let mut max_length: usize = 0;
    let mut max_index: usize = 0;
    let mut i: usize = 0;
    while i < objects.len()
        invariant
            i <= objects@.len(),
            (max_length as nat, max_index as int) == best_named(objects@, input@, i as int),
        decreases objects@.len() - i,
    {
        let cmp = objects[i].find(input);
        if cmp > max_length {
            max_length = cmp;
            max_index = i;
        }
        i = i + 1;
    }
    if max_length == 0 {
        return (0, Selectable::Nothing);
    }
    (max_length, Selectable::Object(max_index))
}

fn direction_word_at(i: usize) -> (r: &'static str)
    requires
        i < 4,
    ensures
        r@ == direction_word(i as int),
{
    match i {
        0 => "north",
        1 => "east",
        2 => "south",
        _ => "west",
    }
}

impl InputParser for CommandSelector {
    open spec fn spec_parse(&self, game: &Game, input: Seq<char>) -> (nat, Selectable) {
        spec_parse_command(game.commands@, input)
    }

    fn parse(&self, game: &Game, input: &str) -> (r: (usize, Selectable)) {
        parse_command(&game.commands, input)
    }
}

impl InputParser for DirectionSelector {
    open spec fn spec_parse(&self, game: &Game, input: Seq<char>) -> (nat, Selectable) {
        spec_parse_direction(input)
    }

    fn parse(&self, game: &Game, input: &str) -> (r: (usize, Selectable)) {
        let mut max_index: usize = 0;
        let mut max_length: usize = 0;
        let mut i: usize = 0;
        while i < 4
            invariant
                i <= 4,
                (max_length as nat, max_index as int) == best_direction(input@, i as int),
            decreases 4 - i,
        {
            let cmp = compare_words(input, direction_word_at(i));
            if cmp > max_length {
                max_length = cmp;
                max_index = i;
            }
            i = i + 1;
        }
        if max_length == 0 {
            return (0, Selectable::Nothing);
        }
        proof {
            lemma_best_direction(input@, 4);
        }
        match Direction::from_index(max_index) {
            Some(d) => (max_length, Selectable::Direction(d)),
            None => (0, Selectable::Nothing),
        }
    }
}

/// The best direction position lies among the first `n`.
pub proof fn lemma_best_direction(input: Seq<char>, n: int)
    requires
        0 <= n,
    ensures
        best_direction(input, n).0 > 0 ==> 0 <= best_direction(input, n).1 < n,
    decreases n,
{
    if n > 0 {
        lemma_best_direction(input, n - 1);
    }
}

impl InputParser for CurrentPlaceObjectSelector {
    open spec fn spec_parse(&self, game: &Game, input: Seq<char>) -> (nat, Selectable) {
        spec_parse_object(game.world.here(), input)
    }

    fn parse(&self, game: &Game, input: &str) -> (r: (usize, Selectable)) {
        parse_object(&game.world.get_place(game.world.player.current_place).objects, input)
    }
}

} // verus!
