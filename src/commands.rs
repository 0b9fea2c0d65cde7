use vstd::prelude::*;
use crate::game::{Game, GameAction};
use crate::named::{first_alias, first_alias_of, Named};
use crate::objects::ObjectKind;
use crate::places::{first_exit, lemma_first_exit, place_text};
use crate::selectors::{
    CommandSelector, CurrentPlaceObjectSelector, DirectionSelector, InputParser, Selectable,
};
use crate::world::{World, WorldAction};

verus! {

/// How a parameter reads its value.
#[derive(Clone, Copy, PartialEq, Eq, Structural, Debug)]
pub enum Selector {
    Command(CommandSelector),
    Direction(DirectionSelector),
    CurrentPlaceObject(CurrentPlaceObjectSelector),
}

impl InputParser for Selector {
    open spec fn spec_parse(&self, game: &Game, input: Seq<char>) -> (nat, Selectable) {
        match self {
            Selector::Command(s) => s.spec_parse(game, input),
            Selector::Direction(s) => s.spec_parse(game, input),
            Selector::CurrentPlaceObject(s) => s.spec_parse(game, input),
        }
    }

    fn parse(&self, game: &Game, input: &str) -> (r: (usize, Selectable)) {
        match self {
            Selector::Command(s) => s.parse(game, input),
            Selector::Direction(s) => s.parse(game, input),
            Selector::CurrentPlaceObject(s) => s.parse(game, input),
        }
    }
}

/// A named slot of a command, filled from the input line.
pub struct Parameter {
    pub description: String,
    pub error_message: Option<String>,
    pub is_optional: bool,
    pub name: String,
    pub selector: Selector,
}

/// How a parameter shows in a command's signature: its name, in brackets
/// when optional.
pub open spec fn param_signature(p: Parameter) -> Seq<char> {
    if p.is_optional {
        "["@ + p.name@ + "]"@
    } else {
        p.name@
    }
}

/// The signatures of `ps`, each after a space.
pub open spec fn params_signature(ps: Seq<Parameter>) -> Seq<char>
    decreases ps.len(),
{
    if ps.len() == 0 {
        Seq::empty()
    } else {
        params_signature(ps.drop_last()) + " "@ + param_signature(ps.last())
    }
}

/// A command's signature: its first alias, then its parameters.
pub open spec fn signature(aliases: Seq<String>, ps: Seq<Parameter>) -> Seq<char> {
    first_alias(aliases) + params_signature(ps)
}

/// A parameter's line of help: name, whether optional, description.
pub open spec fn param_text(p: Parameter) -> Seq<char> {
    p.name@ + (if p.is_optional {
        " (optional)"@
    } else {
        Seq::empty()
    }) + ": "@ + p.description@
}

/// The help lines of `ps`, each after a line break.
pub open spec fn params_text(ps: Seq<Parameter>) -> Seq<char>
    decreases ps.len(),
{
    if ps.len() == 0 {
        Seq::empty()
    } else {
        params_text(ps.drop_last()) + "\n"@ + param_text(ps.last())
    }
}

/// A command's full help: signature, description, then one line per parameter.
pub open spec fn command_text(aliases: Seq<String>, description: Seq<char>, ps: Seq<Parameter>) -> Seq<char> {
    signature(aliases, ps) + "\n\n"@ + description + (if ps.len() > 0 {
        "\n"@ + params_text(ps)
    } else {
        Seq::empty()
    })
}

/// The message of a parameter that could not be resolved, or nothing.
pub open spec fn error_text(p: Parameter) -> Seq<char> {
    match p.error_message {
        Some(m) => m@,
        None => Seq::empty(),
    }
}

impl Parameter {
    pub fn optional(name: String, description: String, selector: Selector) -> (r: Self)
        ensures
            r.name == name,
            r.description == description,
            r.error_message is None,
            r.is_optional,
            r.selector == selector,
    {
        Self { description, error_message: None, is_optional: true, name, selector }
    }

    pub fn required(name: String, description: String, error_message: String, selector: Selector) -> (r: Self)
        ensures
            r.name == name,
            r.description == description,
            r.error_message == Some(error_message),
            !r.is_optional,
            r.selector == selector,
    {
        Self { description, error_message: Some(error_message), is_optional: false, name, selector }
    }

    /// The parameter as it shows in a signature.
    pub fn get_signature(&self) -> (r: String)
        ensures
            r@ == param_signature(*self),
    {
        if self.is_optional {
            let mut s = String::from_str("[");
            s.append(self.name.as_str());
            s.append("]");
            s
        } else {
            self.name.clone()
        }
    }

    /// The parameter's line of help.
    pub fn describe(&self) -> (r: String)
        ensures
            r@ == param_text(*self),
    {
        let mut s = self.name.clone();
        if self.is_optional {
            s.append(" (optional)");
        }
        s.append(": ");
        s.append(self.description.as_str());
        s
    }

    /// The message shown when the parameter could not be resolved.
    pub fn get_error_message(&self) -> (r: String)
        ensures
            r@ == error_text(*self),
    {
        match &self.error_message {
            Some(m) => m.clone(),
            None => String::new(),
        }
    }
}

impl InputParser for Parameter {
    open spec fn spec_parse(&self, game: &Game, input: Seq<char>) -> (nat, Selectable) {
        self.selector.spec_parse(game, input)
    }

    fn parse(&self, game: &Game, input: &str) -> (r: (usize, Selectable)) {
        self.selector.parse(game, input)
    }
}

/// Whether the world admits what `action` asks of it.
pub open spec fn admissible(world: World, action: GameAction) -> bool {
    match action {
        GameAction::WorldAction(a) => world.admits(a),
        _ => true,
    }
}

/// A command that the player can type.
pub trait Command: Named {
    spec fn spec_parameters(&self) -> Seq<Parameter>;

    /// What `execute` returns for the resolved arguments `args`: the action
    /// and the text to show.
    spec fn spec_execute(&self, game: &Game, args: Seq<Selectable>) -> (GameAction, Seq<char>);

    fn get_parameters(&self) -> (r: &[Parameter])
        ensures
            r@ == self.spec_parameters(),
    ;

    fn execute(&self, game: &Game, args: &Vec<Selectable>) -> (r: (GameAction, String))
        requires
            game.wf(),
            args@.len() == self.spec_parameters().len(),
        ensures
            (r.0, r.1@) == self.spec_execute(game, args@),
            admissible(game.world, r.0),
    ;

    /// The command's first alias followed by its parameters.
    fn get_signature(&self) -> (r: String)
        ensures
            r@ == signature(self.spec_aliases(), self.spec_parameters()),
    {
        let mut s = first_alias_of(self.get_aliases());
        let params = self.get_parameters();
        let mut i: usize = 0;
        while i < params.len()
            invariant
                i <= params@.len(),
                params@ == self.spec_parameters(),
                s@ == first_alias(self.spec_aliases()) + params_signature(params@.subrange(0, i as int)),
            decreases params@.len() - i,
        {
            assert(params@.subrange(0, i + 1).drop_last() =~= params@.subrange(0, i as int));
            let p = params[i].get_signature();
            s.append(" ");
            s.append(p.as_str());
            assert(s@ =~= first_alias(self.spec_aliases()) + params_signature(params@.subrange(0, i + 1)));
            i = i + 1;
        }
        assert(params@.subrange(0, i as int) =~= params@);
        s
    }

    /// The command's full help: signature, description and parameters.
    fn describe(&self) -> (r: String)
        ensures
            r@ == command_text(self.spec_aliases(), self.spec_description(), self.spec_parameters()),
    {
        let mut s = self.get_signature();
        s.append("\n\n");
        s.append(self.get_description());
        let params = self.get_parameters();
        if params.len() > 0 {
            let ghost head = s@;
            s.append("\n");
            let mut i: usize = 0;
            while i < params.len()
                invariant
                    i <= params@.len(),
                    params@ == self.spec_parameters(),
                    s@ == head + "\n"@ + params_text(params@.subrange(0, i as int)),
                decreases params@.len() - i,
            {
                assert(params@.subrange(0, i + 1).drop_last() =~= params@.subrange(0, i as int));
                let p = params[i].describe();
                s.append("\n");
                s.append(p.as_str());
                assert(s@ =~= head + "\n"@ + params_text(params@.subrange(0, i + 1)));
                i = i + 1;
            }
            assert(params@.subrange(0, i as int) =~= params@);
        }
        assert(s@ =~= command_text(self.spec_aliases(), self.spec_description(), self.spec_parameters()));
        s
    }
}

} // verus!
