use vstd::prelude::*;
use crate::builtins::{BuiltinCommand, GoCommand};
use crate::objects::ObjectKind;
use crate::places::{first_exit, lemma_first_exit};
use crate::commands::{admissible, error_text, Command, Parameter};
use crate::selectors::{lemma_best_named, parse_command, spec_parse_command, InputParser, Selectable};
use crate::world::{Direction, World, WorldAction};

verus! {

/// What a command asks for once executed.
#[derive(Clone, Copy, PartialEq, Eq, Structural, Debug)]
pub enum GameAction {
    DoNothing,
    Exit,
    WorldAction(WorldAction),
}

/// A session: the registered commands, whether it goes on, and the world.
pub struct Game {
    pub commands: Vec<BuiltinCommand>,
    pub is_running: bool,
    pub world: World,
}

/// Where reading resumes after `consumed` characters read at `offset` and one
/// separator, at most the end of the line.
pub open spec fn next_offset(offset: int, consumed: int, len: int) -> int {
    if offset + consumed + 1 < len {
        offset + consumed + 1
    } else {
        len
    }
}

/// Resolves `params` from position `k` on, the line read from `offset`:
/// the values in order, or the position of the first required parameter
/// that resolved to nothing.
pub open spec fn spec_resolve_params(
    game: Game,
    params: Seq<Parameter>,
    line: Seq<char>,
    k: int,
    offset: int,
) -> Result<Seq<Selectable>, int>
    decreases params.len() - k,
{
    if k < 0 || k >= params.len() {
        Ok(Seq::empty())
    } else {
        let (n, sel) = params[k].spec_parse(&game, line.subrange(offset, line.len() as int));
        if !params[k].is_optional && sel == Selectable::Nothing {
            Err(k)
        } else {
            match spec_resolve_params(game, params, line, k + 1, next_offset(offset, n as int, line.len() as int)) {
                Ok(rest) => Ok(seq![sel] + rest),
                Err(j) => Err(j),
            }
        }
    }
}

/// Whether `next` and `reply` follow from one turn on `line` in `game`:
/// the command that best matches the line is looked up; its parameters
/// are resolved in order from the text after the command and one
/// separator; a required one that resolves to nothing aborts the turn with
/// its message; else the command is executed and its action applied.
pub open spec fn spec_turn(game: Game, line: Seq<char>, next: Game, reply: Seq<char>) -> bool {
    let (n, sel) = spec_parse_command(game.commands@, line);
    match sel {
        Selectable::Command(ci) => {
            let cmd = game.commands@[ci as int];
            let params = cmd.spec_parameters();
            let start = next_offset(0, n as int, line.len() as int);
            match spec_resolve_params(game, params, line, 0, start) {
                Err(k) => next == game && reply == error_text(params[k]),
                Ok(args) => {
                    let (action, text) = cmd.spec_execute(&game, args);
                    &&& reply == text
                    &&& game_applied(game, action, next)
                },
            }
        },
        _ => next == game && reply == "Command not found."@,
    }
}

/// Whether `next` is `game` after `action`: nothing changes, the session
/// ends, or the world changes as the action says.
pub open spec fn game_applied(game: Game, action: GameAction, next: Game) -> bool {
    match action {
        GameAction::DoNothing => next == game,
        GameAction::Exit => {
            &&& next.commands == game.commands
            &&& next.world == game.world
            &&& !next.is_running
        },
        GameAction::WorldAction(a) => {
            &&& next.commands == game.commands
            &&& next.is_running == game.is_running
            &&& game.world.applied(a, next.world)
        },
    }
}

impl Game {
    pub open spec fn wf(&self) -> bool {
        self.world.wf()
    }

    /// A session with no command, not yet running.
    pub fn new(world: World) -> (r: Game)
        ensures
            r.commands@.len() == 0,
            !r.is_running,
            r.world == world,
    {
        Game { commands: Vec::new(), is_running: false, world }
    }

    /// Starts the session.
    pub fn start(&mut self)
        ensures
            final(self).is_running,
            final(self).commands == old(self).commands,
            final(self).world == old(self).world,
    {
        self.is_running = true;
    }

    /// Applies `action`: nothing, the end of the session, or a change of the world.
    pub fn perform_action(&mut self, action: GameAction)
        requires
            old(self).wf(),
            admissible(old(self).world, action),
        ensures
            final(self).wf(),
            game_applied(*old(self), action, *final(self)),
    {
        match action {
            GameAction::DoNothing => {},
            GameAction::Exit => self.is_running = false,
            GameAction::WorldAction(action) => self.world.perform_action(action),
        }
    }

    /// Plays one turn on the normalized line `input` and returns the text to show.
    pub fn play_turn(&mut self, input: &str) -> (r: String)
        requires
            old(self).wf(),
        ensures
            final(self).wf(),
            spec_turn(*old(self), input@, *final(self), r@),
    {
        let len = input.unicode_len();
        let parsed = parse_command(&self.commands, input);
        proof {
            lemma_best_named(self.commands@, input@, self.commands@.len() as int);
        }
        if let Selectable::Command(command_id) = parsed.1 {
            let command = &self.commands[command_id];
            let params = command.get_parameters();
            let mut args: Vec<Selectable> = Vec::new();
            let mut offset: usize = if parsed.0 < len {
                parsed.0 + 1
            } else {
                len
            };
            let ghost start = offset as int;
            let mut i: usize = 0;
            while i < params.len()
                invariant
                    *self == *old(self),
                    (parsed.0 as nat, parsed.1) == spec_parse_command(self.commands@, input@),
                    parsed.1 == Selectable::Command(command_id),
                    command_id < self.commands@.len(),
                    *command == self.commands@[command_id as int],
                    start == next_offset(0, parsed.0 as int, input@.len() as int),
                    self.wf(),
                    len == input@.len(),
                    offset <= len,
                    i <= params@.len(),
                    args@.len() == i,
                    params@ == command.spec_parameters(),
                    spec_resolve_params(*self, params@, input@, 0, start) == match spec_resolve_params(
                        *self,
                        params@,
                        input@,
                        i as int,
                        offset as int,
                    ) {
                        Ok(rest) => Ok(args@ + rest),
                        Err(j) => Err(j),
                    },
                decreases params@.len() - i,
            {
                let rest = input.substring_char(offset, len);
                let selected = params[i].parse(self, rest);
                if !params[i].is_optional && selected.1 == Selectable::Nothing {
                    assert(spec_resolve_params(*self, params@, input@, i as int, offset as int) == Err::<
                        Seq<Selectable>,
                        int,
                    >(i as int));
                    return params[i].get_error_message();
                }
                let ghost before = args@;
                args.push(selected.1);
                offset = if selected.0 < len - offset {
                    offset + selected.0 + 1
                } else {
                    len
                };
                proof {
                    match spec_resolve_params(*self, params@, input@, i + 1, offset as int) {
                        Ok(tail) => {
                            assert(before + (seq![selected.1] + tail) =~= args@ + tail);
                        },
                        Err(j) => {},
                    }
                }
                i = i + 1;
            }
            assert(args@ + Seq::<Selectable>::empty() =~= args@);
            let (action, text) = command.execute(self, &args);
            self.perform_action(action);
            text
        } else {
            String::from_str("Command not found.")
        }
    }
}

/// A turn whose line names the look command leaves the session as it was.
pub proof fn lemma_look_changes_nothing(game: Game, line: Seq<char>, next: Game, reply: Seq<char>)
    requires
        game.wf(),
        spec_turn(game, line, next, reply),
        spec_parse_command(game.commands@, line).1 matches Selectable::Command(ci) && game.commands@[ci as int] is Look,
    ensures
        next == game,
{
}

/// Going towards `d` moves the player to the destination of the first exit
/// that way from their place; where there is none, nothing changes.
pub proof fn lemma_go_moves_or_stays(go: GoCommand, game: Game, d: Direction, next: Game)
    requires
        game.wf(),
        game_applied(game, go.spec_execute(&game, seq![Selectable::Direction(d)]).0, next),
    ensures
        match first_exit(game.world.here(), d) {
            Some(i) => game.world.here()[i].kind matches ObjectKind::Exit(e) && next.world.player.current_place
                == e.destination && next.world.player.inventory@ == game.world.player.inventory@
                && next.world.places@ == game.world.places@,
            None => next == game,
        },
{
    lemma_first_exit(game.world.here(), d);
}

} // verus!
