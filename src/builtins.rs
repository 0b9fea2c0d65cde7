use vstd::prelude::*;
use crate::commands::{command_text, signature, Command, Parameter, Selector};
use crate::game::{Game, GameAction};
use crate::named::{first_alias, first_alias_of, Named};
use crate::objects::{Object, ObjectKind};
use crate::places::{first_exit, lemma_first_exit, place_text};
use crate::selectors::{CommandSelector, CurrentPlaceObjectSelector, DirectionSelector, Selectable};
use crate::world::{Direction, World, WorldAction};

verus! {

/// The first of `args`, or nothing where there is none.
pub open spec fn first_arg(args: Seq<Selectable>) -> Selectable {
    if args.len() > 0 {
        args[0]
    } else {
        Selectable::Nothing
    }
}

fn first_arg_of(args: &Vec<Selectable>) -> (r: Selectable)
    ensures
        r == first_arg(args@),
{
    if args.len() > 0 {
        args[0]
    } else {
        Selectable::Nothing
    }
}

/// Where the first exit towards `d` from the player's place leads, if any.
pub open spec fn go_target(world: World, d: Direction) -> Option<usize> {
    match first_exit(world.here(), d) {
        Some(i) => match world.here()[i].kind {
            ObjectKind::Exit(e) => Some(e.destination),
            _ => None,
        },
        None => None,
    }
}

/// The signatures of `commands`, each on a line of its own after a dash.
pub open spec fn command_lines(commands: Seq<BuiltinCommand>) -> Seq<char>
    decreases commands.len(),
{
    if commands.len() == 0 {
        Seq::empty()
    } else {
        let c = commands.last();
        command_lines(commands.drop_last()) + "\n - "@ + signature(c.spec_aliases(), c.spec_parameters())
    }
}

/// The list of all commands that help shows.
pub open spec fn help_list(commands: Seq<BuiltinCommand>) -> Seq<char> {
    "To interact with your environment, type one of the following commands."@ + command_lines(commands)
}

/// The first aliases of `objects`, each on a line of its own after a dash.
pub open spec fn object_lines(objects: Seq<Object>) -> Seq<char>
    decreases objects.len(),
{
    if objects.len() == 0 {
        Seq::empty()
    } else {
        object_lines(objects.drop_last()) + "\n - "@ + first_alias(objects.last().aliases@)
    }
}

/// What the inventory command shows for `inventory`.
pub open spec fn inventory_text(inventory: Seq<Object>) -> Seq<char> {
    if inventory.len() > 0 {
        "You are carrying:"@ + object_lines(inventory)
    } else {
        "You are not carrying anything."@
    }
}

fn list_commands(commands: &Vec<BuiltinCommand>) -> (r: String)
    ensures
        r@ == help_list(commands@),
{
    let mut s = String::from_str("To interact with your environment, type one of the following commands.");
    let ghost head = s@;
    let mut i: usize = 0;
    while i < commands.len()
        invariant
            i <= commands@.len(),
            s@ == head + command_lines(commands@.subrange(0, i as int)),
        decreases commands@.len() - i,
    {
        assert(commands@.subrange(0, i + 1).drop_last() =~= commands@.subrange(0, i as int));
        let sig = commands[i].get_signature();
        s.append("\n - ");
        s.append(sig.as_str());
        assert(s@ =~= head + command_lines(commands@.subrange(0, i + 1)));
        i = i + 1;
    }
    assert(commands@.subrange(0, i as int) =~= commands@);
    s
}

fn list_inventory(inventory: &Vec<Object>) -> (r: String)
    ensures
        r@ == inventory_text(inventory@),
{
    if inventory.len() == 0 {
        return String::from_str("You are not carrying anything.");
    }
    let mut s = String::from_str("You are carrying:");
    let ghost head = s@;
    let mut i: usize = 0;
    while i < inventory.len()
        invariant
            i <= inventory@.len(),
            s@ == head + object_lines(inventory@.subrange(0, i as int)),
        decreases inventory@.len() - i,
    {
        assert(inventory@.subrange(0, i + 1).drop_last() =~= inventory@.subrange(0, i as int));
        let name = first_alias_of(inventory[i].aliases.as_slice());
        s.append("\n - ");
        s.append(name.as_str());
        assert(s@ =~= head + object_lines(inventory@.subrange(0, i + 1)));
        i = i + 1;
    }
    assert(inventory@.subrange(0, i as int) =~= inventory@);
    s
}

pub struct ExitCommand {
    pub aliases: Vec<String>,
    pub description: String,
    pub parameters: Vec<Parameter>,
}

impl ExitCommand {
    pub fn new() -> (r: Self)
        ensures
            r.aliases@.len() == 2,
            r.aliases@[0]@ == "exit"@,
            r.aliases@[1]@ == "quit"@,
            r.description@ == "Exit the game."@,
            r.parameters@.len() == 0,
    {
        Self {
            aliases: vec![String::from_str("exit"), String::from_str("quit")],
            description: String::from_str("Exit the game."),
            parameters: Vec::new(),
        }
    }
}

impl Named for ExitCommand {
    open spec fn spec_aliases(&self) -> Seq<String> {
        self.aliases@
    }

    open spec fn spec_description(&self) -> Seq<char> {
        self.description@
    }

    fn get_aliases(&self) -> (r: &[String]) {
        self.aliases.as_slice()
    }

    fn get_description(&self) -> (r: &str) {
        self.description.as_str()
    }
}

impl Command for ExitCommand {
    open spec fn spec_parameters(&self) -> Seq<Parameter> {
        self.parameters@
    }

    open spec fn spec_execute(&self, game: &Game, args: Seq<Selectable>) -> (GameAction, Seq<char>) {
        (GameAction::Exit, "Goodbye!"@)
    }

    fn get_parameters(&self) -> (r: &[Parameter]) {
        self.parameters.as_slice()
    }

    fn execute(&self, game: &Game, args: &Vec<Selectable>) -> (r: (GameAction, String)) {
        (GameAction::Exit, String::from_str("Goodbye!"))
    }
}

pub struct GoCommand {
    pub aliases: Vec<String>,
    pub description: String,
    pub parameters: Vec<Parameter>,
}

impl GoCommand {
    pub fn new() -> (r: Self)
        ensures
            r.aliases@.len() == 2,
            r.aliases@[0]@ == "go"@,
            r.aliases@[1]@ == "walk"@,
            r.description@ == "Move in a given direction."@,
            r.parameters@.len() == 1,
            r.parameters@[0].name@ == "direction"@,
            r.parameters@[0].description@ == "The direction in which you want to go."@,
            r.parameters@[0].selector == Selector::Direction(DirectionSelector),
            !r.parameters@[0].is_optional,
            r.parameters@[0].error_message matches Some(m) && m@ == "Go where?"@,
    {
        Self {
            aliases: vec![String::from_str("go"), String::from_str("walk")],
            description: String::from_str("Move in a given direction."),
            parameters: vec![Parameter::required(
                String::from_str("direction"),
                String::from_str("The direction in which you want to go."),
                String::from_str("Go where?"),
                Selector::Direction(DirectionSelector),
            )],
        }
    }
}

impl Named for GoCommand {
    open spec fn spec_aliases(&self) -> Seq<String> {
        self.aliases@
    }

    open spec fn spec_description(&self) -> Seq<char> {
        self.description@
    }

    fn get_aliases(&self) -> (r: &[String]) {
        self.aliases.as_slice()
    }

    fn get_description(&self) -> (r: &str) {
        self.description.as_str()
    }
}

impl Command for GoCommand {
    open spec fn spec_parameters(&self) -> Seq<Parameter> {
        self.parameters@
    }

    open spec fn spec_execute(&self, game: &Game, args: Seq<Selectable>) -> (GameAction, Seq<char>) {
        match first_arg(args) {
            Selectable::Direction(d) => match go_target(game.world, d) {
                Some(dest) => (
                    GameAction::WorldAction(WorldAction::MoveToPlace(dest)),
                    place_text(game.world.places@[dest as int]),
                ),
                None => (GameAction::DoNothing, "You cannot go that way."@),
            },
            _ => (GameAction::DoNothing, Seq::empty()),
        }
    }

    fn get_parameters(&self) -> (r: &[Parameter]) {
        self.parameters.as_slice()
    }

    fn execute(&self, game: &Game, args: &Vec<Selectable>) -> (r: (GameAction, String)) {
        if let Selectable::Direction(dir) = first_arg_of(args) {
            let place = game.world.get_place(game.world.player.current_place);
            proof {
                lemma_first_exit(place.objects@, dir);
            }
            if let Some(i) = place.find_exit(dir) {
                if let ObjectKind::Exit(e) = &place.objects[i].kind {
                    let destination = e.destination;
                    let text = game.world.get_place(destination).describe();
                    return (GameAction::WorldAction(WorldAction::MoveToPlace(destination)), text);
                }
            }
            return (GameAction::DoNothing, String::from_str("You cannot go that way."));
        }
        (GameAction::DoNothing, String::new())
    }
}

pub struct HelpCommand {
    pub aliases: Vec<String>,
    pub description: String,
    pub parameters: Vec<Parameter>,
}

impl HelpCommand {
    pub fn new() -> (r: Self)
        ensures
            r.aliases@.len() == 1,
            r.aliases@[0]@ == "help"@,
            r.description@ == "Get a list of all available commands, or get more information on a particular one."@,
            r.parameters@.len() == 1,
            r.parameters@[0].name@ == "command"@,
            r.parameters@[0].description@ == "The command for which you want to get some help."@,
            r.parameters@[0].selector == Selector::Command(CommandSelector),
            r.parameters@[0].is_optional,
            r.parameters@[0].error_message is None,
    {
        Self {
            aliases: vec![String::from_str("help")],
            description: String::from_str("Get a list of all available commands, or get more information on a particular one."),
            parameters: vec![Parameter::optional(
                String::from_str("command"),
                String::from_str("The command for which you want to get some help."),
                Selector::Command(CommandSelector),
            )],
        }
    }
}

impl Named for HelpCommand {
    open spec fn spec_aliases(&self) -> Seq<String> {
        self.aliases@
    }

    open spec fn spec_description(&self) -> Seq<char> {
        self.description@
    }

    fn get_aliases(&self) -> (r: &[String]) {
        self.aliases.as_slice()
    }

    fn get_description(&self) -> (r: &str) {
        self.description.as_str()
    }
}

impl Command for HelpCommand {
    open spec fn spec_parameters(&self) -> Seq<Parameter> {
        self.parameters@
    }

    open spec fn spec_execute(&self, game: &Game, args: Seq<Selectable>) -> (GameAction, Seq<char>) {
        match first_arg(args) {
            Selectable::Command(i) if i < game.commands@.len() => {
                let c = game.commands@[i as int];
                (GameAction::DoNothing, command_text(c.spec_aliases(), c.spec_description(), c.spec_parameters()))
            },
            _ => (GameAction::DoNothing, help_list(game.commands@)),
        }
    }

    fn get_parameters(&self) -> (r: &[Parameter]) {
        self.parameters.as_slice()
    }

    fn execute(&self, game: &Game, args: &Vec<Selectable>) -> (r: (GameAction, String)) {
        if let Selectable::Command(i) = first_arg_of(args) {
            if i < game.commands.len() {
                return (GameAction::DoNothing, game.commands[i].describe());
            }
        }
        (GameAction::DoNothing, list_commands(&game.commands))
    }
}

pub struct InventoryCommand {
    pub aliases: Vec<String>,
    pub description: String,
    pub parameters: Vec<Parameter>,
}

impl InventoryCommand {
    pub fn new() -> (r: Self)
        ensures
            r.aliases@.len() == 1,
            r.aliases@[0]@ == "inventory"@,
            r.description@ == "Look at what you are carrying."@,
            r.parameters@.len() == 0,
    {
        Self {
            aliases: vec![String::from_str("inventory")],
            description: String::from_str("Look at what you are carrying."),
            parameters: Vec::new(),
        }
    }
}

impl Named for InventoryCommand {
    open spec fn spec_aliases(&self) -> Seq<String> {
        self.aliases@
    }

    open spec fn spec_description(&self) -> Seq<char> {
        self.description@
    }

    fn get_aliases(&self) -> (r: &[String]) {
        self.aliases.as_slice()
    }

    fn get_description(&self) -> (r: &str) {
        self.description.as_str()
    }
}

impl Command for InventoryCommand {
    open spec fn spec_parameters(&self) -> Seq<Parameter> {
        self.parameters@
    }

    open spec fn spec_execute(&self, game: &Game, args: Seq<Selectable>) -> (GameAction, Seq<char>) {
        (GameAction::DoNothing, inventory_text(game.world.player.inventory@))
    }

    fn get_parameters(&self) -> (r: &[Parameter]) {
        self.parameters.as_slice()
    }

    fn execute(&self, game: &Game, args: &Vec<Selectable>) -> (r: (GameAction, String)) {
        (GameAction::DoNothing, list_inventory(&game.world.player.inventory))
    }
}

pub struct LookCommand {
    pub aliases: Vec<String>,
    pub description: String,
    pub parameters: Vec<Parameter>,
}

impl LookCommand {
    pub fn new() -> (r: Self)
        ensures
            r.aliases@.len() == 1,
            r.aliases@[0]@ == "look"@,
            r.description@ == "Look around."@,
            r.parameters@.len() == 0,
    {
        Self {
            aliases: vec![String::from_str("look")],
            description: String::from_str("Look around."),
            parameters: Vec::new(),
        }
    }
}

impl Named for LookCommand {
    open spec fn spec_aliases(&self) -> Seq<String> {
        self.aliases@
    }

    open spec fn spec_description(&self) -> Seq<char> {
        self.description@
    }

    fn get_aliases(&self) -> (r: &[String]) {
        self.aliases.as_slice()
    }

    fn get_description(&self) -> (r: &str) {
        self.description.as_str()
    }
}

impl Command for LookCommand {
    open spec fn spec_parameters(&self) -> Seq<Parameter> {
        self.parameters@
    }

    open spec fn spec_execute(&self, game: &Game, args: Seq<Selectable>) -> (GameAction, Seq<char>) {
        (GameAction::DoNothing, place_text(game.world.places@[game.world.player.current_place as int]))
    }

    fn get_parameters(&self) -> (r: &[Parameter]) {
        self.parameters.as_slice()
    }

    fn execute(&self, game: &Game, args: &Vec<Selectable>) -> (r: (GameAction, String)) {
        (GameAction::DoNothing, game.world.get_place(game.world.player.current_place).describe())
    }
}

pub struct TakeCommand {
    pub aliases: Vec<String>,
    pub description: String,
    pub parameters: Vec<Parameter>,
}

impl TakeCommand {
    pub fn new() -> (r: Self)
        ensures
            r.aliases@.len() == 2,
            r.aliases@[0]@ == "take"@,
            r.aliases@[1]@ == "grab"@,
            r.description@ == "Take an item nearby you."@,
            r.parameters@.len() == 1,
            r.parameters@[0].name@ == "item"@,
            r.parameters@[0].description@ == "The name of the item you want to take."@,
            r.parameters@[0].selector == Selector::CurrentPlaceObject(CurrentPlaceObjectSelector),
            !r.parameters@[0].is_optional,
            r.parameters@[0].error_message matches Some(m) && m@ == "What do you want to take?"@,
    {
        Self {
            aliases: vec![String::from_str("take"), String::from_str("grab")],
            description: String::from_str("Take an item nearby you."),
            parameters: vec![Parameter::required(
                String::from_str("item"),
                String::from_str("The name of the item you want to take."),
                String::from_str("What do you want to take?"),
                Selector::CurrentPlaceObject(CurrentPlaceObjectSelector),
            )],
        }
    }
}

impl Named for TakeCommand {
    open spec fn spec_aliases(&self) -> Seq<String> {
        self.aliases@
    }

    open spec fn spec_description(&self) -> Seq<char> {
        self.description@
    }

    fn get_aliases(&self) -> (r: &[String]) {
        self.aliases.as_slice()
    }

    fn get_description(&self) -> (r: &str) {
        self.description.as_str()
    }
}

impl Command for TakeCommand {
    open spec fn spec_parameters(&self) -> Seq<Parameter> {
        self.parameters@
    }

    open spec fn spec_execute(&self, game: &Game, args: Seq<Selectable>) -> (GameAction, Seq<char>) {
        match first_arg(args) {
            Selectable::Object(i) if i < game.world.here().len() && game.world.here()[i as int].carryable => (
                GameAction::WorldAction(WorldAction::TakeItem(i)),
                "You took "@ + first_alias(game.world.here()[i as int].aliases@) + "."@,
            ),
            _ => (GameAction::DoNothing, "You can't take that!"@),
        }
    }

    fn get_parameters(&self) -> (r: &[Parameter]) {
        self.parameters.as_slice()
    }

    fn execute(&self, game: &Game, args: &Vec<Selectable>) -> (r: (GameAction, String)) {
        if let Selectable::Object(object_id) = first_arg_of(args) {
            let objects = &game.world.get_place(game.world.player.current_place).objects;
            if object_id < objects.len() && objects[object_id].carryable {
                let mut text = String::from_str("You took ");
                let name = first_alias_of(objects[object_id].aliases.as_slice());
                text.append(name.as_str());
                text.append(".");
                return (GameAction::WorldAction(WorldAction::TakeItem(object_id)), text);
            }
        }
        (GameAction::DoNothing, String::from_str("You can't take that!"))
    }
}

/// One of the commands that the game knows.
pub enum BuiltinCommand {
    Exit(ExitCommand),
    Go(GoCommand),
    Help(HelpCommand),
    Inventory(InventoryCommand),
    Look(LookCommand),
    Take(TakeCommand),
}

impl Named for BuiltinCommand {
    open spec fn spec_aliases(&self) -> Seq<String> {
        match self {
            BuiltinCommand::Exit(c) => c.spec_aliases(),
            BuiltinCommand::Go(c) => c.spec_aliases(),
            BuiltinCommand::Help(c) => c.spec_aliases(),
            BuiltinCommand::Inventory(c) => c.spec_aliases(),
            BuiltinCommand::Look(c) => c.spec_aliases(),
            BuiltinCommand::Take(c) => c.spec_aliases(),
        }
    }

    open spec fn spec_description(&self) -> Seq<char> {
        match self {
            BuiltinCommand::Exit(c) => c.spec_description(),
            BuiltinCommand::Go(c) => c.spec_description(),
            BuiltinCommand::Help(c) => c.spec_description(),
            BuiltinCommand::Inventory(c) => c.spec_description(),
            BuiltinCommand::Look(c) => c.spec_description(),
            BuiltinCommand::Take(c) => c.spec_description(),
        }
    }

    fn get_aliases(&self) -> (r: &[String]) {
        match self {
            BuiltinCommand::Exit(c) => c.get_aliases(),
            BuiltinCommand::Go(c) => c.get_aliases(),
            BuiltinCommand::Help(c) => c.get_aliases(),
            BuiltinCommand::Inventory(c) => c.get_aliases(),
            BuiltinCommand::Look(c) => c.get_aliases(),
            BuiltinCommand::Take(c) => c.get_aliases(),
        }
    }

    fn get_description(&self) -> (r: &str) {
        match self {
            BuiltinCommand::Exit(c) => c.get_description(),
            BuiltinCommand::Go(c) => c.get_description(),
            BuiltinCommand::Help(c) => c.get_description(),
            BuiltinCommand::Inventory(c) => c.get_description(),
            BuiltinCommand::Look(c) => c.get_description(),
            BuiltinCommand::Take(c) => c.get_description(),
        }
    }
}

impl Command for BuiltinCommand {
    open spec fn spec_parameters(&self) -> Seq<Parameter> {
        match self {
            BuiltinCommand::Exit(c) => c.spec_parameters(),
            BuiltinCommand::Go(c) => c.spec_parameters(),
            BuiltinCommand::Help(c) => c.spec_parameters(),
            BuiltinCommand::Inventory(c) => c.spec_parameters(),
            BuiltinCommand::Look(c) => c.spec_parameters(),
            BuiltinCommand::Take(c) => c.spec_parameters(),
        }
    }

    open spec fn spec_execute(&self, game: &Game, args: Seq<Selectable>) -> (GameAction, Seq<char>) {
        match self {
            BuiltinCommand::Exit(c) => c.spec_execute(game, args),
            BuiltinCommand::Go(c) => c.spec_execute(game, args),
            BuiltinCommand::Help(c) => c.spec_execute(game, args),
            BuiltinCommand::Inventory(c) => c.spec_execute(game, args),
            BuiltinCommand::Look(c) => c.spec_execute(game, args),
            BuiltinCommand::Take(c) => c.spec_execute(game, args),
        }
    }

    fn get_parameters(&self) -> (r: &[Parameter]) {
        match self {
            BuiltinCommand::Exit(c) => c.get_parameters(),
            BuiltinCommand::Go(c) => c.get_parameters(),
            BuiltinCommand::Help(c) => c.get_parameters(),
            BuiltinCommand::Inventory(c) => c.get_parameters(),
            BuiltinCommand::Look(c) => c.get_parameters(),
            BuiltinCommand::Take(c) => c.get_parameters(),
        }
    }

    fn execute(&self, game: &Game, args: &Vec<Selectable>) -> (r: (GameAction, String)) {
        match self {
            BuiltinCommand::Exit(c) => c.execute(game, args),
            BuiltinCommand::Go(c) => c.execute(game, args),
            BuiltinCommand::Help(c) => c.execute(game, args),
            BuiltinCommand::Inventory(c) => c.execute(game, args),
            BuiltinCommand::Look(c) => c.execute(game, args),
            BuiltinCommand::Take(c) => c.execute(game, args),
        }
    }
}

} // verus!
