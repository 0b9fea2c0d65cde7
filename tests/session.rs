use fortuna::builtins::{
    BuiltinCommand, ExitCommand, GoCommand, HelpCommand, InventoryCommand, LookCommand, TakeCommand,
};
use fortuna::commands::{Command, Parameter, Selector};
use fortuna::game::{Game, GameAction};
use fortuna::named::Named;
use fortuna::objects::{Exit, Object, ObjectKind, Weapon};
use fortuna::places::Place;
use fortuna::rooms::{Exit as RoomExit, Room};
use fortuna::selectors::{
    parse_command, CommandSelector, CurrentPlaceObjectSelector, DirectionSelector, InputParser, Selectable,
};
use fortuna::world::{Direction, Player, World, WorldAction};

fn object(aliases: &[&str], carryable: bool, description: &str, kind: ObjectKind) -> Object {
    Object::new(aliases.iter().map(|a| a.to_string()).collect(), carryable, description.to_string(), kind)
}

fn exit(direction: Direction, destination: usize, description: &str) -> Object {
    object(&["exit"], false, description, ObjectKind::Exit(Exit { destination, direction }))
}

fn places() -> Vec<Place> {
    vec![
        Place::new(
            "A small clearing.".to_string(),
            vec![
                object(&["amulet", "necklace"], true, "An amulet lies on the ground.", ObjectKind::Item),
                exit(Direction::North, 1, "A path leads north."),
                object(&["rock"], false, "A big rock.", ObjectKind::Item),
                object(&["sword"], true, "A sword.", ObjectKind::Weapon(Weapon { damages: 3, durability: 10 })),
            ],
        ),
        Place::new("A dark forest.".to_string(), vec![exit(Direction::South, 0, "A path leads south.")]),
    ]
}

fn world() -> World {
    World::new(Player { current_place: 0, inventory: Vec::new() }, places()).unwrap()
}

fn all_commands() -> Vec<BuiltinCommand> {
    vec![
        BuiltinCommand::Exit(ExitCommand::new()),
        BuiltinCommand::Go(GoCommand::new()),
        BuiltinCommand::Help(HelpCommand::new()),
        BuiltinCommand::Inventory(InventoryCommand::new()),
        BuiltinCommand::Look(LookCommand::new()),
        BuiltinCommand::Take(TakeCommand::new()),
    ]
}

fn game() -> Game {
    let mut g = Game::new(world());
    g.commands = all_commands();
    g.start();
    g
}

const CLEARING: &str = "A small clearing.\nA path leads north.\nAn amulet lies on the ground.\nA big rock.\nA sword.";

#[test]
fn look_is_selected_by_its_word_and_prefix() {
    let commands = all_commands();
    assert_eq!(parse_command(&commands, "look"), (4, Selectable::Command(4)));
    assert_eq!(parse_command(&commands, "l"), (1, Selectable::Command(4)));
    assert_eq!(parse_command(&commands, "dance"), (0, Selectable::Nothing));
}

#[test]
fn ties_keep_the_first_registered_command() {
    let commands = vec![BuiltinCommand::Look(LookCommand::new()), BuiltinCommand::Go(GoCommand::new())];
    assert_eq!(parse_command(&commands, "look"), (4, Selectable::Command(0)));
    let twice = vec![BuiltinCommand::Look(LookCommand::new()), BuiltinCommand::Look(LookCommand::new())];
    assert_eq!(parse_command(&twice, "look"), (4, Selectable::Command(0)));
}

#[test]
fn direction_selector_picks_the_direction_word() {
    let g = game();
    assert_eq!(DirectionSelector.parse(&g, "north"), (5, Selectable::Direction(Direction::North)));
    assert_eq!(DirectionSelector.parse(&g, "west now"), (4, Selectable::Direction(Direction::West)));
    assert_eq!(DirectionSelector.parse(&g, "s"), (1, Selectable::Direction(Direction::South)));
    assert_eq!(DirectionSelector.parse(&g, "up"), (0, Selectable::Nothing));
    assert_eq!(DirectionSelector.parse(&g, ""), (0, Selectable::Nothing));
}

#[test]
fn object_selector_reads_the_current_place() {
    let g = game();
    assert_eq!(CurrentPlaceObjectSelector.parse(&g, "necklace"), (8, Selectable::Object(0)));
    assert_eq!(CurrentPlaceObjectSelector.parse(&g, "rock"), (4, Selectable::Object(2)));
    assert_eq!(CurrentPlaceObjectSelector.parse(&g, "lamp"), (0, Selectable::Nothing));
    assert_eq!(CommandSelector.parse(&g, "take"), (4, Selectable::Command(5)));
}

#[test]
fn go_resolves_its_direction_after_one_separator() {
    let mut g = game();
    let reply = g.play_turn("go north");
    assert_eq!(reply, "A dark forest.\nA path leads south.");
    assert_eq!(g.world.player.current_place, 1);
    let reply = g.play_turn("walk south");
    assert_eq!(reply, CLEARING);
    assert_eq!(g.world.player.current_place, 0);
}

#[test]
fn go_without_direction_aborts_with_its_message() {
    let mut g = game();
    let reply = g.play_turn("go");
    assert_eq!(reply, "Go where?");
    assert_eq!(g.world.player.current_place, 0);
    assert_eq!(g.world.get_place(0).objects.len(), 4);
    assert!(g.is_running);
    assert_eq!(g.play_turn("go up"), "Go where?");
    assert_eq!(g.world.player.current_place, 0);
}

#[test]
fn go_where_no_exit_leads_stays() {
    let mut g = game();
    assert_eq!(g.play_turn("go east"), "You cannot go that way.");
    assert_eq!(g.world.player.current_place, 0);
    g.play_turn("go north");
    assert_eq!(g.play_turn("go north"), "You cannot go that way.");
    assert_eq!(g.world.player.current_place, 1);
}

#[test]
fn look_repeated_leaves_the_world_alone() {
    let mut g = game();
    assert_eq!(g.play_turn("look"), CLEARING);
    assert_eq!(g.play_turn("look"), CLEARING);
    assert_eq!(g.world.player.current_place, 0);
    assert_eq!(g.world.get_place(0).objects.len(), 4);
    assert_eq!(g.world.player.inventory.len(), 0);
}

#[test]
fn take_moves_the_object_into_the_inventory() {
    let mut g = game();
    assert_eq!(g.play_turn("take necklace"), "You took amulet.");
    assert_eq!(g.world.player.inventory.len(), 1);
    assert_eq!(g.world.player.inventory[0].get_aliases()[0], "amulet");
    let here = &g.world.get_place(0).objects;
    assert_eq!(here.len(), 3);
    assert!(here.iter().all(|o| o.get_aliases()[0] != "amulet"));
    assert_eq!(g.play_turn("inventory"), "You are carrying:\n - amulet");
    assert_eq!(g.play_turn("grab sword"), "You took sword.");
    assert_eq!(g.play_turn("inventory"), "You are carrying:\n - amulet\n - sword");
    assert_eq!(g.world.get_place(0).objects.len(), 2);
}

#[test]
fn take_refuses_what_cannot_be_carried() {
    let mut g = game();
    assert_eq!(g.play_turn("take rock"), "You can't take that!");
    assert_eq!(g.world.get_place(0).objects.len(), 4);
    assert_eq!(g.play_turn("take"), "What do you want to take?");
    assert_eq!(g.play_turn("take lamp"), "What do you want to take?");
}

#[test]
fn inventory_empty() {
    let mut g = game();
    assert_eq!(g.play_turn("inventory"), "You are not carrying anything.");
}

#[test]
fn exit_from_a_prefix_ends_the_session() {
    let mut g = Game::new(world());
    g.commands = vec![BuiltinCommand::Exit(ExitCommand::new()), BuiltinCommand::Look(LookCommand::new())];
    g.start();
    assert!(g.is_running);
    assert_eq!(g.play_turn("ex"), "Goodbye!");
    assert!(!g.is_running);
    assert_eq!(g.world.player.current_place, 0);
}

#[test]
fn unknown_command_is_reported() {
    let mut g = game();
    assert_eq!(g.play_turn("dance"), "Command not found.");
    assert_eq!(g.play_turn(""), "Command not found.");
    assert!(g.is_running);
}

#[test]
fn help_lists_every_signature() {
    let mut g = game();
    assert_eq!(
        g.play_turn("help"),
        "To interact with your environment, type one of the following commands.\n - exit\n - go direction\n - help [command]\n - inventory\n - look\n - take item"
    );
}

#[test]
fn help_on_one_command() {
    let mut g = game();
    assert_eq!(
        g.play_turn("help go"),
        "go direction\n\nMove in a given direction.\n\ndirection: The direction in which you want to go."
    );
    assert_eq!(
        g.play_turn("help help"),
        "help [command]\n\nGet a list of all available commands, or get more information on a particular one.\n\ncommand (optional): The command for which you want to get some help."
    );
    assert_eq!(g.play_turn("help look"), "look\n\nLook around.");
}

#[test]
fn execute_reports_its_action() {
    let g = game();
    let go = GoCommand::new();
    let (action, _) = go.execute(&g, &vec![Selectable::Direction(Direction::North)]);
    assert_eq!(action, GameAction::WorldAction(WorldAction::MoveToPlace(1)));
    let take = TakeCommand::new();
    let (action, _) = take.execute(&g, &vec![Selectable::Object(3)]);
    assert_eq!(action, GameAction::WorldAction(WorldAction::TakeItem(3)));
    let (action, text) = ExitCommand::new().execute(&g, &vec![]);
    assert_eq!(action, GameAction::Exit);
    assert_eq!(text, "Goodbye!");
}

#[test]
fn perform_action_moves_and_takes() {
    let mut w = world();
    w.perform_action(WorldAction::TakeItem(0));
    assert_eq!(w.player.inventory.len(), 1);
    assert_eq!(w.get_place(0).objects.len(), 3);
    w.perform_action(WorldAction::MoveToPlace(1));
    assert_eq!(w.player.current_place, 1);
    let mut g = game();
    g.perform_action(GameAction::Exit);
    assert!(!g.is_running);
}

#[test]
fn world_rejects_exits_and_players_outside_it() {
    let bad = vec![Place::new("Alone.".to_string(), vec![exit(Direction::East, 5, "Nowhere.")])];
    assert!(World::new(Player { current_place: 0, inventory: Vec::new() }, bad).is_none());
    assert!(World::new(Player { current_place: 2, inventory: Vec::new() }, places()).is_none());
    assert!(World::new(Player { current_place: 1, inventory: Vec::new() }, places()).is_some());
}

#[test]
fn place_lists_exits_then_other_objects() {
    let w = world();
    let p = w.get_place(0);
    assert_eq!(p.describe(), CLEARING);
    let exits = p.get_exits();
    assert_eq!(exits.len(), 1);
    assert_eq!(exits[0].get_description(), "A path leads north.");
    assert_eq!(p.get_objects_except_exits().len(), 3);
    assert!(p.get_exit(Direction::North).is_some());
    assert!(p.get_exit(Direction::South).is_none());
    assert_eq!(p.find_exit(Direction::North), Some(1));
}

#[test]
fn rooms_find_exits_and_describe() {
    let room = Room::new(
        "A hall.".to_string(),
        vec![
            RoomExit::new(Direction::West, 2, "A door to the west.".to_string()),
            RoomExit::new(Direction::West, 3, "Another door to the west.".to_string()),
        ],
    );
    assert_eq!(room.get_exit(Direction::West).map(|e| e.destination), Some(2));
    assert!(room.get_exit(Direction::North).is_none());
    assert_eq!(room.describe(), "A hall.\nA door to the west.\nAnother door to the west.");
}

#[test]
fn parameters_and_signatures() {
    let p = Parameter::optional("what".to_string(), "Anything.".to_string(), Selector::Command(CommandSelector));
    assert_eq!(p.get_signature(), "[what]");
    assert_eq!(p.describe(), "what (optional): Anything.");
    assert_eq!(p.get_error_message(), "");
    let q = Parameter::required("where".to_string(), "A place.".to_string(), "Where?".to_string(), Selector::Direction(DirectionSelector));
    assert_eq!(q.get_signature(), "where");
    assert_eq!(q.get_error_message(), "Where?");
    assert_eq!(TakeCommand::new().get_signature(), "take item");
    assert_eq!(ExitCommand::new().find("quit"), 4);
}

#[test]
fn directions_by_index() {
    assert_eq!(Direction::from_index(0), Some(Direction::North));
    assert_eq!(Direction::from_index(1), Some(Direction::East));
    assert_eq!(Direction::from_index(2), Some(Direction::South));
    assert_eq!(Direction::from_index(3), Some(Direction::West));
    assert_eq!(Direction::from_index(4), None);
}
