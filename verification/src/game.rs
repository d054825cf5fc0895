//! The game: where the player is, where the player was, which rooms the
//! player has seen, and what each command does to that.

use vstd::prelude::*;
use crate::engine::{GameBuilder, GameEngine, Output};
use crate::entities::{lemma_entity_texts_end_in_print, Entity};
use crate::rooms::{lemma_descriptions_end_in_print, Room};
use crate::text::ends_with_break;
use crate::grammar::parse_line;
use crate::vocab::{Command, Motion};
use crate::world::{
    destination, find_readable, fixtures, is_in, readable_in, stands_in, travel,
};

verus! {

/// The state of a game, as the contracts speak of it.
pub struct State {
    /// The room the player is in.
    pub location: Room,
    /// The room the player came from; `None` until the first move.
    pub prev_location: Option<Room>,
    /// The rooms whose long description has been shown on entering.
    pub visited: Set<Room>,
}

/// What a turn gives, as the contracts speak of it.
pub enum Reply {
    Continue { state: State, text: Seq<char> },
    Goodbye { text: Seq<char> },
}

/// The answer to a motion that the travel table does not hold.
pub open spec fn no_way_text() -> Seq<char> {
    "There's no way to go in that direction."@
}

/// The answer to a command that names an entity of another room.
pub open spec fn not_here_text() -> Seq<char> {
    "That isn't here."@
}

/// The answer to an attempt to read an entity that holds no writing.
pub open spec fn cannot_read_text() -> Seq<char> {
    "You can't read that."@
}

/// The answer to `READ` in a room without anything to read.
pub open spec fn nothing_to_read_text() -> Seq<char> {
    "There's nothing here to read."@
}

/// The answer to `BACK` before the first move.
pub open spec fn no_way_back_text() -> Seq<char> {
    "You weren't anywhere else before here."@
}

/// The text that ends the session.
pub open spec fn farewell_text() -> Seq<char> {
    "Be seeing you..."@
}

/// The paragraphs that describe `entities`, each after a blank line.
pub open spec fn listing(entities: Seq<Entity>) -> Seq<char>
    decreases entities.len(),
{
    if entities.len() == 0 {
        Seq::empty()
    } else {
        listing(entities.drop_last()) + "\n\n"@ + entities.last().describe_text()
    }
}

/// What is shown of `room`: its long or its short description, then a
/// paragraph for each entity that stands in it.
pub open spec fn display(room: Room, long: bool) -> Seq<char> {
    (if long { room.long_text() } else { room.short_text() }) + listing(fixtures(room))
}

impl State {
    /// The state before anything is shown: in the center room, with no room
    /// left behind and none visited.
    pub open spec fn initial() -> State {
        State { location: Room::Center, prev_location: None, visited: Set::empty() }
    }

    /// Shows the room the player is in. With `Some(long)` the form is the one
    /// asked for and nothing changes. With `None` the room counts as entered:
    /// the long form is shown if the room was not visited before, the short
    /// form if it was, and the room is visited from now on.
    pub open spec fn show(self, long: Option<bool>) -> (State, Seq<char>) {
        match long {
            Some(long) => (self, display(self.location, long)),
            None => (
                State { visited: self.visited.insert(self.location), ..self },
                display(self.location, !self.visited.contains(self.location)),
            ),
        }
    }

    /// Moves the player to `room`: the room left becomes the previous one, and
    /// the new room is shown as entered.
    pub open spec fn move_to(self, room: Room) -> (State, Seq<char>) {
        (State { location: room, prev_location: Some(self.location), ..self }).show(None)
    }

    /// The reply that keeps the session going in `step.0` with the text
    /// `step.1`.
    pub open spec fn go_on(step: (State, Seq<char>)) -> Reply {
        Reply::Continue { state: step.0, text: step.1 }
    }

    /// What the game starts with: the center room, shown as entered.
    pub open spec fn start() -> Reply {
        Self::go_on(Self::initial().show(None))
    }

    /// What a command does.
    pub open spec fn perform(self, command: Command) -> Reply {
        match command {
            Command::Motion(m) => match travel(self.location, m) {
                Some(room) => Self::go_on(self.move_to(room)),
                None => Self::go_on((self, no_way_text())),
            },
            Command::Examine(None) => Self::go_on(self.show(Some(true))),
            Command::Examine(Some(e)) => if stands_in(e, self.location) {
                Self::go_on((self, e.examine_text()))
            } else {
                Self::go_on((self, not_here_text()))
            },
            Command::Read(None) => match readable_in(self.location) {
                Some(e) => Self::go_on((self, e.read_text()->0)),
                None => Self::go_on((self, nothing_to_read_text())),
            },
            Command::Read(Some(e)) => if !stands_in(e, self.location) {
                Self::go_on((self, not_here_text()))
            } else {
                match e.read_text() {
                    Some(text) => Self::go_on((self, text)),
                    None => Self::go_on((self, cannot_read_text())),
                }
            },
            Command::Back => match self.prev_location {
                Some(prev) => Self::go_on(self.move_to(prev)),
                None => Self::go_on((self, no_way_back_text())),
            },
            Command::Quit => Reply::Goodbye { text: farewell_text() },
            Command::Nop => Self::go_on((self, Seq::empty())),
        }
    }

    /// What a line of input does: what its command does, or, where the line
    /// is no command, nothing but the line that says why.
    pub open spec fn turn(self, line: Seq<char>) -> Reply {
        match parse_line(line) {
            Ok(command) => self.perform(command),
            Err(rejection) => Self::go_on((self, rejection.message_text())),
        }
    }
}

/// A game in progress.
#[derive(Clone, Debug, PartialEq, Eq)]
pub struct Game {
    location: Room,
    prev_location: Option<Room>,
    visited: [bool; 9],
}

/// Starts the game.
#[derive(Clone, Copy, Debug, PartialEq, Eq)]
pub struct Builder;

impl View for Game {
    type V = State;

    /// The state of the game.
    closed spec fn view(&self) -> State {
        State {
            location: self.location,
            prev_location: self.prev_location,
            visited: Set::new(|room: Room| self.visited[room.ordinal()]),
        }
    }
}

/// What an output says, over the state and the characters it holds.
pub open spec fn reply_of(out: Output<Game>) -> Reply {
    match out {
        Output::Continue { game, text } => Reply::Continue { state: game@, text: text@ },
        Output::Goodbye { text } => Reply::Goodbye { text: text@ },
    }
}

impl Game {
    /// A game before anything is shown.
    pub fn new() -> (game: Game)
        ensures
            game@ == State::initial(),
    {
        let game = Game { location: Room::Center, prev_location: None, visited: [false; 9] };
        assert(game@.visited =~= Set::empty());
        game
    }

    /// The room the player is in.
    pub fn location(&self) -> (room: Room)
        ensures
            room == self@.location,
    {
        self.location
    }

    /// The room the player came from; `None` until the first move.
    pub fn prev_location(&self) -> (room: Option<Room>)
        ensures
            room == self@.prev_location,
    {
        self.prev_location
    }

    /// Whether `room` has been shown as entered.
    pub fn has_visited(&self, room: Room) -> (seen: bool)
        ensures
            seen == self@.visited.contains(room),
    {
        self.visited[room.index()]
    }

    /// Shows the room the player is in; see [`State::show`].
    pub fn show_location(&mut self, long: Option<bool>) -> (text: String)
        ensures
            (final(self)@, text@) == old(self)@.show(long),
    {
        let long_form = match long {
            Some(long) => long,
            None => {
                let i = self.location.index();
                let fresh = !self.visited[i];
                self.visited[i] = true;
                assert(self@.visited =~= old(self)@.visited.insert(self.location)) by {
                    assert forall|room: Room|
                        self@.visited.contains(room) == old(self)@.visited.insert(
                            self.location,
                        ).contains(room) by {
                        crate::rooms::lemma_ordinal_tells_rooms_apart(room, self.location);
                    }
                }
                fresh
            },
        };
        let mut text = if long_form {
            self.location.long_description().to_owned()
        } else {
            self.location.short_description().to_owned()
        };
        let room = self.location;
        let all = Entity::all();
        let ghost here = |e: Entity| stands_in(e, room);
        let ghost head = text@;
        let mut i: usize = 0;
        assert(all@.take(0).filter(here) =~= Seq::<Entity>::empty()) by {
            reveal(Seq::filter);
        }
        while i < 9
            invariant
                i <= 9,
                all@ == Entity::every(),
                all@.len() == 9,
                here == (|e: Entity| stands_in(e, room)),
                text@ == head + listing(all@.take(i as int).filter(here)),
            decreases 9 - i,
        {
            let e = all[i];
            proof {
                let upto = all@.take(i as int + 1);
                assert(upto.drop_last() =~= all@.take(i as int));
                reveal(Seq::filter);
                if here(e) {
                    let kept = all@.take(i as int).filter(here).push(e);
                    assert(kept.drop_last() =~= all@.take(i as int).filter(here));
                    assert(head + (listing(kept.drop_last()) + "\n\n"@ + e.describe_text())
                        =~= head + listing(kept.drop_last()) + "\n\n"@ + e.describe_text());
                }
            }
            if is_in(e, room) {
                text.append("\n\n");
                text.append(e.describe());
            }
            i = i + 1;
        }
        assert(all@.take(9) =~= all@);
        text
    }

    /// Moves the player to `room`; see [`State::move_to`].
    pub fn move_to(&mut self, room: Room) -> (text: String)
        ensures
            (final(self)@, text@) == old(self)@.move_to(room),
    {
        self.prev_location = Some(self.location);
        self.location = room;
        self.show_location(None)
    }

    /// Does what `command` asks for. Every command but `Quit` keeps the
    /// session going; a command that cannot be done changes nothing and says
    /// why.
    pub fn perform(self, command: Command) -> (out: Output<Game>)
        ensures
            reply_of(out) == self@.perform(command),
    {
        let mut game = self;
        let text = match command {
            Command::Motion(m) => match destination(game.location, m) {
                Some(room) => game.move_to(room),
                None => "There's no way to go in that direction.".to_owned(),
            },
            Command::Examine(None) => game.show_location(Some(true)),
            Command::Examine(Some(e)) => {
                if is_in(e, game.location) {
                    e.examine().to_owned()
                } else {
                    "That isn't here.".to_owned()
                }
            },
            Command::Read(None) => match find_readable(game.location) {
                Some(e) => {
                    proof {
                        crate::world::lemma_one_readable_per_room(game.location, e);
                    }
                    match e.read() {
                        Some(text) => text.to_owned(),
                        None => "There's nothing here to read.".to_owned(),
                    }
                },
                None => "There's nothing here to read.".to_owned(),
            },
            Command::Read(Some(e)) => {
                if !is_in(e, game.location) {
                    "That isn't here.".to_owned()
                } else {
                    match e.read() {
                        Some(text) => text.to_owned(),
                        None => "You can't read that.".to_owned(),
                    }
                }
            },
            Command::Back => match game.prev_location {
                Some(prev) => game.move_to(prev),
                None => "You weren't anywhere else before here.".to_owned(),
            },
            Command::Quit => {
                return Output::Goodbye { text: "Be seeing you...".to_owned() };
            },
            Command::Nop => String::new(),
        };
        Output::Continue { game, text }
    }
}

impl GameEngine for Game {
    /// The answer is the one that [`State::turn`] gives.
    open spec fn answers(&self, input: Seq<char>, out: &Output<Game>) -> bool {
        reply_of(*out) == self@.turn(input)
    }

    /// Parses the line and does what it asks for; a line that is no command
    /// changes nothing and is answered with the reason.
    fn handle_input(self, input: &str) -> (out: Output<Game>) {
        match Command::parse(input) {
            Ok(command) => self.perform(command),
            Err(e) => {
                let text = e.message();
                Output::Continue { game: self, text }
            },
        }
    }
}

impl GameBuilder for Builder {
    type Engine = Game;

    /// The opening is the one that [`State::start`] gives.
    open spec fn opens(&self, out: &Output<Game>) -> bool {
        reply_of(*out) == State::start()
    }

    /// Starts in the center room and shows it as entered.
    fn start(self) -> (out: Output<Game>) {
        let mut game = Game::new();
        let text = game.show_location(None);
        Output::Continue { game, text }
    }
}

/// Whether `part` stands in `text` as a run of neighbouring characters.
pub open spec fn occurs_in(part: Seq<char>, text: Seq<char>) -> bool {
    exists|at: int|
        0 <= at && at + part.len() <= text.len() && #[trigger] text.subrange(
            at,
            at + part.len(),
        ) == part
}

/// The paragraph of each of `entities` stands in their listing.
pub proof fn lemma_listing_holds_each(entities: Seq<Entity>, i: int)
    requires
        0 <= i < entities.len(),
    ensures
        occurs_in("\n\n"@ + entities[i].describe_text(), listing(entities)),
    decreases entities.len(),
{
    let part = "\n\n"@ + entities[i].describe_text();
    let before = listing(entities.drop_last());
    let whole = listing(entities);
    if i == entities.len() - 1 {
        let at = before.len() as int;
        assert(whole.subrange(at, at + part.len()) =~= part);
    } else {
        lemma_listing_holds_each(entities.drop_last(), i);
        let at = choose|at: int|
            0 <= at && at + part.len() <= before.len() && #[trigger] before.subrange(
                at,
                at + part.len(),
            ) == part;
        assert(whole.subrange(at, at + part.len()) =~= before.subrange(at, at + part.len()));
    }
}

/// What is shown of a room names, after its description, exactly the entities
/// that the fixed placement maps to it: each of them has its paragraph in the
/// text, in either form, and the text is made of the description and those
/// paragraphs alone.
pub proof fn lemma_display_lists_what_stands_there(room: Room, long: bool, entity: Entity)
    ensures
        display(room, long) == (if long { room.long_text() } else { room.short_text() }) + listing(
            fixtures(room),
        ),
        fixtures(room).contains(entity) <==> stands_in(entity, room),
        stands_in(entity, room) ==> occurs_in(
            "\n\n"@ + entity.describe_text(),
            display(room, long),
        ),
{
    crate::world::lemma_fixture_iff_placed(room, entity);
    if stands_in(entity, room) {
        let here = fixtures(room);
        let i = choose|i: int| 0 <= i < here.len() && here[i] == entity;
        lemma_listing_holds_each(here, i);
        let part = "\n\n"@ + entity.describe_text();
        let tail = listing(here);
        let at = choose|at: int|
            0 <= at && at + part.len() <= tail.len() && #[trigger] tail.subrange(at, at + part.len())
                == part;
        let head = if long { room.long_text() } else { room.short_text() };
        let whole = display(room, long);
        assert(whole.subrange(head.len() + at, head.len() + at + part.len()) =~= tail.subrange(
            at,
            at + part.len(),
        ));
    }
}

/// A motion that the travel table does not hold for the player's room changes
/// nothing, and is answered with the same line in every room.
pub proof fn lemma_no_way_changes_nothing(state: State, motion: Motion)
    requires
        travel(state.location, motion) is None,
    ensures
        state.perform(Command::Motion(motion)) == (Reply::Continue { state, text: no_way_text() }),
{
}

/// Entering a room, by a motion that the travel table holds or by going back,
/// makes the room left the previous one, and shows the room entered in its
/// long form if it was not visited before and in its short form if it was.
/// The room entered is visited from then on, and no other room becomes so.
pub proof fn lemma_entering_a_room(state: State, command: Command, room: Room)
    requires
        (command matches Command::Motion(m) && travel(state.location, m) == Some(room)) || (command
            == Command::Back && state.prev_location == Some(room)),
    ensures
        state.perform(command) == (Reply::Continue {
            state: State {
                location: room,
                prev_location: Some(state.location),
                visited: state.visited.insert(room),
            },
            text: display(room, !state.visited.contains(room)),
        }),
{
}

/// Once a room has been entered, entering it again shows its short form.
pub proof fn lemma_second_visit_is_short(state: State, first: Room, second: Room)
    ensures
        state.move_to(first).0.move_to(first).1 == display(first, false),
        state.move_to(first).0.move_to(second).0.move_to(first).1 == display(first, false),
{
}

/// No command makes a visited room unvisited.
pub proof fn lemma_visited_rooms_stay_visited(state: State, command: Command, room: Room)
    requires
        state.visited.contains(room),
        state.perform(command) is Continue,
    ensures
        state.perform(command)->state.visited.contains(room),
{
}

/// Looking at the room shows its long form whether it was visited or not, and
/// changes nothing.
pub proof fn lemma_looking_shows_long_form(state: State)
    ensures
        state.perform(Command::Examine(None)) == (Reply::Continue {
            state,
            text: display(state.location, true),
        }),
{
}

/// Going back swaps the room the player is in with the room the player came
/// from, so going back twice leaves both as they were. After a move from `a`
/// to `b`, going back twice therefore ends in `b`, with `a` as the previous
/// room.
pub proof fn lemma_back_twice(state: State, motion: Motion)
    requires
        travel(state.location, motion) is Some,
    ensures
        ({
            let a = state.location;
            let b = travel(state.location, motion)->0;
            let moved = state.perform(Command::Motion(motion));
            let once = moved->state.perform(Command::Back);
            let twice = once->state.perform(Command::Back);
            &&& moved is Continue && once is Continue && twice is Continue
            &&& moved->state.location == b && moved->state.prev_location == Some(a)
            &&& once->state.location == a && once->state.prev_location == Some(b)
            &&& twice->state.location == b && twice->state.prev_location == Some(a)
        }),
{
}

/// Going back where there is a room to go back to swaps the two rooms.
pub proof fn lemma_back_swaps(state: State)
    requires
        state.prev_location is Some,
    ensures
        state.perform(Command::Back) is Continue,
        state.perform(Command::Back)->state.location == state.prev_location->0,
        state.perform(Command::Back)->state.prev_location == Some(state.location),
{
}

/// Examining or reading an entity that does not stand in the player's room
/// changes nothing and is answered with the line that it is not here,
/// whatever the entity is.
pub proof fn lemma_absent_entity_is_not_here(state: State, entity: Entity)
    requires
        !stands_in(entity, state.location),
    ensures
        state.perform(Command::Examine(Some(entity))) == (Reply::Continue {
            state,
            text: not_here_text(),
        }),
        state.perform(Command::Read(Some(entity))) == (Reply::Continue {
            state,
            text: not_here_text(),
        }),
{
}

/// Only entering a room changes the state: every other command, done or not,
/// leaves the room, the previous room and the visited rooms as they were.
pub proof fn lemma_other_commands_change_nothing(state: State, command: Command)
    requires
        !(command matches Command::Motion(m) && travel(state.location, m) is Some),
        !(command == Command::Back && state.prev_location is Some),
        command != Command::Quit,
    ensures
        state.perform(command) is Continue,
        state.perform(command)->state == state,
{
}

impl State {
    /// What holds of the state of every session from its start on: the room
    /// the player is in has been visited, and so has the room the player came
    /// from, which is another room.
    pub open spec fn settled(self) -> bool {
        &&& self.visited.contains(self.location)
        &&& self.prev_location matches Some(prev) ==> self.visited.contains(prev) && prev
            != self.location
    }
}

/// Every session starts settled, in the center room, with the long form of
/// that room as its first text.
pub proof fn lemma_start_is_settled()
    ensures
        State::start() == (Reply::Continue {
            state: State {
                location: Room::Center,
                prev_location: None,
                visited: set![Room::Center],
            },
            text: display(Room::Center, true),
        }),
        State::start()->state.settled(),
{
}

/// Every turn of a settled session leaves it settled, whatever the line.
pub proof fn lemma_turn_keeps_settled(state: State, line: Seq<char>)
    requires
        state.settled(),
        state.turn(line) is Continue,
    ensures
        state.turn(line)->state.settled(),
{
}

/// In a settled session going back shows the room in its short form: the
/// player has been there.
pub proof fn lemma_back_shows_short_form(state: State)
    requires
        state.settled(),
        state.prev_location is Some,
    ensures
        state.perform(Command::Back) is Continue,
        state.perform(Command::Back)->Continue_text == display(state.prev_location->0, false),
{
}

/// What is shown of a room is not empty and does not end with a line break.
pub proof fn lemma_display_ends_in_print(room: Room, long: bool)
    ensures
        display(room, long).len() > 0,
        !ends_with_break(display(room, long)),
{
    lemma_descriptions_end_in_print(room);
    let here = fixtures(room);
    if here.len() > 0 {
        lemma_entity_texts_end_in_print(here.last());
    }
}

/// No text of the game ends with a line break: not the text it starts with,
/// and not its answer to any line in any state.
pub proof fn lemma_no_text_ends_with_break(state: State, line: Seq<char>)
    ensures
        !ends_with_break(State::start()->Continue_text),
        match state.turn(line) {
            Reply::Continue { text, .. } => !ends_with_break(text),
            Reply::Goodbye { text } => !ends_with_break(text),
        },
{
    reveal_strlit("There's no way to go in that direction.");
    reveal_strlit("That isn't here.");
    reveal_strlit("You can't read that.");
    reveal_strlit("There's nothing here to read.");
    reveal_strlit("You weren't anywhere else before here.");
    reveal_strlit("Be seeing you...");
    reveal_strlit("I know what those words mean, but that sentence makes no sense.");
    reveal_strlit(" means.");
    lemma_display_ends_in_print(Room::Center, true);
    lemma_display_ends_in_print(state.location, true);
    match parse_line(line) {
        Ok(Command::Motion(m)) => {
            if travel(state.location, m) is Some {
                lemma_display_ends_in_print(travel(state.location, m)->0, true);
                lemma_display_ends_in_print(travel(state.location, m)->0, false);
            }
        },
        Ok(Command::Back) => {
            if state.prev_location is Some {
                lemma_display_ends_in_print(state.prev_location->0, true);
                lemma_display_ends_in_print(state.prev_location->0, false);
            }
        },
        Ok(Command::Examine(Some(e))) => {
            lemma_entity_texts_end_in_print(e);
        },
        Ok(Command::Read(Some(e))) => {
            lemma_entity_texts_end_in_print(e);
        },
        Ok(Command::Read(None)) => {
            if readable_in(state.location) is Some {
                let e = readable_in(state.location)->0;
                crate::world::lemma_one_readable_per_room(state.location, e);
                lemma_entity_texts_end_in_print(e);
            }
        },
        _ => {},
    }
}

/// The session ends on `Quit` and on nothing else.
pub proof fn lemma_only_quit_ends(state: State, command: Command)
    ensures
        state.perform(command) is Goodbye <==> command == Command::Quit,
        state.perform(Command::Quit) == (Reply::Goodbye { text: farewell_text() }),
{
}

/// A line that is no command changes nothing.
pub proof fn lemma_rejected_line_changes_nothing(state: State, line: Seq<char>)
    requires
        parse_line(line) is Err,
    ensures
        state.turn(line) == (Reply::Continue {
            state,
            text: parse_line(line)->Err_0.message_text(),
        }),
{
}

} // verus!
