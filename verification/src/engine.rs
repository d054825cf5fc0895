//! The session contract between a game and whatever drives it: how a game
//! starts, how it answers a line of input, and a driver that feeds it lines
//! one at a time and keeps the last text it showed.

use vstd::prelude::*;
use vstd::pervasive::{runtime_assert, unreached};
use vstd::std_specs::convert::FromSpecImpl;
use crate::interface::Interface;

verus! {

/// What a game hands back after a turn: the next state and a text, or a last
/// text when the session is over. The text does not end with a line break.
#[derive(Clone, Debug, PartialEq, Eq)]
pub enum Output<G> {
    Continue { game: G, text: String },
    Goodbye { text: String },
}

impl<G> Output<G> {
    /// The characters of the text.
    pub open spec fn shown(&self) -> Seq<char> {
        match self {
            Output::Continue { text, .. } => text@,
            Output::Goodbye { text } => text@,
        }
    }

    /// The game that goes on, if the session does.
    pub open spec fn next(&self) -> Option<G> {
        match self {
            Output::Continue { game, .. } => Some(*game),
            Output::Goodbye { .. } => None,
        }
    }

    /// The text to show.
    pub fn text(&self) -> (text: &str)
        ensures
            text@ == self.shown(),
    {
        match self {
            Output::Continue { text, .. } => text.as_str(),
            Output::Goodbye { text } => text.as_str(),
        }
    }

    /// The game that goes on; `None` once the session is over.
    pub fn into_game(self) -> (game: Option<G>)
        ensures
            game == self.next(),
    {
        if let Output::Continue { game, .. } = self {
            Some(game)
        } else {
            None
        }
    }
}

/// A game in progress.
pub trait GameEngine: Sized {
    /// Whether `out` is what this game answers to the line `input`.
    spec fn answers(&self, input: Seq<char>, out: &Output<Self>) -> bool;

    /// Plays one turn on one line of input.
    fn handle_input(self, input: &str) -> (out: Output<Self>)
        ensures
            self.answers(input@, &out),
    ;
}

/// Something that can start a game.
pub trait GameBuilder: Sized {
    type Engine: GameEngine;

    /// Whether `out` is the state and the text that the game starts with.
    spec fn opens(&self, out: &Output<Self::Engine>) -> bool;

    /// Starts the game.
    fn start(self) -> (out: Output<Self::Engine>)
        ensures
            self.opens(&out),
    ;
}

/// Lets the game answer what was read: a line is played as a turn, and the
/// end of the input ends the session.
pub fn answer_line<G: GameEngine>(game: G, line: Option<String>) -> (next: Option<Output<G>>)
    ensures
        line is None ==> next is None,
        line matches Some(text) ==> next is Some && game.answers(text@, &next->0),
{
    match line {
        Some(text) => Some(game.handle_input(text.as_str())),
        None => None,
    }
}

/// Whether a turn that finds the interface as `before`, with `current` to
/// show, can leave the interface as `after` and come to `step`.
///
/// The text of `current` is shown first. If that fails, the turn ends with the
/// error. If the game has said goodbye, the turn ends the session with
/// `Ok(None)` and nothing is read. Otherwise a line is asked for: an error
/// ends the turn with that error, the end of the input ends the session with
/// `Ok(None)`, and a line is answered by the game.
pub open spec fn turn_outcome<I: Interface, G: GameEngine>(
    before: I,
    current: Output<G>,
    after: I,
    step: Result<Option<Output<G>>, std::io::Error>,
) -> bool {
    exists|shown: Result<(), std::io::Error>, mid: I| #[trigger]
        before.shows(current.shown(), shown, &mid) && match shown {
            Err(e) => after == mid && step == Err::<Option<Output<G>>, std::io::Error>(e),
            Ok(_) => match current.next() {
                None => after == mid && step == Ok::<Option<Output<G>>, std::io::Error>(None),
                Some(game) => read_outcome(mid, game, after, step),
            },
        }
}

/// Whether asking the interface `before` for a line that `game` is to answer
/// can leave the interface as `after` and come to `step`.
pub open spec fn read_outcome<I: Interface, G: GameEngine>(
    before: I,
    game: G,
    after: I,
    step: Result<Option<Output<G>>, std::io::Error>,
) -> bool {
    exists|read: Result<Option<String>, std::io::Error>| #[trigger]
        before.reads(read, &after) && match read {
            Err(e) => step == Err::<Option<Output<G>>, std::io::Error>(e),
            Ok(None) => step == Ok::<Option<Output<G>>, std::io::Error>(None),
            Ok(Some(line)) => step matches Ok(Some(out)) && game.answers(line@, &out),
        }
}

/// Plays one turn on an interface: shows the pending text, and unless the
/// session is over reads a line and lets the game answer it. `Ok(None)` ends
/// the session: the game had said goodbye, or the input ended. An error of
/// the interface ends the turn at once, and is handed on as it is.
pub fn run_turn<I: Interface, G: GameEngine>(iface: &mut I, current: Output<G>) -> (step: Result<
    Option<Output<G>>,
    std::io::Error,
>)
    ensures
        turn_outcome(*old(iface), current, *final(iface), step),
{
    let shown = iface.show_output(current.text());
    let ghost mid = *iface;
    assert(old(iface).shows(current.shown(), shown, &mid));
    match shown {
        Ok(()) => {},
        Err(e) => {
            return Err(e);
        },
    }
    let game = match current.into_game() {
        Some(game) => game,
        None => {
            return Ok(None);
        },
    };
    let read = iface.get_input();
    assert(mid.reads(read, iface));
    match read {
        Ok(line) => Ok(answer_line(game, line)),
        Err(e) => Err(e),
    }
}

/// Drives a game by hand: feeds it one line at a time and keeps the text of
/// the last turn.
#[derive(Clone, Debug, PartialEq, Eq)]
pub struct Tester<G> {
    game: Option<G>,
    last_output: Option<String>,
}

impl<G: GameEngine> Tester<G> {
    /// The game in progress; `None` once it has said goodbye.
    pub closed spec fn current(&self) -> Option<G> {
        self.game
    }

    /// The text of the last turn; `None` before the first.
    pub closed spec fn last_text(&self) -> Option<String> {
        self.last_output
    }

    /// The characters of the text of the last turn.
    pub open spec fn shown(&self) -> Option<Seq<char>> {
        match self.last_text() {
            Some(text) => Some(text@),
            None => None,
        }
    }

    /// The output of the last turn; `None` before the first.
    pub open spec fn last(&self) -> Option<Output<G>> {
        match (self.last_text(), self.current()) {
            (Some(text), Some(game)) => Some(Output::Continue { game, text }),
            (Some(text), None) => Some(Output::Goodbye { text }),
            (None, _) => None,
        }
    }

    /// Starts a game and keeps what it opened with.
    pub fn start<B: GameBuilder<Engine = G>>(builder: B) -> (tester: Self)
        ensures
            tester.last() is Some,
            builder.opens(&tester.last()->0),
    {
        Tester::from(builder.start())
    }

    /// Plays one turn on `input` and keeps what the game answered.
    pub fn input(&mut self, input: &str)
        requires
            !old(self).done(),
        ensures
            final(self).last() is Some,
            old(self).current()->0.answers(input@, &final(self).last()->0),
    {
        let game = match self.game.take() {
            Some(game) => game,
            None => unreached(),
        };
        *self = Tester::from(game.handle_input(input));
    }

    /// Checks that the last turn showed exactly `output`.
    pub fn assert_output(&self, output: &str)
        requires
            self.shown() == Some(output@),
    {
        match &self.last_output {
            Some(prev) => {
                let expected = output.to_owned();
                runtime_assert(*prev == expected);
            },
            None => unreached(),
        }
    }

    /// The game in progress.
    pub fn game(&self) -> (game: &G)
        requires
            !self.done(),
        ensures
            self.current() == Some(*game),
    {
        match self.game.as_ref() {
            Some(game) => game,
            None => unreached(),
        }
    }

    /// Whether the game has said goodbye.
    #[verifier::when_used_as_spec(spec_done)]
    pub fn done(&self) -> (over: bool)
        ensures
            over == self.done(),
    {
        self.game.is_none()
    }

    /// Whether the game has said goodbye.
    pub open spec fn spec_done(&self) -> bool {
        self.current() is None
    }
}

impl<G: GameEngine> From<G> for Tester<G> {
    /// A driver for a game that has shown nothing yet.
    fn from(game: G) -> (tester: Tester<G>)
        ensures
            tester.current() == Some(game),
            tester.last_text() is None,
    {
        Tester { game: Some(game), last_output: None }
    }
}

impl<G: GameEngine> FromSpecImpl<G> for Tester<G> {
    open spec fn obeys_from_spec() -> bool {
        true
    }

    closed spec fn from_spec(game: G) -> Tester<G> {
        Tester { game: Some(game), last_output: None }
    }
}

impl<G: GameEngine> From<Output<G>> for Tester<G> {
    /// A driver that holds `output` as the last turn.
    fn from(output: Output<G>) -> (tester: Tester<G>)
        ensures
            tester.last() == Some(output),
    {
        let (game, last_output) = match output {
            Output::Continue { game, text } => (Some(game), Some(text)),
            Output::Goodbye { text } => (None, Some(text)),
        };
        Tester { game, last_output }
    }
}

impl<G: GameEngine> FromSpecImpl<Output<G>> for Tester<G> {
    open spec fn obeys_from_spec() -> bool {
        true
    }

    closed spec fn from_spec(output: Output<G>) -> Tester<G> {
        match output {
            Output::Continue { game, text } => Tester { game: Some(game), last_output: Some(text) },
            Output::Goodbye { text } => Tester { game: None, last_output: Some(text) },
        }
    }
}

} // verus!
