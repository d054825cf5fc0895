use std::io;
use walk::engine::{run_turn, GameBuilder, Output, Tester};
use walk::game::{Builder, Game};
use walk::interface::{after_line, after_read, Interface, ReadEvent, ReadStep, Spacing};
use walk::rooms::Room;

#[test]
fn output_text_and_game() {
    let going: Output<u8> = Output::Continue { game: 7, text: "on".to_owned() };
    assert_eq!(going.text(), "on");
    assert_eq!(going.into_game(), Some(7));
    let over: Output<u8> = Output::Goodbye { text: "bye".to_owned() };
    assert_eq!(over.text(), "bye");
    assert_eq!(over.into_game(), None);
}

#[test]
fn tester_from_a_game_has_shown_nothing() {
    let t = Tester::from(Game::new());
    assert!(!t.done());
    assert_eq!(t.game().location(), Room::Center);
    assert_eq!(t, Tester::from(Game::new()));
}

#[test]
fn tester_from_an_output() {
    let mut t = Tester::from(Builder.start());
    t.assert_output(
        "You are in the center room.  Doors lead out in all cardinal directions.\n\nThere is a tick-tac-toe grid carved into the floor.",
    );
    t.input("QUIT");
    assert!(t.done());
    let over: Tester<Game> = Tester::from(Output::Goodbye { text: "bye".to_owned() });
    assert!(over.done());
    over.assert_output("bye");
}

#[test]
fn spacing_of_a_line_front_end() {
    let s = Spacing::new();
    assert_eq!(s, Spacing { wrote_prompt: false, wrote_last_output: false });
    // The opening text stands at the top, with no line before it.
    let (s, written) = s.output("Hello.");
    assert_eq!(written, "Hello.\n");
    // A blank line parts the text from the prompt.
    let (s, lead) = s.lead();
    assert_eq!(lead, "\n");
    assert_eq!(Spacing::prompt(), "> ");
    assert_eq!(s, Spacing { wrote_prompt: true, wrote_last_output: true });
    // After the player's line, a blank line and the answer.
    let (s, written) = s.output("You are here.");
    assert_eq!(written, "\nYou are here.\n");
    let (s, lead) = s.lead();
    assert_eq!(lead, "\n");
    // A turn without text writes no line of its own.
    let (s, written) = s.output("");
    assert_eq!(written, "\n");
    assert_eq!(s, Spacing { wrote_prompt: true, wrote_last_output: false });
    let (s, lead) = s.lead();
    assert_eq!(lead, "");
    let (_, written) = s.output("Bye.");
    assert_eq!(written, "\nBye.\n");
}

#[test]
fn spacing_before_the_first_prompt() {
    let (s, written) = Spacing::new().output("");
    assert_eq!(written, "");
    let (_, lead) = s.lead();
    assert_eq!(lead, "");
    let s = Spacing::after_text();
    assert_eq!(s, Spacing { wrote_prompt: false, wrote_last_output: true });
    let (s, lead) = s.lead();
    assert_eq!(lead, "\n");
    assert!(s.wrote_prompt);
}

#[test]
fn what_follows_a_read() {
    assert!(matches!(after_read(ReadEvent::Line("NORTH".to_owned())), ReadStep::Deliver(Some(l)) if l == "NORTH"));
    assert!(matches!(after_read(ReadEvent::Eof), ReadStep::Deliver(None)));
    assert!(matches!(after_read(ReadEvent::Interrupted), ReadStep::Deliver(None)));
    assert!(matches!(after_read(ReadEvent::Signal), ReadStep::Retry));
}

#[test]
fn what_follows_a_line() {
    assert_eq!(after_line(6, "NORTH\n".to_owned()), (Some("NORTH\n".to_owned()), ""));
    assert_eq!(after_line(1, "\n".to_owned()), (Some("\n".to_owned()), ""));
    assert_eq!(after_line(0, String::new()), (None, "\n"));
}

struct Script {
    lines: Vec<&'static str>,
    next: usize,
    shown: Vec<String>,
    reads: usize,
    fail_on_show: bool,
}

impl Script {
    fn new(lines: Vec<&'static str>) -> Script {
        Script { lines, next: 0, shown: Vec::new(), reads: 0, fail_on_show: false }
    }
}

impl Interface for Script {
    fn show_output(&mut self, text: &str) -> io::Result<()> {
        if self.fail_on_show {
            return Err(io::Error::new(io::ErrorKind::BrokenPipe, "closed"));
        }
        self.shown.push(text.to_owned());
        Ok(())
    }

    fn get_input(&mut self) -> io::Result<Option<String>> {
        self.reads += 1;
        let line = self.lines.get(self.next).map(|l| (*l).to_owned());
        self.next += 1;
        Ok(line)
    }
}

#[test]
fn a_turn_shows_then_reads_then_answers() {
    let mut script = Script::new(vec!["NORTH", "QUIT"]);
    let first = run_turn(&mut script, Builder.start()).unwrap().unwrap();
    assert_eq!(script.shown.len(), 1);
    assert!(script.shown[0].starts_with("You are in the center room."));
    assert_eq!(first.text(), "You are in the north room.  It is very cold here.\n\nA globe stands in the middle of the room.");
    let second = run_turn(&mut script, first).unwrap().unwrap();
    assert_eq!(second.text(), "Be seeing you...");
    assert_eq!(script.reads, 2);
    // The farewell is shown, and no line is read after it.
    assert!(run_turn(&mut script, second).unwrap().is_none());
    assert_eq!(script.shown.len(), 3);
    assert_eq!(script.shown[2], "Be seeing you...");
    assert_eq!(script.reads, 2);
}

#[test]
fn a_turn_ends_the_session_at_the_end_of_input() {
    let mut script = Script::new(vec![]);
    assert!(run_turn(&mut script, Builder.start()).unwrap().is_none());
    assert_eq!(script.shown.len(), 1);
    assert_eq!(script.reads, 1);
}

#[test]
fn a_turn_hands_on_the_error_of_the_interface() {
    let mut script = Script::new(vec!["NORTH"]);
    script.fail_on_show = true;
    let err = run_turn(&mut script, Builder.start()).unwrap_err();
    assert_eq!(err.kind(), io::ErrorKind::BrokenPipe);
    assert_eq!(script.reads, 0);
}

#[test]
fn a_read_line_is_answered_and_the_end_of_input_is_not() {
    let next = walk::engine::answer_line(Game::new(), Some("NORTH".to_owned())).unwrap();
    assert!(next.text().starts_with("You are in the north room."));
    assert_eq!(next.into_game().unwrap().location(), Room::North);
    assert!(walk::engine::answer_line(Game::new(), None).is_none());
    let over = walk::engine::answer_line(Game::new(), Some("QUIT\n".to_owned())).unwrap();
    assert_eq!(over.text(), "Be seeing you...");
    assert!(over.into_game().is_none());
}
