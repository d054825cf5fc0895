use walk::entities::Entity;
use walk::vocab::{Action, Command, CommandError, Motion, Word, WordError};

fn unknown(word: &str) -> Result<Command, CommandError> {
    Err(CommandError::Word(WordError(word.to_owned())))
}

#[test]
fn parse_command_examine() {
    assert_eq!("EXAMINE".parse::<Command>(), Ok(Command::Examine(None)));
}

#[test]
fn parse_command_examine_room() {
    assert_eq!("EXAMINE ROOM".parse::<Command>(), Ok(Command::Examine(None)));
}

#[test]
fn parse_command_look() {
    assert_eq!("LOOK".parse::<Command>(), Ok(Command::Examine(None)));
}

#[test]
fn parse_command_look_room() {
    assert_eq!("LOOK ROOM".parse::<Command>(), Ok(Command::Examine(None)));
}

#[test]
fn parse_command_look_at_room() {
    assert_eq!("LOOK AT ROOM".parse::<Command>(), Ok(Command::Examine(None)));
}

#[test]
fn parse_command_look_book() {
    assert_eq!("LOOK BOOK".parse::<Command>(), Ok(Command::Examine(Some(Entity::Books))));
}

#[test]
fn parse_command_look_at_book() {
    assert_eq!("LOOK AT BOOK".parse::<Command>(), Ok(Command::Examine(Some(Entity::Books))));
}

#[test]
fn parse_command_look_at_sign_book() {
    assert_eq!("LOOK @ BOOK".parse::<Command>(), Ok(Command::Examine(Some(Entity::Books))));
}

#[test]
fn parse_command_look_at_alone() {
    assert_eq!("LOOK AT".parse::<Command>(), Err(CommandError::BadGrammar));
}

#[test]
fn parse_command_examine_at() {
    assert_eq!("EXAMINE AT".parse::<Command>(), Err(CommandError::BadGrammar));
}

#[test]
fn parse_command_examine_at_room() {
    assert_eq!("EXAMINE AT ROOM".parse::<Command>(), Err(CommandError::BadGrammar));
}

#[test]
fn parse_command_examine_at_book() {
    assert_eq!("EXAMINE AT BOOK".parse::<Command>(), Err(CommandError::BadGrammar));
}

#[test]
fn empty_line_is_nop() {
    assert_eq!(Command::parse(""), Ok(Command::Nop));
    assert_eq!(Command::parse("   "), Ok(Command::Nop));
    assert_eq!(Command::parse("\t\r\n"), Ok(Command::Nop));
}

#[test]
fn single_motion_words() {
    assert_eq!(Command::parse("NORTH"), Ok(Command::Motion(Motion::North)));
    assert_eq!(Command::parse("EAST"), Ok(Command::Motion(Motion::East)));
    assert_eq!(Command::parse("SOUTH"), Ok(Command::Motion(Motion::South)));
    assert_eq!(Command::parse("WEST"), Ok(Command::Motion(Motion::West)));
}

#[test]
fn single_action_words() {
    assert_eq!(Command::parse("EXAMINE"), Ok(Command::Examine(None)));
    assert_eq!(Command::parse("READ"), Ok(Command::Read(None)));
    assert_eq!(Command::parse("BACK"), Ok(Command::Back));
    assert_eq!(Command::parse("QUIT"), Ok(Command::Quit));
}

#[test]
fn read_takes_an_entity() {
    assert_eq!(Command::parse("READ PLANS"), Ok(Command::Read(Some(Entity::SecretPlans))));
    assert_eq!(Command::parse("READ GRID"), Ok(Command::Read(Some(Entity::TicTacToe))));
    assert_eq!(Command::parse("READ ROOM"), Err(CommandError::BadGrammar));
    assert_eq!(Command::parse("READ AT BOOK"), Err(CommandError::BadGrammar));
}

#[test]
fn words_in_a_wrong_order_are_bad_grammar() {
    assert_eq!(Command::parse("AT"), Err(CommandError::BadGrammar));
    assert_eq!(Command::parse("ROOM"), Err(CommandError::BadGrammar));
    assert_eq!(Command::parse("BOOK"), Err(CommandError::BadGrammar));
    assert_eq!(Command::parse("NORTH SOUTH"), Err(CommandError::BadGrammar));
    assert_eq!(Command::parse("BOOK LOOK"), Err(CommandError::BadGrammar));
    assert_eq!(Command::parse("LOOK AT ROOM ROOM"), Err(CommandError::BadGrammar));
    assert_eq!(Command::parse("BACK BACK"), Err(CommandError::BadGrammar));
    assert_eq!(Command::parse("LOOK LOOK"), Err(CommandError::BadGrammar));
}

#[test]
fn case_is_ignored() {
    assert_eq!(Command::parse("north"), Ok(Command::Motion(Motion::North)));
    assert_eq!(Command::parse("NoRtH"), Ok(Command::Motion(Motion::North)));
    assert_eq!(Command::parse("look At bOOk"), Ok(Command::Examine(Some(Entity::Books))));
    assert_eq!(Command::parse("quit"), Ok(Command::Quit));
}

#[test]
fn only_ascii_case_is_folded() {
    // U+212A KELVIN SIGN lowers to `k` in Unicode, not in ASCII.
    assert_eq!(Command::parse("BAC\u{212a}"), unknown("BAC\u{212a}"));
    assert_eq!(Command::parse("LOO\u{212a}"), unknown("LOO\u{212a}"));
    // U+017F LATIN SMALL LETTER LONG S folds to `s` in Unicode, not in ASCII.
    assert_eq!(Command::parse("WE\u{17f}T"), unknown("WE\u{17f}T"));
}

#[test]
fn a_prefix_or_a_longer_word_is_unknown() {
    assert_eq!(Command::parse("NORT"), unknown("NORT"));
    assert_eq!(Command::parse("NORTHS"), unknown("NORTHS"));
    assert_eq!(Command::parse("N"), unknown("N"));
}

#[test]
fn white_space_separates_words() {
    assert_eq!(Command::parse("  LOOK\tAT \n BOOK  "), Ok(Command::Examine(Some(Entity::Books))));
    assert_eq!(Command::parse("LOOK\u{3000}AT\u{a0}BOOK"), Ok(Command::Examine(Some(Entity::Books))));
    assert_eq!(Command::parse("NORTH\n"), Ok(Command::Motion(Motion::North)));
    assert_eq!(Command::parse("LOOKAT BOOK"), unknown("LOOKAT"));
}

#[test]
fn unknown_word_is_kept_as_written() {
    assert_eq!(Command::parse("Xyzzy"), unknown("Xyzzy"));
    assert_eq!(Command::parse("  plugh  "), unknown("plugh"));
}

#[test]
fn first_unknown_word_is_reported() {
    assert_eq!(Command::parse("FOO BAR"), unknown("FOO"));
    assert_eq!(Command::parse("LOOK AT FOO BAR"), unknown("FOO"));
}

#[test]
fn unknown_word_comes_before_bad_grammar() {
    assert_eq!(Command::parse("EXAMINE AT FOO"), unknown("FOO"));
    assert_eq!(Command::parse("NORTH SOUTH EAST WEST FOO"), unknown("FOO"));
    assert_eq!(Command::parse("FOO NORTH"), unknown("FOO"));
}

#[test]
fn word_lookup() {
    assert_eq!(Word::lookup("north"), Ok(Word::Motion(Motion::North)));
    assert_eq!(Word::lookup("Examine"), Ok(Word::Action(Action::Examine)));
    assert_eq!(Word::lookup("look"), Ok(Word::Look));
    assert_eq!(Word::lookup("@"), Ok(Word::At));
    assert_eq!(Word::lookup("at"), Ok(Word::At));
    assert_eq!(Word::lookup("room"), Ok(Word::Room));
    assert_eq!(Word::lookup("books"), Ok(Word::Entity(Entity::Books)));
    assert_eq!(Word::lookup("photograph"), Ok(Word::Entity(Entity::PenguinPhoto)));
    assert_eq!("grid".parse::<Word>(), Ok(Word::Entity(Entity::TicTacToe)));
    assert_eq!(Word::lookup(""), Err(WordError(String::new())));
    assert_eq!(Word::lookup("NORTH "), Err(WordError("NORTH ".to_owned())));
}

#[test]
fn every_word_has_a_spelling_that_is_looked_up() {
    let mut words = vec![Word::Look, Word::At, Word::Room];
    for m in [Motion::North, Motion::East, Motion::South, Motion::West] {
        words.push(Word::Motion(m));
    }
    for a in [Action::Examine, Action::Read, Action::Back, Action::Quit] {
        words.push(Word::Action(a));
    }
    for e in Entity::all() {
        words.push(Word::Entity(e));
    }
    assert_eq!(words.len(), 20);
    for w in words {
        assert_eq!(Word::lookup(w.spelling()), Ok(w));
        assert_eq!(Word::lookup(&w.spelling().to_lowercase()), Ok(w));
    }
}

#[test]
fn action_alone_makes_its_command() {
    assert_eq!(Command::from(Action::Examine), Command::Examine(None));
    assert_eq!(Command::from(Action::Read), Command::Read(None));
    assert_eq!(Command::from(Action::Back), Command::Back);
    assert_eq!(Command::from(Action::Quit), Command::Quit);
}

#[test]
fn grammar_on_words() {
    assert_eq!(Command::from_words(&[]), Some(Command::Nop));
    assert_eq!(Command::from_words(&[Word::Look]), Some(Command::Examine(None)));
    assert_eq!(
        Command::from_words(&[Word::Look, Word::At, Word::Entity(Entity::Globe)]),
        Some(Command::Examine(Some(Entity::Globe)))
    );
    assert_eq!(
        Command::from_words(&[Word::Action(Action::Examine), Word::Entity(Entity::Mural)]),
        Some(Command::Examine(Some(Entity::Mural)))
    );
    assert_eq!(Command::from_words(&[Word::Action(Action::Read), Word::Room]), None);
    assert_eq!(Command::from_words(&[Word::At, Word::Look]), None);
    assert_eq!(Command::from_words(&[Word::Look, Word::At]), None);
    assert_eq!(
        Command::from_words(&[Word::Action(Action::Examine), Word::At, Word::Room]),
        None
    );
    assert_eq!(
        Command::from_words(&[Word::Look, Word::At, Word::Room, Word::Room]),
        None
    );
}

fn every_command() -> Vec<Command> {
    let mut commands = vec![
        Command::Examine(None),
        Command::Read(None),
        Command::Back,
        Command::Quit,
        Command::Nop,
    ];
    for m in [Motion::North, Motion::East, Motion::South, Motion::West] {
        commands.push(Command::Motion(m));
    }
    for e in Entity::all() {
        commands.push(Command::Examine(Some(e)));
        commands.push(Command::Read(Some(e)));
    }
    commands
}

#[test]
fn phrase_round_trip() {
    for c in every_command() {
        assert_eq!(Command::parse(&c.phrase()), Ok(c));
        assert_eq!(Command::parse(&c.phrase().to_lowercase()), Ok(c));
    }
}

#[test]
fn phrases_are_the_expected_lines() {
    assert_eq!(Command::Motion(Motion::North).phrase(), "NORTH");
    assert_eq!(Command::Examine(None).phrase(), "EXAMINE");
    assert_eq!(Command::Examine(Some(Entity::Books)).phrase(), "LOOK AT BOOKS");
    assert_eq!(Command::Read(None).phrase(), "READ");
    assert_eq!(Command::Read(Some(Entity::SecretPlans)).phrase(), "READ PLANS");
    assert_eq!(Command::Back.phrase(), "BACK");
    assert_eq!(Command::Quit.phrase(), "QUIT");
    assert_eq!(Command::Nop.phrase(), "");
}

#[test]
fn error_messages() {
    assert_eq!(
        CommandError::BadGrammar.message(),
        "I know what those words mean, but that sentence makes no sense."
    );
    assert_eq!(WordError("FOO".to_owned()).message(), "I don't know what \"FOO\" means.");
    assert_eq!(
        CommandError::Word(WordError("xyzzy".to_owned())).message(),
        "I don't know what \"xyzzy\" means."
    );
    // The word is quoted the way `{:?}` quotes a string.
    assert_eq!(WordError("a\"b".to_owned()).message(), "I don't know what \"a\\\"b\" means.");
    assert_eq!(WordError("a\\b".to_owned()).message(), "I don't know what \"a\\\\b\" means.");
    assert_eq!(
        WordError("z\u{7f}".to_owned()).message(),
        format!("I don't know what {:?} means.", "z\u{7f}")
    );
}
