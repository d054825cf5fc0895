//! The words the game knows: what a word of the player's input stands for,
//! and the commands that words make.

use vstd::prelude::*;
use crate::entities::Entity;
use crate::text::{debug_string, debug_text, eq_ignoring_case, is_space, same_word};

verus! {

/// A direction of travel.
#[derive(Clone, Copy, Debug, PartialEq, Eq, Structural, Hash, PartialOrd, Ord)]
pub enum Motion {
    North,
    East,
    South,
    West,
}

/// A verb that makes a command by itself.
#[derive(Clone, Copy, Debug, PartialEq, Eq, Structural, Hash, PartialOrd, Ord)]
pub enum Action {
    Examine,
    Read,
    Back,
    Quit,
}

/// What one word of the player's input stands for.
#[derive(Clone, Copy, Debug, PartialEq, Eq, Hash, PartialOrd, Ord)]
pub enum Word {
    Motion(Motion),
    Action(Action),
    Entity(Entity),
    Look,
    At,
    Room,
}

/// What the player asks for. `None` in `Examine` and `Read` stands for the
/// room the player is in.
#[derive(Clone, Copy, Debug, PartialEq, Eq, Hash, PartialOrd, Ord)]
pub enum Command {
    Motion(Motion),
    Examine(Option<Entity>),
    Read(Option<Entity>),
    Back,
    Quit,
    Nop,
}

/// A word that the vocabulary does not hold, kept as the player wrote it.
#[derive(Clone, Debug, PartialEq, Eq)]
pub struct WordError(pub String);

/// Why a line of input is no command.
#[derive(Clone, Debug, PartialEq, Eq)]
pub enum CommandError {
    /// Every word is known, but together they match no pattern.
    BadGrammar,
    /// A word is not in the vocabulary.
    Word(WordError),
}

/// Why a line of input is no command, over the characters of the input.
pub enum Rejection {
    BadGrammar,
    UnknownWord(Seq<char>),
}

/// The vocabulary table: the word that the spelling `s` stands for, whatever
/// the case of its ASCII letters, or `None` for a spelling the game does not
/// know.
pub open spec fn vocabulary(s: Seq<char>) -> Option<Word> {
    if same_word(s, "NORTH"@) {
        Some(Word::Motion(Motion::North))
    } else if same_word(s, "EAST"@) {
        Some(Word::Motion(Motion::East))
    } else if same_word(s, "SOUTH"@) {
        Some(Word::Motion(Motion::South))
    } else if same_word(s, "WEST"@) {
        Some(Word::Motion(Motion::West))
    } else if same_word(s, "EXAMINE"@) {
        Some(Word::Action(Action::Examine))
    } else if same_word(s, "READ"@) {
        Some(Word::Action(Action::Read))
    } else if same_word(s, "BACK"@) {
        Some(Word::Action(Action::Back))
    } else if same_word(s, "QUIT"@) {
        Some(Word::Action(Action::Quit))
    } else if same_word(s, "LOOK"@) {
        Some(Word::Look)
    } else if same_word(s, "AT"@) || same_word(s, "@"@) {
        Some(Word::At)
    } else if same_word(s, "ROOM"@) {
        Some(Word::Room)
    } else if same_word(s, "BANQUET"@) {
        Some(Word::Entity(Entity::Banquet))
    } else if same_word(s, "BOOKS"@) || same_word(s, "BOOK"@) {
        Some(Word::Entity(Entity::Books))
    } else if same_word(s, "CUSHIONS"@) {
        Some(Word::Entity(Entity::Cushions))
    } else if same_word(s, "GLOBE"@) {
        Some(Word::Entity(Entity::Globe))
    } else if same_word(s, "MURAL"@) {
        Some(Word::Entity(Entity::Mural))
    } else if same_word(s, "PAINTING"@) {
        Some(Word::Entity(Entity::Painting))
    } else if same_word(s, "PHOTO"@) || same_word(s, "PHOTOGRAPH"@) {
        Some(Word::Entity(Entity::PenguinPhoto))
    } else if same_word(s, "PLANS"@) {
        Some(Word::Entity(Entity::SecretPlans))
    } else if same_word(s, "GRID"@) {
        Some(Word::Entity(Entity::TicTacToe))
    } else {
        None
    }
}

impl WordError {
    /// The word as the player wrote it.
    pub open spec fn word(&self) -> Seq<char> {
        self.0@
    }

    /// The line that tells the player that the word is unknown.
    pub open spec fn message_text(word: Seq<char>) -> Seq<char> {
        "I don't know what "@ + debug_text(word) + " means."@
    }

    /// The line that tells the player that the word is unknown: the word is
    /// quoted as `{:?}` writes it.
    pub fn message(&self) -> (text: String)
        ensures
            text@ == Self::message_text(self.word()),
    {
        let mut text = "I don't know what ".to_owned();
        let quoted = debug_string(self.0.as_str());
        text.append(quoted.as_str());
        text.append(" means.");
        text
    }
}

impl Rejection {
    /// The line shown to the player.
    pub open spec fn message_text(self) -> Seq<char> {
        match self {
            Rejection::BadGrammar => "I know what those words mean, but that sentence makes no sense."@,
            Rejection::UnknownWord(word) => WordError::message_text(word),
        }
    }
}

impl View for CommandError {
    type V = Rejection;

    /// The error over the characters of the word it holds.
    open spec fn view(&self) -> Rejection {
        match self {
            CommandError::BadGrammar => Rejection::BadGrammar,
            CommandError::Word(e) => Rejection::UnknownWord(e.word()),
        }
    }
}

impl CommandError {
    /// The line shown to the player.
    pub fn message(&self) -> (text: String)
        ensures
            text@ == self@.message_text(),
    {
        match self {
            CommandError::BadGrammar => "I know what those words mean, but that sentence makes no sense.".to_owned(),
            CommandError::Word(e) => e.message(),
        }
    }
}

impl Word {
    /// Looks one word of input up in the vocabulary. An unknown word comes
    /// back in the error, exactly as it was written.
    pub fn lookup(s: &str) -> (found: Result<Word, WordError>)
        ensures
            match found {
                Ok(word) => vocabulary(s@) == Some(word),
                Err(e) => vocabulary(s@) is None && e.word() == s@,
            },
    {
        if eq_ignoring_case(s, "NORTH") {
            Ok(Word::Motion(Motion::North))
        } else if eq_ignoring_case(s, "EAST") {
            Ok(Word::Motion(Motion::East))
        } else if eq_ignoring_case(s, "SOUTH") {
            Ok(Word::Motion(Motion::South))
        } else if eq_ignoring_case(s, "WEST") {
            Ok(Word::Motion(Motion::West))
        } else if eq_ignoring_case(s, "EXAMINE") {
            Ok(Word::Action(Action::Examine))
        } else if eq_ignoring_case(s, "READ") {
            Ok(Word::Action(Action::Read))
        } else if eq_ignoring_case(s, "BACK") {
            Ok(Word::Action(Action::Back))
        } else if eq_ignoring_case(s, "QUIT") {
            Ok(Word::Action(Action::Quit))
        } else if eq_ignoring_case(s, "LOOK") {
            Ok(Word::Look)
        } else if eq_ignoring_case(s, "AT") || eq_ignoring_case(s, "@") {
            Ok(Word::At)
        } else if eq_ignoring_case(s, "ROOM") {
            Ok(Word::Room)
        } else if eq_ignoring_case(s, "BANQUET") {
            Ok(Word::Entity(Entity::Banquet))
        } else if eq_ignoring_case(s, "BOOKS") || eq_ignoring_case(s, "BOOK") {
            Ok(Word::Entity(Entity::Books))
        } else if eq_ignoring_case(s, "CUSHIONS") {
            Ok(Word::Entity(Entity::Cushions))
        } else if eq_ignoring_case(s, "GLOBE") {
            Ok(Word::Entity(Entity::Globe))
        } else if eq_ignoring_case(s, "MURAL") {
            Ok(Word::Entity(Entity::Mural))
        } else if eq_ignoring_case(s, "PAINTING") {
            Ok(Word::Entity(Entity::Painting))
        } else if eq_ignoring_case(s, "PHOTO") || eq_ignoring_case(s, "PHOTOGRAPH") {
            Ok(Word::Entity(Entity::PenguinPhoto))
        } else if eq_ignoring_case(s, "PLANS") {
            Ok(Word::Entity(Entity::SecretPlans))
        } else if eq_ignoring_case(s, "GRID") {
            Ok(Word::Entity(Entity::TicTacToe))
        } else {
            Err(WordError(s.to_owned()))
        }
    }
}

impl std::str::FromStr for Word {
    type Err = WordError;

    /// Looks one word up; see [`Word::lookup`].
    fn from_str(s: &str) -> (found: Result<Word, WordError>)
        ensures
            match found {
                Ok(word) => vocabulary(s@) == Some(word),
                Err(e) => vocabulary(s@) is None && e.word() == s@,
            },
    {
        Word::lookup(s)
    }
}

impl Word {
    /// The spelling by which the word is written out.
    pub open spec fn spelling_text(self) -> Seq<char> {
        match self {
            Word::Motion(Motion::North) => "NORTH"@,
            Word::Motion(Motion::East) => "EAST"@,
            Word::Motion(Motion::South) => "SOUTH"@,
            Word::Motion(Motion::West) => "WEST"@,
            Word::Action(Action::Examine) => "EXAMINE"@,
            Word::Action(Action::Read) => "READ"@,
            Word::Action(Action::Back) => "BACK"@,
            Word::Action(Action::Quit) => "QUIT"@,
            Word::Look => "LOOK"@,
            Word::At => "AT"@,
            Word::Room => "ROOM"@,
            Word::Entity(Entity::Banquet) => "BANQUET"@,
            Word::Entity(Entity::Books) => "BOOKS"@,
            Word::Entity(Entity::Cushions) => "CUSHIONS"@,
            Word::Entity(Entity::Globe) => "GLOBE"@,
            Word::Entity(Entity::Mural) => "MURAL"@,
            Word::Entity(Entity::Painting) => "PAINTING"@,
            Word::Entity(Entity::PenguinPhoto) => "PHOTO"@,
            Word::Entity(Entity::SecretPlans) => "PLANS"@,
            Word::Entity(Entity::TicTacToe) => "GRID"@,
        }
    }
}

impl Word {
    /// The spelling by which the word is written out.
    pub fn spelling(&self) -> (text: &'static str)
        ensures
            text@ == self.spelling_text(),
    {
        match self {
            Word::Motion(Motion::North) => "NORTH",
            Word::Motion(Motion::East) => "EAST",
            Word::Motion(Motion::South) => "SOUTH",
            Word::Motion(Motion::West) => "WEST",
            Word::Action(Action::Examine) => "EXAMINE",
            Word::Action(Action::Read) => "READ",
            Word::Action(Action::Back) => "BACK",
            Word::Action(Action::Quit) => "QUIT",
            Word::Look => "LOOK",
            Word::At => "AT",
            Word::Room => "ROOM",
            Word::Entity(Entity::Banquet) => "BANQUET",
            Word::Entity(Entity::Books) => "BOOKS",
            Word::Entity(Entity::Cushions) => "CUSHIONS",
            Word::Entity(Entity::Globe) => "GLOBE",
            Word::Entity(Entity::Mural) => "MURAL",
            Word::Entity(Entity::Painting) => "PAINTING",
            Word::Entity(Entity::PenguinPhoto) => "PHOTO",
            Word::Entity(Entity::SecretPlans) => "PLANS",
            Word::Entity(Entity::TicTacToe) => "GRID",
        }
    }
}

/// Each word's spelling is in the vocabulary and stands for that word; it has
/// a character and none of them is white space.
pub proof fn lemma_spelling_is_known(word: Word)
    ensures
        vocabulary(word.spelling_text()) == Some(word),
        word.spelling_text().len() > 0,
        forall|k: int| 0 <= k < word.spelling_text().len() ==> !is_space(
            #[trigger] word.spelling_text()[k],
        ),
{
    reveal_strlit("NORTH");
    reveal_strlit("EAST");
    reveal_strlit("SOUTH");
    reveal_strlit("WEST");
    reveal_strlit("EXAMINE");
    reveal_strlit("READ");
    reveal_strlit("BACK");
    reveal_strlit("QUIT");
    reveal_strlit("LOOK");
    reveal_strlit("AT");
    reveal_strlit("@");
    reveal_strlit("ROOM");
    reveal_strlit("BANQUET");
    reveal_strlit("BOOKS");
    reveal_strlit("BOOK");
    reveal_strlit("CUSHIONS");
    reveal_strlit("GLOBE");
    reveal_strlit("MURAL");
    reveal_strlit("PAINTING");
    reveal_strlit("PHOTO");
    reveal_strlit("PHOTOGRAPH");
    reveal_strlit("PLANS");
    reveal_strlit("GRID");
    let s = word.spelling_text();
    match word {
        Word::Motion(Motion::North) => {
            assert(s[0] == 'N' && s[1] == 'O' && s[2] == 'R' && s[3] == 'T' && s[4] == 'H');
        },
        Word::Motion(Motion::East) => {
            assert(s[0] == 'E' && s[1] == 'A' && s[2] == 'S' && s[3] == 'T');
        },
        Word::Motion(Motion::South) => {
            assert(s[0] == 'S' && s[1] == 'O' && s[2] == 'U' && s[3] == 'T' && s[4] == 'H');
        },
        Word::Motion(Motion::West) => {
            assert(s[0] == 'W' && s[1] == 'E' && s[2] == 'S' && s[3] == 'T');
        },
        Word::Action(Action::Examine) => {
            assert(
                s[0] == 'E' && s[1] == 'X' && s[2] == 'A' && s[3] == 'M' && s[4] == 'I'
                    && s[5] == 'N' && s[6] == 'E'
            );
        },
        Word::Action(Action::Read) => {
            assert(s[0] == 'R' && s[1] == 'E' && s[2] == 'A' && s[3] == 'D');
        },
        Word::Action(Action::Back) => {
            assert(s[0] == 'B' && s[1] == 'A' && s[2] == 'C' && s[3] == 'K');
        },
        Word::Action(Action::Quit) => {
            assert(s[0] == 'Q' && s[1] == 'U' && s[2] == 'I' && s[3] == 'T');
        },
        Word::Look => {
            assert(s[0] == 'L' && s[1] == 'O' && s[2] == 'O' && s[3] == 'K');
        },
        Word::At => {
            assert(s[0] == 'A' && s[1] == 'T');
        },
        Word::Room => {
            assert(s[0] == 'R' && s[1] == 'O' && s[2] == 'O' && s[3] == 'M');
        },
        Word::Entity(Entity::Banquet) => {
            assert(
                s[0] == 'B' && s[1] == 'A' && s[2] == 'N' && s[3] == 'Q' && s[4] == 'U'
                    && s[5] == 'E' && s[6] == 'T'
            );
        },
        Word::Entity(Entity::Books) => {
            assert(s[0] == 'B' && s[1] == 'O' && s[2] == 'O' && s[3] == 'K' && s[4] == 'S');
        },
        Word::Entity(Entity::Cushions) => {
            assert(
                s[0] == 'C' && s[1] == 'U' && s[2] == 'S' && s[3] == 'H' && s[4] == 'I'
                    && s[5] == 'O' && s[6] == 'N' && s[7] == 'S'
            );
        },
        Word::Entity(Entity::Globe) => {
            assert(s[0] == 'G' && s[1] == 'L' && s[2] == 'O' && s[3] == 'B' && s[4] == 'E');
        },
        Word::Entity(Entity::Mural) => {
            assert(s[0] == 'M' && s[1] == 'U' && s[2] == 'R' && s[3] == 'A' && s[4] == 'L');
        },
        Word::Entity(Entity::Painting) => {
            assert(
                s[0] == 'P' && s[1] == 'A' && s[2] == 'I' && s[3] == 'N' && s[4] == 'T'
                    && s[5] == 'I' && s[6] == 'N' && s[7] == 'G'
            );
        },
        Word::Entity(Entity::PenguinPhoto) => {
            assert(s[0] == 'P' && s[1] == 'H' && s[2] == 'O' && s[3] == 'T' && s[4] == 'O');
        },
        Word::Entity(Entity::SecretPlans) => {
            assert(s[0] == 'P' && s[1] == 'L' && s[2] == 'A' && s[3] == 'N' && s[4] == 'S');
        },
        Word::Entity(Entity::TicTacToe) => {
            assert(s[0] == 'G' && s[1] == 'R' && s[2] == 'I' && s[3] == 'D');
        },
    }
}

/// The vocabulary does not tell upper case from lower case: two spellings that
/// are the same word up to ASCII case stand for the same word, or are both
/// unknown.
pub proof fn lemma_vocabulary_ignores_case(a: Seq<char>, b: Seq<char>)
    requires
        same_word(a, b),
    ensures
        vocabulary(a) == vocabulary(b),
{
    lemma_same_spelling(a, b, "NORTH"@);
    lemma_same_spelling(a, b, "EAST"@);
    lemma_same_spelling(a, b, "SOUTH"@);
    lemma_same_spelling(a, b, "WEST"@);
    lemma_same_spelling(a, b, "EXAMINE"@);
    lemma_same_spelling(a, b, "READ"@);
    lemma_same_spelling(a, b, "BACK"@);
    lemma_same_spelling(a, b, "QUIT"@);
    lemma_same_spelling(a, b, "LOOK"@);
    lemma_same_spelling(a, b, "AT"@);
    lemma_same_spelling(a, b, "@"@);
    lemma_same_spelling(a, b, "ROOM"@);
    lemma_same_spelling(a, b, "BANQUET"@);
    lemma_same_spelling(a, b, "BOOKS"@);
    lemma_same_spelling(a, b, "BOOK"@);
    lemma_same_spelling(a, b, "CUSHIONS"@);
    lemma_same_spelling(a, b, "GLOBE"@);
    lemma_same_spelling(a, b, "MURAL"@);
    lemma_same_spelling(a, b, "PAINTING"@);
    lemma_same_spelling(a, b, "PHOTO"@);
    lemma_same_spelling(a, b, "PHOTOGRAPH"@);
    lemma_same_spelling(a, b, "PLANS"@);
    lemma_same_spelling(a, b, "GRID"@);
}

/// Two spellings of one word match the same entries of the vocabulary.
proof fn lemma_same_spelling(a: Seq<char>, b: Seq<char>, entry: Seq<char>)
    requires
        same_word(a, b),
    ensures
        same_word(a, entry) == same_word(b, entry),
{
    crate::text::lemma_same_word_is_equivalence(a, b, entry);
    crate::text::lemma_same_word_is_equivalence(b, a, entry);
}

} // verus!
