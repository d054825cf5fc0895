//! The grammar: how a line of input becomes a command, and how a command is
//! written out as a line.

use vstd::prelude::*;
use vstd::std_specs::convert::FromSpecImpl;
use crate::text::is_space;
use crate::vocab::{
    lemma_spelling_is_known, vocabulary, Action, Command, CommandError, Rejection, Word,
};
use crate::words::{join_words, lemma_split_undoes_join, spellings, split_words, words_of};

verus! {

/// The command that an action makes when it stands alone.
pub open spec fn command_of(action: Action) -> Command {
    match action {
        Action::Examine => Command::Examine(None),
        Action::Read => Command::Read(None),
        Action::Back => Command::Back,
        Action::Quit => Command::Quit,
    }
}

impl From<Action> for Command {
    /// The command that the action makes when it stands alone.
    fn from(value: Action) -> (command: Command) {
        match value {
            Action::Examine => Command::Examine(None),
            Action::Read => Command::Read(None),
            Action::Back => Command::Back,
            Action::Quit => Command::Quit,
        }
    }
}

impl FromSpecImpl<Action> for Command {
    open spec fn obeys_from_spec() -> bool {
        true
    }

    open spec fn from_spec(value: Action) -> Command {
        command_of(value)
    }
}

/// The grammar: the command that a sequence of known words makes, or `None`
/// where the words make no sentence.
pub open spec fn grammar(words: Seq<Word>) -> Option<Command> {
    if words.len() == 0 {
        Some(Command::Nop)
    } else if words.len() == 1 {
        match words[0] {
            Word::Motion(m) => Some(Command::Motion(m)),
            Word::Action(a) => Some(command_of(a)),
            Word::Look => Some(Command::Examine(None)),
            _ => None,
        }
    } else if words.len() == 2 {
        match (words[0], words[1]) {
            (Word::Action(Action::Examine), Word::Room) => Some(Command::Examine(None)),
            (Word::Look, Word::Room) => Some(Command::Examine(None)),
            (Word::Action(Action::Examine), Word::Entity(e)) => Some(Command::Examine(Some(e))),
            (Word::Look, Word::Entity(e)) => Some(Command::Examine(Some(e))),
            (Word::Action(Action::Read), Word::Entity(e)) => Some(Command::Read(Some(e))),
            _ => None,
        }
    } else if words.len() == 3 {
        match (words[0], words[1], words[2]) {
            (Word::Look, Word::At, Word::Room) => Some(Command::Examine(None)),
            (Word::Look, Word::At, Word::Entity(e)) => Some(Command::Examine(Some(e))),
            _ => None,
        }
    } else {
        None
    }
}

/// The first of `spelled` that the vocabulary does not hold.
pub open spec fn first_unknown(spelled: Seq<Seq<char>>) -> Option<Seq<char>>
    decreases spelled.len(),
{
    if spelled.len() == 0 {
        None
    } else if vocabulary(spelled[0]) is None {
        Some(spelled[0])
    } else {
        first_unknown(spelled.drop_first())
    }
}

/// What each of `spelled` stands for, where the vocabulary holds them all.
pub open spec fn meanings(spelled: Seq<Seq<char>>) -> Seq<Word> {
    Seq::new(spelled.len(), |i: int| vocabulary(spelled[i])->0)
}

/// The command that a sequence of spelled words makes. An unknown word is
/// reported before the grammar is asked: the first one, as it is spelled.
pub open spec fn parse_words(spelled: Seq<Seq<char>>) -> Result<Command, Rejection> {
    match first_unknown(spelled) {
        Some(word) => Err(Rejection::UnknownWord(word)),
        None => match grammar(meanings(spelled)) {
            Some(command) => Ok(command),
            None => Err(Rejection::BadGrammar),
        },
    }
}

/// The command that a line of input makes.
pub open spec fn parse_line(line: Seq<char>) -> Result<Command, Rejection> {
    parse_words(split_words(line))
}

/// What a parse gave, over the characters of the input.
pub open spec fn parsed(result: Result<Command, CommandError>) -> Result<Command, Rejection> {
    match result {
        Ok(command) => Ok(command),
        Err(e) => Err(e@),
    }
}

impl Command {
    /// Matches a sequence of known words against the grammar.
    pub fn from_words(words: &[Word]) -> (command: Option<Command>)
        ensures
            command == grammar(words@),
    {
        let n = words.len();
        if n == 0 {
            Some(Command::Nop)
        } else if n == 1 {
            match words[0] {
                Word::Motion(m) => Some(Command::Motion(m)),
                Word::Action(a) => Some(Command::from(a)),
                Word::Look => Some(Command::Examine(None)),
                _ => None,
            }
        } else if n == 2 {
            match (words[0], words[1]) {
                (Word::Action(Action::Examine), Word::Room) => Some(Command::Examine(None)),
                (Word::Look, Word::Room) => Some(Command::Examine(None)),
                (Word::Action(Action::Examine), Word::Entity(e)) => Some(Command::Examine(Some(e))),
                (Word::Look, Word::Entity(e)) => Some(Command::Examine(Some(e))),
                (Word::Action(Action::Read), Word::Entity(e)) => Some(Command::Read(Some(e))),
                _ => None,
            }
        } else if n == 3 {
            match (words[0], words[1], words[2]) {
                (Word::Look, Word::At, Word::Room) => Some(Command::Examine(None)),
                (Word::Look, Word::At, Word::Entity(e)) => Some(Command::Examine(Some(e))),
                _ => None,
            }
        } else {
            None
        }
    }

    /// Parses one line of input. The line is split at white space and each
    /// word is looked up; the first unknown word ends the parse with
    /// `CommandError::Word`, whatever the other words are. Known words that
    /// make no sentence give `CommandError::BadGrammar`.
    pub fn parse(line: &str) -> (result: Result<Command, CommandError>)
        ensures
            parsed(result) == parse_line(line@),
    {
        let spelled = words_of(line);
        let mut words: Vec<Word> = Vec::new();
        let mut i: usize = 0;
        assert(spellings(spelled@).skip(0) =~= spellings(spelled@));
        while i < spelled.len()
            invariant
                i <= spelled@.len(),
                spellings(spelled@) == split_words(line@),
                words@.len() == i,
                forall|k: int|
                    0 <= k < i ==> vocabulary(#[trigger] spellings(spelled@)[k]) == Some(words@[k]),
                first_unknown(spellings(spelled@)) == first_unknown(
                    spellings(spelled@).skip(i as int),
                ),
            decreases spelled@.len() - i,
        {
            assert(spellings(spelled@).skip(i as int).drop_first() =~= spellings(spelled@).skip(
                i as int + 1,
            ));
            match Word::lookup(spelled[i]) {
                Ok(word) => {
                    words.push(word);
                },
                Err(e) => {
                    return Err(CommandError::Word(e));
                },
            }
            i = i + 1;
        }
        match Command::from_words(words.as_slice()) {
            Some(command) => Ok(command),
            None => Err(CommandError::BadGrammar),
        }
    }
}

impl std::str::FromStr for Command {
    type Err = CommandError;

    /// Parses one line of input; see [`Command::parse`].
    fn from_str(s: &str) -> (result: Result<Command, CommandError>)
        ensures
            parsed(result) == parse_line(s@),
    {
        Command::parse(s)
    }
}

impl Command {
    /// The words by which the command is written out.
    pub open spec fn sentence(self) -> Seq<Word> {
        match self {
            Command::Motion(m) => seq![Word::Motion(m)],
            Command::Examine(None) => seq![Word::Action(Action::Examine)],
            Command::Examine(Some(e)) => seq![Word::Look, Word::At, Word::Entity(e)],
            Command::Read(None) => seq![Word::Action(Action::Read)],
            Command::Read(Some(e)) => seq![Word::Action(Action::Read), Word::Entity(e)],
            Command::Back => seq![Word::Action(Action::Back)],
            Command::Quit => seq![Word::Action(Action::Quit)],
            Command::Nop => Seq::empty(),
        }
    }

    /// The spellings of the words by which the command is written out.
    pub open spec fn spelled(self) -> Seq<Seq<char>> {
        Seq::new(self.sentence().len(), |i: int| self.sentence()[i].spelling_text())
    }

    /// The line by which the command is written out: its words in their
    /// spellings, with a space between neighbours.
    pub open spec fn phrase_text(self) -> Seq<char> {
        join_words(self.spelled())
    }

    /// Writes the command out as a line that [`Command::parse`] reads back as
    /// the same command.
    pub fn phrase(&self) -> (text: String)
        ensures
            text@ == self.phrase_text(),
    {
        proof {
            reveal_with_fuel(join_words, 4);
            reveal_strlit(" ");
        }
        match self {
            Command::Motion(m) => Word::Motion(*m).spelling().to_owned(),
            Command::Examine(None) => Word::Action(Action::Examine).spelling().to_owned(),
            Command::Examine(Some(e)) => {
                let mut text = Word::Look.spelling().to_owned();
                text.append(" ");
                text.append(Word::At.spelling());
                text.append(" ");
                text.append(Word::Entity(*e).spelling());
                text
            },
            Command::Read(None) => Word::Action(Action::Read).spelling().to_owned(),
            Command::Read(Some(e)) => {
                let mut text = Word::Action(Action::Read).spelling().to_owned();
                text.append(" ");
                text.append(Word::Entity(*e).spelling());
                text
            },
            Command::Back => Word::Action(Action::Back).spelling().to_owned(),
            Command::Quit => Word::Action(Action::Quit).spelling().to_owned(),
            Command::Nop => String::new(),
        }
    }
}

/// The grammar reads each command's words back as that command.
pub proof fn lemma_grammar_reads_sentence(command: Command)
    ensures
        grammar(command.sentence()) == Some(command),
{
}

/// Parsing the line by which a command is written out gives that command
/// back.
pub proof fn lemma_parse_reads_phrase(command: Command)
    ensures
        parse_line(command.phrase_text()) == Ok::<Command, Rejection>(command),
{
    let spelled = command.spelled();
    assert forall|i: int| 0 <= i < spelled.len() implies (#[trigger] spelled[i]).len() > 0 by {
        lemma_spelling_is_known(command.sentence()[i]);
    }
    assert forall|i: int, k: int|
        0 <= i < spelled.len() && 0 <= k < spelled[i].len() implies !is_space(
        #[trigger] spelled[i][k],
    ) by {
        lemma_spelling_is_known(command.sentence()[i]);
    }
    lemma_split_undoes_join(spelled);
    assert forall|i: int| 0 <= i < spelled.len() implies vocabulary(#[trigger] spelled[i]) == Some(
        command.sentence()[i],
    ) by {
        lemma_spelling_is_known(command.sentence()[i]);
    }
    lemma_known_words_reach_grammar(spelled);
    lemma_grammar_reads_sentence(command);
}

/// Where the vocabulary holds every word, none is reported as unknown, and
/// the grammar decides.
pub proof fn lemma_known_words_reach_grammar(spelled: Seq<Seq<char>>)
    requires
        forall|i: int| 0 <= i < spelled.len() ==> vocabulary(#[trigger] spelled[i]) is Some,
    ensures
        first_unknown(spelled) is None,
        parse_words(spelled) == (match grammar(meanings(spelled)) {
            Some(command) => Ok::<Command, Rejection>(command),
            None => Err(Rejection::BadGrammar),
        }),
    decreases spelled.len(),
{
    if spelled.len() > 0 {
        let rest = spelled.drop_first();
        assert forall|i: int| 0 <= i < rest.len() implies vocabulary(#[trigger] rest[i]) is Some by {
            assert(rest[i] == spelled[i + 1]);
        }
        lemma_known_words_reach_grammar(rest);
    }
}

/// An unknown word is never answered with bad grammar: where a line holds a
/// word that the vocabulary does not hold, the parse reports the first such
/// word, as it is written, whatever the other words are.
pub proof fn lemma_unknown_word_wins(spelled: Seq<Seq<char>>, i: int)
    requires
        0 <= i < spelled.len(),
        vocabulary(spelled[i]) is None,
    ensures
        first_unknown(spelled) is Some,
        parse_words(spelled) == Err::<Command, Rejection>(
            Rejection::UnknownWord(first_unknown(spelled)->0),
        ),
        exists|j: int|
            0 <= j <= i && #[trigger] spelled[j] == first_unknown(spelled)->0 && vocabulary(
                spelled[j],
            ) is None && forall|k: int| 0 <= k < j ==> vocabulary(#[trigger] spelled[k]) is Some,
    decreases spelled.len(),
{
    if vocabulary(spelled[0]) is None {
        assert(spelled[0] == first_unknown(spelled)->0);
    } else {
        let rest = spelled.drop_first();
        lemma_unknown_word_wins(rest, i - 1);
        let j = choose|j: int|
            0 <= j <= i - 1 && #[trigger] rest[j] == first_unknown(rest)->0 && vocabulary(rest[j]) is None
                && forall|k: int| 0 <= k < j ==> vocabulary(#[trigger] rest[k]) is Some;
        assert forall|k: int| 0 <= k < j + 1 implies vocabulary(#[trigger] spelled[k]) is Some by {
            if k > 0 {
                assert(spelled[k] == rest[k - 1]);
            }
        }
    }
}

} // verus!
