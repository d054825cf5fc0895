//! The fixed objects of the map and what the player learns from them.

use vstd::prelude::*;
use crate::text::ends_with_break;

verus! {

/// An object that stands in one room and can be examined, and sometimes read.
#[derive(Clone, Copy, Debug, PartialEq, Eq, Structural, Hash, PartialOrd, Ord)]
pub enum Entity {
    Banquet,
    Books,
    Cushions,
    Globe,
    Mural,
    Painting,
    PenguinPhoto,
    SecretPlans,
    TicTacToe,
}

impl Entity {
    /// Every entity, in the order in which a room lists what stands in it.
    pub open spec fn every() -> Seq<Entity> {
        seq![
            Entity::Banquet,
            Entity::Books,
            Entity::Cushions,
            Entity::Globe,
            Entity::Mural,
            Entity::Painting,
            Entity::PenguinPhoto,
            Entity::SecretPlans,
            Entity::TicTacToe,
        ]
    }

    /// The paragraph added to the description of the room that holds the entity.
    pub open spec fn describe_text(self) -> Seq<char> {
        match self {
            Entity::Banquet => "A banquet was set here, but someone has already eaten everything."@,
            Entity::Books => "The walls are lined with shelves packed with books."@,
            Entity::Cushions => "There are numerous comfortable chairs here, and the floor is covered in cushions."@,
            Entity::Globe => "A globe stands in the middle of the room."@,
            Entity::Mural => "A mural of the rising sun decorates the wall."@,
            Entity::Painting => "A painting of a full moon rests on an easel."@,
            Entity::PenguinPhoto => "A photograph of a penguin couple hangs on the wall."@,
            Entity::SecretPlans => "Secret plans for more games are scattered about!"@,
            Entity::TicTacToe => "There is a tick-tac-toe grid carved into the floor."@,
        }
    }

    /// What the player sees on examining the entity.
    pub open spec fn examine_text(self) -> Seq<char> {
        match self {
            Entity::Banquet => "Judging by the crumbs, the meal was chicken nuggets."@,
            Entity::Books => "You've never heard of any of these titles before, but they all sound interesting!"@,
            Entity::Cushions => "The longer you stare at the cushioning, the more you want to just collapse into it."@,
            Entity::Globe => "Wait, that's not Earth.  Where am I?"@,
            Entity::Mural => "I don't know much about art, but it certainly looks fancy.  I think it's Art Nouveau?  Art Deco?  Something like that."@,
            Entity::Painting => "There is nothing to describe, except the moon, still bright against the worrying sky."@,
            Entity::PenguinPhoto => "The penguins are grumpy-looking but are clearly in love."@,
            Entity::SecretPlans => "The plans are all written in code.  You can't make heads or tails of them."@,
            Entity::TicTacToe => "X and O are locked in a dead heat."@,
        }
    }

    /// What the player reads in the entity; `None` where there is nothing to read.
    pub open spec fn read_text(self) -> Option<Seq<char>> {
        match self {
            Entity::Books => Some("You sit and read for a while."@),
            Entity::SecretPlans => Some(
                "The plans are all written in code.  You can't make heads or tails of them."@,
            ),
            _ => None,
        }
    }

    /// Whether the entity can be read.
    pub open spec fn readable(self) -> bool {
        self.read_text() is Some
    }

    /// The entities as a list, in the order of [`Entity::every`].
    pub fn all() -> (list: [Entity; 9])
        ensures
            list@ == Entity::every(),
    {
        let list = [
            Entity::Banquet,
            Entity::Books,
            Entity::Cushions,
            Entity::Globe,
            Entity::Mural,
            Entity::Painting,
            Entity::PenguinPhoto,
            Entity::SecretPlans,
            Entity::TicTacToe,
        ];
        list
    }

    /// The paragraph added to the description of the room that holds the entity.
    pub fn describe(&self) -> (text: &'static str)
        ensures
            text@ == self.describe_text(),
    {
        match self {
            Entity::Banquet => "A banquet was set here, but someone has already eaten everything.",
            Entity::Books => "The walls are lined with shelves packed with books.",
            Entity::Cushions => "There are numerous comfortable chairs here, and the floor is covered in cushions.",
            Entity::Globe => "A globe stands in the middle of the room.",
            Entity::Mural => "A mural of the rising sun decorates the wall.",
            Entity::Painting => "A painting of a full moon rests on an easel.",
            Entity::PenguinPhoto => "A photograph of a penguin couple hangs on the wall.",
            Entity::SecretPlans => "Secret plans for more games are scattered about!",
            Entity::TicTacToe => "There is a tick-tac-toe grid carved into the floor.",
        }
    }

    /// What the player sees on examining the entity.
    pub fn examine(&self) -> (text: &'static str)
        ensures
            text@ == self.examine_text(),
    {
        match self {
            Entity::Banquet => "Judging by the crumbs, the meal was chicken nuggets.",
            Entity::Books => "You've never heard of any of these titles before, but they all sound interesting!",
            Entity::Cushions => "The longer you stare at the cushioning, the more you want to just collapse into it.",
            Entity::Globe => "Wait, that's not Earth.  Where am I?",
            Entity::Mural => "I don't know much about art, but it certainly looks fancy.  I think it's Art Nouveau?  Art Deco?  Something like that.",
            Entity::Painting => "There is nothing to describe, except the moon, still bright against the worrying sky.",
            Entity::PenguinPhoto => "The penguins are grumpy-looking but are clearly in love.",
            Entity::SecretPlans => "The plans are all written in code.  You can't make heads or tails of them.",
            Entity::TicTacToe => "X and O are locked in a dead heat.",
        }
    }

    /// What the player reads in the entity; `None` where there is nothing to read.
    pub fn read(&self) -> (text: Option<&'static str>)
        ensures
            text is Some == self.readable(),
            text matches Some(t) ==> self.read_text() == Some(t@),
    {
        match self {
            Entity::Books => Some("You sit and read for a while."),
            Entity::SecretPlans => Some(
                "The plans are all written in code.  You can't make heads or tails of them.",
            ),
            _ => None,
        }
    }
}

/// Every entity occurs in [`Entity::every`], and none occurs twice.
pub proof fn lemma_every_entity_listed(e: Entity)
    ensures
        Entity::every().contains(e),
        Entity::every().no_duplicates(),
        Entity::every().len() == 9,
{
    let all = Entity::every();
    match e {
        Entity::Banquet => assert(all[0] == e),
        Entity::Books => assert(all[1] == e),
        Entity::Cushions => assert(all[2] == e),
        Entity::Globe => assert(all[3] == e),
        Entity::Mural => assert(all[4] == e),
        Entity::Painting => assert(all[5] == e),
        Entity::PenguinPhoto => assert(all[6] == e),
        Entity::SecretPlans => assert(all[7] == e),
        Entity::TicTacToe => assert(all[8] == e),
    }
}

/// No text of an entity is empty, and none ends with a line break.
pub proof fn lemma_entity_texts_end_in_print(e: Entity)
    ensures
        e.describe_text().len() > 0,
        e.examine_text().len() > 0,
        !ends_with_break(e.describe_text()),
        !ends_with_break(e.examine_text()),
        e.read_text() matches Some(text) ==> text.len() > 0 && !ends_with_break(text),
{
    reveal_strlit("A banquet was set here, but someone has already eaten everything.");
    reveal_strlit("The walls are lined with shelves packed with books.");
    reveal_strlit("There are numerous comfortable chairs here, and the floor is covered in cushions.");
    reveal_strlit("A globe stands in the middle of the room.");
    reveal_strlit("A mural of the rising sun decorates the wall.");
    reveal_strlit("A painting of a full moon rests on an easel.");
    reveal_strlit("A photograph of a penguin couple hangs on the wall.");
    reveal_strlit("Secret plans for more games are scattered about!");
    reveal_strlit("There is a tick-tac-toe grid carved into the floor.");
    reveal_strlit("Judging by the crumbs, the meal was chicken nuggets.");
    reveal_strlit("You've never heard of any of these titles before, but they all sound interesting!");
    reveal_strlit("The longer you stare at the cushioning, the more you want to just collapse into it.");
    reveal_strlit("Wait, that's not Earth.  Where am I?");
    reveal_strlit("I don't know much about art, but it certainly looks fancy.  I think it's Art Nouveau?  Art Deco?  Something like that.");
    reveal_strlit("There is nothing to describe, except the moon, still bright against the worrying sky.");
    reveal_strlit("The penguins are grumpy-looking but are clearly in love.");
    reveal_strlit("The plans are all written in code.  You can't make heads or tails of them.");
    reveal_strlit("X and O are locked in a dead heat.");
    reveal_strlit("You sit and read for a while.");
}

} // verus!
