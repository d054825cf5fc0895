//! The boundary to the console: what a front end has to offer, and the rule
//! by which a front end spaces the game's texts and its prompts.

use vstd::prelude::*;

verus! {

/// The error of `std::io`, carried through unread.
#[verifier::external_type_specification]
#[verifier::external_body]
pub struct ExIoError(std::io::Error);

/// Something that can make an [`Interface`].
pub trait InterfaceBuilder: Sized {
    type Interface: Interface;

    /// Makes the interface.
    fn build_interface(self) -> Result<Self::Interface, std::io::Error>;
}

/// A front end: it shows the game's texts and reads the player's lines.
///
/// What a front end does with a text, and what it reads, is its own affair.
/// The two relations let a front end say it, so that a caller's contract can
/// speak of what was shown and what was read. A front end that says nothing
/// admits every outcome.
pub trait Interface {
    /// Whether showing `text` can take the front end from `self` to `after`
    /// with `result`.
    open spec fn shows(
        &self,
        text: Seq<char>,
        result: Result<(), std::io::Error>,
        after: &Self,
    ) -> bool {
        true
    }

    /// Whether asking for a line can take the front end from `self` to
    /// `after` with `result`.
    open spec fn reads(
        &self,
        result: Result<Option<String>, std::io::Error>,
        after: &Self,
    ) -> bool {
        true
    }

    /// Display the given text in the interface.
    fn show_output(&mut self, text: &str) -> (result: Result<(), std::io::Error>)
        ensures
            old(self).shows(text@, result, final(self)),
    ;

    /// Read a line of input from the interface.
    ///
    /// Returns `None` on end of input.
    fn get_input(&mut self) -> (result: Result<Option<String>, std::io::Error>)
        ensures
            old(self).reads(result, final(self)),
    ;
}

/// What a line-oriented front end remembers in order to put one blank line
/// between a text and the prompt that follows it, and none after a turn
/// without text.
#[derive(Clone, Copy, Debug, PartialEq, Eq, Structural)]
pub struct Spacing {
    /// A prompt was written, so the cursor stands behind the player's line.
    pub wrote_prompt: bool,
    /// The last turn showed a text.
    pub wrote_last_output: bool,
}

impl Spacing {
    /// The line break that ends the player's line, if a prompt was written.
    pub open spec fn line_end_text(self) -> Seq<char> {
        if self.wrote_prompt { "\n"@ } else { Seq::empty() }
    }

    /// What is written to show `text`: the end of the player's line, then the
    /// text and a line break. An empty text writes no line of its own.
    pub open spec fn output_text(self, text: Seq<char>) -> Seq<char> {
        self.line_end_text() + (if text.len() > 0 { text + "\n"@ } else { Seq::empty() })
    }

    /// The state after `text` was shown.
    pub open spec fn after_output(self, text: Seq<char>) -> Spacing {
        Spacing { wrote_prompt: self.wrote_prompt, wrote_last_output: text.len() > 0 }
    }

    /// What is written before the prompt: a blank line, if the last turn
    /// showed a text.
    pub open spec fn lead_text(self) -> Seq<char> {
        if self.wrote_last_output { "\n"@ } else { Seq::empty() }
    }

    /// The state after the prompt was written.
    pub open spec fn after_prompt(self) -> Spacing {
        Spacing { wrote_prompt: true, wrote_last_output: self.wrote_last_output }
    }

    /// The state of a front end that has written nothing yet.
    pub fn new() -> (spacing: Spacing)
        ensures
            spacing == (Spacing { wrote_prompt: false, wrote_last_output: false }),
    {
        Spacing { wrote_prompt: false, wrote_last_output: false }
    }

    /// The state of a front end whose first prompt is to stand off by a blank
    /// line, as though a text had just been shown.
    pub fn after_text() -> (spacing: Spacing)
        ensures
            spacing == (Spacing { wrote_prompt: false, wrote_last_output: true }),
    {
        Spacing { wrote_prompt: false, wrote_last_output: true }
    }

    /// The prompt that asks for the player's line.
    pub fn prompt() -> (text: &'static str)
        ensures
            text@ == "> "@,
    {
        "> "
    }

    /// What the front end writes to show `text`, and the state once it has
    /// written it.
    pub fn output(self, text: &str) -> (step: (Spacing, String))
        ensures
            step.0 == self.after_output(text@),
            step.1@ == self.output_text(text@),
    {
        let mut written = String::new();
        if self.wrote_prompt {
            written.append("\n");
        }
        let shown = text.unicode_len() > 0;
        if shown {
            written.append(text);
            written.append("\n");
        }
        (Spacing { wrote_prompt: self.wrote_prompt, wrote_last_output: shown }, written)
    }

    /// What the front end writes before its prompt, and the state once the
    /// prompt stands.
    pub fn lead(self) -> (step: (Spacing, &'static str))
        ensures
            step.0 == self.after_prompt(),
            step.1@ == self.lead_text(),
    {
        let lead = if self.wrote_last_output { "\n" } else { "" };
        proof {
            reveal_strlit("");
        }
        (Spacing { wrote_prompt: true, wrote_last_output: self.wrote_last_output }, lead)
    }
}

/// What an attempt to read the player's line came to, short of an error.
pub enum ReadEvent {
    /// A line was read.
    Line(String),
    /// The input has ended.
    Eof,
    /// The player interrupted the prompt.
    Interrupted,
    /// A signal cut the read short, such as the window being resized.
    Signal,
}

/// What the front end does after an attempt to read.
pub enum ReadStep {
    /// Hand this to the game; `None` says that the input has ended.
    Deliver(Option<String>),
    /// Ask again.
    Retry,
}

/// Decides what follows an attempt to read: a line is handed on as it is, the
/// end of the input and an interrupt both end the input, and after a signal
/// the front end asks again.
pub fn after_read(event: ReadEvent) -> (step: ReadStep)
    ensures
        step == (match event {
            ReadEvent::Line(line) => ReadStep::Deliver(Some(line)),
            ReadEvent::Eof => ReadStep::Deliver(None),
            ReadEvent::Interrupted => ReadStep::Deliver(None),
            ReadEvent::Signal => ReadStep::Retry,
        }),
{
    match event {
        ReadEvent::Line(line) => ReadStep::Deliver(Some(line)),
        ReadEvent::Eof => ReadStep::Deliver(None),
        ReadEvent::Interrupted => ReadStep::Deliver(None),
        ReadEvent::Signal => ReadStep::Retry,
    }
}

/// Decides what a read of `count` bytes into `line` means for a front end that
/// reads whole lines: nothing read is the end of the input, and then a line
/// break is written to end the line of the prompt; anything else is the
/// player's line, handed on as it was read, and nothing is written.
pub fn after_line(count: usize, line: String) -> (step: (Option<String>, &'static str))
    ensures
        count == 0 ==> step.0 is None && step.1@ == "\n"@,
        count != 0 ==> step.0 == Some(line) && step.1@ == Seq::<char>::empty(),
{
    if count != 0 {
        proof {
            reveal_strlit("");
        }
        (Some(line), "")
    } else {
        (None, "\n")
    }
}

/// A turn without text writes no line of its own: nothing before the first
/// prompt, after a prompt only the end of the player's line, and no blank
/// line before the prompt that follows.
pub proof fn lemma_empty_text_writes_no_line(spacing: Spacing)
    ensures
        spacing.output_text(Seq::empty()) == spacing.line_end_text(),
        spacing.after_output(Seq::empty()).lead_text() == Seq::<char>::empty(),
{
}

} // verus!
