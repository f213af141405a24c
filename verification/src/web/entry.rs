//! Typing a text into a field: bring it into view, focus it, clear what it
//! holds, then type character by character.

use vstd::prelude::*;
use vstd::string::*;
use crate::text::to_chars;
use crate::web::browser::{Command, CommandView, ElementRef, Key, Modifier, Step, StepView};

verus! {

/// How typing into a field ended.
#[derive(Debug, Clone, Copy, PartialEq, Eq, Structural)]
pub enum EntryOutcome {
    /// Every character was typed.
    Typed,
    /// The browser reported an error.
    Failed,
}

/// What the entry is waiting for.
#[derive(Debug, Clone, Copy, PartialEq, Eq, Structural)]
pub enum EntryPhase {
    Start,
    Scrolling,
    Clicking,
    /// Select-all was tried with this modifier.
    SelectingAll { modifier: Modifier },
    Deleting,
    Settling,
    /// This many characters have been sent.
    Typing { sent: usize },
    Finished,
}

/// The mathematical content of an entry.
pub struct EntryModel {
    pub element: ElementRef,
    pub text: Seq<char>,
    /// How long to wait between clearing and typing; zero for no wait.
    pub settle_ms: u64,
    pub phase: EntryPhase,
}

impl EntryModel {
    /// The answer that ends the entry.
    pub open spec fn finish(self, outcome: EntryOutcome) -> (EntryModel, StepView<EntryOutcome>) {
        (EntryModel { phase: EntryPhase::Finished, ..self }, StepView::Finished(outcome))
    }

    /// The answer that asks for a command and waits in `phase`.
    pub open spec fn run(self, command: CommandView, phase: EntryPhase) -> (
        EntryModel,
        StepView<EntryOutcome>,
    ) {
        (EntryModel { phase, ..self }, StepView::Run(command))
    }

    /// Type the character at index `sent`, or end when all are typed.
    pub open spec fn type_from(self, sent: usize) -> (EntryModel, StepView<EntryOutcome>) {
        if sent < self.text.len() {
            self.run(
                CommandView::SendCharacter { character: self.text[sent as int] },
                EntryPhase::Typing { sent: (sent + 1) as usize },
            )
        } else {
            self.finish(EntryOutcome::Typed)
        }
    }

    /// What follows the clearing of the field.
    pub open spec fn after_clear(self) -> (EntryModel, StepView<EntryOutcome>) {
        if self.settle_ms > 0 {
            self.run(CommandView::Sleep { millis: self.settle_ms }, EntryPhase::Settling)
        } else {
            self.type_from(0)
        }
    }

    /// The answer to a reply, of which only success or failure counts.
    /// Select-all is tried with Ctrl and then with Meta, since keyboards
    /// differ; that neither works is no error, nor is a failed delete.
    pub open spec fn next(self, ok: bool) -> (EntryModel, StepView<EntryOutcome>) {
        match self.phase {
            EntryPhase::Start => self.run(
                CommandView::ScrollIntoView { element: self.element },
                EntryPhase::Scrolling,
            ),
            EntryPhase::Scrolling => if ok {
                self.run(CommandView::Click { element: self.element }, EntryPhase::Clicking)
            } else {
                self.finish(EntryOutcome::Failed)
            },
            EntryPhase::Clicking => if ok {
                self.run(
                    CommandView::PressKey { key: Key::LetterA, modifier: Some(Modifier::Ctrl) },
                    EntryPhase::SelectingAll { modifier: Modifier::Ctrl },
                )
            } else {
                self.finish(EntryOutcome::Failed)
            },
            EntryPhase::SelectingAll { modifier } => if ok {
                self.run(
                    CommandView::PressKey { key: Key::Backspace, modifier: None },
                    EntryPhase::Deleting,
                )
            } else if modifier == Modifier::Ctrl {
                self.run(
                    CommandView::PressKey { key: Key::LetterA, modifier: Some(Modifier::Meta) },
                    EntryPhase::SelectingAll { modifier: Modifier::Meta },
                )
            } else {
                self.after_clear()
            },
            EntryPhase::Deleting => self.after_clear(),
            EntryPhase::Settling => self.type_from(0),
            EntryPhase::Typing { sent } => if ok {
                self.type_from(sent)
            } else {
                self.finish(EntryOutcome::Failed)
            },
            EntryPhase::Finished => self.finish(EntryOutcome::Failed),
        }
    }
}

/// The state machine that types one text into one field.
pub struct FieldEntry {
    element: ElementRef,
    text: Vec<char>,
    settle_ms: u64,
    phase: EntryPhase,
}

impl View for FieldEntry {
    type V = EntryModel;

    closed spec fn view(&self) -> EntryModel {
        EntryModel {
            element: self.element,
            text: self.text@,
            settle_ms: self.settle_ms,
            phase: self.phase,
        }
    }
}

impl FieldEntry {
    /// An entry that will type `text` into `element`.
    pub fn new(element: ElementRef, text: &str, settle_ms: u64) -> (e: Self)
        ensures
            e@ == (EntryModel { element, text: text@, settle_ms, phase: EntryPhase::Start }),
    {
        FieldEntry { element, text: to_chars(text), settle_ms, phase: EntryPhase::Start }
    }

    fn finish(&mut self, outcome: EntryOutcome) -> (step: Step<EntryOutcome>)
        ensures
            (final(self)@, step@) == old(self)@.finish(outcome),
    {
        self.phase = EntryPhase::Finished;
        Step::Finished(outcome)
    }

    fn run(&mut self, command: Command, phase: EntryPhase) -> (step: Step<EntryOutcome>)
        ensures
            (final(self)@, step@) == old(self)@.run(command@, phase),
    {
        self.phase = phase;
        Step::Run(command)
    }

    fn type_from(&mut self, sent: usize) -> (step: Step<EntryOutcome>)
        ensures
            (final(self)@, step@) == old(self)@.type_from(sent),
    {
        if sent < self.text.len() {
            let character = self.text[sent];
            self.run(Command::SendCharacter { character }, EntryPhase::Typing { sent: sent + 1 })
        } else {
            self.finish(EntryOutcome::Typed)
        }
    }

    fn after_clear(&mut self) -> (step: Step<EntryOutcome>)
        ensures
            (final(self)@, step@) == old(self)@.after_clear(),
    {
        if self.settle_ms > 0 {
            let millis = self.settle_ms;
            self.run(Command::Sleep { millis }, EntryPhase::Settling)
        } else {
            self.type_from(0)
        }
    }

    /// The next answer, given whether the last command succeeded. The first
    /// call starts the entry, whatever `ok` is.
    pub fn advance(&mut self, ok: bool) -> (step: Step<EntryOutcome>)
        ensures
            (final(self)@, step@) == old(self)@.next(ok),
    {
        let element = self.element;
        match self.phase {
            EntryPhase::Start => self.run(Command::ScrollIntoView { element }, EntryPhase::Scrolling),
            EntryPhase::Scrolling => if ok {
                self.run(Command::Click { element }, EntryPhase::Clicking)
            } else {
                self.finish(EntryOutcome::Failed)
            },
            EntryPhase::Clicking => if ok {
                self.run(
                    Command::PressKey { key: Key::LetterA, modifier: Some(Modifier::Ctrl) },
                    EntryPhase::SelectingAll { modifier: Modifier::Ctrl },
                )
            } else {
                self.finish(EntryOutcome::Failed)
            },
            EntryPhase::SelectingAll { modifier } => if ok {
                self.run(
                    Command::PressKey { key: Key::Backspace, modifier: None },
                    EntryPhase::Deleting,
                )
            } else if modifier == Modifier::Ctrl {
                self.run(
                    Command::PressKey { key: Key::LetterA, modifier: Some(Modifier::Meta) },
                    EntryPhase::SelectingAll { modifier: Modifier::Meta },
                )
            } else {
                self.after_clear()
            },
            EntryPhase::Deleting => self.after_clear(),
            EntryPhase::Settling => self.type_from(0),
            EntryPhase::Typing { sent } => if ok {
                self.type_from(sent)
            } else {
                self.finish(EntryOutcome::Failed)
            },
            EntryPhase::Finished => self.finish(EntryOutcome::Failed),
        }
    }
}

/// The characters that an entry has still to send.
pub open spec fn remaining(e: EntryModel) -> Seq<char> {
    match e.phase {
        EntryPhase::Typing { sent } => if sent <= e.text.len() {
            e.text.subrange(sent as int, e.text.len() as int)
        } else {
            Seq::empty()
        },
        EntryPhase::Finished => Seq::empty(),
        _ => e.text,
    }
}

/// The text is typed one character at a time and in order. Whatever state an
/// entry is in, its answer either sends the first of the characters that
/// remain, and that one is then gone, or sends no character and all remain.
/// It ends with `Typed` only when none remains.
pub proof fn lemma_sends_text_in_order(e: EntryModel, ok: bool)
    requires
        e.text.len() <= usize::MAX,
    ensures
        ({
            let (after, answer) = e.next(ok);
            &&& after.text == e.text
            &&& after.element == e.element
            &&& match answer {
                StepView::Run(CommandView::SendCharacter { character }) => {
                    &&& remaining(e).len() > 0
                    &&& character == remaining(e)[0]
                    &&& remaining(after) == remaining(e).drop_first()
                },
                StepView::Run(_) => remaining(after) == remaining(e),
                StepView::Finished(EntryOutcome::Typed) => remaining(e).len() == 0,
                StepView::Finished(EntryOutcome::Failed) => true,
            }
        }),
{
    let (after, answer) = e.next(ok);
    match answer {
        StepView::Run(CommandView::SendCharacter { character }) => {
            assert(remaining(after) =~= remaining(e).drop_first());
        },
        _ => {},
    }
}

/// Every command of an entry is aimed at the entry's own element, or at the
/// keyboard.
pub proof fn lemma_commands_stay_on_element(e: EntryModel, ok: bool)
    ensures
        match e.next(ok).1 {
            StepView::Run(CommandView::ScrollIntoView { element }) => element == e.element,
            StepView::Run(CommandView::Click { element }) => element == e.element,
            StepView::Run(CommandView::PressKey { .. }) => true,
            StepView::Run(CommandView::SendCharacter { .. }) => true,
            StepView::Run(CommandView::Sleep { millis }) => millis == e.settle_ms,
            StepView::Run(_) => false,
            StepView::Finished(_) => true,
        },
{
}

} // verus!
