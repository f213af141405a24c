//! The browser and the operator, as seen from the state machines: commands to
//! carry out and the replies they bring.

use vstd::prelude::*;
use vstd::string::*;
use crate::web::login::{Notice, Transition};

verus! {

/// A modifier key held while another key is pressed.
#[derive(Debug, Clone, Copy, PartialEq, Eq, Structural)]
pub enum Modifier {
    Ctrl,
    Meta,
}

/// A key of the keyboard.
#[derive(Debug, Clone, Copy, PartialEq, Eq, Structural)]
pub enum Key {
    /// The letter A, which selects everything when pressed with a modifier.
    LetterA,
    Backspace,
    Enter,
}

/// The name of a key in the browser's keyboard layout.
pub open spec fn key_name(key: Key) -> Seq<char> {
    match key {
        Key::LetterA => "KeyA"@,
        Key::Backspace => "Backspace"@,
        Key::Enter => "Enter"@,
    }
}

impl Key {
    /// The name of this key in the browser's keyboard layout.
    pub fn name(&self) -> (r: &'static str)
        ensures
            r@ == key_name(*self),
    {
        match self {
            Key::LetterA => "KeyA",
            Key::Backspace => "Backspace",
            Key::Enter => "Enter",
        }
    }
}

/// An element of the page that an earlier command has found.
#[derive(Debug, Clone, Copy, PartialEq, Eq, Structural)]
pub enum ElementRef {
    /// The element that the last successful `WaitForElement` located.
    Located,
    /// The element at this index among those that the last `FindElements`
    /// counted.
    Listed(usize),
}

/// Something to carry out.
#[derive(Debug, Clone)]
pub enum Command {
    /// Launch the browser with this profile directory and open a tab.
    OpenTab { profile_dir: String },
    Navigate { url: String },
    WaitUntilNavigated,
    ReadUrl,
    Sleep { millis: u64 },
    /// Evaluate a script in the page; the reply is its value where that is a
    /// string.
    Evaluate { script: String },
    /// Wait until an element matches the selector, at most this long.
    WaitForElement { selector: String, timeout_ms: u64 },
    /// Count the elements that match the selector.
    FindElements { selector: String },
    InnerText { element: ElementRef },
    Attribute { element: ElementRef, name: String },
    ScrollIntoView { element: ElementRef },
    Click { element: ElementRef },
    PressKey { key: Key, modifier: Option<Modifier> },
    /// Type one character into the focused element. The character may be
    /// part of a password: whoever carries the command out keeps it out of
    /// logs.
    SendCharacter { character: char },
    /// Tell the operator something.
    Announce { notice: Notice },
    /// Tell the operator that this checkpoint is skipped.
    TellSkipped { number: usize, transition: Transition },
    /// Show this checkpoint and wait for the operator's acknowledgment.
    AskOperator { number: usize, transition: Transition },
}

/// The mathematical content of a command.
pub enum CommandView {
    OpenTab { profile_dir: Seq<char> },
    Navigate { url: Seq<char> },
    WaitUntilNavigated,
    ReadUrl,
    Sleep { millis: u64 },
    Evaluate { script: Seq<char> },
    WaitForElement { selector: Seq<char>, timeout_ms: u64 },
    FindElements { selector: Seq<char> },
    InnerText { element: ElementRef },
    Attribute { element: ElementRef, name: Seq<char> },
    ScrollIntoView { element: ElementRef },
    Click { element: ElementRef },
    PressKey { key: Key, modifier: Option<Modifier> },
    SendCharacter { character: char },
    Announce { notice: Notice },
    TellSkipped { number: usize, transition: Transition },
    AskOperator { number: usize, transition: Transition },
}

impl View for Command {
    type V = CommandView;

    open spec fn view(&self) -> CommandView {
        match *self {
            Command::OpenTab { profile_dir } => CommandView::OpenTab { profile_dir: profile_dir@ },
            Command::Navigate { url } => CommandView::Navigate { url: url@ },
            Command::WaitUntilNavigated => CommandView::WaitUntilNavigated,
            Command::ReadUrl => CommandView::ReadUrl,
            Command::Sleep { millis } => CommandView::Sleep { millis },
            Command::Evaluate { script } => CommandView::Evaluate { script: script@ },
            Command::WaitForElement { selector, timeout_ms } => CommandView::WaitForElement {
                selector: selector@,
                timeout_ms,
            },
            Command::FindElements { selector } => CommandView::FindElements {
                selector: selector@,
            },
            Command::InnerText { element } => CommandView::InnerText { element },
            Command::Attribute { element, name } => CommandView::Attribute {
                element,
                name: name@,
            },
            Command::ScrollIntoView { element } => CommandView::ScrollIntoView { element },
            Command::Click { element } => CommandView::Click { element },
            Command::PressKey { key, modifier } => CommandView::PressKey { key, modifier },
            Command::SendCharacter { character } => CommandView::SendCharacter { character },
            Command::Announce { notice } => CommandView::Announce { notice },
            Command::TellSkipped { number, transition } => CommandView::TellSkipped {
                number,
                transition,
            },
            Command::AskOperator { number, transition } => CommandView::AskOperator {
                number,
                transition,
            },
        }
    }
}

/// What a command brought.
#[derive(Debug, Clone)]
pub enum Reply {
    /// The command succeeded; for a wait, the element is there.
    Done,
    /// The command reported an error; for a wait, the time ran out.
    Failed,
    Url(String),
    Text(String),
    /// The value of a script, where it is a string.
    Value(Option<String>),
    /// The value of an attribute, where the element has it.
    Attribute(Option<String>),
    /// How many elements were found.
    Count(usize),
}

/// The mathematical content of a reply.
pub enum ReplyView {
    Done,
    Failed,
    Url(Seq<char>),
    Text(Seq<char>),
    Value(Option<Seq<char>>),
    Attribute(Option<Seq<char>>),
    Count(usize),
}

impl View for Reply {
    type V = ReplyView;

    open spec fn view(&self) -> ReplyView {
        match *self {
            Reply::Done => ReplyView::Done,
            Reply::Failed => ReplyView::Failed,
            Reply::Url(s) => ReplyView::Url(s@),
            Reply::Text(s) => ReplyView::Text(s@),
            Reply::Value(v) => ReplyView::Value(
                match v {
                    Some(s) => Some(s@),
                    None => None,
                },
            ),
            Reply::Attribute(v) => ReplyView::Attribute(
                match v {
                    Some(s) => Some(s@),
                    None => None,
                },
            ),
            Reply::Count(n) => ReplyView::Count(n),
        }
    }
}

impl Reply {
    /// Whether the command succeeded without a value.
    pub fn is_done(&self) -> (r: bool)
        ensures
            r == (self@ is Done),
    {
        match self {
            Reply::Done => true,
            _ => false,
        }
    }
}

/// One answer of a state machine: a command to carry out, or the end with an
/// outcome.
#[derive(Debug)]
pub enum Step<T> {
    Run(Command),
    Finished(T),
}

/// The mathematical content of an answer.
pub enum StepView<T> {
    Run(CommandView),
    Finished(T),
}

impl<T> View for Step<T> {
    type V = StepView<T>;

    open spec fn view(&self) -> StepView<T> {
        match *self {
            Step::Run(c) => StepView::Run(c@),
            Step::Finished(t) => StepView::Finished(t),
        }
    }
}

} // verus!
