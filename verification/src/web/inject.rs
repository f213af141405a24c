//! Credential injectors: each advances one login step in the page, by
//! clicking the button of a known account or by typing a credential into the
//! first field that one of an ordered list of selectors finds.

use vstd::prelude::*;
use vstd::string::*;
use crate::text::{contains, contains_text, is_blank, is_blank_text, lowercase, to_lowercase};
use crate::web::browser::{
    Command, CommandView, ElementRef, Key, Reply, ReplyView, Step, StepView,
};
use crate::web::entry::{
    lemma_sends_text_in_order, remaining, EntryModel, EntryOutcome, EntryPhase, FieldEntry,
};
use crate::web::login::{InjectorOutcome, ProviderStep};

verus! {

/// How long each selector of a credential field is given, in milliseconds.
pub const FIELD_TIMEOUT_MS: u64 = 5000;

/// How long the page body is given to appear, in milliseconds.
pub const BODY_TIMEOUT_MS: u64 = 2000;

/// How long the submit button is given after the user name, in milliseconds.
pub const USERNAME_SUBMIT_TIMEOUT_MS: u64 = 2000;

/// How long the submit button is given after the password, in milliseconds.
pub const PASSWORD_SUBMIT_TIMEOUT_MS: u64 = 3000;

/// The selectors tried for the field of `step`, in order of preference.
pub open spec fn field_selector_text(step: ProviderStep, index: int) -> Option<Seq<char>> {
    match step {
        ProviderStep::AtlassianUsername => if index == 0 {
            Some("input[data-testid=\"username\"]"@)
        } else if index == 1 {
            Some("input[name=\"username\"]"@)
        } else if index == 2 {
            Some("input#username"@)
        } else if index == 3 {
            Some("input[type=\"email\"]"@)
        } else {
            None
        },
        ProviderStep::MicrosoftUsername => if index == 0 {
            Some("input[name=\"loginfmt\"]"@)
        } else if index == 1 {
            Some("input#i0116"@)
        } else if index == 2 {
            Some("input[type=\"email\"]"@)
        } else {
            None
        },
        ProviderStep::MicrosoftPassword => if index == 0 {
            Some("input[name=\"passwd\"]"@)
        } else if index == 1 {
            Some("input#i0118"@)
        } else if index == 2 {
            Some("input[type=\"password\"]"@)
        } else {
            None
        },
        ProviderStep::AccountContinue => None,
    }
}

/// Whether a button offers to go on with the account of `username`: the
/// button's text or the page around it names the user, and the button's text
/// holds a call to action. Case is ignored.
pub open spec fn button_matches(text: Seq<char>, page_names_user: bool, username: Seq<char>) -> bool {
    &&& page_names_user || contains_text(lowercase(text), lowercase(username))
    &&& contains_text(lowercase(text), "continue"@) || contains_text(
        lowercase(text),
        "sign in"@,
    )
}

/// Whether the injector of `step` looks for the button of a known account
/// first. Every step that names the user does.
pub open spec fn scans_for_account(step: ProviderStep) -> bool {
    step != ProviderStep::MicrosoftPassword
}

/// What the injector is waiting for.
#[derive(Debug, Clone, Copy, PartialEq, Eq, Structural)]
pub enum InjectorPhase {
    Start,
    AwaitBody,
    AwaitBodyText,
    AwaitButtons,
    AwaitButtonText { index: usize, count: usize },
    AccountScroll { index: usize },
    AccountClick,
    AwaitField { candidate: usize },
    Entering,
    AwaitEnter,
    AwaitSubmitButton,
    SubmitScroll,
    SubmitClick,
    Finished,
}

/// The mathematical content of an injector.
pub struct InjectorModel {
    pub step: ProviderStep,
    /// The credential: the user name, or for the password step the password.
    pub text: Seq<char>,
    pub phase: InjectorPhase,
    /// Whether the page's text names the user.
    pub page_names_user: bool,
    pub entry: EntryModel,
}

impl InjectorModel {
    /// The injector of `step` for the credential `text`, before its first
    /// answer.
    pub open spec fn initial(step: ProviderStep, text: Seq<char>) -> InjectorModel {
        InjectorModel {
            step,
            text,
            phase: InjectorPhase::Start,
            page_names_user: false,
            entry: EntryModel {
                element: ElementRef::Located,
                text,
                settle_ms: 0,
                phase: EntryPhase::Start,
            },
        }
    }

    /// The answer that ends the injector with `outcome`.
    pub open spec fn finish(self, outcome: InjectorOutcome) -> (
        InjectorModel,
        StepView<InjectorOutcome>,
    ) {
        (InjectorModel { phase: InjectorPhase::Finished, ..self }, StepView::Finished(outcome))
    }

    /// The answer that asks for `command` and waits in `phase`.
    pub open spec fn run(self, command: CommandView, phase: InjectorPhase) -> (
        InjectorModel,
        StepView<InjectorOutcome>,
    ) {
        (InjectorModel { phase, ..self }, StepView::Run(command))
    }

    /// Wait for the field under selector `candidate`; with no selector left,
    /// the field is not there yet.
    pub open spec fn locate(self, candidate: int) -> (InjectorModel, StepView<InjectorOutcome>) {
        match field_selector_text(self.step, candidate) {
            Some(selector) => self.run(
                CommandView::WaitForElement { selector, timeout_ms: FIELD_TIMEOUT_MS },
                InjectorPhase::AwaitField { candidate: candidate as usize },
            ),
            None => self.finish(InjectorOutcome::NotReady),
        }
    }

    /// What follows when no button of a known account was found.
    pub open spec fn no_account(self) -> (InjectorModel, StepView<InjectorOutcome>) {
        if self.step == ProviderStep::AccountContinue {
            self.finish(InjectorOutcome::NotReady)
        } else {
            self.locate(0)
        }
    }

    /// Read the text of button `index` of `count`, or give up on buttons.
    pub open spec fn scan(self, index: int, count: usize) -> (
        InjectorModel,
        StepView<InjectorOutcome>,
    ) {
        if 0 <= index < count {
            self.run(
                CommandView::InnerText { element: ElementRef::Listed(index as usize) },
                InjectorPhase::AwaitButtonText { index: index as usize, count },
            )
        } else {
            self.no_account()
        }
    }

    /// What follows an answer of the entry: its command, or once the text is
    /// typed, Enter.
    pub open spec fn entered(self, r: (EntryModel, StepView<EntryOutcome>)) -> (
        InjectorModel,
        StepView<InjectorOutcome>,
    ) {
        let m = InjectorModel { entry: r.0, ..self };
        match r.1 {
            StepView::Run(command) => m.run(command, InjectorPhase::Entering),
            StepView::Finished(EntryOutcome::Typed) => m.run(
                CommandView::PressKey { key: Key::Enter, modifier: None },
                InjectorPhase::AwaitEnter,
            ),
            StepView::Finished(EntryOutcome::Failed) => m.finish(InjectorOutcome::Failed),
        }
    }

    /// The answer to a reply. A reply of another shape than the one asked for
    /// counts as a failure of the command. A step counts as filled in only
    /// when it was also sent off: by Enter, or by a click on the submit
    /// button or on the button of the account. Where Enter fails and there is
    /// no submit button, the step is not ready and may be tried again.
    pub open spec fn next(self, reply: ReplyView) -> (InjectorModel, StepView<InjectorOutcome>) {
        let ok = reply is Done;
        match self.phase {
            InjectorPhase::Start => if is_blank_text(self.text) {
                self.finish(InjectorOutcome::NotReady)
            } else if scans_for_account(self.step) {
                self.run(
                    CommandView::WaitForElement { selector: "body"@, timeout_ms: BODY_TIMEOUT_MS },
                    InjectorPhase::AwaitBody,
                )
            } else {
                self.locate(0)
            },
            InjectorPhase::AwaitBody => if ok {
                self.run(
                    CommandView::InnerText { element: ElementRef::Located },
                    InjectorPhase::AwaitBodyText,
                )
            } else {
                self.run(
                    CommandView::FindElements { selector: "button"@ },
                    InjectorPhase::AwaitButtons,
                )
            },
            InjectorPhase::AwaitBodyText => InjectorModel {
                page_names_user: match reply {
                    ReplyView::Text(t) => contains_text(lowercase(t), lowercase(self.text)),
                    _ => false,
                },
                ..self
            }.run(CommandView::FindElements { selector: "button"@ }, InjectorPhase::AwaitButtons),
            InjectorPhase::AwaitButtons => match reply {
                ReplyView::Count(count) => self.scan(0, count),
                _ => self.finish(InjectorOutcome::Failed),
            },
            InjectorPhase::AwaitButtonText { index, count } => {
                let found = match reply {
                    ReplyView::Text(t) => button_matches(t, self.page_names_user, self.text),
                    _ => false,
                };
                if found {
                    self.run(
                        CommandView::ScrollIntoView { element: ElementRef::Listed(index) },
                        InjectorPhase::AccountScroll { index },
                    )
                } else {
                    self.scan(index + 1, count)
                }
            },
            InjectorPhase::AccountScroll { index } => if ok {
                self.run(
                    CommandView::Click { element: ElementRef::Listed(index) },
                    InjectorPhase::AccountClick,
                )
            } else {
                self.finish(InjectorOutcome::Failed)
            },
            InjectorPhase::AccountClick => if ok {
                self.finish(InjectorOutcome::Filled)
            } else {
                self.finish(InjectorOutcome::Failed)
            },
            InjectorPhase::AwaitField { candidate } => if ok {
                self.entered(self.entry.next(true))
            } else {
                self.locate(candidate + 1)
            },
            InjectorPhase::Entering => self.entered(self.entry.next(ok)),
            InjectorPhase::AwaitEnter => if ok {
                self.finish(InjectorOutcome::Filled)
            } else {
                match self.step {
                    ProviderStep::MicrosoftUsername => self.run(
                        CommandView::WaitForElement {
                            selector: "#idSIButton9"@,
                            timeout_ms: USERNAME_SUBMIT_TIMEOUT_MS,
                        },
                        InjectorPhase::AwaitSubmitButton,
                    ),
                    ProviderStep::MicrosoftPassword => self.run(
                        CommandView::WaitForElement {
                            selector: "#idSIButton9"@,
                            timeout_ms: PASSWORD_SUBMIT_TIMEOUT_MS,
                        },
                        InjectorPhase::AwaitSubmitButton,
                    ),
                    _ => self.finish(InjectorOutcome::Failed),
                }
            },
            InjectorPhase::AwaitSubmitButton => if ok {
                self.run(
                    CommandView::ScrollIntoView { element: ElementRef::Located },
                    InjectorPhase::SubmitScroll,
                )
            } else {
                self.finish(InjectorOutcome::NotReady)
            },
            InjectorPhase::SubmitScroll => if ok {
                self.run(
                    CommandView::Click { element: ElementRef::Located },
                    InjectorPhase::SubmitClick,
                )
            } else {
                self.finish(InjectorOutcome::Failed)
            },
            InjectorPhase::SubmitClick => if ok {
                self.finish(InjectorOutcome::Filled)
            } else {
                self.finish(InjectorOutcome::Failed)
            },
            InjectorPhase::Finished => self.finish(InjectorOutcome::Failed),
        }
    }
}

/// The selector at `index` of those tried for the field of `step`.
pub fn field_selector(step: ProviderStep, index: usize) -> (r: Option<&'static str>)
    ensures
        match r {
            Some(s) => field_selector_text(step, index as int) == Some(s@),
            None => field_selector_text(step, index as int) is None,
        },
{
    match step {
        ProviderStep::AtlassianUsername => if index == 0 {
            Some("input[data-testid=\"username\"]")
        } else if index == 1 {
            Some("input[name=\"username\"]")
        } else if index == 2 {
            Some("input#username")
        } else if index == 3 {
            Some("input[type=\"email\"]")
        } else {
            None
        },
        ProviderStep::MicrosoftUsername => if index == 0 {
            Some("input[name=\"loginfmt\"]")
        } else if index == 1 {
            Some("input#i0116")
        } else if index == 2 {
            Some("input[type=\"email\"]")
        } else {
            None
        },
        ProviderStep::MicrosoftPassword => if index == 0 {
            Some("input[name=\"passwd\"]")
        } else if index == 1 {
            Some("input#i0118")
        } else if index == 2 {
            Some("input[type=\"password\"]")
        } else {
            None
        },
        ProviderStep::AccountContinue => None,
    }
}

/// Whether a button with this text offers to go on with the account of
/// `username`.
pub fn is_account_button(text: &str, page_names_user: bool, username: &str) -> (r: bool)
    ensures
        r == button_matches(text@, page_names_user, username@),
{
    let lower = to_lowercase(text);
    let names_user = if page_names_user {
        true
    } else {
        let user = to_lowercase(username);
        contains(lower.as_str(), user.as_str())
    };
    names_user && (contains(lower.as_str(), "continue") || contains(lower.as_str(), "sign in"))
}

/// The state machine that performs one login step in the page.
pub struct Injector {
    step: ProviderStep,
    text: String,
    phase: InjectorPhase,
    page_names_user: bool,
    entry: FieldEntry,
}

impl View for Injector {
    type V = InjectorModel;

    closed spec fn view(&self) -> InjectorModel {
        InjectorModel {
            step: self.step,
            text: self.text@,
            phase: self.phase,
            page_names_user: self.page_names_user,
            entry: self.entry@,
        }
    }
}

impl Injector {
    /// The injector of `step` that types `text`.
    pub fn new(step: ProviderStep, text: &str) -> (r: Self)
        ensures
            r@ == InjectorModel::initial(step, text@),
    {
        Injector {
            step,
            text: text.to_owned(),
            phase: InjectorPhase::Start,
            page_names_user: false,
            entry: FieldEntry::new(ElementRef::Located, text, 0),
        }
    }

    fn finish(&mut self, outcome: InjectorOutcome) -> (step: Step<InjectorOutcome>)
        ensures
            (final(self)@, step@) == old(self)@.finish(outcome),
    {
        self.phase = InjectorPhase::Finished;
        Step::Finished(outcome)
    }

    fn run(&mut self, command: Command, phase: InjectorPhase) -> (step: Step<InjectorOutcome>)
        ensures
            (final(self)@, step@) == old(self)@.run(command@, phase),
    {
        self.phase = phase;
        Step::Run(command)
    }

    fn locate(&mut self, candidate: usize) -> (step: Step<InjectorOutcome>)
        ensures
            (final(self)@, step@) == old(self)@.locate(candidate as int),
    {
        match field_selector(self.step, candidate) {
            Some(selector) => self.run(
                Command::WaitForElement {
                    selector: selector.to_owned(),
                    timeout_ms: FIELD_TIMEOUT_MS,
                },
                InjectorPhase::AwaitField { candidate },
            ),
            None => self.finish(InjectorOutcome::NotReady),
        }
    }

    fn no_account(&mut self) -> (step: Step<InjectorOutcome>)
        ensures
            (final(self)@, step@) == old(self)@.no_account(),
    {
        match self.step {
            ProviderStep::AccountContinue => self.finish(InjectorOutcome::NotReady),
            _ => self.locate(0),
        }
    }

    fn scan(&mut self, index: usize, count: usize) -> (step: Step<InjectorOutcome>)
        ensures
            (final(self)@, step@) == old(self)@.scan(index as int, count),
    {
        if index < count {
            self.run(
                Command::InnerText { element: ElementRef::Listed(index) },
                InjectorPhase::AwaitButtonText { index, count },
            )
        } else {
            self.no_account()
        }
    }

    fn enter(&mut self, ok: bool) -> (step: Step<InjectorOutcome>)
        ensures
            (final(self)@, step@) == old(self)@.entered(old(self)@.entry.next(ok)),
    {
        match self.entry.advance(ok) {
            Step::Run(command) => self.run(command, InjectorPhase::Entering),
            Step::Finished(EntryOutcome::Typed) => self.run(
                Command::PressKey { key: Key::Enter, modifier: None },
                InjectorPhase::AwaitEnter,
            ),
            Step::Finished(EntryOutcome::Failed) => self.finish(InjectorOutcome::Failed),
        }
    }

    /// The next answer, given the reply to the last command. The first call
    /// starts the injector, whatever the reply.
    pub fn advance(&mut self, reply: &Reply) -> (step: Step<InjectorOutcome>)
        ensures
            (final(self)@, step@) == old(self)@.next(reply@),
    {
        let ok = reply.is_done();
        match self.phase {
            InjectorPhase::Start => if is_blank(self.text.as_str()) {
                self.finish(InjectorOutcome::NotReady)
            } else {
                match self.step {
                    ProviderStep::MicrosoftPassword => self.locate(0),
                    _ => self.run(
                        Command::WaitForElement {
                            selector: "body".to_owned(),
                            timeout_ms: BODY_TIMEOUT_MS,
                        },
                        InjectorPhase::AwaitBody,
                    ),
                }
            },
            InjectorPhase::AwaitBody => if ok {
                self.run(
                    Command::InnerText { element: ElementRef::Located },
                    InjectorPhase::AwaitBodyText,
                )
            } else {
                self.run(
                    Command::FindElements { selector: "button".to_owned() },
                    InjectorPhase::AwaitButtons,
                )
            },
            InjectorPhase::AwaitBodyText => {
                let names = match reply {
                    Reply::Text(t) => {
                        let lower = to_lowercase(t.as_str());
                        let user = to_lowercase(self.text.as_str());
                        contains(lower.as_str(), user.as_str())
                    },
                    _ => false,
                };
                self.page_names_user = names;
                self.run(
                    Command::FindElements { selector: "button".to_owned() },
                    InjectorPhase::AwaitButtons,
                )
            },
            InjectorPhase::AwaitButtons => match reply {
                Reply::Count(count) => self.scan(0, *count),
                _ => self.finish(InjectorOutcome::Failed),
            },
            InjectorPhase::AwaitButtonText { index, count } => {
                let found = match reply {
                    Reply::Text(t) => is_account_button(
                        t.as_str(),
                        self.page_names_user,
                        self.text.as_str(),
                    ),
                    _ => false,
                };
                if found {
                    self.run(
                        Command::ScrollIntoView { element: ElementRef::Listed(index) },
                        InjectorPhase::AccountScroll { index },
                    )
                } else if index < count {
                    self.scan(index + 1, count)
                } else {
                    self.no_account()
                }
            },
            InjectorPhase::AccountScroll { index } => if ok {
                self.run(
                    Command::Click { element: ElementRef::Listed(index) },
                    InjectorPhase::AccountClick,
                )
            } else {
                self.finish(InjectorOutcome::Failed)
            },
            InjectorPhase::AccountClick => if ok {
                self.finish(InjectorOutcome::Filled)
            } else {
                self.finish(InjectorOutcome::Failed)
            },
            InjectorPhase::AwaitField { candidate } => if ok {
                self.enter(true)
            } else if candidate < 4 {
                self.locate(candidate + 1)
            } else {
                self.finish(InjectorOutcome::NotReady)
            },
            InjectorPhase::Entering => self.enter(ok),
            InjectorPhase::AwaitEnter => if ok {
                self.finish(InjectorOutcome::Filled)
            } else {
                match self.step {
                    ProviderStep::MicrosoftUsername => self.run(
                        Command::WaitForElement {
                            selector: "#idSIButton9".to_owned(),
                            timeout_ms: USERNAME_SUBMIT_TIMEOUT_MS,
                        },
                        InjectorPhase::AwaitSubmitButton,
                    ),
                    ProviderStep::MicrosoftPassword => self.run(
                        Command::WaitForElement {
                            selector: "#idSIButton9".to_owned(),
                            timeout_ms: PASSWORD_SUBMIT_TIMEOUT_MS,
                        },
                        InjectorPhase::AwaitSubmitButton,
                    ),
                    _ => self.finish(InjectorOutcome::Failed),
                }
            },
            InjectorPhase::AwaitSubmitButton => if ok {
                self.run(
                    Command::ScrollIntoView { element: ElementRef::Located },
                    InjectorPhase::SubmitScroll,
                )
            } else {
                self.finish(InjectorOutcome::NotReady)
            },
            InjectorPhase::SubmitScroll => if ok {
                self.run(
                    Command::Click { element: ElementRef::Located },
                    InjectorPhase::SubmitClick,
                )
            } else {
                self.finish(InjectorOutcome::Failed)
            },
            InjectorPhase::SubmitClick => if ok {
                self.finish(InjectorOutcome::Filled)
            } else {
                self.finish(InjectorOutcome::Failed)
            },
            InjectorPhase::Finished => self.finish(InjectorOutcome::Failed),
        }
    }
}

/// Without a credential an injector does nothing in the page: its first
/// answer is that the step is not ready.
pub proof fn lemma_blank_credential_touches_nothing(
    step: ProviderStep,
    text: Seq<char>,
    reply: ReplyView,
)
    requires
        is_blank_text(text),
    ensures
        InjectorModel::initial(step, text).next(reply).1 == StepView::Finished(
            InjectorOutcome::NotReady,
        ),
{
}

/// The selectors of a field are tried in order and the first that finds an
/// element ends the search: a selector that finds nothing is followed by the
/// next one, or by `NotReady` after the last; one that finds an element is
/// followed by work on that element, never by another selector of the list.
pub proof fn lemma_selectors_in_order(m: InjectorModel, candidate: usize, reply: ReplyView)
    requires
        m.phase == (InjectorPhase::AwaitField { candidate }),
        m.entry == InjectorModel::initial(m.step, m.text).entry,
    ensures
        !(reply is Done) ==> m.next(reply).1 == (match field_selector_text(m.step, candidate + 1) {
            Some(selector) => StepView::Run(
                CommandView::WaitForElement { selector, timeout_ms: FIELD_TIMEOUT_MS },
            ),
            None => StepView::Finished(InjectorOutcome::NotReady),
        }),
        reply is Done ==> m.next(reply).1 == StepView::<InjectorOutcome>::Run(
            CommandView::ScrollIntoView { element: ElementRef::Located },
        ),
{
}

/// The entry of an injector types the injector's own credential into the
/// element that was located.
pub open spec fn entry_fits(m: InjectorModel) -> bool {
    &&& m.entry.text == m.text
    &&& m.entry.element == ElementRef::Located
}

/// An injector types nothing but its credential, in order: from its first
/// answer on its entry holds the credential, and every character that it
/// sends is the first of those that the entry has still to send.
pub proof fn lemma_injector_types_credential(m: InjectorModel, reply: ReplyView)
    requires
        entry_fits(m),
        m.text.len() <= usize::MAX,
    ensures
        entry_fits(InjectorModel::initial(m.step, m.text)),
        entry_fits(m.next(reply).0),
        m.next(reply).0.text == m.text,
        m.next(reply).0.step == m.step,
        m.next(reply).1 matches StepView::Run(CommandView::SendCharacter { character }) ==> {
            &&& remaining(m.entry).len() > 0
            &&& character == remaining(m.entry)[0]
            &&& remaining(m.next(reply).0.entry) == remaining(m.entry).drop_first()
        },
{
    lemma_sends_text_in_order(m.entry, true);
    lemma_sends_text_in_order(m.entry, reply is Done);
}

/// A field that was filled in but could not be sent off does not count as
/// done: when Enter failed and the submit button does not appear, the answer
/// is `NotReady`, for the user name as for the password.
pub proof fn lemma_unsent_field_is_not_ready(m: InjectorModel, reply: ReplyView)
    requires
        m.phase == InjectorPhase::AwaitSubmitButton,
        !(reply is Done),
    ensures
        m.next(reply).1 == StepView::Finished(InjectorOutcome::NotReady),
{
}

/// An injector ends with `Filled` only on the success of the command that
/// sends the step off: Enter, or the click on the submit button or on the
/// button of the account.
pub proof fn lemma_filled_means_sent(m: InjectorModel, reply: ReplyView)
    requires
        m.next(reply).1 == StepView::Finished(InjectorOutcome::Filled),
    ensures
        reply is Done,
        m.phase == InjectorPhase::AwaitEnter || m.phase == InjectorPhase::SubmitClick || m.phase
            == InjectorPhase::AccountClick,
{
}

} // verus!
