//! One automation session: open the ticket, get through the login, edit the
//! risk assessment and save it.
//!
//! The client is a state machine over the commands of `browser`. It composes
//! the login driver, the credential injectors, the checkpoint controller and
//! the form engine, and ends with one result for the ticket.

use vstd::prelude::*;
use vstd::string::*;
use crate::config::JsmConfig;
use crate::text::{is_blank_text, trim, trimmed};
use crate::web::browser::{Command, CommandView, Reply, ReplyView, Step, StepView};
use crate::web::form::{
    texts_of, ClickControl, ClickModel, ClickPhase, ControlKind, Dropdown, DropdownModel,
    FormError,
};
use crate::web::inject::{Injector, InjectorModel};
use crate::web::login::{
    DoneFlags, InjectorOutcome, LoginAction, LoginDriver, LoginModel, LoginOutcome, LoginStep,
    Notice, Phase, ProviderStep, Transition,
};
use crate::web::step::{listed, Handling, StepController, StepModel};
use crate::web::types::RiskAssessmentConfig;

verus! {

/// The inactivity timeout of the login, in milliseconds.
pub const LOGIN_TIMEOUT_MS: u64 = 45000;

/// The stage of the form work at which an error came up.
#[derive(Debug, Clone, Copy, PartialEq, Eq, Structural)]
pub enum FormStage {
    OpenEditor,
    SecurityControlsImpact,
    Save,
}

/// Why a session failed.
#[derive(Debug, Clone, Copy, PartialEq, Eq, Structural)]
pub enum SessionError {
    /// The browser reported an error outside the login steps and the form.
    BrowserCall,
    /// The operator's acknowledgment could not be read.
    OperatorIo,
    /// The login did not reach the ticket page in time. The client's
    /// `last_url` is the URL on which it stalled.
    LoginTimedOut,
    /// The login driver was told something it had not asked for.
    LoginOutOfOrder,
    /// The form could not be edited.
    Form { stage: FormStage, error: FormError },
    /// No session is running.
    NotRunning,
}

/// What the session is waiting for.
#[derive(Debug, Clone, Copy, PartialEq, Eq, Structural)]
pub enum SessionPhase {
    Idle,
    OpeningTab,
    Navigating,
    Settling,
    /// A notice is with the operator; this action comes next.
    Announcing { action: LoginAction },
    PollSleeping,
    PollSettling,
    PollReading,
    Injecting,
    AtCheckpoint,
    OpeningEditor,
    SettingDropdown,
    Saving,
    Done,
}

/// The directory in which the browser keeps its session between runs.
pub open spec fn profile_dir() -> Seq<char> {
    "./chrome_session_data_pvt"@
}

/// The URL of a ticket's page on an instance.
pub open spec fn ticket_url(base_url: Seq<char>, ticket_id: Seq<char>) -> Seq<char> {
    base_url + "/browse/"@ + ticket_id
}

/// The keywords by which the dropdown of the security controls impact is
/// found.
pub open spec fn security_keywords() -> Seq<Seq<char>> {
    seq!["security controls impact"@, "security impact"@, "security control impact"@]
}

/// The mathematical content of a client.
pub struct SessionModel {
    pub base_url: Seq<char>,
    pub username: Seq<char>,
    pub password: Seq<char>,
    pub tab_open: bool,
    pub phase: SessionPhase,
    pub ticket_url: Seq<char>,
    /// The value to set for the security controls impact, if any.
    pub security_value: Option<Seq<char>>,
    pub steps: StepModel,
    pub driver: LoginModel,
    pub injector: InjectorModel,
    pub editor: ClickModel,
    pub save: ClickModel,
    pub dropdown: DropdownModel,
}

/// The mathematical content of an answer of the session.
pub type SessionAnswer = StepView<Result<(), SessionError>>;

impl SessionModel {
    /// A client that has not started a session, for the settings `base_url`,
    /// `username` and `password`, with the checkpoint controller `steps`. Its
    /// two clicks have their scripts.
    pub open spec fn fresh(
        base_url: Seq<char>,
        username: Seq<char>,
        password: Seq<char>,
        steps: StepModel,
    ) -> SessionModel {
        SessionModel {
            base_url,
            username,
            password,
            tab_open: false,
            phase: SessionPhase::Idle,
            ticket_url: Seq::empty(),
            security_value: None,
            steps,
            driver: Self::driver_for(Seq::empty(), Seq::empty(), Seq::empty()),
            injector: InjectorModel::initial(ProviderStep::AtlassianUsername, Seq::empty()),
            editor: ClickModel::initial(ControlKind::OpenEditor),
            save: ClickModel::initial(ControlKind::Save),
            dropdown: DropdownModel::initial(Seq::empty(), Seq::empty()),
        }
    }

    /// The login driver of a session for `ticket_id`.
    pub open spec fn driver_for(
        ticket_id: Seq<char>,
        username: Seq<char>,
        password: Seq<char>,
    ) -> LoginModel {
        LoginModel {
            ticket_id,
            username,
            password,
            timeout_ms: LOGIN_TIMEOUT_MS,
            phase: Phase::Idle,
            start_ms: 0,
            current_url: Seq::empty(),
            done: DoneFlags::cleared(),
            prompt_shown: false,
        }
    }

    /// The answer that ends the session with `error`.
    pub open spec fn fail(self, error: SessionError) -> (SessionModel, SessionAnswer) {
        (SessionModel { phase: SessionPhase::Done, ..self }, StepView::Finished(Err(error)))
    }

    /// The answer that ends the session with success.
    pub open spec fn succeed(self) -> (SessionModel, SessionAnswer) {
        (SessionModel { phase: SessionPhase::Done, ..self }, StepView::Finished(Ok(())))
    }

    /// The answer that asks for `command` and waits in `phase`.
    pub open spec fn run(self, command: CommandView, phase: SessionPhase) -> (
        SessionModel,
        SessionAnswer,
    ) {
        (SessionModel { phase, ..self }, StepView::Run(command))
    }

    /// The start of a session for `ticket_id`: the tab is opened where there
    /// is none, then the ticket's page is asked for. Credentials go to the
    /// login without surrounding whitespace.
    pub open spec fn begun(self, ticket_id: Seq<char>, security_value: Option<Seq<char>>) -> (
        SessionModel,
        SessionAnswer,
    ) {
        let m = SessionModel {
            ticket_url: ticket_url(self.base_url, ticket_id),
            security_value,
            driver: Self::driver_for(ticket_id, trimmed(self.username), trimmed(self.password)),
            editor: ClickModel { phase: ClickPhase::Start, ..self.editor },
            save: ClickModel { phase: ClickPhase::Start, ..self.save },
            ..self
        };
        if m.tab_open {
            m.run(CommandView::Navigate { url: m.ticket_url }, SessionPhase::Navigating)
        } else {
            m.run(CommandView::OpenTab { profile_dir: profile_dir() }, SessionPhase::OpeningTab)
        }
    }

    /// What follows an answer of the click that saves.
    pub open spec fn save_answer(self, answer: StepView<Result<(), FormError>>) -> (
        SessionModel,
        SessionAnswer,
    ) {
        match answer {
            StepView::Run(command) => self.run(command, SessionPhase::Saving),
            StepView::Finished(Ok(_)) => self.succeed(),
            StepView::Finished(Err(error)) => self.fail(
                SessionError::Form { stage: FormStage::Save, error },
            ),
        }
    }

    /// Start saving.
    pub open spec fn start_save(self) -> (SessionModel, SessionAnswer) {
        let r = self.save.next(ReplyView::Done);
        SessionModel { save: r.0, ..self }.save_answer(r.1)
    }

    /// What follows an answer of the dropdown.
    pub open spec fn dropdown_answer(self, answer: StepView<Result<(), FormError>>) -> (
        SessionModel,
        SessionAnswer,
    ) {
        match answer {
            StepView::Run(command) => self.run(command, SessionPhase::SettingDropdown),
            StepView::Finished(Ok(_)) => self.start_save(),
            StepView::Finished(Err(error)) => self.fail(
                SessionError::Form { stage: FormStage::SecurityControlsImpact, error },
            ),
        }
    }

    /// What follows the opening of the editor: the security controls impact
    /// is set where a value was given, and the form is saved.
    pub open spec fn after_editor(self) -> (SessionModel, SessionAnswer) {
        match self.security_value {
            Some(value) => {
                let r = DropdownModel::initial(security_keywords(), trimmed(value)).next(
                    ReplyView::Done,
                );
                SessionModel { dropdown: r.0, ..self }.dropdown_answer(r.1)
            },
            None => self.start_save(),
        }
    }

    /// What follows an answer of the click that opens the editor.
    pub open spec fn editor_answer(self, answer: StepView<Result<(), FormError>>) -> (
        SessionModel,
        SessionAnswer,
    ) {
        match answer {
            StepView::Run(command) => self.run(command, SessionPhase::OpeningEditor),
            StepView::Finished(Ok(_)) => self.after_editor(),
            StepView::Finished(Err(error)) => self.fail(
                SessionError::Form { stage: FormStage::OpenEditor, error },
            ),
        }
    }

    /// What follows an action of the login driver that is neither an
    /// injection nor a checkpoint.
    pub open spec fn settle(self, action: LoginAction) -> (SessionModel, SessionAnswer) {
        match action {
            LoginAction::Poll { sleep_ms } => if sleep_ms > 0 {
                self.run(CommandView::Sleep { millis: sleep_ms }, SessionPhase::PollSleeping)
            } else {
                self.run(CommandView::WaitUntilNavigated, SessionPhase::PollSettling)
            },
            LoginAction::Finished { outcome } => match outcome {
                LoginOutcome::Reached => {
                    let r = self.editor.next(ReplyView::Done);
                    SessionModel { editor: r.0, ..self }.editor_answer(r.1)
                },
                LoginOutcome::TimedOut => self.fail(SessionError::LoginTimedOut),
                LoginOutcome::OutOfOrder => self.fail(SessionError::LoginOutOfOrder),
            },
            _ => self.fail(SessionError::LoginOutOfOrder),
        }
    }

    /// What follows the operator letting a checkpoint go.
    pub open spec fn after_resume(self, now_ms: u64) -> (SessionModel, SessionAnswer) {
        let r = self.driver.on_resumed(now_ms);
        SessionModel { driver: r.0, ..self }.settle(r.1.action)
    }

    /// A checkpoint: the controller numbers it and decides whether the
    /// operator is asked, told, or left alone.
    pub open spec fn checkpoint(self, transition: Transition, now_ms: u64) -> (
        SessionModel,
        SessionAnswer,
    ) {
        let point = self.steps.next_checkpoint();
        let m = SessionModel { steps: self.steps.advanced(), ..self };
        match point.handling {
            Handling::Pass => m.after_resume(now_ms),
            Handling::Skip => m.run(
                CommandView::TellSkipped { number: point.number, transition },
                SessionPhase::AtCheckpoint,
            ),
            Handling::Block => m.run(
                CommandView::AskOperator { number: point.number, transition },
                SessionPhase::AtCheckpoint,
            ),
        }
    }

    /// What follows the end of an injector.
    pub open spec fn after_injector(self, outcome: InjectorOutcome, now_ms: u64) -> (
        SessionModel,
        SessionAnswer,
    ) {
        let r = self.driver.on_injector(outcome, now_ms);
        let m = SessionModel { driver: r.0, ..self };
        match r.1.action {
            LoginAction::Checkpoint { transition } => m.checkpoint(transition, now_ms),
            action => m.settle(action),
        }
    }

    /// What follows an answer of the injector.
    pub open spec fn injector_answer(self, answer: StepView<InjectorOutcome>, now_ms: u64) -> (
        SessionModel,
        SessionAnswer,
    ) {
        match answer {
            StepView::Run(command) => self.run(command, SessionPhase::Injecting),
            StepView::Finished(outcome) => self.after_injector(outcome, now_ms),
        }
    }

    /// Carry out an action of the login driver.
    pub open spec fn perform(self, action: LoginAction, now_ms: u64) -> (
        SessionModel,
        SessionAnswer,
    ) {
        match action {
            LoginAction::Inject { step } => {
                let r = InjectorModel::initial(step, self.driver.credential(step)).next(
                    ReplyView::Done,
                );
                SessionModel { injector: r.0, ..self }.injector_answer(r.1, now_ms)
            },
            LoginAction::Checkpoint { transition } => self.checkpoint(transition, now_ms),
            other => self.settle(other),
        }
    }

    /// Carry out an answer of the login driver: its notice first, then its
    /// action.
    pub open spec fn follow(self, step: LoginStep, now_ms: u64) -> (SessionModel, SessionAnswer) {
        if step.notice != Notice::Nothing {
            self.run(
                CommandView::Announce { notice: step.notice },
                SessionPhase::Announcing { action: step.action },
            )
        } else {
            self.perform(step.action, now_ms)
        }
    }

    /// The answer to a reply that came at time `now_ms`.
    pub open spec fn next(self, reply: ReplyView, now_ms: u64) -> (SessionModel, SessionAnswer) {
        let ok = reply is Done;
        match self.phase {
            SessionPhase::Idle => self.fail(SessionError::NotRunning),
            SessionPhase::OpeningTab => if ok {
                SessionModel { tab_open: true, ..self }.run(
                    CommandView::Navigate { url: self.ticket_url },
                    SessionPhase::Navigating,
                )
            } else {
                self.fail(SessionError::BrowserCall)
            },
            SessionPhase::Navigating => if ok {
                self.run(CommandView::WaitUntilNavigated, SessionPhase::Settling)
            } else {
                self.fail(SessionError::BrowserCall)
            },
            SessionPhase::Settling => if ok {
                let r = self.driver.started(now_ms);
                SessionModel { driver: r.0, ..self }.follow(r.1, now_ms)
            } else {
                self.fail(SessionError::BrowserCall)
            },
            SessionPhase::Announcing { action } => self.perform(action, now_ms),
            SessionPhase::PollSleeping => self.run(
                CommandView::WaitUntilNavigated,
                SessionPhase::PollSettling,
            ),
            SessionPhase::PollSettling => if ok {
                self.run(CommandView::ReadUrl, SessionPhase::PollReading)
            } else {
                self.fail(SessionError::BrowserCall)
            },
            SessionPhase::PollReading => match reply {
                ReplyView::Url(url) => {
                    let r = self.driver.on_url(url, now_ms);
                    SessionModel { driver: r.0, ..self }.follow(r.1, now_ms)
                },
                _ => self.fail(SessionError::BrowserCall),
            },
            SessionPhase::Injecting => {
                let r = self.injector.next(reply);
                SessionModel { injector: r.0, ..self }.injector_answer(r.1, now_ms)
            },
            SessionPhase::AtCheckpoint => if ok {
                self.after_resume(now_ms)
            } else {
                self.fail(SessionError::OperatorIo)
            },
            SessionPhase::OpeningEditor => {
                let r = self.editor.next(reply);
                SessionModel { editor: r.0, ..self }.editor_answer(r.1)
            },
            SessionPhase::SettingDropdown => {
                let r = self.dropdown.next(reply);
                SessionModel { dropdown: r.0, ..self }.dropdown_answer(r.1)
            },
            SessionPhase::Saving => {
                let r = self.save.next(reply);
                SessionModel { save: r.0, ..self }.save_answer(r.1)
            },
            SessionPhase::Done => self.fail(SessionError::NotRunning),
        }
    }
}

/// The keywords by which the dropdown of the security controls impact is
/// found.
pub fn security_keyword_list() -> (r: Vec<String>)
    ensures
        texts_of(r@) == security_keywords(),
{
    let mut r: Vec<String> = Vec::new();
    r.push("security controls impact".to_owned());
    r.push("security impact".to_owned());
    r.push("security control impact".to_owned());
    assert(texts_of(r@) =~= security_keywords());
    r
}

/// The URL of the page of ticket `ticket_id` on the instance at `base_url`.
pub fn ticket_url_for(base_url: &str, ticket_id: &str) -> (r: String)
    ensures
        r@ == ticket_url(base_url@, ticket_id@),
{
    let mut r = base_url.to_owned();
    r.append("/browse/");
    r.append(ticket_id);
    r
}

/// The client of one service-desk instance.
pub struct JsmWebClient {
    config: JsmConfig,
    tab_open: bool,
    phase: SessionPhase,
    ticket_url: String,
    security_value: Option<String>,
    steps: StepController,
    driver: LoginDriver,
    injector: Injector,
    editor: ClickControl,
    save: ClickControl,
    dropdown: Dropdown,
}

impl View for JsmWebClient {
    type V = SessionModel;

    closed spec fn view(&self) -> SessionModel {
        SessionModel {
            base_url: self.config.base_url@,
            username: self.config.auth.username@,
            password: self.config.auth.microsoft_password@,
            tab_open: self.tab_open,
            phase: self.phase,
            ticket_url: self.ticket_url@,
            security_value: match self.security_value {
                Some(s) => Some(s@),
                None => None,
            },
            steps: self.steps.model(),
            driver: self.driver@,
            injector: self.injector@,
            editor: self.editor@,
            save: self.save@,
            dropdown: self.dropdown@,
        }
    }
}

/// One answer of the session: a command, or the end with the result for the
/// ticket.
pub type SessionStep = Step<Result<(), SessionError>>;

/// The value that a configuration gives for the security controls impact.
pub open spec fn security_value_of(config: RiskAssessmentConfig) -> Option<Seq<char>> {
    match config.change_impact_assessment.security_controls_impact {
        Some(s) => Some(s@),
        None => None,
    }
}

impl JsmWebClient {
    /// A client for the instance that `config` describes, with checkpoints
    /// numbered by `steps`. No session is running. The scripts that click the
    /// form's controls by their text are built here.
    pub fn with_steps(config: JsmConfig, steps: StepController) -> (c: Self)
        ensures
            c@ == SessionModel::fresh(
                config.base_url@,
                config.auth.username@,
                config.auth.microsoft_password@,
                steps.model(),
            ),
    {
        let editor = ClickControl::new(ControlKind::OpenEditor);
        let save = ClickControl::new(ControlKind::Save);
        let nothing = String::new();
        let no_keywords: Vec<String> = Vec::new();
        assert(texts_of(no_keywords@) =~= Seq::<Seq<char>>::empty());
        assert(trimmed(Seq::<char>::empty()) =~= Seq::<char>::empty());
        JsmWebClient {
            config,
            tab_open: false,
            phase: SessionPhase::Idle,
            ticket_url: String::new(),
            security_value: None,
            steps,
            driver: LoginDriver::new(
                nothing.as_str(),
                LOGIN_TIMEOUT_MS,
                nothing.as_str(),
                nothing.as_str(),
            ),
            injector: Injector::new(ProviderStep::AtlassianUsername, nothing.as_str()),
            editor,
            save,
            dropdown: Dropdown::new(no_keywords, nothing.as_str()),
        }
    }

    /// A client for the instance that `config` describes, with no checkpoint
    /// at which the operator is asked.
    pub fn new(config: JsmConfig) -> (c: Self)
        ensures
            c@ == SessionModel::fresh(
                config.base_url@,
                config.auth.username@,
                config.auth.microsoft_password@,
                StepModel { enabled: false, counter: 0, skips: Set::empty() },
            ),
    {
        let none: Vec<usize> = Vec::new();
        let list = none.as_slice();
        let steps = StepController::new(false, list);
        assert forall|x: usize| !steps.model().skips.contains(x) by {
            assert(list@.len() == 0);
            assert(!listed(list@, x));
        }
        assert(steps.model().skips =~= Set::<usize>::empty());
        JsmWebClient::with_steps(config, steps)
    }

    /// The URL that the login read last; after `LoginTimedOut`, the URL on
    /// which it stalled.
    pub fn last_url(&self) -> (url: &str)
        ensures
            url@ == self@.driver.current_url,
    {
        self.driver.current_url()
    }

    /// What the session is waiting for.
    pub fn phase(&self) -> (p: SessionPhase)
        ensures
            p == self@.phase,
    {
        self.phase
    }

    /// Whether `advance` may be called: the checkpoint counter has room for
    /// one more number.
    pub fn can_advance(&self) -> (r: bool)
        ensures
            r == (self@.steps.counter < usize::MAX),
    {
        self.steps.can_pause()
    }

    fn fail(&mut self, error: SessionError) -> (step: SessionStep)
        ensures
            (final(self)@, step@) == old(self)@.fail(error),
    {
        self.phase = SessionPhase::Done;
        Step::Finished(Err(error))
    }

    fn succeed(&mut self) -> (step: SessionStep)
        ensures
            (final(self)@, step@) == old(self)@.succeed(),
    {
        self.phase = SessionPhase::Done;
        Step::Finished(Ok(()))
    }

    fn run(&mut self, command: Command, phase: SessionPhase) -> (step: SessionStep)
        ensures
            (final(self)@, step@) == old(self)@.run(command@, phase),
    {
        self.phase = phase;
        Step::Run(command)
    }

    /// Starts a session for ticket `ticket_id` that applies `config` to its
    /// risk assessment. The answer is the first command; every later one comes
    /// from `advance`.
    pub fn complete_risk_assessment(
        &mut self,
        ticket_id: &str,
        config: &RiskAssessmentConfig,
    ) -> (step: SessionStep)
        ensures
            (final(self)@, step@) == old(self)@.begun(ticket_id@, security_value_of(*config)),
    {
        self.ticket_url = ticket_url_for(self.config.base_url.as_str(), ticket_id);
        self.security_value = match &config.change_impact_assessment.security_controls_impact {
            Some(s) => Some(s.clone()),
            None => None,
        };
        let username = trim(self.config.auth.username.as_str());
        let password = trim(self.config.auth.microsoft_password.as_str());
        let driver = LoginDriver::new(ticket_id, LOGIN_TIMEOUT_MS, username, password);
        self.driver = driver;
        self.editor.reset();
        self.save.reset();
        if self.tab_open {
            let url = self.ticket_url.clone();
            self.run(Command::Navigate { url }, SessionPhase::Navigating)
        } else {
            self.run(
                Command::OpenTab { profile_dir: "./chrome_session_data_pvt".to_owned() },
                SessionPhase::OpeningTab,
            )
        }
    }

    fn save_answer(&mut self, answer: Step<Result<(), FormError>>) -> (step: SessionStep)
        ensures
            (final(self)@, step@) == old(self)@.save_answer(answer@),
    {
        match answer {
            Step::Run(command) => self.run(command, SessionPhase::Saving),
            Step::Finished(Ok(_)) => self.succeed(),
            Step::Finished(Err(error)) => self.fail(
                SessionError::Form { stage: FormStage::Save, error },
            ),
        }
    }

    fn start_save(&mut self) -> (step: SessionStep)
        ensures
            (final(self)@, step@) == old(self)@.start_save(),
    {
        let answer = self.save.advance(&Reply::Done);
        self.save_answer(answer)
    }

    fn dropdown_answer(&mut self, answer: Step<Result<(), FormError>>) -> (step: SessionStep)
        ensures
            (final(self)@, step@) == old(self)@.dropdown_answer(answer@),
    {
        match answer {
            Step::Run(command) => self.run(command, SessionPhase::SettingDropdown),
            Step::Finished(Ok(_)) => self.start_save(),
            Step::Finished(Err(error)) => self.fail(
                SessionError::Form { stage: FormStage::SecurityControlsImpact, error },
            ),
        }
    }

    fn after_editor(&mut self) -> (step: SessionStep)
        ensures
            (final(self)@, step@) == old(self)@.after_editor(),
    {
        let value = match &self.security_value {
            Some(v) => Some(v.clone()),
            None => None,
        };
        match value {
            Some(v) => {
                let dropdown = Dropdown::new(security_keyword_list(), v.as_str());
                self.dropdown = dropdown;
                let answer = self.dropdown.advance(&Reply::Done);
                self.dropdown_answer(answer)
            },
            None => self.start_save(),
        }
    }

    fn editor_answer(&mut self, answer: Step<Result<(), FormError>>) -> (step: SessionStep)
        ensures
            (final(self)@, step@) == old(self)@.editor_answer(answer@),
    {
        match answer {
            Step::Run(command) => self.run(command, SessionPhase::OpeningEditor),
            Step::Finished(Ok(_)) => self.after_editor(),
            Step::Finished(Err(error)) => self.fail(
                SessionError::Form { stage: FormStage::OpenEditor, error },
            ),
        }
    }

    fn settle(&mut self, action: LoginAction) -> (step: SessionStep)
        ensures
            (final(self)@, step@) == old(self)@.settle(action),
    {
        match action {
            LoginAction::Poll { sleep_ms } => if sleep_ms > 0 {
                self.run(Command::Sleep { millis: sleep_ms }, SessionPhase::PollSleeping)
            } else {
                self.run(Command::WaitUntilNavigated, SessionPhase::PollSettling)
            },
            LoginAction::Finished { outcome } => match outcome {
                LoginOutcome::Reached => {
                    let answer = self.editor.advance(&Reply::Done);
                    self.editor_answer(answer)
                },
                LoginOutcome::TimedOut => self.fail(SessionError::LoginTimedOut),
                LoginOutcome::OutOfOrder => self.fail(SessionError::LoginOutOfOrder),
            },
            _ => self.fail(SessionError::LoginOutOfOrder),
        }
    }

    fn after_resume(&mut self, now_ms: u64) -> (step: SessionStep)
        ensures
            (final(self)@, step@) == old(self)@.after_resume(now_ms),
    {
        let answer = self.driver.on_resumed(now_ms);
        self.settle(answer.action)
    }

    fn checkpoint(&mut self, transition: Transition, now_ms: u64) -> (step: SessionStep)
        requires
            old(self)@.steps.counter < usize::MAX,
        ensures
            (final(self)@, step@) == old(self)@.checkpoint(transition, now_ms),
    {
        let point = self.steps.pause();
        match point.handling {
            Handling::Pass => self.after_resume(now_ms),
            Handling::Skip => self.run(
                Command::TellSkipped { number: point.number, transition },
                SessionPhase::AtCheckpoint,
            ),
            Handling::Block => self.run(
                Command::AskOperator { number: point.number, transition },
                SessionPhase::AtCheckpoint,
            ),
        }
    }

    fn after_injector(&mut self, outcome: InjectorOutcome, now_ms: u64) -> (step: SessionStep)
        requires
            old(self)@.steps.counter < usize::MAX,
        ensures
            (final(self)@, step@) == old(self)@.after_injector(outcome, now_ms),
    {
        let answer = self.driver.on_injector(outcome, now_ms);
        match answer.action {
            LoginAction::Checkpoint { transition } => self.checkpoint(transition, now_ms),
            action => self.settle(action),
        }
    }

    fn injector_answer(&mut self, answer: Step<InjectorOutcome>, now_ms: u64) -> (step: SessionStep)
        requires
            old(self)@.steps.counter < usize::MAX,
        ensures
            (final(self)@, step@) == old(self)@.injector_answer(answer@, now_ms),
    {
        match answer {
            Step::Run(command) => self.run(command, SessionPhase::Injecting),
            Step::Finished(outcome) => self.after_injector(outcome, now_ms),
        }
    }

    fn perform(&mut self, action: LoginAction, now_ms: u64) -> (step: SessionStep)
        requires
            old(self)@.steps.counter < usize::MAX,
        ensures
            (final(self)@, step@) == old(self)@.perform(action, now_ms),
    {
        match action {
            LoginAction::Inject { step } => {
                let injector = Injector::new(step, self.driver.credential(step));
                self.injector = injector;
                let answer = self.injector.advance(&Reply::Done);
                self.injector_answer(answer, now_ms)
            },
            LoginAction::Checkpoint { transition } => self.checkpoint(transition, now_ms),
            other => self.settle(other),
        }
    }

    fn follow(&mut self, answer: LoginStep, now_ms: u64) -> (step: SessionStep)
        requires
            old(self)@.steps.counter < usize::MAX,
        ensures
            (final(self)@, step@) == old(self)@.follow(answer, now_ms),
    {
        match answer.notice {
            Notice::Nothing => self.perform(answer.action, now_ms),
            notice => self.run(
                Command::Announce { notice },
                SessionPhase::Announcing { action: answer.action },
            ),
        }
    }

    /// The next answer as `advance` gives it, where the checkpoint counter has
    /// room for one more number; else nothing changes and the answer is
    /// `None`.
    pub fn try_advance(&mut self, reply: &Reply, now_ms: u64) -> (r: Option<SessionStep>)
        ensures
            match r {
                Some(step) => {
                    &&& old(self)@.steps.counter < usize::MAX
                    &&& (final(self)@, step@) == old(self)@.next(reply@, now_ms)
                },
                None => {
                    &&& old(self)@.steps.counter >= usize::MAX
                    &&& final(self)@ == old(self)@
                },
            },
    {
        if self.can_advance() {
            let step = self.advance(reply, now_ms);
            Some(step)
        } else {
            None
        }
    }

    /// The next answer, given the reply to the last command and the time
    /// `now_ms`, in milliseconds of a clock that does not go back, at which
    /// the reply came.
    pub fn advance(&mut self, reply: &Reply, now_ms: u64) -> (step: SessionStep)
        requires
            old(self)@.steps.counter < usize::MAX,
        ensures
            (final(self)@, step@) == old(self)@.next(reply@, now_ms),
    {
        let ok = reply.is_done();
        match self.phase {
            SessionPhase::Idle => self.fail(SessionError::NotRunning),
            SessionPhase::OpeningTab => if ok {
                self.tab_open = true;
                let url = self.ticket_url.clone();
                self.run(Command::Navigate { url }, SessionPhase::Navigating)
            } else {
                self.fail(SessionError::BrowserCall)
            },
            SessionPhase::Navigating => if ok {
                self.run(Command::WaitUntilNavigated, SessionPhase::Settling)
            } else {
                self.fail(SessionError::BrowserCall)
            },
            SessionPhase::Settling => if ok {
                let answer = self.driver.start(now_ms);
                self.follow(answer, now_ms)
            } else {
                self.fail(SessionError::BrowserCall)
            },
            SessionPhase::Announcing { action } => self.perform(action, now_ms),
            SessionPhase::PollSleeping => self.run(
                Command::WaitUntilNavigated,
                SessionPhase::PollSettling,
            ),
            SessionPhase::PollSettling => if ok {
                self.run(Command::ReadUrl, SessionPhase::PollReading)
            } else {
                self.fail(SessionError::BrowserCall)
            },
            SessionPhase::PollReading => match reply {
                Reply::Url(url) => {
                    let answer = self.driver.on_url(url.as_str(), now_ms);
                    self.follow(answer, now_ms)
                },
                _ => self.fail(SessionError::BrowserCall),
            },
            SessionPhase::Injecting => {
                let answer = self.injector.advance(reply);
                self.injector_answer(answer, now_ms)
            },
            SessionPhase::AtCheckpoint => if ok {
                self.after_resume(now_ms)
            } else {
                self.fail(SessionError::OperatorIo)
            },
            SessionPhase::OpeningEditor => {
                let answer = self.editor.advance(reply);
                self.editor_answer(answer)
            },
            SessionPhase::SettingDropdown => {
                let answer = self.dropdown.advance(reply);
                self.dropdown_answer(answer)
            },
            SessionPhase::Saving => {
                let answer = self.save.advance(reply);
                self.save_answer(answer)
            },
            SessionPhase::Done => self.fail(SessionError::NotRunning),
        }
    }
}

/// A session that is to set the security controls impact to an empty value,
/// or to whitespace alone, fails as soon as the editor is open: the error
/// names the field, and no command for the dropdown goes to the browser.
pub proof fn lemma_blank_security_value_fails(m: SessionModel)
    requires
        m.security_value is Some,
        is_blank_text(m.security_value->0),
    ensures
        m.after_editor().1 == StepView::<Result<(), SessionError>>::Finished(
            Err(
                SessionError::Form {
                    stage: FormStage::SecurityControlsImpact,
                    error: FormError::EmptyValue,
                },
            ),
        ),
        m.after_editor().0.phase == SessionPhase::Done,
{
}

/// Without a value for the security controls impact the dropdown is left
/// alone: once the editor is open, the session goes straight to saving.
pub proof fn lemma_missing_security_value_is_skipped(m: SessionModel)
    requires
        m.security_value is None,
    ensures
        m.after_editor() == m.start_save(),
{
}

/// A login that timed out ends the session with `LoginTimedOut`, and one
/// that reached the ticket starts the form work with the click that opens
/// the editor.
pub proof fn lemma_login_outcome_decides(m: SessionModel)
    ensures
        m.settle(LoginAction::Finished { outcome: LoginOutcome::TimedOut }).1
            == StepView::<Result<(), SessionError>>::Finished(Err(SessionError::LoginTimedOut)),
        m.settle(LoginAction::Finished { outcome: LoginOutcome::Reached }) == (SessionModel {
            editor: m.editor.next(ReplyView::Done).0,
            ..m
        }).editor_answer(m.editor.next(ReplyView::Done).1),
{
}

/// Starts a session on a new client: for the instance that `config`
/// describes, for ticket `ticket_id`, applying `risk_config`. The client and
/// its first command are what `JsmWebClient::new` on a copy of `config` and
/// then the client's own `complete_risk_assessment` give; every later command
/// comes from the client's `advance`.
pub fn complete_risk_assessment(
    config: &JsmConfig,
    ticket_id: &str,
    risk_config: &RiskAssessmentConfig,
) -> (r: (JsmWebClient, SessionStep))
    ensures
        (r.0@, r.1@) == SessionModel::fresh(
            config.base_url@,
            config.auth.username@,
            config.auth.microsoft_password@,
            StepModel { enabled: false, counter: 0, skips: Set::empty() },
        ).begun(ticket_id@, security_value_of(*risk_config)),
{
    let mut client = JsmWebClient::new(config.duplicate());
    let step = client.complete_risk_assessment(ticket_id, risk_config);
    (client, step)
}

} // verus!
