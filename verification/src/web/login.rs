//! The login flow driver: a polling state machine over the URLs that a
//! browser tab passes through on its way to the ticket page.
//!
//! The driver never touches a browser. It is told which URL was read and when,
//! how a credential injector ended, or that the operator let a checkpoint go,
//! and answers with the next thing to do. Its timeout measures inactivity: the
//! time since the URL last changed.

use vstd::prelude::*;
use vstd::string::*;
use crate::text::{is_blank, is_blank_text, same_text};
use crate::web::probe::{
    classify_provider, is_on_microsoft_host, is_on_ticket_page, is_target_url,
    on_microsoft_host, provider_state, LoginFlowState,
};

verus! {

/// Time between two looks at the URL, in milliseconds.
pub const POLL_INTERVAL_MS: u64 = 5000;

/// How long a URL may stay the same before the operator is warned, in
/// milliseconds.
pub const STALE_GRACE_MS: u64 = 10000;

/// How long the driver stands back when a second factor is asked for, in
/// milliseconds. This time is not counted as inactivity.
pub const MFA_WAIT_MS: u64 = 10000;

/// A login step that the driver can have filled in.
#[derive(Debug, Clone, Copy, PartialEq, Eq, Structural)]
pub enum ProviderStep {
    AtlassianUsername,
    AccountContinue,
    MicrosoftUsername,
    MicrosoftPassword,
}

/// Which steps have been attempted on the present page. A change of URL
/// clears the flags; only the flag of the Microsoft user name outlives a
/// change from one page of the Microsoft host to another, since on that host
/// it is this flag that tells the password prompt from the user-name prompt.
#[derive(Debug, Clone, Copy, PartialEq, Eq, Structural)]
pub struct DoneFlags {
    pub atlassian_username: bool,
    pub account_continue: bool,
    pub microsoft_username: bool,
    pub microsoft_password: bool,
}

/// How a credential injector ended.
#[derive(Debug, Clone, Copy, PartialEq, Eq, Structural)]
pub enum InjectorOutcome {
    /// The control was found and the step was performed.
    Filled,
    /// The control is not there yet, or there is no credential for it.
    NotReady,
    /// The browser reported an error.
    Failed,
}

/// Something to tell the operator along with the next action.
#[derive(Debug, Clone, Copy, PartialEq, Eq, Structural)]
pub enum Notice {
    Nothing,
    /// The URL has not changed for longer than the grace period.
    StaleUrl,
    /// A second factor has to be completed in the browser window.
    MfaPrompt,
}

/// What a checkpoint is about.
#[derive(Debug, Clone, Copy, PartialEq, Eq, Structural)]
pub enum Transition {
    TargetReached,
    Injected(ProviderStep),
    InjectionFailed(ProviderStep),
}

/// How the login flow ended.
#[derive(Debug, Clone, Copy, PartialEq, Eq, Structural)]
pub enum LoginOutcome {
    /// The ticket page was reached.
    Reached,
    /// The URL stayed the same for the whole timeout. The driver's
    /// `current_url` is the last URL seen.
    TimedOut,
    /// The driver was told something it had not asked for.
    OutOfOrder,
}

/// What the driver wants done next.
#[derive(Debug, Clone, Copy, PartialEq, Eq, Structural)]
pub enum LoginAction {
    /// Sleep, let any navigation settle, read the URL and report it.
    Poll { sleep_ms: u64 },
    /// Run the injector of this step and report how it ended.
    Inject { step: ProviderStep },
    /// Let the operator inspect the browser, then report back.
    Checkpoint { transition: Transition },
    /// Stop.
    Finished { outcome: LoginOutcome },
}

/// One answer of the driver.
#[derive(Debug, Clone, Copy, PartialEq, Eq, Structural)]
pub struct LoginStep {
    pub notice: Notice,
    pub action: LoginAction,
}

/// What the driver waits for after a checkpoint.
#[derive(Debug, Clone, Copy, PartialEq, Eq, Structural)]
pub enum ResumeKind {
    Target,
    AfterFilled,
    AfterFailed,
}

/// What the driver is waiting for.
#[derive(Debug, Clone, Copy, PartialEq, Eq, Structural)]
pub enum Phase {
    Idle,
    AwaitingUrl,
    AwaitingInjector { step: ProviderStep },
    AwaitingResume { kind: ResumeKind },
    Done,
}

/// Something reported to the driver.
pub enum LoginEvent {
    Url(Seq<char>),
    Injector(InjectorOutcome),
    Resumed,
}

impl DoneFlags {
    /// No step attempted.
    pub open spec fn cleared() -> DoneFlags {
        DoneFlags {
            atlassian_username: false,
            account_continue: false,
            microsoft_username: false,
            microsoft_password: false,
        }
    }

    /// Whether `step` has been attempted.
    pub open spec fn get(self, step: ProviderStep) -> bool {
        match step {
            ProviderStep::AtlassianUsername => self.atlassian_username,
            ProviderStep::AccountContinue => self.account_continue,
            ProviderStep::MicrosoftUsername => self.microsoft_username,
            ProviderStep::MicrosoftPassword => self.microsoft_password,
        }
    }

    /// These flags with `step` marked as attempted.
    pub open spec fn with(self, step: ProviderStep) -> DoneFlags {
        match step {
            ProviderStep::AtlassianUsername => DoneFlags { atlassian_username: true, ..self },
            ProviderStep::AccountContinue => DoneFlags { account_continue: true, ..self },
            ProviderStep::MicrosoftUsername => DoneFlags { microsoft_username: true, ..self },
            ProviderStep::MicrosoftPassword => DoneFlags { microsoft_password: true, ..self },
        }
    }

    /// The flags that a change of URL leaves: none, or where the browser
    /// `stays` on the Microsoft host, the flag of the Microsoft user name as
    /// it was.
    pub open spec fn carried(self, stays: bool) -> DoneFlags {
        if stays {
            DoneFlags { microsoft_username: self.microsoft_username, ..DoneFlags::cleared() }
        } else {
            DoneFlags::cleared()
        }
    }

    /// No step attempted.
    pub fn new() -> (r: DoneFlags)
        ensures
            r == DoneFlags::cleared(),
    {
        DoneFlags {
            atlassian_username: false,
            account_continue: false,
            microsoft_username: false,
            microsoft_password: false,
        }
    }

    /// Whether `step` has been attempted.
    pub fn is_done(&self, step: ProviderStep) -> (r: bool)
        ensures
            r == self.get(step),
    {
        match step {
            ProviderStep::AtlassianUsername => self.atlassian_username,
            ProviderStep::AccountContinue => self.account_continue,
            ProviderStep::MicrosoftUsername => self.microsoft_username,
            ProviderStep::MicrosoftPassword => self.microsoft_password,
        }
    }

    /// Marks `step` as attempted.
    pub fn mark(&mut self, step: ProviderStep)
        ensures
            *final(self) == old(self).with(step),
    {
        match step {
            ProviderStep::AtlassianUsername => {
                self.atlassian_username = true;
            },
            ProviderStep::AccountContinue => {
                self.account_continue = true;
            },
            ProviderStep::MicrosoftUsername => {
                self.microsoft_username = true;
            },
            ProviderStep::MicrosoftPassword => {
                self.microsoft_password = true;
            },
        }
    }
}

/// Time from `start_ms` to `now_ms`; zero when the clock reads earlier than
/// the start.
pub open spec fn elapsed(now_ms: u64, start_ms: u64) -> int {
    if now_ms >= start_ms {
        now_ms - start_ms
    } else {
        0
    }
}

/// `a + b`, or the largest `u64` where that does not fit.
pub open spec fn saturating_sum(a: u64, b: u64) -> u64 {
    if a + b > u64::MAX {
        u64::MAX
    } else {
        (a + b) as u64
    }
}

/// The mathematical content of a driver.
pub struct LoginModel {
    pub ticket_id: Seq<char>,
    pub username: Seq<char>,
    pub password: Seq<char>,
    pub timeout_ms: u64,
    pub phase: Phase,
    /// When the URL last changed.
    pub start_ms: u64,
    /// The URL read last.
    pub current_url: Seq<char>,
    pub done: DoneFlags,
    /// Whether the operator has been told about the present URL.
    pub prompt_shown: bool,
}

impl LoginModel {
    /// The credential that the injector of `step` types.
    pub open spec fn credential(self, step: ProviderStep) -> Seq<char> {
        match step {
            ProviderStep::MicrosoftPassword => self.password,
            _ => self.username,
        }
    }

    /// Whether there is a credential for `step`.
    pub open spec fn has_credential(self, step: ProviderStep) -> bool {
        match step {
            ProviderStep::MicrosoftPassword => !is_blank_text(self.password),
            _ => !is_blank_text(self.username),
        }
    }

    /// The step to run on a page of state `state`, if any: the page's own step
    /// where it has not been attempted and a credential is there. A page of
    /// the Microsoft host is the user-name prompt until the user name has been
    /// attempted, and the password prompt from then on.
    pub open spec fn pending_step(self, state: LoginFlowState) -> Option<ProviderStep> {
        let step = match state {
            LoginFlowState::AtlassianUsernamePrompt => Some(ProviderStep::AtlassianUsername),
            LoginFlowState::AtlassianAccountChooser => Some(ProviderStep::AccountContinue),
            LoginFlowState::MicrosoftUsernamePrompt => if !self.done.microsoft_username {
                Some(ProviderStep::MicrosoftUsername)
            } else {
                Some(ProviderStep::MicrosoftPassword)
            },
            _ => None,
        };
        match step {
            Some(s) => if !self.done.get(s) && self.has_credential(s) {
                Some(s)
            } else {
                None
            },
            None => None,
        }
    }

    /// The head of the polling loop: go on while the URL has changed within
    /// the timeout.
    pub open spec fn loop_top(self, now_ms: u64, sleep_ms: u64, notice: Notice) -> (
        LoginModel,
        LoginStep,
    ) {
        if elapsed(now_ms, self.start_ms) < self.timeout_ms {
            (
                LoginModel { phase: Phase::AwaitingUrl, ..self },
                LoginStep { notice, action: LoginAction::Poll { sleep_ms } },
            )
        } else {
            (
                LoginModel { phase: Phase::Done, ..self },
                LoginStep {
                    notice,
                    action: LoginAction::Finished { outcome: LoginOutcome::TimedOut },
                },
            )
        }
    }

    /// The driver at the start of a run at time `now_ms`.
    pub open spec fn started(self, now_ms: u64) -> (LoginModel, LoginStep) {
        LoginModel {
            start_ms: now_ms,
            current_url: Seq::empty(),
            done: DoneFlags::cleared(),
            prompt_shown: false,
            ..self
        }.loop_top(now_ms, POLL_INTERVAL_MS, Notice::Nothing)
    }

    /// The driver's records once `url` has been read at `now_ms`. A URL that
    /// differs from the one before restarts the timer and clears the flags,
    /// but for the flag of the Microsoft user name where both URLs lie on the
    /// Microsoft host. A URL that has stayed the same beyond the grace period
    /// is worth one warning.
    pub open spec fn observed(self, url: Seq<char>, now_ms: u64) -> (LoginModel, Notice) {
        if url != self.current_url {
            (
                LoginModel {
                    current_url: url,
                    start_ms: now_ms,
                    done: self.done.carried(
                        on_microsoft_host(url) && on_microsoft_host(self.current_url),
                    ),
                    prompt_shown: false,
                    ..self
                },
                Notice::Nothing,
            )
        } else if !self.prompt_shown && elapsed(now_ms, self.start_ms) > STALE_GRACE_MS {
            (LoginModel { prompt_shown: true, ..self }, Notice::StaleUrl)
        } else {
            (self, Notice::Nothing)
        }
    }

    /// The answer to a URL read at `now_ms`.
    pub open spec fn on_url(self, url: Seq<char>, now_ms: u64) -> (LoginModel, LoginStep) {
        if self.phase != Phase::AwaitingUrl {
            self.out_of_order()
        } else if is_target_url(url, self.ticket_id) {
            (
                LoginModel {
                    current_url: url,
                    phase: Phase::AwaitingResume { kind: ResumeKind::Target },
                    ..self
                },
                LoginStep {
                    notice: Notice::Nothing,
                    action: LoginAction::Checkpoint { transition: Transition::TargetReached },
                },
            )
        } else {
            let (m, notice) = self.observed(url, now_ms);
            let state = provider_state(url);
            if state == LoginFlowState::MicrosoftMfaWait {
                if !m.prompt_shown {
                    LoginModel {
                        prompt_shown: true,
                        start_ms: saturating_sum(m.start_ms, MFA_WAIT_MS),
                        ..m
                    }.loop_top(
                        now_ms,
                        (POLL_INTERVAL_MS + MFA_WAIT_MS) as u64,
                        Notice::MfaPrompt,
                    )
                } else {
                    m.loop_top(now_ms, POLL_INTERVAL_MS, notice)
                }
            } else {
                match m.pending_step(state) {
                    Some(step) => (
                        LoginModel { phase: Phase::AwaitingInjector { step }, ..m },
                        LoginStep { notice, action: LoginAction::Inject { step } },
                    ),
                    None => m.loop_top(now_ms, POLL_INTERVAL_MS, notice),
                }
            }
        }
    }

    /// The answer to the end of an injector at `now_ms`.
    pub open spec fn on_injector(self, outcome: InjectorOutcome, now_ms: u64) -> (
        LoginModel,
        LoginStep,
    ) {
        match self.phase {
            Phase::AwaitingInjector { step } => match outcome {
                InjectorOutcome::Filled => (
                    LoginModel {
                        done: self.done.with(step),
                        phase: Phase::AwaitingResume { kind: ResumeKind::AfterFilled },
                        ..self
                    },
                    LoginStep {
                        notice: Notice::Nothing,
                        action: LoginAction::Checkpoint { transition: Transition::Injected(step) },
                    },
                ),
                InjectorOutcome::NotReady => self.loop_top(
                    now_ms,
                    POLL_INTERVAL_MS,
                    Notice::Nothing,
                ),
                InjectorOutcome::Failed => (
                    LoginModel {
                        done: self.done.with(step),
                        phase: Phase::AwaitingResume { kind: ResumeKind::AfterFailed },
                        ..self
                    },
                    LoginStep {
                        notice: Notice::Nothing,
                        action: LoginAction::Checkpoint {
                            transition: Transition::InjectionFailed(step),
                        },
                    },
                ),
            },
            _ => self.out_of_order(),
        }
    }

    /// The answer to the operator letting a checkpoint go at `now_ms`. After a
    /// step that was filled in, the URL is read again at once.
    pub open spec fn on_resumed(self, now_ms: u64) -> (LoginModel, LoginStep) {
        match self.phase {
            Phase::AwaitingResume { kind } => match kind {
                ResumeKind::Target => (
                    LoginModel { phase: Phase::Done, ..self },
                    LoginStep {
                        notice: Notice::Nothing,
                        action: LoginAction::Finished { outcome: LoginOutcome::Reached },
                    },
                ),
                ResumeKind::AfterFilled => self.loop_top(now_ms, 0, Notice::Nothing),
                ResumeKind::AfterFailed => self.loop_top(
                    now_ms,
                    POLL_INTERVAL_MS,
                    Notice::Nothing,
                ),
            },
            _ => self.out_of_order(),
        }
    }

    /// The answer to a report that was not asked for: the run ends.
    pub open spec fn out_of_order(self) -> (LoginModel, LoginStep) {
        (
            LoginModel { phase: Phase::Done, ..self },
            LoginStep {
                notice: Notice::Nothing,
                action: LoginAction::Finished { outcome: LoginOutcome::OutOfOrder },
            },
        )
    }

    /// The answer to `event` at `now_ms`.
    pub open spec fn next(self, event: LoginEvent, now_ms: u64) -> (LoginModel, LoginStep) {
        match event {
            LoginEvent::Url(url) => self.on_url(url, now_ms),
            LoginEvent::Injector(outcome) => self.on_injector(outcome, now_ms),
            LoginEvent::Resumed => self.on_resumed(now_ms),
        }
    }

    /// The driver after a series of reports, each with its time.
    pub open spec fn after(self, reports: Seq<(LoginEvent, u64)>) -> LoginModel
        decreases reports.len(),
    {
        if reports.len() == 0 {
            self
        } else {
            self.after(reports.drop_last()).next(reports.last().0, reports.last().1).0
        }
    }

    /// The driver's answer to the last of a series of reports.
    pub open spec fn answer_to_last(self, reports: Seq<(LoginEvent, u64)>) -> LoginStep
        recommends
            reports.len() > 0,
    {
        self.after(reports.drop_last()).next(reports.last().0, reports.last().1).1
    }
}

/// What a login that timed out reports: the URL on which it stalled.
#[derive(Debug, Clone)]
pub struct LoginFailure {
    pub last_url: String,
}

/// The polling state machine of one login.
pub struct LoginDriver {
    ticket_id: String,
    username: String,
    password: String,
    timeout_ms: u64,
    phase: Phase,
    start_ms: u64,
    current_url: String,
    done: DoneFlags,
    prompt_shown: bool,
}

impl View for LoginDriver {
    type V = LoginModel;

    closed spec fn view(&self) -> LoginModel {
        LoginModel {
            ticket_id: self.ticket_id@,
            username: self.username@,
            password: self.password@,
            timeout_ms: self.timeout_ms,
            phase: self.phase,
            start_ms: self.start_ms,
            current_url: self.current_url@,
            done: self.done,
            prompt_shown: self.prompt_shown,
        }
    }
}

impl LoginDriver {
    /// A driver for ticket `ticket_id` that gives up after `timeout_ms`
    /// milliseconds without a change of URL. An empty or blank credential is
    /// an absent one. The driver is idle until `start` is called.
    pub fn new(ticket_id: &str, timeout_ms: u64, username: &str, password: &str) -> (d: Self)
        ensures
            d@ == (LoginModel {
                ticket_id: ticket_id@,
                username: username@,
                password: password@,
                timeout_ms,
                phase: Phase::Idle,
                start_ms: 0,
                current_url: Seq::empty(),
                done: DoneFlags::cleared(),
                prompt_shown: false,
            }),
    {
        LoginDriver {
            ticket_id: ticket_id.to_owned(),
            username: username.to_owned(),
            password: password.to_owned(),
            timeout_ms,
            phase: Phase::Idle,
            start_ms: 0,
            current_url: String::new(),
            done: DoneFlags::new(),
            prompt_shown: false,
        }
    }

    /// The URL read last; after a timeout, the URL on which the flow stalled.
    pub fn current_url(&self) -> (url: &str)
        ensures
            url@ == self@.current_url,
    {
        self.current_url.as_str()
    }

    /// The failure to report after a timeout. It carries the last URL seen.
    pub fn failure(&self) -> (f: LoginFailure)
        ensures
            f.last_url@ == self@.current_url,
    {
        LoginFailure { last_url: self.current_url.clone() }
    }

    /// What the driver is waiting for.
    pub fn phase(&self) -> (p: Phase)
        ensures
            p == self@.phase,
    {
        self.phase
    }

    /// The credential that the injector of `step` is to type.
    pub fn credential(&self, step: ProviderStep) -> (text: &str)
        ensures
            text@ == self@.credential(step),
    {
        match step {
            ProviderStep::MicrosoftPassword => self.password.as_str(),
            _ => self.username.as_str(),
        }
    }

    fn elapsed_ms(&self, now_ms: u64) -> (r: u64)
        ensures
            r == elapsed(now_ms, self@.start_ms),
    {
        if now_ms >= self.start_ms {
            now_ms - self.start_ms
        } else {
            0
        }
    }

    fn loop_top(&mut self, now_ms: u64, sleep_ms: u64, notice: Notice) -> (step: LoginStep)
        ensures
            (final(self)@, step) == old(self)@.loop_top(now_ms, sleep_ms, notice),
    {
        if self.elapsed_ms(now_ms) < self.timeout_ms {
            self.phase = Phase::AwaitingUrl;
            LoginStep { notice, action: LoginAction::Poll { sleep_ms } }
        } else {
            self.phase = Phase::Done;
            LoginStep { notice, action: LoginAction::Finished { outcome: LoginOutcome::TimedOut } }
        }
    }

    fn out_of_order(&mut self) -> (step: LoginStep)
        ensures
            (final(self)@, step) == old(self)@.out_of_order(),
    {
        self.phase = Phase::Done;
        LoginStep {
            notice: Notice::Nothing,
            action: LoginAction::Finished { outcome: LoginOutcome::OutOfOrder },
        }
    }

    fn has_credential(&self, step: ProviderStep) -> (r: bool)
        ensures
            r == self@.has_credential(step),
    {
        match step {
            ProviderStep::MicrosoftPassword => !is_blank(self.password.as_str()),
            _ => !is_blank(self.username.as_str()),
        }
    }

    fn pending_step(&self, state: LoginFlowState) -> (r: Option<ProviderStep>)
        ensures
            r == self@.pending_step(state),
    {
        let step = match state {
            LoginFlowState::AtlassianUsernamePrompt => Some(ProviderStep::AtlassianUsername),
            LoginFlowState::AtlassianAccountChooser => Some(ProviderStep::AccountContinue),
            LoginFlowState::MicrosoftUsernamePrompt => if !self.done.microsoft_username {
                Some(ProviderStep::MicrosoftUsername)
            } else {
                Some(ProviderStep::MicrosoftPassword)
            },
            _ => None,
        };
        match step {
            Some(s) => if !self.done.is_done(s) && self.has_credential(s) {
                Some(s)
            } else {
                None
            },
            None => None,
        }
    }

    fn observe(&mut self, url: &str, now_ms: u64) -> (notice: Notice)
        ensures
            (final(self)@, notice) == old(self)@.observed(url@, now_ms),
    {
        if !same_text(url, self.current_url.as_str()) {
            let stays = is_on_microsoft_host(url) && is_on_microsoft_host(
                self.current_url.as_str(),
            );
            let keep = stays && self.done.microsoft_username;
            self.current_url = url.to_owned();
            self.start_ms = now_ms;
            self.done = DoneFlags::new();
            if keep {
                self.done.mark(ProviderStep::MicrosoftUsername);
            }
            self.prompt_shown = false;
            Notice::Nothing
        } else if !self.prompt_shown && self.elapsed_ms(now_ms) > STALE_GRACE_MS {
            self.prompt_shown = true;
            Notice::StaleUrl
        } else {
            Notice::Nothing
        }
    }

    /// Starts a run at time `now_ms`: the timer starts, nothing has been seen
    /// or attempted.
    pub fn start(&mut self, now_ms: u64) -> (step: LoginStep)
        ensures
            (final(self)@, step) == old(self)@.started(now_ms),
    {
        self.start_ms = now_ms;
        self.current_url = String::new();
        self.done = DoneFlags::new();
        self.prompt_shown = false;
        self.loop_top(now_ms, POLL_INTERVAL_MS, Notice::Nothing)
    }

    /// Reports that `url` was read at time `now_ms`.
    pub fn on_url(&mut self, url: &str, now_ms: u64) -> (step: LoginStep)
        ensures
            (final(self)@, step) == old(self)@.on_url(url@, now_ms),
    {
        match self.phase {
            Phase::AwaitingUrl => {},
            _ => {
                return self.out_of_order();
            },
        }
        if is_on_ticket_page(url, self.ticket_id.as_str()) {
            self.current_url = url.to_owned();
            self.phase = Phase::AwaitingResume { kind: ResumeKind::Target };
            return LoginStep {
                notice: Notice::Nothing,
                action: LoginAction::Checkpoint { transition: Transition::TargetReached },
            };
        }
        let notice = self.observe(url, now_ms);
        let state = classify_provider(url);
        match state {
            LoginFlowState::MicrosoftMfaWait => {
                if !self.prompt_shown {
                    self.prompt_shown = true;
                    self.start_ms = self.start_ms.saturating_add(MFA_WAIT_MS);
                    self.loop_top(now_ms, POLL_INTERVAL_MS + MFA_WAIT_MS, Notice::MfaPrompt)
                } else {
                    self.loop_top(now_ms, POLL_INTERVAL_MS, notice)
                }
            },
            _ => {
                match self.pending_step(state) {
                    Some(step) => {
                        self.phase = Phase::AwaitingInjector { step };
                        LoginStep { notice, action: LoginAction::Inject { step } }
                    },
                    None => self.loop_top(now_ms, POLL_INTERVAL_MS, notice),
                }
            },
        }
    }

    /// Reports that the injector asked for ended with `outcome` at `now_ms`.
    pub fn on_injector(&mut self, outcome: InjectorOutcome, now_ms: u64) -> (step: LoginStep)
        ensures
            (final(self)@, step) == old(self)@.on_injector(outcome, now_ms),
    {
        match self.phase {
            Phase::AwaitingInjector { step } => match outcome {
                InjectorOutcome::Filled => {
                    self.done.mark(step);
                    self.phase = Phase::AwaitingResume { kind: ResumeKind::AfterFilled };
                    LoginStep {
                        notice: Notice::Nothing,
                        action: LoginAction::Checkpoint { transition: Transition::Injected(step) },
                    }
                },
                InjectorOutcome::NotReady => self.loop_top(
                    now_ms,
                    POLL_INTERVAL_MS,
                    Notice::Nothing,
                ),
                InjectorOutcome::Failed => {
                    self.done.mark(step);
                    self.phase = Phase::AwaitingResume { kind: ResumeKind::AfterFailed };
                    LoginStep {
                        notice: Notice::Nothing,
                        action: LoginAction::Checkpoint {
                            transition: Transition::InjectionFailed(step),
                        },
                    }
                },
            },
            _ => self.out_of_order(),
        }
    }

    /// Reports that the operator let the checkpoint go at `now_ms`.
    pub fn on_resumed(&mut self, now_ms: u64) -> (step: LoginStep)
        ensures
            (final(self)@, step) == old(self)@.on_resumed(now_ms),
    {
        match self.phase {
            Phase::AwaitingResume { kind } => match kind {
                ResumeKind::Target => {
                    self.phase = Phase::Done;
                    LoginStep {
                        notice: Notice::Nothing,
                        action: LoginAction::Finished { outcome: LoginOutcome::Reached },
                    }
                },
                ResumeKind::AfterFilled => self.loop_top(now_ms, 0, Notice::Nothing),
                ResumeKind::AfterFailed => self.loop_top(
                    now_ms,
                    POLL_INTERVAL_MS,
                    Notice::Nothing,
                ),
            },
            _ => self.out_of_order(),
        }
    }
}

} // verus!
