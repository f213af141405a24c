//! What holds of every run of the login driver.

use vstd::prelude::*;
use crate::web::login::{
    elapsed, DoneFlags, InjectorOutcome, LoginAction, LoginEvent, LoginModel, LoginOutcome,
    LoginStep, Notice, Phase, ProviderStep, ResumeKind, Transition,
};
use crate::text::is_blank_text;
use crate::web::probe::{is_target_url, on_microsoft_host, provider_state, LoginFlowState};

verus! {

/// The step that belongs to a page, when no step has been attempted on it.
pub open spec fn first_step_of(state: LoginFlowState) -> Option<ProviderStep> {
    match state {
        LoginFlowState::AtlassianUsernamePrompt => Some(ProviderStep::AtlassianUsername),
        LoginFlowState::AtlassianAccountChooser => Some(ProviderStep::AccountContinue),
        LoginFlowState::MicrosoftUsernamePrompt => Some(ProviderStep::MicrosoftUsername),
        _ => None,
    }
}

/// When the URL last changed in a series of readings, each a URL and its
/// time, that follows a driver's own records.
pub open spec fn last_change(m: LoginModel, readings: Seq<(Seq<char>, u64)>) -> u64
    decreases readings.len(),
{
    if readings.len() == 0 {
        m.start_ms
    } else {
        let earlier = readings.drop_last();
        let url_before = if earlier.len() == 0 {
            m.current_url
        } else {
            earlier.last().0
        };
        if readings.last().0 != url_before {
            readings.last().1
        } else {
            last_change(m, earlier)
        }
    }
}

/// The driver after a series of URL readings.
pub open spec fn after_readings(m: LoginModel, readings: Seq<(Seq<char>, u64)>) -> LoginModel
    decreases readings.len(),
{
    if readings.len() == 0 {
        m
    } else {
        after_readings(m, readings.drop_last()).on_url(readings.last().0, readings.last().1).0
    }
}

/// A changed URL restarts the timer: the driver that reads a URL other than
/// the one before does not time out on it, however long the run has lasted.
pub proof fn lemma_url_change_restarts_timer(m: LoginModel, url: Seq<char>, now_ms: u64)
    requires
        m.phase == Phase::AwaitingUrl,
        m.timeout_ms > 0,
        url != m.current_url,
        !is_target_url(url, m.ticket_id),
    ensures
        ({
            let (n, step) = m.on_url(url, now_ms);
            &&& !(step.action is Finished)
            &&& n.current_url == url
            &&& n.start_ms >= now_ms
            &&& elapsed(now_ms, n.start_ms) == 0
        }),
{
}

/// The driver times out only on inactivity: when it does, the time since the
/// URL last changed has reached the timeout, and the URL just read, if one
/// was read, is the one read before.
pub proof fn lemma_timeout_means_inactivity(m: LoginModel, event: LoginEvent, now_ms: u64)
    requires
        m.next(event, now_ms).1.action == (LoginAction::Finished {
            outcome: LoginOutcome::TimedOut,
        }),
    ensures
        elapsed(now_ms, m.start_ms) >= m.timeout_ms,
        event matches LoginEvent::Url(url) ==> url == m.current_url || m.timeout_ms == 0,
{
}

/// A page on which the driver has nothing to do but wait: it is not the
/// ticket, and either it shows no login step or there is no credential at all
/// and no second factor is asked for.
pub open spec fn is_quiet_page(m: LoginModel, url: Seq<char>) -> bool {
    &&& !is_target_url(url, m.ticket_id)
    &&& {
        ||| provider_state(url) == LoginFlowState::Unclassified
        ||| {
            &&& provider_state(url) != LoginFlowState::MicrosoftMfaWait
            &&& is_blank_text(m.username)
            &&& is_blank_text(m.password)
        }
    }
}

/// The timeout is measured from the last change of URL, not from the start
/// of the run. Over any series of readings of pages on which the driver only
/// waits, if each reading comes less than the timeout after the last change
/// of URL before or at it, the driver is still polling after the last one,
/// whatever the total time.
pub proof fn lemma_polling_survives_changes(m: LoginModel, readings: Seq<(Seq<char>, u64)>)
    requires
        m.phase == Phase::AwaitingUrl,
        forall|i: int|
            0 <= i < readings.len() ==> {
                &&& is_quiet_page(m, #[trigger] readings[i].0)
                &&& elapsed(readings[i].1, last_change(m, readings.take(i + 1))) < m.timeout_ms
            },
    ensures
        after_readings(m, readings).phase == Phase::AwaitingUrl,
        after_readings(m, readings).start_ms == last_change(m, readings),
        after_readings(m, readings).current_url == (if readings.len() == 0 {
            m.current_url
        } else {
            readings.last().0
        }),
        after_readings(m, readings).ticket_id == m.ticket_id,
        after_readings(m, readings).timeout_ms == m.timeout_ms,
        after_readings(m, readings).username == m.username,
        after_readings(m, readings).password == m.password,
    decreases readings.len(),
{
    if readings.len() > 0 {
        let earlier = readings.drop_last();
        assert forall|i: int| 0 <= i < earlier.len() implies {
            &&& is_quiet_page(m, #[trigger] earlier[i].0)
            &&& elapsed(earlier[i].1, last_change(m, earlier.take(i + 1))) < m.timeout_ms
        } by {
            assert(earlier[i] == readings[i]);
            assert(earlier.take(i + 1) =~= readings.take(i + 1));
        }
        lemma_polling_survives_changes(m, earlier);
        let k = readings.len() - 1;
        assert(readings.take(k + 1) =~= readings);
        assert(is_quiet_page(m, readings[k].0));
    }
}

/// A timeout carries the last URL seen: when the answer to a reading is the
/// timeout, the driver's `current_url` is the URL just read.
pub proof fn lemma_timeout_carries_last_url(m: LoginModel, url: Seq<char>, now_ms: u64)
    requires
        m.on_url(url, now_ms).1.action == (LoginAction::Finished {
            outcome: LoginOutcome::TimedOut,
        }),
    ensures
        m.on_url(url, now_ms).0.current_url == url,
        m.on_url(url, now_ms).0.phase == Phase::Done,
{
}

/// Reaching the ticket page ends the run with success at any time: one last
/// checkpoint, then `Reached`.
pub proof fn lemma_target_ends_with_success(
    m: LoginModel,
    url: Seq<char>,
    now_ms: u64,
    later_ms: u64,
)
    requires
        m.phase == Phase::AwaitingUrl,
        is_target_url(url, m.ticket_id),
    ensures
        m.on_url(url, now_ms).1.action == (LoginAction::Checkpoint {
            transition: Transition::TargetReached,
        }),
        m.on_url(url, now_ms).0.on_resumed(later_ms).1.action == (LoginAction::Finished {
            outcome: LoginOutcome::Reached,
        }),
{
}

/// An injector is asked for only where its step has not been attempted since
/// the URL last changed and there is a credential for it.
pub proof fn lemma_inject_needs_clear_flag(m: LoginModel, event: LoginEvent, now_ms: u64)
    ensures
        ({
            let (n, step) = m.next(event, now_ms);
            step.action matches LoginAction::Inject { step: s } ==> {
                &&& !n.done.get(s)
                &&& n.has_credential(s)
                &&& n.phase == Phase::AwaitingInjector { step: s }
            }
        }),
{
}

/// An attempt that ended, filled in or failed, marks its step.
pub proof fn lemma_attempt_marks_step(
    m: LoginModel,
    s: ProviderStep,
    outcome: InjectorOutcome,
    now_ms: u64,
)
    requires
        m.phase == (Phase::AwaitingInjector { step: s }),
        outcome != InjectorOutcome::NotReady,
    ensures
        m.on_injector(outcome, now_ms).0.done.get(s),
        m.on_injector(outcome, now_ms).0.current_url == m.current_url,
{
}

/// Whether `event` is a reading of `url` or no reading at all.
pub open spec fn reads_nothing_but(event: LoginEvent, url: Seq<char>) -> bool {
    match event {
        LoginEvent::Url(u) => u == url,
        _ => true,
    }
}

/// A step is attempted at most once while the URL stays the same: once the
/// step is marked, no series of reports in which every URL read is the present
/// one makes the driver ask for its injector again.
pub proof fn lemma_single_attempt_per_occurrence(
    m: LoginModel,
    s: ProviderStep,
    reports: Seq<(LoginEvent, u64)>,
)
    requires
        m.done.get(s),
        forall|i: int|
            0 <= i < reports.len() ==> reads_nothing_but(#[trigger] reports[i].0, m.current_url),
    ensures
        m.after(reports).done.get(s),
        m.after(reports).current_url == m.current_url,
        reports.len() > 0 ==> m.answer_to_last(reports).action != (LoginAction::Inject {
            step: s,
        }),
    decreases reports.len(),
{
    if reports.len() > 0 {
        let earlier = reports.drop_last();
        assert forall|i: int| 0 <= i < earlier.len() implies reads_nothing_but(
            #[trigger] earlier[i].0,
            m.current_url,
        ) by {
            assert(earlier[i] == reports[i]);
        }
        lemma_single_attempt_per_occurrence(m, s, earlier);
        let before = m.after(earlier);
        let last = reports[reports.len() - 1];
        assert(reads_nothing_but(last.0, before.current_url));
    }
}

/// After a change of URL a step may be attempted again: whatever was marked
/// before, reading a new URL that shows a login step, with a credential for
/// it at hand, makes the driver ask for that step's injector. A change from
/// one page of the Microsoft host to another is the one exception: there the
/// user name is not asked for twice.
pub proof fn lemma_url_change_allows_retry(m: LoginModel, url: Seq<char>, now_ms: u64)
    requires
        m.phase == Phase::AwaitingUrl,
        url != m.current_url,
        !is_target_url(url, m.ticket_id),
        !(on_microsoft_host(url) && on_microsoft_host(m.current_url)),
        first_step_of(provider_state(url)) is Some,
        m.has_credential(first_step_of(provider_state(url))->0),
    ensures
        m.on_url(url, now_ms).1.action == (LoginAction::Inject {
            step: first_step_of(provider_state(url))->0,
        }),
        m.on_url(url, now_ms).0.done == DoneFlags::cleared(),
{
}

/// On the Microsoft host the password follows the user name also when the
/// page changes in between: once the user name has been attempted, a new URL
/// on that host that is not the wait for a second factor makes the driver ask
/// for the password, where there is one, and never for the user name again.
pub proof fn lemma_password_follows_across_pages(m: LoginModel, url: Seq<char>, now_ms: u64)
    requires
        m.phase == Phase::AwaitingUrl,
        m.done.microsoft_username,
        url != m.current_url,
        on_microsoft_host(m.current_url),
        provider_state(url) == LoginFlowState::MicrosoftUsernamePrompt,
        !is_target_url(url, m.ticket_id),
    ensures
        m.on_url(url, now_ms).0.done.microsoft_username,
        !m.on_url(url, now_ms).0.done.microsoft_password,
        !is_blank_text(m.password) ==> m.on_url(url, now_ms).1.action == (LoginAction::Inject {
            step: ProviderStep::MicrosoftPassword,
        }),
        m.on_url(url, now_ms).1.action != (LoginAction::Inject {
            step: ProviderStep::MicrosoftUsername,
        }),
{
}

/// A change of URL that leaves the Microsoft host, or enters it, clears
/// every flag, that of the Microsoft user name too: on the next visit the user
/// name is asked for again.
pub proof fn lemma_url_change_clears_flags(m: LoginModel, url: Seq<char>, now_ms: u64)
    requires
        m.phase == Phase::AwaitingUrl,
        url != m.current_url,
        !is_target_url(url, m.ticket_id),
        !(on_microsoft_host(url) && on_microsoft_host(m.current_url)),
    ensures
        m.on_url(url, now_ms).0.done == DoneFlags::cleared(),
{
}

/// A step for which there is no credential is never asked for.
pub proof fn lemma_no_credential_no_injection(m: LoginModel, event: LoginEvent, now_ms: u64)
    ensures
        m.next(event, now_ms).1.action matches LoginAction::Inject { step: s }
            ==> m.has_credential(s),
{
}

} // verus!
