//! What holds of every session.

use vstd::prelude::*;
use crate::text::trimmed;
use crate::web::browser::{ReplyView, StepView};
use crate::web::client::{security_keywords, SessionError, SessionModel, SessionPhase};
use crate::web::form::{DropdownModel, FormError};
use crate::web::inject::InjectorModel;
use crate::web::login::{
    InjectorOutcome, LoginAction, LoginModel, LoginOutcome, LoginStep, Notice, Phase,
    Transition,
};

verus! {

/// The session and its login driver wait for the same thing: while the
/// session polls, the driver awaits a URL; while an injector runs, the driver
/// awaits its end; at a checkpoint, the driver awaits the operator.
pub open spec fn in_step(m: SessionModel) -> bool {
    match m.phase {
        SessionPhase::PollSleeping | SessionPhase::PollSettling | SessionPhase::PollReading => {
            m.driver.phase == Phase::AwaitingUrl
        },
        SessionPhase::Injecting => m.driver.phase is AwaitingInjector,
        SessionPhase::AtCheckpoint => m.driver.phase is AwaitingResume,
        SessionPhase::Announcing { action } => action_fits(action, m.driver.phase),
        _ => true,
    }
}

/// The session after a series of replies, each with its time.
pub open spec fn after_replies(m: SessionModel, replies: Seq<(ReplyView, u64)>) -> SessionModel
    decreases replies.len(),
{
    if replies.len() == 0 {
        m
    } else {
        after_replies(m, replies.drop_last()).next(replies.last().0, replies.last().1).0
    }
}

/// A session at its start is in step with its driver.
pub proof fn lemma_begun_in_step(
    m: SessionModel,
    ticket_id: Seq<char>,
    security_value: Option<Seq<char>>,
)
    ensures
        in_step(m.begun(ticket_id, security_value).0),
{
}

/// The answer is not the error of a driver told something out of turn.
pub open spec fn in_turn(answer: StepView<Result<(), SessionError>>) -> bool {
    answer != StepView::<Result<(), SessionError>>::Finished(Err(SessionError::LoginOutOfOrder))
}

/// The session is at work on the form, or at its end.
pub open spec fn in_form(m: SessionModel) -> bool {
    ||| m.phase == SessionPhase::OpeningEditor
    ||| m.phase == SessionPhase::SettingDropdown
    ||| m.phase == SessionPhase::Saving
    ||| m.phase == SessionPhase::Done
}

/// An action and the phase of the driver that gave it belong together.
pub open spec fn action_fits(action: LoginAction, phase: Phase) -> bool {
    match action {
        LoginAction::Poll { .. } => phase == Phase::AwaitingUrl,
        LoginAction::Inject { step } => phase == (Phase::AwaitingInjector { step }),
        LoginAction::Checkpoint { .. } => phase is AwaitingResume,
        LoginAction::Finished { outcome } => outcome != LoginOutcome::OutOfOrder,
    }
}

proof fn lemma_save_answer(m: SessionModel, answer: StepView<Result<(), FormError>>)
    ensures
        in_form(m.save_answer(answer).0),
        in_turn(m.save_answer(answer).1),
{
}

proof fn lemma_start_save(m: SessionModel)
    ensures
        in_form(m.start_save().0),
        in_turn(m.start_save().1),
{
    let r = m.save.next(ReplyView::Done);
    lemma_save_answer(SessionModel { save: r.0, ..m }, r.1);
}

proof fn lemma_dropdown_answer(m: SessionModel, answer: StepView<Result<(), FormError>>)
    ensures
        in_form(m.dropdown_answer(answer).0),
        in_turn(m.dropdown_answer(answer).1),
{
    lemma_start_save(m);
}

proof fn lemma_after_editor(m: SessionModel)
    ensures
        in_form(m.after_editor().0),
        in_turn(m.after_editor().1),
{
    match m.security_value {
        Some(value) => {
            let r = DropdownModel::initial(security_keywords(), trimmed(value)).next(
                ReplyView::Done,
            );
            lemma_dropdown_answer(SessionModel { dropdown: r.0, ..m }, r.1);
        },
        None => {
            lemma_start_save(m);
        },
    }
}

proof fn lemma_editor_answer(m: SessionModel, answer: StepView<Result<(), FormError>>)
    ensures
        in_form(m.editor_answer(answer).0),
        in_turn(m.editor_answer(answer).1),
{
    lemma_after_editor(m);
}

proof fn lemma_settle(m: SessionModel, action: LoginAction)
    requires
        action is Poll || action is Finished,
        action_fits(action, m.driver.phase),
    ensures
        in_step(m.settle(action).0),
        in_turn(m.settle(action).1),
{
    match action {
        LoginAction::Finished { outcome: LoginOutcome::Reached } => {
            let r = m.editor.next(ReplyView::Done);
            lemma_editor_answer(SessionModel { editor: r.0, ..m }, r.1);
        },
        _ => {},
    }
}

proof fn lemma_after_resume(m: SessionModel, now_ms: u64)
    requires
        m.driver.phase is AwaitingResume,
    ensures
        in_step(m.after_resume(now_ms).0),
        in_turn(m.after_resume(now_ms).1),
{
    let r = m.driver.on_resumed(now_ms);
    lemma_settle(SessionModel { driver: r.0, ..m }, r.1.action);
}

proof fn lemma_checkpoint(m: SessionModel, transition: Transition, now_ms: u64)
    requires
        m.driver.phase is AwaitingResume,
    ensures
        in_step(m.checkpoint(transition, now_ms).0),
        in_turn(m.checkpoint(transition, now_ms).1),
{
    lemma_after_resume(SessionModel { steps: m.steps.advanced(), ..m }, now_ms);
}

proof fn lemma_after_injector(m: SessionModel, outcome: InjectorOutcome, now_ms: u64)
    requires
        m.driver.phase is AwaitingInjector,
    ensures
        in_step(m.after_injector(outcome, now_ms).0),
        in_turn(m.after_injector(outcome, now_ms).1),
{
    let r = m.driver.on_injector(outcome, now_ms);
    let n = SessionModel { driver: r.0, ..m };
    match r.1.action {
        LoginAction::Checkpoint { transition } => {
            lemma_checkpoint(n, transition, now_ms);
        },
        action => {
            lemma_settle(n, action);
        },
    }
}

proof fn lemma_injector_answer(m: SessionModel, answer: StepView<InjectorOutcome>, now_ms: u64)
    requires
        m.driver.phase is AwaitingInjector,
    ensures
        in_step(m.injector_answer(answer, now_ms).0),
        in_turn(m.injector_answer(answer, now_ms).1),
{
    match answer {
        StepView::Run(_) => {},
        StepView::Finished(outcome) => {
            lemma_after_injector(m, outcome, now_ms);
        },
    }
}

proof fn lemma_perform(m: SessionModel, action: LoginAction, now_ms: u64)
    requires
        action_fits(action, m.driver.phase),
    ensures
        in_step(m.perform(action, now_ms).0),
        in_turn(m.perform(action, now_ms).1),
{
    match action {
        LoginAction::Inject { step } => {
            let r = InjectorModel::initial(step, m.driver.credential(step)).next(ReplyView::Done);
            lemma_injector_answer(SessionModel { injector: r.0, ..m }, r.1, now_ms);
        },
        LoginAction::Checkpoint { transition } => {
            lemma_checkpoint(m, transition, now_ms);
        },
        other => {
            lemma_settle(m, other);
        },
    }
}

proof fn lemma_follow(m: SessionModel, step: LoginStep, now_ms: u64)
    requires
        action_fits(step.action, m.driver.phase),
    ensures
        in_step(m.follow(step, now_ms).0),
        in_turn(m.follow(step, now_ms).1),
{
    if step.notice == Notice::Nothing {
        lemma_perform(m, step.action, now_ms);
    }
}

/// Every answer of the driver fits the phase in which it leaves the driver,
/// unless the driver was told something out of turn.
proof fn lemma_driver_answers_fit(d: LoginModel, url: Seq<char>, now_ms: u64)
    ensures
        action_fits(d.started(now_ms).1.action, d.started(now_ms).0.phase),
        d.phase == Phase::AwaitingUrl ==> action_fits(
            d.on_url(url, now_ms).1.action,
            d.on_url(url, now_ms).0.phase,
        ),
{
}

/// The session stays in step with its driver, and while it does it never
/// tells the driver anything out of turn.
pub proof fn lemma_next_keeps_in_step(m: SessionModel, reply: ReplyView, now_ms: u64)
    requires
        in_step(m),
    ensures
        in_step(m.next(reply, now_ms).0),
        in_turn(m.next(reply, now_ms).1),
{
    match m.phase {
        SessionPhase::Settling => {
            if reply is Done {
                let r = m.driver.started(now_ms);
                lemma_driver_answers_fit(m.driver, Seq::empty(), now_ms);
                lemma_follow(SessionModel { driver: r.0, ..m }, r.1, now_ms);
            }
        },
        SessionPhase::Announcing { action } => {
            lemma_perform(m, action, now_ms);
        },
        SessionPhase::PollReading => {
            match reply {
                ReplyView::Url(url) => {
                    let r = m.driver.on_url(url, now_ms);
                    lemma_driver_answers_fit(m.driver, url, now_ms);
                    lemma_follow(SessionModel { driver: r.0, ..m }, r.1, now_ms);
                },
                _ => {},
            }
        },
        SessionPhase::Injecting => {
            let r = m.injector.next(reply);
            lemma_injector_answer(SessionModel { injector: r.0, ..m }, r.1, now_ms);
        },
        SessionPhase::AtCheckpoint => {
            if reply is Done {
                lemma_after_resume(m, now_ms);
            }
        },
        SessionPhase::OpeningEditor => {
            let r = m.editor.next(reply);
            lemma_editor_answer(SessionModel { editor: r.0, ..m }, r.1);
        },
        SessionPhase::SettingDropdown => {
            let r = m.dropdown.next(reply);
            lemma_dropdown_answer(SessionModel { dropdown: r.0, ..m }, r.1);
        },
        SessionPhase::Saving => {
            let r = m.save.next(reply);
            lemma_save_answer(SessionModel { save: r.0, ..m }, r.1);
        },
        _ => {},
    }
}

/// From its start on, whatever the browser and the operator reply, a session
/// is in step with its driver and never ends with `LoginOutOfOrder`.
pub proof fn lemma_sessions_stay_in_step(
    m: SessionModel,
    ticket_id: Seq<char>,
    security_value: Option<Seq<char>>,
    replies: Seq<(ReplyView, u64)>,
)
    ensures
        in_step(after_replies(m.begun(ticket_id, security_value).0, replies)),
        replies.len() > 0 ==> after_replies(
            m.begun(ticket_id, security_value).0,
            replies.drop_last(),
        ).next(replies.last().0, replies.last().1).1 != StepView::<
            Result<(), SessionError>,
        >::Finished(Err(SessionError::LoginOutOfOrder)),
    decreases replies.len(),
{
    let start = m.begun(ticket_id, security_value).0;
    lemma_begun_in_step(m, ticket_id, security_value);
    if replies.len() > 0 {
        lemma_sessions_stay_in_step(m, ticket_id, security_value, replies.drop_last());
        lemma_next_keeps_in_step(
            after_replies(start, replies.drop_last()),
            replies.last().0,
            replies.last().1,
        );
    }
}

} // verus!
