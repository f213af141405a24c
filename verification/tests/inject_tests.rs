use jsm_form::web::browser::{Command, ElementRef, Key, Reply, Step};
use jsm_form::web::inject::{field_selector, is_account_button, Injector};
use jsm_form::web::login::{InjectorOutcome, ProviderStep};

fn command(step: Step<InjectorOutcome>) -> Command {
    match step {
        Step::Run(c) => c,
        Step::Finished(o) => panic!("finished early with {:?}", o),
    }
}

fn outcome(step: Step<InjectorOutcome>) -> InjectorOutcome {
    match step {
        Step::Finished(o) => o,
        Step::Run(c) => panic!("unexpected command {:?}", c),
    }
}

fn wait_selector(step: Step<InjectorOutcome>) -> (String, u64) {
    match command(step) {
        Command::WaitForElement { selector, timeout_ms } => (selector, timeout_ms),
        other => panic!("unexpected command {:?}", other),
    }
}

/// Drives an injector past the account scan, with no body and no buttons.
fn skip_account_scan(i: &mut Injector) -> Step<InjectorOutcome> {
    assert_eq!(wait_selector(i.advance(&Reply::Done)), ("body".to_string(), 2000));
    match command(i.advance(&Reply::Failed)) {
        Command::FindElements { selector } => assert_eq!(selector, "button"),
        other => panic!("unexpected command {:?}", other),
    }
    i.advance(&Reply::Count(0))
}

/// Drives the typing of `text` and returns the step after the last character.
fn type_all(i: &mut Injector, text: &str) -> Step<InjectorOutcome> {
    assert!(matches!(command(i.advance(&Reply::Done)), Command::ScrollIntoView { .. }));
    assert!(matches!(command(i.advance(&Reply::Done)), Command::Click { .. }));
    assert!(matches!(command(i.advance(&Reply::Done)), Command::PressKey { key: Key::LetterA, .. }));
    assert!(matches!(command(i.advance(&Reply::Done)), Command::PressKey { key: Key::Backspace, .. }));
    let mut typed = String::new();
    let mut step = i.advance(&Reply::Done);
    loop {
        match step {
            Step::Run(Command::SendCharacter { character }) => typed.push(character),
            other => {
                assert_eq!(typed, text);
                return other;
            }
        }
        step = i.advance(&Reply::Done);
    }
}

#[test]
fn blank_credential_is_not_ready_without_commands() {
    for step in [
        ProviderStep::AtlassianUsername,
        ProviderStep::AccountContinue,
        ProviderStep::MicrosoftUsername,
        ProviderStep::MicrosoftPassword,
    ] {
        let mut i = Injector::new(step, "  ");
        assert_eq!(outcome(i.advance(&Reply::Done)), InjectorOutcome::NotReady);
        let mut j = Injector::new(step, "");
        assert_eq!(outcome(j.advance(&Reply::Failed)), InjectorOutcome::NotReady);
    }
}

#[test]
fn atlassian_username_tries_selectors_in_order() {
    let mut i = Injector::new(ProviderStep::AtlassianUsername, "alice@acme.com");
    let first = skip_account_scan(&mut i);
    assert_eq!(wait_selector(first), ("input[data-testid=\"username\"]".to_string(), 5000));
    assert_eq!(wait_selector(i.advance(&Reply::Failed)), ("input[name=\"username\"]".to_string(), 5000));
    assert_eq!(wait_selector(i.advance(&Reply::Failed)), ("input#username".to_string(), 5000));
    let enter = type_all(&mut i, "alice@acme.com");
    assert!(matches!(command(enter), Command::PressKey { key: Key::Enter, modifier: None }));
    assert_eq!(outcome(i.advance(&Reply::Done)), InjectorOutcome::Filled);
    assert_eq!(outcome(i.advance(&Reply::Done)), InjectorOutcome::Failed);
}

#[test]
fn atlassian_username_not_ready_when_no_selector_matches() {
    let mut i = Injector::new(ProviderStep::AtlassianUsername, "alice@acme.com");
    skip_account_scan(&mut i);
    i.advance(&Reply::Failed);
    i.advance(&Reply::Failed);
    assert_eq!(wait_selector(i.advance(&Reply::Failed)).0, "input[type=\"email\"]");
    assert_eq!(outcome(i.advance(&Reply::Failed)), InjectorOutcome::NotReady);
}

#[test]
fn atlassian_username_fails_when_enter_fails() {
    let mut i = Injector::new(ProviderStep::AtlassianUsername, "al");
    skip_account_scan(&mut i);
    type_all(&mut i, "al");
    assert_eq!(outcome(i.advance(&Reply::Failed)), InjectorOutcome::Failed);
}

#[test]
fn microsoft_username_falls_back_to_next_button() {
    let mut i = Injector::new(ProviderStep::MicrosoftUsername, "al");
    let first = skip_account_scan(&mut i);
    assert_eq!(wait_selector(first).0, "input[name=\"loginfmt\"]");
    type_all(&mut i, "al");
    assert_eq!(wait_selector(i.advance(&Reply::Failed)), ("#idSIButton9".to_string(), 2000));
    assert!(matches!(command(i.advance(&Reply::Done)), Command::ScrollIntoView { .. }));
    assert!(matches!(command(i.advance(&Reply::Done)), Command::Click { .. }));
    assert_eq!(outcome(i.advance(&Reply::Done)), InjectorOutcome::Filled);
}

#[test]
fn microsoft_username_not_ready_without_next_button() {
    let mut i = Injector::new(ProviderStep::MicrosoftUsername, "al");
    skip_account_scan(&mut i);
    type_all(&mut i, "al");
    assert_eq!(wait_selector(i.advance(&Reply::Failed)), ("#idSIButton9".to_string(), 2000));
    assert_eq!(outcome(i.advance(&Reply::Failed)), InjectorOutcome::NotReady);
}

#[test]
fn microsoft_username_fails_when_next_button_click_fails() {
    let mut i = Injector::new(ProviderStep::MicrosoftUsername, "al");
    skip_account_scan(&mut i);
    type_all(&mut i, "al");
    i.advance(&Reply::Failed);
    assert!(matches!(command(i.advance(&Reply::Done)), Command::ScrollIntoView { .. }));
    assert_eq!(outcome(i.advance(&Reply::Failed)), InjectorOutcome::Failed);
}

#[test]
fn microsoft_password_skips_account_scan() {
    let mut i = Injector::new(ProviderStep::MicrosoftPassword, "s3cret");
    assert_eq!(wait_selector(i.advance(&Reply::Done)), ("input[name=\"passwd\"]".to_string(), 5000));
    assert_eq!(wait_selector(i.advance(&Reply::Failed)).0, "input#i0118");
    assert_eq!(wait_selector(i.advance(&Reply::Failed)).0, "input[type=\"password\"]");
    let enter = type_all(&mut i, "s3cret");
    assert!(matches!(command(enter), Command::PressKey { key: Key::Enter, modifier: None }));
    assert_eq!(wait_selector(i.advance(&Reply::Failed)), ("#idSIButton9".to_string(), 3000));
    assert_eq!(outcome(i.advance(&Reply::Failed)), InjectorOutcome::NotReady);
}

#[test]
fn microsoft_password_fails_when_button_click_fails() {
    let mut i = Injector::new(ProviderStep::MicrosoftPassword, "s");
    i.advance(&Reply::Done);
    type_all(&mut i, "s");
    i.advance(&Reply::Failed);
    i.advance(&Reply::Done);
    assert!(matches!(command(i.advance(&Reply::Done)), Command::Click { .. }));
    assert_eq!(outcome(i.advance(&Reply::Failed)), InjectorOutcome::Failed);
}

#[test]
fn account_button_is_clicked_when_page_names_user() {
    let mut i = Injector::new(ProviderStep::AccountContinue, "Alice@Acme.com");
    assert_eq!(wait_selector(i.advance(&Reply::Done)).0, "body");
    assert!(matches!(
        command(i.advance(&Reply::Done)),
        Command::InnerText { element: ElementRef::Located }
    ));
    let body = Reply::Text("Signed in as alice@acme.com\nContinue\nUse another account".to_string());
    assert!(matches!(command(i.advance(&body)), Command::FindElements { .. }));
    assert!(matches!(
        command(i.advance(&Reply::Count(3))),
        Command::InnerText { element: ElementRef::Listed(0) }
    ));
    assert!(matches!(
        command(i.advance(&Reply::Text("Use another account".to_string()))),
        Command::InnerText { element: ElementRef::Listed(1) }
    ));
    assert!(matches!(
        command(i.advance(&Reply::Text(" Continue ".to_string()))),
        Command::ScrollIntoView { element: ElementRef::Listed(1) }
    ));
    assert!(matches!(
        command(i.advance(&Reply::Done)),
        Command::Click { element: ElementRef::Listed(1) }
    ));
    assert_eq!(outcome(i.advance(&Reply::Done)), InjectorOutcome::Filled);
}

#[test]
fn account_continue_not_ready_without_matching_button() {
    let mut i = Injector::new(ProviderStep::AccountContinue, "alice");
    i.advance(&Reply::Done);
    i.advance(&Reply::Done);
    i.advance(&Reply::Text("nobody here".to_string()));
    i.advance(&Reply::Count(2));
    i.advance(&Reply::Text("Continue".to_string()));
    assert_eq!(outcome(i.advance(&Reply::Failed)), InjectorOutcome::NotReady);
}

#[test]
fn account_continue_fails_when_buttons_cannot_be_listed() {
    let mut i = Injector::new(ProviderStep::AccountContinue, "alice");
    i.advance(&Reply::Done);
    i.advance(&Reply::Failed);
    assert_eq!(outcome(i.advance(&Reply::Failed)), InjectorOutcome::Failed);
}

#[test]
fn username_injector_short_circuits_on_account_button() {
    let mut i = Injector::new(ProviderStep::MicrosoftUsername, "alice");
    i.advance(&Reply::Done);
    i.advance(&Reply::Failed);
    assert!(matches!(
        command(i.advance(&Reply::Count(1))),
        Command::InnerText { element: ElementRef::Listed(0) }
    ));
    assert!(matches!(
        command(i.advance(&Reply::Text("Sign in as ALICE".to_string()))),
        Command::ScrollIntoView { element: ElementRef::Listed(0) }
    ));
    i.advance(&Reply::Done);
    assert_eq!(outcome(i.advance(&Reply::Done)), InjectorOutcome::Filled);
}

#[test]
fn account_button_rule() {
    assert!(is_account_button("Continue", true, "alice"));
    assert!(is_account_button("SIGN IN", true, "alice"));
    assert!(is_account_button("Continue as Alice", false, "ALICE"));
    assert!(!is_account_button("Continue", false, "alice"));
    assert!(!is_account_button("Cancel", true, "alice"));
    assert!(!is_account_button("alice", false, "alice"));
}

#[test]
fn field_selectors_are_listed_per_step() {
    assert_eq!(field_selector(ProviderStep::AtlassianUsername, 0), Some("input[data-testid=\"username\"]"));
    assert_eq!(field_selector(ProviderStep::AtlassianUsername, 3), Some("input[type=\"email\"]"));
    assert_eq!(field_selector(ProviderStep::AtlassianUsername, 4), None);
    assert_eq!(field_selector(ProviderStep::MicrosoftUsername, 2), Some("input[type=\"email\"]"));
    assert_eq!(field_selector(ProviderStep::MicrosoftUsername, 3), None);
    assert_eq!(field_selector(ProviderStep::MicrosoftPassword, 0), Some("input[name=\"passwd\"]"));
    assert_eq!(field_selector(ProviderStep::MicrosoftPassword, usize::MAX), None);
    assert_eq!(field_selector(ProviderStep::AccountContinue, 0), None);
}
