use jsm_form::web::browser::{Command, ElementRef, Key, Reply, Step};
use jsm_form::web::form::{
    attribute_selector_for, click_script, click_script_from, control_selector_for,
    control_text_list, escape_css, label_names_keyword, ClickControl, ControlKind, Dropdown,
    FormError,
};

type FormStep = Step<Result<(), FormError>>;

fn command(step: FormStep) -> Command {
    match step {
        Step::Run(c) => c,
        Step::Finished(o) => panic!("finished early with {:?}", o),
    }
}

fn outcome(step: FormStep) -> Result<(), FormError> {
    match step {
        Step::Finished(o) => o,
        Step::Run(c) => panic!("unexpected command {:?}", c),
    }
}

fn keywords() -> Vec<String> {
    vec!["security controls impact".to_string(), "security impact".to_string()]
}

#[test]
fn dropdown_with_empty_value_fails_without_commands() {
    let mut d = Dropdown::new(keywords(), "");
    assert_eq!(outcome(d.advance(&Reply::Done)), Err(FormError::EmptyValue));
    let mut e = Dropdown::new(keywords(), " \t ");
    assert_eq!(outcome(e.advance(&Reply::Done)), Err(FormError::EmptyValue));
    assert_eq!(outcome(e.advance(&Reply::Done)), Err(FormError::AlreadyFinished));
}

#[test]
fn dropdown_sets_trimmed_value_by_selector() {
    let mut d = Dropdown::new(keywords(), "  High ");
    match command(d.advance(&Reply::Done)) {
        Command::WaitForElement { selector, timeout_ms } => {
            assert_eq!(selector, "input[aria-label*=\"security controls impact\" i]");
            assert_eq!(timeout_ms, 3000);
        }
        other => panic!("unexpected command {:?}", other),
    }
    match command(d.advance(&Reply::Failed)) {
        Command::WaitForElement { selector, .. } => {
            assert_eq!(selector, "input[data-testid*=\"security controls impact\" i]")
        }
        other => panic!("unexpected command {:?}", other),
    }
    match command(d.advance(&Reply::Failed)) {
        Command::WaitForElement { selector, .. } => {
            assert_eq!(selector, "input[aria-label*=\"security impact\" i]")
        }
        other => panic!("unexpected command {:?}", other),
    }
    assert!(matches!(
        command(d.advance(&Reply::Done)),
        Command::ScrollIntoView { element: ElementRef::Located }
    ));
    assert!(matches!(command(d.advance(&Reply::Done)), Command::Click { .. }));
    assert!(matches!(command(d.advance(&Reply::Done)), Command::PressKey { key: Key::LetterA, .. }));
    assert!(matches!(command(d.advance(&Reply::Done)), Command::PressKey { key: Key::Backspace, .. }));
    assert!(matches!(command(d.advance(&Reply::Done)), Command::Sleep { millis: 200 }));
    let mut typed = String::new();
    let mut step = d.advance(&Reply::Done);
    while let Step::Run(Command::SendCharacter { character }) = step {
        typed.push(character);
        step = d.advance(&Reply::Done);
    }
    assert_eq!(typed, "High");
    assert!(matches!(command(step), Command::Sleep { millis: 400 }));
    assert!(matches!(
        command(d.advance(&Reply::Done)),
        Command::PressKey { key: Key::Enter, modifier: None }
    ));
    assert!(matches!(command(d.advance(&Reply::Done)), Command::Sleep { millis: 500 }));
    assert_eq!(outcome(d.advance(&Reply::Done)), Ok(()));
}

#[test]
fn dropdown_falls_back_to_combobox_labels() {
    let mut d = Dropdown::new(vec!["Impact".to_string()], "Low");
    d.advance(&Reply::Done);
    d.advance(&Reply::Failed);
    match command(d.advance(&Reply::Failed)) {
        Command::FindElements { selector } => assert_eq!(selector, "input[role=\"combobox\"]"),
        other => panic!("unexpected command {:?}", other),
    }
    match command(d.advance(&Reply::Count(3))) {
        Command::Attribute { element, name } => {
            assert_eq!(element, ElementRef::Listed(0));
            assert_eq!(name, "aria-label");
        }
        other => panic!("unexpected command {:?}", other),
    }
    assert!(matches!(
        command(d.advance(&Reply::Attribute(None))),
        Command::Attribute { element: ElementRef::Listed(1), .. }
    ));
    assert!(matches!(
        command(d.advance(&Reply::Attribute(Some("Priority".to_string())))),
        Command::Attribute { element: ElementRef::Listed(2), .. }
    ));
    assert!(matches!(
        command(d.advance(&Reply::Attribute(Some("Security IMPACT level".to_string())))),
        Command::ScrollIntoView { element: ElementRef::Listed(2) }
    ));
}

#[test]
fn dropdown_not_found_when_no_label_matches() {
    let mut d = Dropdown::new(vec!["impact".to_string()], "Low");
    d.advance(&Reply::Done);
    d.advance(&Reply::Failed);
    d.advance(&Reply::Failed);
    d.advance(&Reply::Count(1));
    assert_eq!(
        outcome(d.advance(&Reply::Attribute(Some("other".to_string())))),
        Err(FormError::DropdownNotFound)
    );
    let mut none = Dropdown::new(Vec::new(), "Low");
    assert!(matches!(command(none.advance(&Reply::Done)), Command::FindElements { .. }));
    assert_eq!(outcome(none.advance(&Reply::Count(0))), Err(FormError::DropdownNotFound));
}

#[test]
fn dropdown_browser_errors_end_it() {
    let mut a = Dropdown::new(Vec::new(), "Low");
    a.advance(&Reply::Done);
    assert_eq!(outcome(a.advance(&Reply::Failed)), Err(FormError::BrowserCall));
    let mut b = Dropdown::new(Vec::new(), "Low");
    b.advance(&Reply::Done);
    b.advance(&Reply::Count(1));
    assert_eq!(outcome(b.advance(&Reply::Failed)), Err(FormError::BrowserCall));
    let mut c = Dropdown::new(keywords(), "L");
    c.advance(&Reply::Done);
    c.advance(&Reply::Done);
    assert_eq!(outcome(c.advance(&Reply::Failed)), Err(FormError::BrowserCall));
}

#[test]
fn click_control_by_text() {
    let mut c = ClickControl::new(ControlKind::OpenEditor);
    match command(c.advance(&Reply::Done)) {
        Command::Evaluate { script } => {
            assert!(script.contains("[\"Edit form\",\"Edit Form\",\"Edit risk assessment\"]"));
            assert!(script.starts_with("(function() { const targets = ["));
            assert!(script.ends_with("return ''; })()"));
        }
        other => panic!("unexpected command {:?}", other),
    }
    assert!(matches!(
        command(c.advance(&Reply::Value(Some("edit form".to_string())))),
        Command::Sleep { millis: 2000 }
    ));
    assert_eq!(outcome(c.advance(&Reply::Done)), Ok(()));
    assert_eq!(outcome(c.advance(&Reply::Done)), Err(FormError::AlreadyFinished));
    c.reset();
    assert!(matches!(command(c.advance(&Reply::Done)), Command::Evaluate { .. }));
}

#[test]
fn click_control_falls_back_to_selector() {
    let mut c = ClickControl::new(ControlKind::Save);
    match command(c.advance(&Reply::Done)) {
        Command::Evaluate { script } => {
            assert!(script.contains("[\"Save\",\"Update\",\"Done\",\"Close\"]"))
        }
        other => panic!("unexpected command {:?}", other),
    }
    match command(c.advance(&Reply::Value(Some(String::new())))) {
        Command::WaitForElement { selector, timeout_ms } => {
            assert_eq!(selector, "button.css.-vl1vwyf");
            assert_eq!(timeout_ms, 5000);
        }
        other => panic!("unexpected command {:?}", other),
    }
    assert!(matches!(
        command(c.advance(&Reply::Done)),
        Command::Click { element: ElementRef::Located }
    ));
    assert!(matches!(command(c.advance(&Reply::Done)), Command::WaitUntilNavigated));
    assert!(matches!(command(c.advance(&Reply::Done)), Command::Sleep { millis: 2000 }));
    assert_eq!(outcome(c.advance(&Reply::Done)), Ok(()));
}

#[test]
fn click_control_errors() {
    let mut a = ClickControl::new(ControlKind::OpenEditor);
    a.advance(&Reply::Done);
    assert_eq!(outcome(a.advance(&Reply::Failed)), Err(FormError::BrowserCall));
    let mut b = ClickControl::new(ControlKind::OpenEditor);
    b.advance(&Reply::Done);
    assert!(matches!(command(b.advance(&Reply::Value(None))), Command::WaitForElement { .. }));
    assert_eq!(outcome(b.advance(&Reply::Failed)), Err(FormError::ControlNotFound));
    let mut c = ClickControl::new(ControlKind::OpenEditor);
    c.advance(&Reply::Done);
    c.advance(&Reply::Value(None));
    c.advance(&Reply::Done);
    assert_eq!(outcome(c.advance(&Reply::Failed)), Err(FormError::BrowserCall));
    let mut d = ClickControl::with_script(ControlKind::Save, None);
    assert_eq!(outcome(d.advance(&Reply::Done)), Err(FormError::ScriptEncoding));
}

#[test]
fn click_script_embeds_json_list() {
    let texts = vec!["Say \"hi\"".to_string(), "b\\c".to_string()];
    let script = click_script(&texts).unwrap();
    assert_eq!(script, click_script_from("[\"Say \\\"hi\\\"\",\"b\\\\c\"]"));
    assert_eq!(
        click_script_from("[]"),
        "(function() { const targets = [].map(t => t.toLowerCase().trim()); const elements = Array.from(document.querySelectorAll('button, [role=\"button\"], a[role=\"button\"]')); for (const target of targets) { const match = elements.find(el => (el.innerText || el.textContent || '').trim().toLowerCase() === target); if (match) { match.click(); return target; } } return ''; })()"
    );
}

#[test]
fn control_tables() {
    assert_eq!(control_text_list(ControlKind::OpenEditor), vec!["Edit form", "Edit Form", "Edit risk assessment"]);
    assert_eq!(control_text_list(ControlKind::Save), vec!["Save", "Update", "Done", "Close"]);
    assert_eq!(control_selector_for(ControlKind::OpenEditor), "._19itidpf");
    assert_eq!(control_selector_for(ControlKind::Save), "button.css.-vl1vwyf");
}

#[test]
fn escape_css_escapes_double_quotes_only() {
    assert_eq!(escape_css("plain"), "plain");
    assert_eq!(escape_css("a\"b\"\""), "a\\\"b\\\"\\\"");
    assert_eq!(escape_css(""), "");
    assert_eq!(escape_css("it's"), "it's");
}

#[test]
fn attribute_selectors() {
    assert_eq!(attribute_selector_for("impact", 0), "input[aria-label*=\"impact\" i]");
    assert_eq!(attribute_selector_for("impact", 1), "input[data-testid*=\"impact\" i]");
    assert_eq!(attribute_selector_for("a\"b", 0), "input[aria-label*=\"a\\\"b\" i]");
}

#[test]
fn label_matching_ignores_case() {
    let kws = keywords();
    assert!(label_names_keyword("Security Impact (required)", &kws));
    assert!(label_names_keyword("SECURITY CONTROLS IMPACT", &kws));
    assert!(!label_names_keyword("Performance impact", &kws));
    assert!(!label_names_keyword("anything", &Vec::new()));
}
