use jsm_form::web::browser::{Command, Reply, Step};
use jsm_form::web::client::{
    complete_risk_assessment, security_keyword_list, ticket_url_for, FormStage, JsmWebClient,
    SessionError, SessionPhase,
};
use jsm_form::web::form::FormError;
use jsm_form::web::login::{Notice, ProviderStep, Transition};
use jsm_form::web::step::StepController;
use jsm_form::{
    create_default_config, ChangeImpactAssessmentConfig, JsmConfig, RiskAssessmentConfig,
};

const TARGET: &str = "https://acme.atlassian.net/browse/ITH-66035";

struct FakeBrowser {
    urls: Vec<&'static str>,
    reads: usize,
    now: u64,
    present: Vec<&'static str>,
    script_click_works: bool,
    typed: String,
    body_waits: usize,
    evaluations: usize,
    navigations: Vec<String>,
    tabs_opened: usize,
    asked: Vec<(usize, Transition)>,
    skipped: Vec<usize>,
    notices: Vec<Notice>,
    operator_fails: bool,
}

impl FakeBrowser {
    fn new(urls: Vec<&'static str>) -> Self {
        FakeBrowser {
            urls,
            reads: 0,
            now: 0,
            present: vec![
                "input[name=\"username\"]",
                "input[aria-label*=\"security controls impact\" i]",
                "button.css.-vl1vwyf",
            ],
            script_click_works: true,
            typed: String::new(),
            body_waits: 0,
            evaluations: 0,
            navigations: Vec::new(),
            tabs_opened: 0,
            asked: Vec::new(),
            skipped: Vec::new(),
            notices: Vec::new(),
            operator_fails: false,
        }
    }

    fn reply(&mut self, command: &Command) -> Reply {
        self.now += 1;
        match command {
            Command::OpenTab { profile_dir } => {
                assert_eq!(profile_dir, "./chrome_session_data_pvt");
                self.tabs_opened += 1;
                Reply::Done
            }
            Command::Navigate { url } => {
                self.navigations.push(url.clone());
                Reply::Done
            }
            Command::WaitUntilNavigated => Reply::Done,
            Command::ReadUrl => {
                let index = self.reads.min(self.urls.len() - 1);
                self.reads += 1;
                Reply::Url(self.urls[index].to_string())
            }
            Command::Sleep { millis } => {
                self.now += millis;
                Reply::Done
            }
            Command::Evaluate { .. } => {
                self.evaluations += 1;
                if self.script_click_works && self.evaluations == 1 {
                    Reply::Value(Some("edit form".to_string()))
                } else {
                    Reply::Value(Some(String::new()))
                }
            }
            Command::WaitForElement { selector, timeout_ms } => {
                if selector == "body" {
                    self.body_waits += 1;
                }
                if self.present.iter().any(|s| s == selector) {
                    Reply::Done
                } else {
                    self.now += timeout_ms;
                    Reply::Failed
                }
            }
            Command::FindElements { .. } => Reply::Count(0),
            Command::InnerText { .. } => Reply::Text(String::new()),
            Command::Attribute { .. } => Reply::Attribute(None),
            Command::ScrollIntoView { .. } | Command::Click { .. } | Command::PressKey { .. } => {
                Reply::Done
            }
            Command::SendCharacter { character } => {
                self.typed.push(*character);
                Reply::Done
            }
            Command::Announce { notice } => {
                self.notices.push(*notice);
                Reply::Done
            }
            Command::TellSkipped { number, .. } => {
                self.skipped.push(*number);
                Reply::Done
            }
            Command::AskOperator { number, transition } => {
                self.asked.push((*number, *transition));
                if self.operator_fails {
                    Reply::Failed
                } else {
                    Reply::Done
                }
            }
        }
    }
}

fn config(username: &str) -> JsmConfig {
    let mut c = create_default_config();
    c.base_url = "https://acme.atlassian.net".to_string();
    c.auth.username = username.to_string();
    c
}

fn risk(value: Option<&str>) -> RiskAssessmentConfig {
    RiskAssessmentConfig {
        change_impact_assessment: ChangeImpactAssessmentConfig {
            security_controls_impact: value.map(|v| v.to_string()),
            performance_impact: None,
            availability_impact: None,
        },
        change_risk_assessment: None,
    }
}

fn drive(
    client: &mut JsmWebClient,
    first: Step<Result<(), SessionError>>,
    browser: &mut FakeBrowser,
) -> Result<(), SessionError> {
    let mut step = first;
    for _ in 0..100_000 {
        match step {
            Step::Run(command) => {
                let reply = browser.reply(&command);
                assert!(client.can_advance());
                step = client.advance(&reply, browser.now);
            }
            Step::Finished(result) => return result,
        }
    }
    panic!("the session did not end");
}

#[test]
fn scenario_login_and_form_succeed() {
    let mut browser = FakeBrowser::new(vec![
        "https://acme.atlassian.net/login",
        "https://id.atlassian.com/login?continue=abc",
        TARGET,
    ]);
    let (mut client, first) =
        complete_risk_assessment(&config(" alice@acme.com "), "ITH-66035", &risk(Some(" High ")));
    assert_eq!(client.phase(), SessionPhase::OpeningTab);
    let result = drive(&mut client, first, &mut browser);
    assert_eq!(result, Ok(()));
    assert_eq!(client.phase(), SessionPhase::Done);
    assert_eq!(browser.tabs_opened, 1);
    assert_eq!(browser.navigations, vec![TARGET.to_string()]);
    assert_eq!(browser.body_waits, 1);
    assert_eq!(browser.typed, "alice@acme.comHigh");
    assert_eq!(browser.reads, 3);
    assert_eq!(browser.evaluations, 2);
    assert!(browser.asked.is_empty());
    assert_eq!(client.last_url(), TARGET);
}

#[test]
fn scenario_login_times_out_with_last_url() {
    let mut browser = FakeBrowser::new(vec![
        "https://acme.atlassian.net/a",
        "https://acme.atlassian.net/stuck",
    ]);
    let (mut client, first) = complete_risk_assessment(&config(""), "ITH-66035", &risk(None));
    let result = drive(&mut client, first, &mut browser);
    assert_eq!(result, Err(SessionError::LoginTimedOut));
    assert_eq!(client.last_url(), "https://acme.atlassian.net/stuck");
    assert_eq!(browser.notices, vec![Notice::StaleUrl]);
    assert!(browser.typed.is_empty());
    assert_eq!(browser.evaluations, 0);
    assert!(browser.now >= 45_000);
    assert!(browser.now < 60_000);
}

#[test]
fn session_skips_dropdown_without_value() {
    let mut browser = FakeBrowser::new(vec![TARGET]);
    let (mut client, first) = complete_risk_assessment(&config(""), "ITH-66035", &risk(None));
    assert_eq!(drive(&mut client, first, &mut browser), Ok(()));
    assert!(browser.typed.is_empty());
}

#[test]
fn session_fails_on_blank_dropdown_value() {
    let mut browser = FakeBrowser::new(vec![TARGET]);
    let (mut client, first) = complete_risk_assessment(&config(""), "ITH-66035", &risk(Some("  ")));
    assert_eq!(
        drive(&mut client, first, &mut browser),
        Err(SessionError::Form {
            stage: FormStage::SecurityControlsImpact,
            error: FormError::EmptyValue
        })
    );
    assert_eq!(browser.evaluations, 1);
}

#[test]
fn session_reports_form_stage_of_failure() {
    let mut browser = FakeBrowser::new(vec![TARGET]);
    browser.script_click_works = false;
    browser.present.clear();
    let (mut client, first) = complete_risk_assessment(&config(""), "ITH-66035", &risk(Some("x")));
    assert_eq!(
        drive(&mut client, first, &mut browser),
        Err(SessionError::Form { stage: FormStage::OpenEditor, error: FormError::ControlNotFound })
    );
    let mut second = FakeBrowser::new(vec![TARGET]);
    second.present.clear();
    let (mut client, first) = complete_risk_assessment(&config(""), "ITH-66035", &risk(Some("x")));
    assert_eq!(
        drive(&mut client, first, &mut second),
        Err(SessionError::Form {
            stage: FormStage::SecurityControlsImpact,
            error: FormError::DropdownNotFound
        })
    );
    let mut third = FakeBrowser::new(vec![TARGET]);
    third.present.clear();
    let (mut client, first) = complete_risk_assessment(&config(""), "ITH-66035", &risk(None));
    assert_eq!(
        drive(&mut client, first, &mut third),
        Err(SessionError::Form { stage: FormStage::Save, error: FormError::ControlNotFound })
    );
}

#[test]
fn session_checkpoints_follow_controller() {
    let mut browser = FakeBrowser::new(vec!["https://id.atlassian.com/login?x", TARGET]);
    let steps = StepController::new(true, &[1]);
    let mut client = JsmWebClient::with_steps(config("alice"), steps);
    assert_eq!(client.phase(), SessionPhase::Idle);
    let first = client.complete_risk_assessment("ITH-66035", &risk(None));
    assert_eq!(drive(&mut client, first, &mut browser), Ok(()));
    assert_eq!(browser.skipped, vec![1]);
    assert_eq!(browser.asked, vec![(2, Transition::TargetReached)]);
    assert_eq!(browser.typed, "alice");
}

#[test]
fn session_fails_when_operator_cannot_be_read() {
    let mut browser = FakeBrowser::new(vec![TARGET]);
    browser.operator_fails = true;
    let mut client = JsmWebClient::with_steps(config(""), StepController::new(true, &[]));
    let first = client.complete_risk_assessment("ITH-66035", &risk(None));
    assert_eq!(drive(&mut client, first, &mut browser), Err(SessionError::OperatorIo));
    assert_eq!(browser.asked, vec![(1, Transition::TargetReached)]);
}

#[test]
fn session_reuses_open_tab() {
    let mut browser = FakeBrowser::new(vec![TARGET]);
    let mut client = JsmWebClient::new(config(""));
    let first = client.complete_risk_assessment("ITH-66035", &risk(None));
    assert_eq!(drive(&mut client, first, &mut browser), Ok(()));
    let again = client.complete_risk_assessment("ITH-66035", &risk(None));
    assert!(matches!(again, Step::Run(Command::Navigate { .. })));
    let mut fresh = FakeBrowser::new(vec![TARGET]);
    assert_eq!(drive(&mut client, again, &mut fresh), Ok(()));
    assert_eq!(fresh.tabs_opened, 0);
}

#[test]
fn session_browser_failures_abort() {
    let mut client = JsmWebClient::new(config(""));
    client.complete_risk_assessment("ITH-1", &risk(None));
    assert!(matches!(
        client.advance(&Reply::Failed, 0),
        Step::Finished(Err(SessionError::BrowserCall))
    ));
    assert!(matches!(
        client.advance(&Reply::Done, 0),
        Step::Finished(Err(SessionError::NotRunning))
    ));
    let mut idle = JsmWebClient::new(config(""));
    assert!(matches!(
        idle.advance(&Reply::Done, 0),
        Step::Finished(Err(SessionError::NotRunning))
    ));
    let mut reading = JsmWebClient::new(config(""));
    reading.complete_risk_assessment("ITH-1", &risk(None));
    reading.advance(&Reply::Done, 0);
    reading.advance(&Reply::Done, 0);
    assert!(matches!(reading.advance(&Reply::Done, 0), Step::Run(Command::Sleep { millis: 5000 })));
    assert!(matches!(reading.advance(&Reply::Done, 0), Step::Run(Command::WaitUntilNavigated)));
    assert!(matches!(reading.advance(&Reply::Done, 0), Step::Run(Command::ReadUrl)));
    assert!(matches!(
        reading.advance(&Reply::Done, 0),
        Step::Finished(Err(SessionError::BrowserCall))
    ));
}

#[test]
fn session_mfa_prompt_is_announced() {
    let mut browser = FakeBrowser::new(vec![
        "https://login.microsoftonline.com/common/DeviceAuthTls/reprocess?ctx=1",
        TARGET,
    ]);
    let (mut client, first) = complete_risk_assessment(&config(""), "ITH-66035", &risk(None));
    assert_eq!(drive(&mut client, first, &mut browser), Ok(()));
    assert_eq!(browser.notices, vec![Notice::MfaPrompt]);
}

#[test]
fn session_password_step_uses_microsoft_password() {
    let mut cfg = config("alice");
    cfg.auth.microsoft_password = " pw ".to_string();
    let mut browser = FakeBrowser::new(vec![
        "https://login.microsoftonline.com/common/oauth2",
        "https://login.microsoftonline.com/common/oauth2",
        TARGET,
    ]);
    browser.present = vec!["input#i0116", "input#i0118"];
    let (mut client, first) = complete_risk_assessment(&cfg, "ITH-66035", &risk(None));
    let result = drive(&mut client, first, &mut browser);
    assert_eq!(browser.typed, "alicepw");
    assert_eq!(
        result,
        Err(SessionError::Form { stage: FormStage::Save, error: FormError::ControlNotFound })
    );
    let _ = ProviderStep::MicrosoftPassword;
}

#[test]
fn ticket_url_and_keywords() {
    assert_eq!(ticket_url_for("https://acme.atlassian.net", "ITH-66035"), TARGET);
    assert_eq!(
        security_keyword_list(),
        vec!["security controls impact", "security impact", "security control impact"]
    );
}

#[test]
fn try_advance_answers_like_advance() {
    let mut a = JsmWebClient::new(config(""));
    let mut b = JsmWebClient::new(config(""));
    a.complete_risk_assessment("ITH-1", &risk(None));
    b.complete_risk_assessment("ITH-1", &risk(None));
    for _ in 0..3 {
        let left = a.try_advance(&Reply::Done, 5).unwrap();
        let right = b.advance(&Reply::Done, 5);
        match (left, right) {
            (Step::Run(x), Step::Run(y)) => assert_eq!(format!("{:?}", x), format!("{:?}", y)),
            other => panic!("unexpected answers {:?}", other),
        }
        assert_eq!(a.phase(), b.phase());
    }
}

#[test]
fn free_function_acts_like_a_new_client() {
    let cfg = config("alice");
    let (mut a, first_a) = complete_risk_assessment(&cfg, "ITH-66035", &risk(Some("High")));
    let mut b = JsmWebClient::new(cfg.duplicate());
    let first_b = b.complete_risk_assessment("ITH-66035", &risk(Some("High")));
    let mut browser_a =
        FakeBrowser::new(vec!["https://id.atlassian.com/login?continue=abc", TARGET]);
    let mut browser_b =
        FakeBrowser::new(vec!["https://id.atlassian.com/login?continue=abc", TARGET]);
    assert_eq!(drive(&mut a, first_a, &mut browser_a), Ok(()));
    assert_eq!(drive(&mut b, first_b, &mut browser_b), Ok(()));
    assert_eq!(browser_a.typed, browser_b.typed);
    assert_eq!(browser_a.evaluations, browser_b.evaluations);
    assert_eq!(browser_a.now, browser_b.now);
    assert_eq!(cfg.auth.username, "alice");
}

#[test]
fn session_keeps_user_name_flag_across_microsoft_pages() {
    let mut cfg = config("alice");
    cfg.auth.microsoft_password = "pw".to_string();
    let mut browser = FakeBrowser::new(vec![
        "https://login.microsoftonline.com/common/oauth2",
        "https://login.microsoftonline.com/common/login",
        TARGET,
    ]);
    browser.present = vec!["input#i0116", "input#i0118"];
    let (mut client, first) = complete_risk_assessment(&cfg, "ITH-66035", &risk(None));
    assert_eq!(
        drive(&mut client, first, &mut browser),
        Err(SessionError::Form { stage: FormStage::Save, error: FormError::ControlNotFound })
    );
    assert_eq!(browser.typed, "alicepw");
}
