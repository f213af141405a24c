use jsm_form::rest::{
    classify_auth_status, classify_submit_status, is_config_only_key, needs_prompt, request_url,
    service_desk_url, split_key_value, AuthOutcome, SubmitOutcome,
};
use jsm_form::text::{find_chars, to_chars};

#[test]
fn auth_status_classes() {
    assert_eq!(classify_auth_status(200), AuthOutcome::Authenticated);
    assert_eq!(classify_auth_status(299), AuthOutcome::Authenticated);
    assert_eq!(classify_auth_status(199), AuthOutcome::Rejected);
    assert_eq!(classify_auth_status(300), AuthOutcome::Rejected);
    assert_eq!(classify_auth_status(401), AuthOutcome::InvalidCredentials);
    assert_eq!(classify_auth_status(403), AuthOutcome::AccessDenied);
    assert_eq!(classify_auth_status(500), AuthOutcome::Rejected);
}

#[test]
fn submit_status_classes() {
    assert_eq!(classify_submit_status(201), SubmitOutcome::Created);
    assert_eq!(classify_submit_status(400), SubmitOutcome::BadRequest);
    assert_eq!(classify_submit_status(401), SubmitOutcome::Unauthorized);
    assert_eq!(classify_submit_status(403), SubmitOutcome::Forbidden);
    assert_eq!(classify_submit_status(404), SubmitOutcome::Rejected);
    assert_eq!(classify_submit_status(0), SubmitOutcome::Rejected);
}

#[test]
fn rest_urls() {
    assert_eq!(
        service_desk_url("https://acme.atlassian.net"),
        "https://acme.atlassian.net/rest/servicedeskapi/servicedesk"
    );
    assert_eq!(
        request_url("https://acme.atlassian.net"),
        "https://acme.atlassian.net/rest/servicedeskapi/request"
    );
}

#[test]
fn config_only_keys() {
    assert!(is_config_only_key("risk_assessment"));
    assert!(!is_config_only_key("risk_assessment2"));
    assert!(!is_config_only_key("summary"));
    assert!(!is_config_only_key(""));
}

#[test]
fn prompt_is_needed_for_empty_or_placeholder() {
    assert!(needs_prompt("", "your-username"));
    assert!(needs_prompt("your-username", "your-username"));
    assert!(!needs_prompt("alice", "your-username"));
    assert!(!needs_prompt(" ", "your-username"));
}

#[test]
fn key_value_splits_at_first_equals() {
    assert_eq!(split_key_value("a=b"), Some(("a".to_string(), "b".to_string())));
    assert_eq!(split_key_value("a=b=c"), Some(("a".to_string(), "b=c".to_string())));
    assert_eq!(split_key_value("=v"), Some((String::new(), "v".to_string())));
    assert_eq!(split_key_value("k="), Some(("k".to_string(), String::new())));
    assert_eq!(split_key_value("novalue"), None);
    assert_eq!(split_key_value(""), None);
}

#[test]
fn find_chars_gives_first_index() {
    assert_eq!(find_chars(&to_chars("abcabc"), &to_chars("bc")), Some(1));
    assert_eq!(find_chars(&to_chars("abcabc"), &to_chars("")), Some(0));
    assert_eq!(find_chars(&to_chars("abc"), &to_chars("c")), Some(2));
    assert_eq!(find_chars(&to_chars("abc"), &to_chars("d")), None);
    assert_eq!(find_chars(&to_chars(""), &to_chars("")), Some(0));
}
