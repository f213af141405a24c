use jsm_form::web::probe::{
    classify, classify_provider, is_on_microsoft_host, is_on_ticket_page, LoginFlowState,
};

#[test]
fn ticket_page_needs_browse_path_with_id() {
    assert!(is_on_ticket_page("https://acme.atlassian.net/browse/ITH-66035", "ITH-66035"));
    assert!(is_on_ticket_page("https://acme.atlassian.net/browse/ITH-66035?focused=1", "ITH-66035"));
    assert!(!is_on_ticket_page("https://acme.atlassian.net/browse/", "ITH-66035"));
    assert!(!is_on_ticket_page("https://acme.atlassian.net/login", "ITH-66035"));
    assert!(!is_on_ticket_page("https://acme.atlassian.net/browse/ITH-1", "ITH-66035"));
    assert!(!is_on_ticket_page("https://acme.atlassian.net/issues/ITH-66035", "ITH-66035"));
}

#[test]
fn ticket_page_matches_longer_id_with_same_prefix() {
    assert!(is_on_ticket_page("https://acme.atlassian.net/browse/ITH-660351", "ITH-66035"));
}

#[test]
fn classify_provider_table() {
    let table = [
        ("https://id.atlassian.com/login?continue=x", LoginFlowState::AtlassianUsernamePrompt),
        ("https://id.atlassian.com/join/user-access?x=1", LoginFlowState::AtlassianAccountChooser),
        (
            "https://login.microsoftonline.com/common/oauth2/authorize",
            LoginFlowState::MicrosoftUsernamePrompt,
        ),
        (
            "https://login.microsoftonline.com/common/DeviceAuthTls/reprocess?ctx=1",
            LoginFlowState::MicrosoftMfaWait,
        ),
        ("https://example.com/login", LoginFlowState::Unclassified),
        ("", LoginFlowState::Unclassified),
    ];
    for (url, expected) in table {
        assert_eq!(classify_provider(url), expected);
        assert_eq!(classify_provider(url), expected);
    }
}

#[test]
fn classify_provider_prefers_login_over_account_chooser() {
    assert_eq!(
        classify_provider("https://id.atlassian.com/join/user-access?continue=login"),
        LoginFlowState::AtlassianUsernamePrompt
    );
}

#[test]
fn classify_provider_needs_host_prefix() {
    assert_eq!(
        classify_provider("http://id.atlassian.com/login"),
        LoginFlowState::Unclassified
    );
    assert_eq!(
        classify_provider("https://id.atlassian.com/signup"),
        LoginFlowState::Unclassified
    );
}

#[test]
fn classify_puts_target_first() {
    assert_eq!(
        classify("https://id.atlassian.com/login?next=/browse/ITH-1", "ITH-1"),
        LoginFlowState::TargetReached
    );
    assert_eq!(
        classify("https://id.atlassian.com/login", "ITH-1"),
        LoginFlowState::AtlassianUsernamePrompt
    );
}

#[test]
fn microsoft_host_is_told_by_prefix() {
    assert!(is_on_microsoft_host("https://login.microsoftonline.com/common/oauth2"));
    assert!(is_on_microsoft_host("https://login.microsoftonline.com/common/DeviceAuthTls/reprocess"));
    assert!(!is_on_microsoft_host("https://login.microsoftonline.com"));
    assert!(!is_on_microsoft_host("https://id.atlassian.com/login"));
    assert!(!is_on_microsoft_host(""));
}
