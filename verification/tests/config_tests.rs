use jsm_form::{create_default_config, AuthConfig, JsmConfig};

#[test]
fn default_config_is_a_template() {
    let c: JsmConfig = create_default_config();
    assert_eq!(c.org, "your-organization");
    assert_eq!(c.base_url, "https://your-organization.atlassian.net");
    assert_eq!(c.portal_id, 6);
    assert_eq!(c.request_type_id, 73);
    assert_eq!(c.auth.username, "");
    assert_eq!(c.auth.token_atlassian_api, "");
    assert_eq!(c.auth.microsoft_password, "");
}

#[test]
fn duplicate_copies_every_field() {
    let c = JsmConfig {
        org: "acme".to_string(),
        base_url: "https://acme.atlassian.net".to_string(),
        portal_id: 1,
        request_type_id: 2,
        auth: AuthConfig {
            username: "u".to_string(),
            token_atlassian_api: "t".to_string(),
            microsoft_password: "p".to_string(),
        },
    };
    let d = c.duplicate();
    assert_eq!(d.org, "acme");
    assert_eq!(d.base_url, "https://acme.atlassian.net");
    assert_eq!(d.portal_id, 1);
    assert_eq!(d.request_type_id, 2);
    assert_eq!(d.auth.username, "u");
    assert_eq!(d.auth.token_atlassian_api, "t");
    assert_eq!(d.auth.microsoft_password, "p");
}
