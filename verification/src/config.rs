//! Connection settings for one service-desk instance.

use vstd::prelude::*;
use vstd::string::*;

verus! {

/// Credentials for the service desk and for the identity providers in front
/// of it. An empty string means that the credential is absent.
#[derive(Debug, Clone)]
pub struct AuthConfig {
    /// User name, an e-mail address on most instances.
    pub username: String,
    /// API token for the REST interface.
    pub token_atlassian_api: String,
    /// Password for the Microsoft login flow.
    pub microsoft_password: String,
}

/// Settings of one service-desk instance.
#[derive(Debug, Clone)]
pub struct JsmConfig {
    /// Organization name, from which the instance's URLs are built.
    pub org: String,
    /// Base URL of the instance, without a trailing slash.
    pub base_url: String,
    /// Portal id.
    pub portal_id: u32,
    /// Request type id.
    pub request_type_id: u32,
    /// Credentials.
    pub auth: AuthConfig,
}

/// What `create_default_config` returns.
pub open spec fn is_default_config(c: JsmConfig) -> bool {
    &&& c.org@ == "your-organization"@
    &&& c.base_url@ == "https://your-organization.atlassian.net"@
    &&& c.portal_id == 6
    &&& c.request_type_id == 73
    &&& c.auth.username@ == Seq::<char>::empty()
    &&& c.auth.token_atlassian_api@ == Seq::<char>::empty()
    &&& c.auth.microsoft_password@ == Seq::<char>::empty()
}

/// A configuration template: placeholder organization and URL, the default
/// portal and request type, and no credentials.
pub fn create_default_config() -> (c: JsmConfig)
    ensures
        is_default_config(c),
{
    JsmConfig {
        org: "your-organization".to_owned(),
        base_url: "https://your-organization.atlassian.net".to_owned(),
        portal_id: 6,
        request_type_id: 73,
        auth: AuthConfig {
            username: String::new(),
            token_atlassian_api: String::new(),
            microsoft_password: String::new(),
        },
    }
}

impl AuthConfig {
    /// A copy with the same three credentials.
    pub fn duplicate(&self) -> (r: AuthConfig)
        ensures
            r == *self,
    {
        AuthConfig {
            username: self.username.clone(),
            token_atlassian_api: self.token_atlassian_api.clone(),
            microsoft_password: self.microsoft_password.clone(),
        }
    }
}

impl JsmConfig {
    /// A copy with the same settings.
    pub fn duplicate(&self) -> (r: JsmConfig)
        ensures
            r == *self,
    {
        JsmConfig {
            org: self.org.clone(),
            base_url: self.base_url.clone(),
            portal_id: self.portal_id,
            request_type_id: self.request_type_id,
            auth: self.auth.duplicate(),
        }
    }
}

} // verus!
