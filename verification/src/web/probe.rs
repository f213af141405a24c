//! Classification of the page a browser tab shows, from its URL alone.

use vstd::prelude::*;
use vstd::string::*;
use crate::text::{contains, contains_text, starts_with, starts_with_text};

verus! {

/// Where in the login flow a URL places the browser.
#[derive(Debug, Clone, Copy, PartialEq, Eq, Structural)]
pub enum LoginFlowState {
    /// The ticket page itself.
    TargetReached,
    /// Atlassian identity host, asking for the user name.
    AtlassianUsernamePrompt,
    /// Atlassian identity host, offering to continue with a known account.
    AtlassianAccountChooser,
    /// Microsoft identity host, asking for the user name.
    MicrosoftUsernamePrompt,
    /// Microsoft identity host, asking for the password.
    MicrosoftPasswordPrompt,
    /// Microsoft identity host, waiting for a second factor.
    MicrosoftMfaWait,
    /// Anything else.
    Unclassified,
}

/// The path under which a ticket's page is served.
pub open spec fn ticket_path(ticket_id: Seq<char>) -> Seq<char> {
    "/browse/"@ + ticket_id
}

/// A URL shows the ticket when the ticket's path occurs in it.
pub open spec fn is_target_url(url: Seq<char>, ticket_id: Seq<char>) -> bool {
    contains_text(url, ticket_path(ticket_id))
}

/// A URL lies on the Microsoft identity host.
pub open spec fn on_microsoft_host(url: Seq<char>) -> bool {
    starts_with_text(url, "https://login.microsoftonline.com/"@)
}

/// The provider step that a URL stands for: the Atlassian identity host with
/// `login` or `join/user-access` in the URL, the Microsoft identity host, or
/// its device-authentication path. The first rule that matches decides.
pub open spec fn provider_state(url: Seq<char>) -> LoginFlowState {
    if starts_with_text(url, "https://id.atlassian.com/"@) && contains_text(url, "login"@) {
        LoginFlowState::AtlassianUsernamePrompt
    } else if starts_with_text(url, "https://id.atlassian.com/"@) && contains_text(
        url,
        "join/user-access"@,
    ) {
        LoginFlowState::AtlassianAccountChooser
    } else if starts_with_text(
        url,
        "https://login.microsoftonline.com/common/DeviceAuthTls/reprocess"@,
    ) {
        LoginFlowState::MicrosoftMfaWait
    } else if starts_with_text(url, "https://login.microsoftonline.com/"@) {
        LoginFlowState::MicrosoftUsernamePrompt
    } else {
        LoginFlowState::Unclassified
    }
}

/// The state a URL stands for when `ticket_id` is the ticket sought: the
/// ticket page before any provider step.
pub open spec fn flow_state(url: Seq<char>, ticket_id: Seq<char>) -> LoginFlowState {
    if is_target_url(url, ticket_id) {
        LoginFlowState::TargetReached
    } else {
        provider_state(url)
    }
}

/// Whether `url` is the page of ticket `ticket_id`.
pub fn is_on_ticket_page(url: &str, ticket_id: &str) -> (r: bool)
    ensures
        r == is_target_url(url@, ticket_id@),
{
    let mut path = "/browse/".to_owned();
    path.append(ticket_id);
    contains(url, path.as_str())
}

/// Whether `url` lies on the Microsoft identity host.
pub fn is_on_microsoft_host(url: &str) -> (r: bool)
    ensures
        r == on_microsoft_host(url@),
{
    starts_with(url, "https://login.microsoftonline.com/")
}

/// The provider step that `url` stands for.
pub fn classify_provider(url: &str) -> (state: LoginFlowState)
    ensures
        state == provider_state(url@),
{
    if starts_with(url, "https://id.atlassian.com/") && contains(url, "login") {
        LoginFlowState::AtlassianUsernamePrompt
    } else if starts_with(url, "https://id.atlassian.com/") && contains(url, "join/user-access") {
        LoginFlowState::AtlassianAccountChooser
    } else if starts_with(url, "https://login.microsoftonline.com/common/DeviceAuthTls/reprocess") {
        LoginFlowState::MicrosoftMfaWait
    } else if starts_with(url, "https://login.microsoftonline.com/") {
        LoginFlowState::MicrosoftUsernamePrompt
    } else {
        LoginFlowState::Unclassified
    }
}

/// The state that `url` stands for when `ticket_id` is the ticket sought.
pub fn classify(url: &str, ticket_id: &str) -> (state: LoginFlowState)
    ensures
        state == flow_state(url@, ticket_id@),
{
    if is_on_ticket_page(url, ticket_id) {
        LoginFlowState::TargetReached
    } else {
        classify_provider(url)
    }
}

/// A URL alone never tells the password prompt from the user-name prompt, and
/// only the ticket's own path makes a URL the target.
pub proof fn lemma_provider_state_range(url: Seq<char>)
    ensures
        provider_state(url) != LoginFlowState::TargetReached,
        provider_state(url) != LoginFlowState::MicrosoftPasswordPrompt,
{
}

/// The ticket page is recognised wherever its path stands in the URL: after
/// any prefix and before any suffix.
pub proof fn lemma_target_url_anywhere(prefix: Seq<char>, ticket_id: Seq<char>, suffix: Seq<char>)
    ensures
        is_target_url(prefix + ticket_path(ticket_id) + suffix, ticket_id),
{
    let url = prefix + ticket_path(ticket_id) + suffix;
    let path = ticket_path(ticket_id);
    assert(url.subrange(prefix.len() as int, (prefix.len() + path.len()) as int) =~= path);
    assert(crate::text::occurs_at(url, path, prefix.len() as int));
}

/// A URL shows the ticket only where both the path prefix and the identifier
/// stand in it, the identifier right behind the prefix.
pub proof fn lemma_target_url_holds_id(url: Seq<char>, ticket_id: Seq<char>)
    requires
        is_target_url(url, ticket_id),
    ensures
        contains_text(url, ticket_id),
        contains_text(url, "/browse/"@),
{
    let prefix = "/browse/"@;
    let path = ticket_path(ticket_id);
    let at = choose|at: int| crate::text::occurs_at(url, path, at);
    assert(crate::text::occurs_at(url, path, at));
    let found = url.subrange(at, at + path.len());
    assert(url.subrange(at, at + prefix.len()) =~= prefix) by {
        assert forall|k: int| 0 <= k < prefix.len() implies url[at + k] == prefix[k] by {
            assert(found[k] == path[k]);
        }
    }
    assert(crate::text::occurs_at(url, prefix, at));
    assert(url.subrange(at + prefix.len(), at + prefix.len() + ticket_id.len()) =~= ticket_id) by {
        assert forall|k: int| 0 <= k < ticket_id.len() implies url[at + prefix.len() + k]
            == ticket_id[k] by {
            assert(found[prefix.len() + k] == path[prefix.len() + k]);
        }
    }
    assert(crate::text::occurs_at(url, ticket_id, at + prefix.len()));
}

} // verus!
