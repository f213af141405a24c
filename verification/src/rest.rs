//! Decisions around the REST interface of the service desk: which URL to
//! call, what a status code means, and which fields never go over the wire.

use vstd::prelude::*;
use vstd::string::*;
use crate::text::{find_chars, first_occurrence, same_text, to_chars};

verus! {

/// What the status of the authentication probe means.
#[derive(Debug, Clone, Copy, PartialEq, Eq, Structural)]
pub enum AuthOutcome {
    /// A status from 200 to 299.
    Authenticated,
    /// Status 401: the credentials are wrong.
    InvalidCredentials,
    /// Status 403: the credentials are right, the service desk is closed to
    /// them.
    AccessDenied,
    /// Any other status.
    Rejected,
}

/// What the status of a request for a new ticket means.
#[derive(Debug, Clone, Copy, PartialEq, Eq, Structural)]
pub enum SubmitOutcome {
    /// A status from 200 to 299.
    Created,
    /// Status 400: portal, request type or fields are wrong.
    BadRequest,
    /// Status 401.
    Unauthorized,
    /// Status 403.
    Forbidden,
    /// Any other status.
    Rejected,
}

/// Whether a status code stands for success.
pub open spec fn is_success(status: u16) -> bool {
    200 <= status <= 299
}

/// What `status` means for the authentication probe.
pub open spec fn auth_outcome(status: u16) -> AuthOutcome {
    if is_success(status) {
        AuthOutcome::Authenticated
    } else if status == 401 {
        AuthOutcome::InvalidCredentials
    } else if status == 403 {
        AuthOutcome::AccessDenied
    } else {
        AuthOutcome::Rejected
    }
}

/// What `status` means for a request for a new ticket.
pub open spec fn submit_outcome(status: u16) -> SubmitOutcome {
    if is_success(status) {
        SubmitOutcome::Created
    } else if status == 400 {
        SubmitOutcome::BadRequest
    } else if status == 401 {
        SubmitOutcome::Unauthorized
    } else if status == 403 {
        SubmitOutcome::Forbidden
    } else {
        SubmitOutcome::Rejected
    }
}

/// What `status` means for the authentication probe.
pub fn classify_auth_status(status: u16) -> (r: AuthOutcome)
    ensures
        r == auth_outcome(status),
{
    if 200 <= status && status <= 299 {
        AuthOutcome::Authenticated
    } else if status == 401 {
        AuthOutcome::InvalidCredentials
    } else if status == 403 {
        AuthOutcome::AccessDenied
    } else {
        AuthOutcome::Rejected
    }
}

/// What `status` means for a request for a new ticket.
pub fn classify_submit_status(status: u16) -> (r: SubmitOutcome)
    ensures
        r == submit_outcome(status),
{
    if 200 <= status && status <= 299 {
        SubmitOutcome::Created
    } else if status == 400 {
        SubmitOutcome::BadRequest
    } else if status == 401 {
        SubmitOutcome::Unauthorized
    } else if status == 403 {
        SubmitOutcome::Forbidden
    } else {
        SubmitOutcome::Rejected
    }
}

/// The URL that the authentication probe reads.
pub fn service_desk_url(base_url: &str) -> (r: String)
    ensures
        r@ == base_url@ + "/rest/servicedeskapi/servicedesk"@,
{
    let mut r = base_url.to_owned();
    r.append("/rest/servicedeskapi/servicedesk");
    r
}

/// The URL to which a request for a new ticket is posted.
pub fn request_url(base_url: &str) -> (r: String)
    ensures
        r@ == base_url@ + "/rest/servicedeskapi/request"@,
{
    let mut r = base_url.to_owned();
    r.append("/rest/servicedeskapi/request");
    r
}

/// Whether a field of the form data is for this program alone and must not
/// be sent.
pub fn is_config_only_key(key: &str) -> (r: bool)
    ensures
        r == (key@ == "risk_assessment"@),
{
    same_text(key, "risk_assessment")
}

/// Whether a credential still has to be asked for: it is empty, or it is the
/// placeholder of the configuration template.
pub fn needs_prompt(value: &str, placeholder: &str) -> (r: bool)
    ensures
        r == (value@.len() == 0 || value@ == placeholder@),
{
    value.is_empty() || same_text(value, placeholder)
}

/// The key and the value of a `key=value` item: what stands before the first
/// `=` and what stands after it. `None` where the item has no `=`.
pub open spec fn key_value_of(item: Seq<char>) -> Option<(Seq<char>, Seq<char>)> {
    match first_occurrence(item, seq!['=']) {
        Some(at) => Some((item.subrange(0, at), item.subrange(at + 1, item.len() as int))),
        None => None,
    }
}

/// The key and the value of a `key=value` item.
pub fn split_key_value(item: &str) -> (r: Option<(String, String)>)
    ensures
        match r {
            Some(pair) => key_value_of(item@) == Some((pair.0@, pair.1@)),
            None => key_value_of(item@) is None,
        },
{
    let chars = to_chars(item);
    let mut mark: Vec<char> = Vec::new();
    mark.push('=');
    assert(mark@ =~= seq!['=']);
    match find_chars(&chars, &mark) {
        Some(at) => {
            assert(mark@.len() == 1);
            assert(at + 1 <= chars.len());
            let key = item.substring_char(0, at).to_owned();
            let value = item.substring_char(at + 1, chars.len()).to_owned();
            Some((key, value))
        },
        None => None,
    }
}

} // verus!
