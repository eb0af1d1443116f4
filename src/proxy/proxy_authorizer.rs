//! Chooses the rules for a request's original destination and turns the
//! engine's verdict into the action taken, honouring audit mode.
use crate::key::{url_query, RequestUrl};
use crate::proxy::authorization_rules::{allowed, AuthorizationRules};
use crate::proxy::Claims;
use crate::text::same_text;
use vstd::prelude::*;

verus! {

/// Address of the wire server.
pub const WIRE_SERVER_IP: &'static str = "168.63.129.16";

/// Address of the instance metadata service.
pub const IMDS_IP: &'static str = "169.254.169.254";

/// What becomes of a request once its rules have been evaluated.
pub enum AuthorizeResult {
    /// The rules allow it.
    Allowed,
    /// The rules deny it, but they are in audit mode: it passes and the
    /// denial is only recorded.
    AllowedWithAudit,
    /// The rules deny it.
    Forbidden,
}

/// The rules that govern requests to `ip`: the wire server's, the metadata
/// service's, or none for any other destination.
pub open spec fn rules_for(
    ip: Seq<char>,
    wire_server_rules: Option<AuthorizationRules>,
    imds_rules: Option<AuthorizationRules>,
) -> Option<AuthorizationRules> {
    if ip == WIRE_SERVER_IP@ {
        wire_server_rules
    } else if ip == IMDS_IP@ {
        imds_rules
    } else {
        None
    }
}

/// The outcome for a request under `rules`: allowed when there are no rules
/// or they allow it; otherwise recorded only in audit mode, and forbidden
/// in any other mode.
pub open spec fn authorize_spec(rules: Option<AuthorizationRules>, url: &RequestUrl, c: Claims) -> AuthorizeResult {
    match rules {
        None => AuthorizeResult::Allowed,
        Some(r) => if allowed(r, url.path@, url_query(url), c) {
            AuthorizeResult::Allowed
        } else if r.mode@ == "audit"@ {
            AuthorizeResult::AllowedWithAudit
        } else {
            AuthorizeResult::Forbidden
        },
    }
}

/// Whether an outcome lets the request go upstream.
pub open spec fn passes(r: AuthorizeResult) -> bool {
    !(r is Forbidden)
}

/// Decides the fate of a request to `ip` from the caller `claims`.
pub fn authorize(
    ip: &str,
    connection_id: u128,
    url: &RequestUrl,
    claims: &Claims,
    wire_server_rules: &Option<AuthorizationRules>,
    imds_rules: &Option<AuthorizationRules>,
) -> (r: AuthorizeResult)
    ensures
        r == authorize_spec(rules_for(ip@, *wire_server_rules, *imds_rules), url, *claims),
{
    let rules = if same_text(ip, WIRE_SERVER_IP) {
        wire_server_rules
    } else if same_text(ip, IMDS_IP) {
        imds_rules
    } else {
        return AuthorizeResult::Allowed;
    };
    match rules {
        None => AuthorizeResult::Allowed,
        Some(r) => {
            if r.is_allowed(connection_id, url, claims) {
                AuthorizeResult::Allowed
            } else if same_text(r.mode.as_str(), "audit") {
                AuthorizeResult::AllowedWithAudit
            } else {
                AuthorizeResult::Forbidden
            }
        },
    }
}

/// In audit mode no request is refused.
pub proof fn lemma_audit_mode_passes(rules: AuthorizationRules, url: &RequestUrl, c: Claims)
    requires
        rules.mode@ == "audit"@,
    ensures
        passes(authorize_spec(Some(rules), url, c)),
{
}

} // verus!
