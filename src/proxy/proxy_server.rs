//! The request pipeline's decisions: body-size admission, which requests skip
//! signing, the headers added on the way up and down, and the steps from an
//! accepted request to the client's response.
use crate::key::{Key, RequestUrl};
use crate::proxy::authorization_rules::AuthorizationRules;
use crate::proxy::proxy_authorizer::{authorize, authorize_spec, rules_for, AuthorizeResult};
use crate::proxy::signing::{authorization_value, authorization_value_spec, signature_input_spec};
use crate::proxy::{copy_strings, Claims, EMPTY};
use crate::redirector::{ip_text, swap_bytes_u16, swap_bytes_u32, AuditEntry};
use crate::shared_state::proxy_listener_wrapper::{
    get_shutdown, get_status_message, increase_connection_count, next_connection_count, set_shutdown,
};
use crate::status::{ModuleState, ProxyAgentDetailStatus};
use crate::shared_state::{SharedState, SharedStateView};
use crate::text::{lower_of, same_text, to_lower};
use vstd::prelude::*;

verus! {

/// Ceiling on the body of an ordinary request: 100 KiB.
pub const REQUEST_BODY_LOW_LIMIT_SIZE: usize = 1024 * 100;

/// Ceiling on the body of a request that skips signing: 100 MiB.
pub const REQUEST_BODY_LARGE_LIMIT_SIZE: usize = 1024 * 1024 * 100;

/// Header that carries the signature upstream, and the provenance marker
/// towards the client.
pub const AUTHORIZATION_HEADER: &'static str = "x-ms-azure-host-authorization";

/// Value of the provenance marker on every forwarded response.
pub const PROVENANCE_VALUE: &'static str = "value";

/// Scheme word that opens the signature header's value.
pub const AUTHORIZATION_SCHEME: &'static str = "Azure-HMAC-SHA256";

/// Header that carries the caller's claims upstream.
pub const CLAIMS_HEADER: &'static str = "x-ms-azure-host-claims";

/// Header that carries the request's date upstream.
pub const DATE_HEADER: &'static str = "x-ms-azure-host-date";

/// Key of the claims header's JSON object.
pub const CLAIMS_IS_ROOT: &'static str = "isRoot";

/// Path of the local provisioning status endpoint.
pub const PROVISION_URL_PATH: &'static str = "/provision-state";

/// How often binding the listener is retried while its address is in use.
pub const START_LISTENER_RETRY_COUNT: u16 = 5;

/// How one attempt to bind the listener ended.
pub enum BindOutcome {
    Bound,
    AddressInUse,
    OtherError,
}

/// What to do after an attempt to bind the listener.
pub enum BindAction {
    /// Serve on the bound listener.
    Serve,
    /// Wait a second, then try again.
    RetryAfterSleep,
    /// Give up: the listener does not start.
    Fail,
}

/// The decision after bind attempt number `attempt` (from zero): an address
/// in use is retried after a pause for the first `retry_count` attempts,
/// and one last attempt follows them; any other error ends the start.
pub fn next_bind_action(attempt: u16, retry_count: u16, outcome: BindOutcome) -> (r: BindAction)
    ensures
        outcome is Bound ==> r is Serve,
        outcome is OtherError ==> r is Fail,
        outcome is AddressInUse ==> (if attempt < retry_count {
            r is RetryAfterSleep
        } else {
            r is Fail
        }),
{
    match outcome {
        BindOutcome::Bound => BindAction::Serve,
        BindOutcome::OtherError => BindAction::Fail,
        BindOutcome::AddressInUse => {
            if attempt < retry_count {
                BindAction::RetryAfterSleep
            } else {
                BindAction::Fail
            }
        },
    }
}

/// Asks the proxy listener to stop.
pub fn stop(shared_state: &mut SharedState)
    ensures
        final(shared_state)@ == (SharedStateView {
            proxy_listener_shutdown: true,
            ..old(shared_state)@
        }),
{
    set_shutdown(shared_state, true);
}

/// The proxy listener's status: stopped once asked to stop, running
/// otherwise, with its status message.
pub fn get_status(shared_state: &SharedState) -> (r: ProxyAgentDetailStatus)
    ensures
        r.status == (if shared_state@.proxy_listener_shutdown {
            ModuleState::Stopped
        } else {
            ModuleState::Running
        }),
        r.message@ == shared_state@.proxy_listener_status_message,
        r.states is None,
{
    let status = if get_shutdown(shared_state) {
        ModuleState::Stopped
    } else {
        ModuleState::Running
    };
    ProxyAgentDetailStatus { status, message: get_status_message(shared_state), states: None }
}

/// The request target as text: the path, then `?` and the query if there is
/// one.
pub open spec fn target_text(url: &RequestUrl) -> Seq<char> {
    match url.query {
        Some(q) => url.path@ + seq!['?'] + q@,
        None => url.path@,
    }
}

/// Whether a request is one of the large-payload uploads that skip signing:
/// a `PUT` or `POST` whose target, lowered, is the agent log or the
/// telemetry endpoint.
pub open spec fn skips_signature(method: Seq<char>, url: &RequestUrl) -> bool {
    (method == "PUT"@ || method == "POST"@) && (lower_of(target_text(url)) == "/vmagentlog"@
        || lower_of(target_text(url)) == "/machine/?comp=telemetrydata"@)
}

/// The body ceiling that applies to a request.
pub open spec fn body_limit_of(method: Seq<char>, url: &RequestUrl) -> usize {
    if skips_signature(method, url) {
        REQUEST_BODY_LARGE_LIMIT_SIZE
    } else {
        REQUEST_BODY_LOW_LIMIT_SIZE
    }
}

fn target_string(url: &RequestUrl) -> (r: String)
    ensures
        r@ == target_text(url),
{
    let mut s = url.path.clone();
    if let Some(q) = &url.query {
        s.append("?");
        s.append(q.as_str());
        proof {
            reveal_strlit("?");
        }
    }
    s
}

/// Whether the request skips signing; such requests also get the larger
/// body ceiling.
pub fn should_skip_sig(method: &str, url: &RequestUrl) -> (r: bool)
    ensures
        r == skips_signature(method@, url),
{
    if !(same_text(method, "PUT") || same_text(method, "POST")) {
        return false;
    }
    let target = to_lower(target_string(url).as_str());
    same_text(target.as_str(), "/vmagentlog") || same_text(
        target.as_str(),
        "/machine/?comp=telemetrydata",
    )
}

/// The largest body the request may carry.
pub fn body_limit(method: &str, url: &RequestUrl) -> (r: usize)
    ensures
        r == body_limit_of(method@, url),
{
    if should_skip_sig(method, url) {
        REQUEST_BODY_LARGE_LIMIT_SIZE
    } else {
        REQUEST_BODY_LOW_LIMIT_SIZE
    }
}

/// The status that admission gives a request whose body holds
/// `content_length` bytes: `413` above its ceiling, none otherwise.
pub open spec fn admission_spec(content_length: u64, method: Seq<char>, url: &RequestUrl) -> Option<u16> {
    if content_length > body_limit_of(method, url) {
        Some(413u16)
    } else {
        None
    }
}

/// Admits or refuses a request by the size of its body.
pub fn admission_status(content_length: u64, method: &str, url: &RequestUrl) -> (r: Option<u16>)
    ensures
        r == admission_spec(content_length, method@, url),
{
    let limit = body_limit(method, url);
    if content_length > limit as u64 {
        Some(413)
    } else {
        None
    }
}

/// A request whose body exceeds 100 KiB and which does not skip signing is
/// refused with `413`.
pub proof fn lemma_large_body_refused(content_length: u64, method: Seq<char>, url: &RequestUrl)
    requires
        content_length > REQUEST_BODY_LOW_LIMIT_SIZE,
        !skips_signature(method, url),
    ensures
        admission_spec(content_length, method, url) == Some(413u16),
{
}

/// Headers as plain text pairs.
pub open spec fn header_views(h: Seq<(String, String)>) -> Seq<(Seq<char>, Seq<char>)> {
    h.map_values(|p: (String, String)| (p.0@, p.1@))
}

/// `h` without the entries named `name`, the others in order.
pub open spec fn without_named(h: Seq<(Seq<char>, Seq<char>)>, name: Seq<char>) -> Seq<
    (Seq<char>, Seq<char>),
>
    decreases h.len(),
{
    if h.len() == 0 {
        seq![]
    } else {
        let prev = without_named(h.drop_last(), name);
        if h.last().0 == name {
            prev
        } else {
            prev.push(h.last())
        }
    }
}

/// How many entries of `h` are named `name`.
pub open spec fn count_named(h: Seq<(Seq<char>, Seq<char>)>, name: Seq<char>) -> nat
    decreases h.len(),
{
    if h.len() == 0 {
        0
    } else {
        count_named(h.drop_last(), name) + if h.last().0 == name {
            1nat
        } else {
            0nat
        }
    }
}

/// `h` with every entry named `name` replaced by one entry `name: value` at
/// the end, as a header map's `insert` leaves it.
pub open spec fn with_header(h: Seq<(Seq<char>, Seq<char>)>, name: Seq<char>, value: Seq<char>) -> Seq<
    (Seq<char>, Seq<char>),
> {
    without_named(h, name).push((name, value))
}

/// Sets the header `name` to `value`, dropping any earlier entries of that
/// name. Names are compared exactly: callers hand them in lower case.
pub fn insert_header(headers: &mut Vec<(String, String)>, name: &str, value: &str)
    ensures
        header_views(final(headers)@) == with_header(header_views(old(headers)@), name@, value@),
{
    let ghost h = header_views(headers@);
    let mut kept: Vec<(String, String)> = Vec::new();
    let mut i: usize = 0;
    while i < headers.len()
        invariant
            h == header_views(headers@),
            i <= headers@.len(),
            header_views(kept@) == without_named(h.take(i as int), name@),
        decreases headers@.len() - i,
    {
        assert(h.take(i + 1).drop_last() == h.take(i as int));
        assert(h[i as int] == (headers@[i as int].0@, headers@[i as int].1@));
        if !same_text(headers[i].0.as_str(), name) {
            let pair = (headers[i].0.clone(), headers[i].1.clone());
            let ghost before = header_views(kept@);
            kept.push(pair);
            assert(header_views(kept@) =~= before.push(h[i as int]));
        }
        i = i + 1;
    }
    assert(h.take(h.len() as int) == h);
    kept.push((String::from_str(name), String::from_str(value)));
    assert(header_views(kept@) =~= with_header(h, name@, value@));
    *headers = kept;
}

proof fn lemma_without_named_count(h: Seq<(Seq<char>, Seq<char>)>, name: Seq<char>)
    ensures
        count_named(without_named(h, name), name) == 0,
    decreases h.len(),
{
    if h.len() > 0 {
        lemma_without_named_count(h.drop_last(), name);
        let prev = without_named(h.drop_last(), name);
        if h.last().0 != name {
            assert(prev.push(h.last()).drop_last() == prev);
        }
    }
}

/// After `insert_header`, exactly one entry carries the name, and it holds
/// the value inserted.
pub proof fn lemma_inserted_header_unique(
    h: Seq<(Seq<char>, Seq<char>)>,
    name: Seq<char>,
    value: Seq<char>,
)
    ensures
        count_named(with_header(h, name, value), name) == 1,
        with_header(h, name, value).last() == (name, value),
{
    lemma_without_named_count(h, name);
    assert(with_header(h, name, value).drop_last() == without_named(h, name));
}

/// Marks a forwarded response as having passed through the agent: its
/// headers end with `x-ms-azure-host-authorization: value`, the only entry of
/// that name.
pub fn add_provenance_header(headers: &mut Vec<(String, String)>)
    ensures
        header_views(final(headers)@) == with_header(
            header_views(old(headers)@),
            AUTHORIZATION_HEADER@,
            PROVENANCE_VALUE@,
        ),
        count_named(header_views(final(headers)@), AUTHORIZATION_HEADER@) == 1,
{
    insert_header(headers, AUTHORIZATION_HEADER, PROVENANCE_VALUE);
    proof {
        lemma_inserted_header_unique(header_views(old(headers)@), AUTHORIZATION_HEADER@, PROVENANCE_VALUE@);
    }
}

/// Claims header value for a caller running elevated.
pub const CLAIMS_VALUE_ROOT: &'static str = "{\"isRoot\": true}";

/// Claims header value for a caller not running elevated.
pub const CLAIMS_VALUE_NOT_ROOT: &'static str = "{\"isRoot\": false}";

/// The claims header's value: a JSON object whose `isRoot` member says
/// whether the caller runs elevated.
pub open spec fn claims_header_text(run_as_elevated: bool) -> Seq<char> {
    if run_as_elevated {
        CLAIMS_VALUE_ROOT@
    } else {
        CLAIMS_VALUE_NOT_ROOT@
    }
}

/// The record logged when a request reaches a terminal status.
#[allow(non_snake_case)]
pub struct ProxySummary {
    pub id: u128,
    pub userId: u64,
    pub userName: String,
    pub userGroups: Vec<String>,
    pub clientIp: String,
    pub processFullPath: String,
    pub processCmdLine: String,
    pub runAsElevated: bool,
    pub method: String,
    pub url: String,
    pub ip: String,
    pub port: u16,
    pub responseStatus: u16,
}

/// What is known of one request while it is handled.
pub struct ConnectionContext {
    pub id: u128,
    pub client_ip: String,
    pub client_port: u16,
    pub method: String,
    pub url: RequestUrl,
    /// The original destination, once the audit entry is known.
    pub ip: Option<String>,
    pub port: u16,
    /// The caller, once resolved.
    pub claims: Option<Claims>,
}

/// What the handler does next.
pub enum Step {
    /// Look up the audit entry of the flow by the client's source port.
    LookupAudit(u16),
    /// Resolve the user and process behind the audit entry and assemble
    /// the claims.
    ResolveClaims(AuditEntry),
    /// Answer from the local provisioning status endpoint.
    ServeProvisionState,
    /// Send the request to its original destination with `headers` set;
    /// sign it first when `sign` holds. `audited` records that the rules
    /// would have denied it in enforce mode.
    Forward { ip: String, port: u16, headers: Vec<(String, String)>, sign: bool, audited: bool },
    /// Answer the client with `status` and `headers`, and log `summary`.
    Respond { status: u16, headers: Vec<(String, String)>, summary: Option<ProxySummary> },
}

/// Whether `s` is the summary of `ctx` at `status`: the caller's claims, or
/// the `empty` sentinels while they are unknown.
pub open spec fn summarizes(s: ProxySummary, ctx: ConnectionContext, status: u16) -> bool {
    &&& s.id == ctx.id
    &&& s.method@ == ctx.method@
    &&& s.url@ == target_text(&ctx.url)
    &&& s.ip@ == (match ctx.ip {
        Some(ip) => ip@,
        None => Seq::<char>::empty(),
    })
    &&& s.port == ctx.port
    &&& s.responseStatus == status
    &&& match ctx.claims {
        Some(c) => {
            &&& s.userId == c.userId
            &&& s.userName@ == c.userName@
            &&& s.userGroups@ == c.userGroups@
            &&& s.clientIp@ == c.clientIp@
            &&& s.processFullPath@ == c.processFullPath@
            &&& s.processCmdLine@ == c.processCmdLine@
            &&& s.runAsElevated == c.runAsElevated
        },
        None => sentinel_summary(s),
    }
}

/// Whether the summary carries the claims of an unknown caller.
pub open spec fn sentinel_summary(s: ProxySummary) -> bool {
    &&& s.userId == 0
    &&& s.userName@ == EMPTY@
    &&& s.userGroups@.len() == 0
    &&& s.clientIp@ == EMPTY@
    &&& s.processFullPath@ == EMPTY@
    &&& s.processCmdLine@ == EMPTY@
    &&& !s.runAsElevated
}

/// Whether `step` answers the client with `status`, logging the summary of
/// `ctx` at that status.
pub open spec fn responds(step: Step, ctx: ConnectionContext, status: u16) -> bool {
    &&& step is Respond
    &&& step->Respond_status == status
    &&& step->Respond_summary is Some
    &&& summarizes(step->Respond_summary->0, ctx, status)
}

impl ConnectionContext {
    /// Starts handling a request: assigns it the next connection id.
    pub fn new(
        shared_state: &mut SharedState,
        method: String,
        url: RequestUrl,
        client_ip: String,
        client_port: u16,
    ) -> (r: ConnectionContext)
        ensures
            r.id == next_connection_count(old(shared_state)@.connection_count),
            final(shared_state)@ == (SharedStateView {
                connection_count: r.id,
                ..old(shared_state)@
            }),
            r.method@ == method@,
            r.url == url,
            r.client_ip@ == client_ip@,
            r.client_port == client_port,
            r.ip is None,
            r.port == 0,
            r.claims is None,
    {
        let id = increase_connection_count(shared_state);
        ConnectionContext { id, client_ip, client_port, method, url, ip: None, port: 0, claims: None }
    }

    /// The summary logged when the request ends with `status`.
    pub fn summary(&self, status: u16) -> (r: ProxySummary)
        ensures
            summarizes(r, *self, status),
    {
        let ip = match &self.ip {
            Some(ip) => ip.clone(),
            None => String::new(),
        };
        match &self.claims {
            Some(c) => ProxySummary {
                id: self.id,
                userId: c.userId,
                userName: c.userName.clone(),
                userGroups: copy_strings(&c.userGroups),
                clientIp: c.clientIp.clone(),
                processFullPath: c.processFullPath.clone(),
                processCmdLine: c.processCmdLine.clone(),
                runAsElevated: c.runAsElevated,
                method: self.method.clone(),
                url: target_string(&self.url),
                ip,
                port: self.port,
                responseStatus: status,
            },
            None => ProxySummary {
                id: self.id,
                userId: 0,
                userName: String::from_str(EMPTY),
                userGroups: Vec::new(),
                clientIp: String::from_str(EMPTY),
                processFullPath: String::from_str(EMPTY),
                processCmdLine: String::from_str(EMPTY),
                runAsElevated: false,
                method: self.method.clone(),
                url: target_string(&self.url),
                ip,
                port: self.port,
                responseStatus: status,
            },
        }
    }

    fn respond(&self, status: u16) -> (r: Step)
        ensures
            responds(r, *self, status),
            r->Respond_headers@.len() == 0,
    {
        Step::Respond { status, headers: Vec::new(), summary: Some(self.summary(status)) }
    }

    /// The first step: requests for the provisioning status endpoint are
    /// answered locally, and need a `Metadata` header (else `400`); any other
    /// request starts with the audit lookup.
    pub fn first_step(&self, has_metadata_header: bool) -> (r: Step)
        ensures
            self.url.path@ == PROVISION_URL_PATH@ && self.url.query is None ==> (if has_metadata_header {
                r is ServeProvisionState
            } else {
                r is Respond && r->Respond_status == 400 && r->Respond_summary is None
            }),
            !(self.url.path@ == PROVISION_URL_PATH@ && self.url.query is None) ==> r
                == Step::LookupAudit(self.client_port),
    {
        if same_text(self.url.path.as_str(), PROVISION_URL_PATH) && self.url.query.is_none() {
            if has_metadata_header {
                Step::ServeProvisionState
            } else {
                Step::Respond { status: 400, headers: Vec::new(), summary: None }
            }
        } else {
            Step::LookupAudit(self.client_port)
        }
    }

    /// After the audit lookup: without an entry the request is misdirected
    /// (`421`); with one, the caller's claims are resolved next.
    pub fn on_audit(&self, entry: Option<AuditEntry>) -> (r: Step)
        ensures
            entry is None ==> responds(r, *self, 421),
            entry is None && self.claims is None ==> sentinel_summary(r->Respond_summary->0),
            entry is Some ==> r == Step::ResolveClaims(entry->0),
    {
        match entry {
            None => self.respond(421),
            Some(e) => Step::ResolveClaims(e),
        }
    }

    /// After resolving the caller: without claims the request is misdirected
    /// (`421`). With them, the destination is taken from the audit entry and
    /// the rules for it decide: a denial outside audit mode is `403`;
    /// otherwise the request goes upstream with the claims and date headers,
    /// to be signed unless it is a large upload.
    pub fn on_claims(
        &mut self,
        entry: &AuditEntry,
        claims: Option<Claims>,
        date: &str,
        wire_server_rules: &Option<AuthorizationRules>,
        imds_rules: &Option<AuthorizationRules>,
    ) -> (r: Step)
        requires
            old(self).claims is None,
        ensures
            claims is None ==> responds(r, *old(self), 421) && *final(self) == *old(self),
            claims is Some ==> {
                let c = claims->0;
                let ip = final(self).ip->0@;
                let verdict = authorize_spec(
                    rules_for(ip, *wire_server_rules, *imds_rules),
                    &old(self).url,
                    c,
                );
                &&& final(self).claims == claims
                &&& final(self).ip is Some
                &&& (ip == ip_text(entry.destination_ipv4) || ip == ip_text(
                    swap_bytes_u32(entry.destination_ipv4),
                ))
                &&& (final(self).port == entry.destination_port || final(self).port
                    == swap_bytes_u16(entry.destination_port))
                &&& final(self).id == old(self).id
                &&& final(self).method == old(self).method
                &&& final(self).url == old(self).url
                &&& (verdict is Forbidden ==> responds(r, *final(self), 403))
                &&& (!(verdict is Forbidden) ==> {
                    &&& r is Forward
                    &&& r->Forward_ip@ == ip
                    &&& r->Forward_port == final(self).port
                    &&& header_views(r->Forward_headers@) == seq![
                        (CLAIMS_HEADER@, claims_header_text(c.runAsElevated)),
                        (DATE_HEADER@, date@),
                    ]
                    &&& r->Forward_sign == !skips_signature(old(self).method@, &old(self).url)
                    &&& r->Forward_audited == (verdict is AllowedWithAudit)
                })
            },
    {
        let c = match claims {
            None => return self.respond(421),
            Some(c) => c,
        };
        let ip = entry.destination_ipv4_addr();
        let port = entry.destination_port_in_host_byte_order();
        let verdict = authorize(ip.as_str(), self.id, &self.url, &c, wire_server_rules, imds_rules);
        let run_as_elevated = c.runAsElevated;
        self.claims = Some(c);
        self.ip = Some(ip.clone());
        self.port = port;
        match verdict {
            AuthorizeResult::Forbidden => self.respond(403),
            _ => {
                let claims_value = if run_as_elevated {
                    CLAIMS_VALUE_ROOT
                } else {
                    CLAIMS_VALUE_NOT_ROOT
                };
                let mut headers: Vec<(String, String)> = Vec::new();
                headers.push((String::from_str(CLAIMS_HEADER), String::from_str(claims_value)));
                headers.push((String::from_str(DATE_HEADER), String::from_str(date)));
                assert(header_views(headers@) =~= seq![
                    (CLAIMS_HEADER@, claims_header_text(run_as_elevated)),
                    (DATE_HEADER@, date@),
                ]);
                let sign = !should_skip_sig(self.method.as_str(), &self.url);
                let audited = match verdict {
                    AuthorizeResult::AllowedWithAudit => true,
                    _ => false,
                };
                Step::Forward { ip, port, headers, sign, audited }
            },
        }
    }

    /// After the upstream exchange: a failure is `503`; a response is passed
    /// on with its status and headers, marked with the provenance header.
    pub fn on_upstream(&self, response: Option<(u16, Vec<(String, String)>)>) -> (r: Step)
        ensures
            response is None ==> responds(r, *self, 503),
            response is Some ==> {
                let upstream = response->0;
                &&& responds(r, *self, upstream.0)
                &&& header_views(r->Respond_headers@) == with_header(
                    header_views(upstream.1@),
                    AUTHORIZATION_HEADER@,
                    PROVENANCE_VALUE@,
                )
                &&& count_named(header_views(r->Respond_headers@), AUTHORIZATION_HEADER@) == 1
            },
    {
        match response {
            None => self.respond(503),
            Some((status, headers)) => {
                let mut headers = headers;
                add_provenance_header(&mut headers);
                Step::Respond { status, headers, summary: Some(self.summary(status)) }
            },
        }
    }
}

/// Signs a request that goes upstream: with a key whose bytes decode, the
/// authorization header is set to the signature over the method, headers
/// and body; without a key, or with one that does not decode, the headers
/// stay as they are.
pub fn sign_request(key: &Option<Key>, method: &str, headers: &mut Vec<(String, String)>, body: &Vec<u8>)
    ensures
        match *key {
            Some(k) => match authorization_value_spec(
                k,
                signature_input_spec(method@, header_views(old(headers)@), body@),
            ) {
                Some(v) => header_views(final(headers)@) == with_header(
                    header_views(old(headers)@),
                    AUTHORIZATION_HEADER@,
                    v,
                ),
                None => final(headers)@ == old(headers)@,
            },
            None => final(headers)@ == old(headers)@,
        },
{
    if let Some(k) = key {
        let input = crate::proxy::signing::signature_input(method, headers, body);
        if let Some(value) = authorization_value(k, &input) {
            insert_header(headers, AUTHORIZATION_HEADER, value.as_str());
        }
    }
}

} // verus!
