use proxy_agent::key::{
    AccessControlRules, AuthorizationItem, Identity, Key, Privilege, RequestUrl, Role, RoleAssignment,
};
use proxy_agent::proxy::authorization_rules::AuthorizationRules;
use proxy_agent::proxy::proxy_server::{
    add_provenance_header, admission_status, body_limit, get_status, next_bind_action, sign_request,
    should_skip_sig, stop, BindAction, BindOutcome, ConnectionContext, Step, REQUEST_BODY_LARGE_LIMIT_SIZE, REQUEST_BODY_LOW_LIMIT_SIZE,
};
use proxy_agent::proxy::signing::{authorization_value, signature_input};
use proxy_agent::proxy::{Claims, Process, User, UserCache};
use proxy_agent::redirector::AuditEntry;
use proxy_agent::shared_state::SharedState;
use proxy_agent::status::ModuleState;

fn url(path: &str, query: Option<&str>) -> RequestUrl {
    RequestUrl { path: path.to_string(), query: query.map(|q| q.to_string()) }
}

fn context(shared: &mut SharedState, method: &str, path: &str) -> ConnectionContext {
    ConnectionContext::new(shared, method.to_string(), url(path, None), "127.0.0.1".to_string(), 40000)
}

#[test]
fn misdirected_without_audit_entry() {
    let mut shared = SharedState::new();
    let ctx = context(&mut shared, "GET", "/");
    assert_eq!(1, ctx.id);
    assert!(matches!(ctx.first_step(false), Step::LookupAudit(40000)));
    match ctx.on_audit(None) {
        Step::Respond { status, summary, .. } => {
            assert_eq!(421, status);
            let summary = summary.unwrap();
            assert_eq!(421, summary.responseStatus);
            assert_eq!("empty", summary.userName);
            assert_eq!("empty", summary.clientIp);
            assert_eq!("empty", summary.processFullPath);
            assert!(summary.userGroups.is_empty());
            assert_eq!("GET", summary.method);
            assert_eq!("/", summary.url);
            assert_eq!(1, summary.id);
        }
        _ => panic!("expected a response"),
    }
}

#[test]
fn large_body_without_whitelist_is_refused() {
    let target = url("/foo", None);
    assert_eq!(Some(413), admission_status(102_401, "POST", &target));
    assert_eq!(None, admission_status(102_400, "POST", &target));
    assert_eq!(REQUEST_BODY_LOW_LIMIT_SIZE, body_limit("POST", &target));
    assert_eq!(102_400, REQUEST_BODY_LOW_LIMIT_SIZE);
    assert_eq!(104_857_600, REQUEST_BODY_LARGE_LIMIT_SIZE);
}

#[test]
fn whitelisted_uploads_skip_signing() {
    let log = url("/vmAgentLog", None);
    assert!(should_skip_sig("PUT", &log));
    assert!(should_skip_sig("POST", &log));
    assert!(!should_skip_sig("GET", &log));
    let telemetry = url("/machine/", Some("comp=telemetrydata"));
    assert!(should_skip_sig("POST", &telemetry));
    assert_eq!(REQUEST_BODY_LARGE_LIMIT_SIZE, body_limit("POST", &telemetry));
    assert_eq!(None, admission_status(102_401, "POST", &telemetry));
    assert_eq!(Some(413), admission_status(104_857_601, "POST", &telemetry));
    assert!(!should_skip_sig("POST", &url("/machine", Some("comp=goalstate"))));
}

#[test]
fn provision_state_needs_metadata_header() {
    let mut shared = SharedState::new();
    let ctx = context(&mut shared, "GET", "/provision-state");
    assert!(matches!(ctx.first_step(true), Step::ServeProvisionState));
    match ctx.first_step(false) {
        Step::Respond { status, summary, .. } => {
            assert_eq!(400, status);
            assert!(summary.is_none());
        }
        _ => panic!("expected a response"),
    }
}

fn resolved_claims(is_admin: bool) -> Claims {
    let mut entry = AuditEntry::empty();
    entry.logon_id = 999;
    entry.is_admin = if is_admin { 1 } else { 0 };
    let user = User { logon_id: 999, user_name: "root".to_string(), user_groups: vec!["root".to_string()] };
    let process = Process::new(1234, "/usr/bin/curl".to_string(), "curl http://168.63.129.16".to_string());
    Claims::from_audit_entry(&entry, "127.0.0.1", &user, &process)
}

#[test]
fn claims_from_audit_entry() {
    let claims = resolved_claims(true);
    assert!(claims.runAsElevated);
    assert_eq!(999, claims.userId);
    assert_eq!("root", claims.userName);
    assert_eq!(vec!["root".to_string()], claims.userGroups);
    assert_eq!(1234, claims.processId);
    assert_eq!("curl", claims.processName);
    assert_eq!("/usr/bin/curl", claims.processFullPath);
    assert_eq!("curl http://168.63.129.16", claims.processCmdLine);
    assert_eq!("127.0.0.1", claims.clientIp);
    assert!(!resolved_claims(false).runAsElevated);
    let empty = Claims::empty();
    assert_eq!("empty", empty.userName);
    assert_eq!(0, empty.processId);
}

#[test]
fn forward_then_mirror_response() {
    let mut shared = SharedState::new();
    let mut ctx = context(&mut shared, "GET", "/machine");
    let mut entry = AuditEntry::empty();
    entry.destination_ipv4 = 0x10813FA8;
    entry.destination_port = 0x5000;
    let step = ctx.on_claims(&entry, Some(resolved_claims(true)), "Mon, 01 Jan 2024 00:00:00 GMT", &None, &None);
    match step {
        Step::Forward { ip, port, headers, sign, audited } => {
            assert_eq!("168.63.129.16", ip);
            assert_eq!(80, port);
            assert!(sign);
            assert!(!audited);
            assert_eq!(
                vec![
                    ("x-ms-azure-host-claims".to_string(), "{\"isRoot\": true}".to_string()),
                    ("x-ms-azure-host-date".to_string(), "Mon, 01 Jan 2024 00:00:00 GMT".to_string()),
                ],
                headers
            );
        }
        _ => panic!("expected a forward"),
    }
    let upstream = vec![
        ("content-type".to_string(), "text/xml".to_string()),
        ("x-ms-azure-host-authorization".to_string(), "upstream".to_string()),
    ];
    match ctx.on_upstream(Some((200, upstream))) {
        Step::Respond { status, headers, summary } => {
            assert_eq!(200, status);
            let marks: Vec<_> = headers.iter().filter(|(n, _)| n == "x-ms-azure-host-authorization").collect();
            assert_eq!(1, marks.len());
            assert_eq!("value", marks[0].1);
            assert_eq!(("content-type".to_string(), "text/xml".to_string()), headers[0]);
            let summary = summary.unwrap();
            assert_eq!("root", summary.userName);
            assert_eq!("168.63.129.16", summary.ip);
            assert_eq!(80, summary.port);
            assert_eq!(200, summary.responseStatus);
        }
        _ => panic!("expected a response"),
    }
    match ctx.on_upstream(None) {
        Step::Respond { status, .. } => assert_eq!(503, status),
        _ => panic!("expected a response"),
    }
}

#[test]
fn unresolved_claims_are_misdirected() {
    let mut shared = SharedState::new();
    let mut ctx = context(&mut shared, "GET", "/");
    match ctx.on_claims(&AuditEntry::empty(), None, "date", &None, &None) {
        Step::Respond { status, .. } => assert_eq!(421, status),
        _ => panic!("expected a response"),
    }
}

#[test]
fn provenance_header_is_single() {
    let mut headers = vec![
        ("x-ms-azure-host-authorization".to_string(), "a".to_string()),
        ("server".to_string(), "x".to_string()),
        ("x-ms-azure-host-authorization".to_string(), "b".to_string()),
    ];
    add_provenance_header(&mut headers);
    assert_eq!(
        vec![
            ("server".to_string(), "x".to_string()),
            ("x-ms-azure-host-authorization".to_string(), "value".to_string()),
        ],
        headers
    );
}

#[test]
fn signature_over_canonical_input() {
    let headers = vec![("a".to_string(), "1".to_string()), ("b".to_string(), "2".to_string())];
    assert_eq!(b"GET\na:1\nb:2\n\nbody".to_vec(), signature_input("GET", &headers, &b"body".to_vec()));

    // HMAC-SHA256 with key "Jefe" over "what do ya want for nothing?"
    let key = Key { guid: "guid".to_string(), key: "4a656665".to_string(), incarnationId: None };
    let value = authorization_value(&key, &b"what do ya want for nothing?".to_vec()).unwrap();
    assert_eq!(
        "Azure-HMAC-SHA256 guid 5bdcc146bf60754e6a042426089575c75a003f089d2739839dec58b964ec3843",
        value
    );
    let bad = Key { key: "xyz".to_string(), ..key.clone() };
    assert_eq!(None, authorization_value(&bad, &b"x".to_vec()));

    let mut headers = vec![("a".to_string(), "1".to_string())];
    sign_request(&None, "GET", &mut headers, &Vec::new());
    assert_eq!(1, headers.len());
    sign_request(&Some(key), "GET", &mut headers, &Vec::new());
    assert_eq!(2, headers.len());
    assert_eq!("x-ms-azure-host-authorization", headers[1].0);
    assert!(headers[1].1.starts_with("Azure-HMAC-SHA256 guid "));
    assert_eq!("Azure-HMAC-SHA256 guid ".len() + 64, headers[1].1.len());
}

#[test]
fn listener_stop_and_status() {
    let mut shared = SharedState::new();
    assert!(matches!(get_status(&shared).status, ModuleState::Running));
    assert_eq!("Status unknown.", get_status(&shared).message);
    stop(&mut shared);
    assert!(matches!(get_status(&shared).status, ModuleState::Stopped));
}

#[test]
fn user_cache_keeps_one_entry_per_logon_id() {
    let mut cache = UserCache::new();
    assert!(cache.get_user(0).is_none());
    cache.add_user(User { logon_id: 0, user_name: "root".to_string(), user_groups: vec!["root".to_string()] });
    cache.add_user(User { logon_id: 0, user_name: "root".to_string(), user_groups: vec!["root".to_string()] });
    assert_eq!(1, cache.len());
    let user = cache.get_user(0).unwrap();
    assert_eq!("root", user.user_name);
    assert_eq!(vec!["root".to_string()], user.user_groups);
}

#[test]
fn audit_mode_forward_records_denial() {
    let acr = AccessControlRules {
        roles: Some(vec![Role { name: "r".to_string(), privileges: vec!["p".to_string()] }]),
        privileges: Some(vec![Privilege { name: "p".to_string(), path: "/machine".to_string(), queryParameters: None }]),
        identities: Some(vec![Identity {
            name: "i".to_string(),
            userName: Some("admin".to_string()),
            groupName: None,
            exePath: None,
            processName: None,
        }]),
        roleAssignments: Some(vec![RoleAssignment { role: "r".to_string(), identities: vec!["i".to_string()] }]),
    };
    let item = AuthorizationItem {
        defaultAccess: "deny".to_string(),
        mode: "audit".to_string(),
        rules: Some(acr),
        id: "1".to_string(),
    };
    let rules = Some(AuthorizationRules::from_authorization_item(item));
    let mut shared = SharedState::new();
    let mut ctx = context(&mut shared, "GET", "/machine");
    let mut entry = AuditEntry::empty();
    entry.destination_ipv4 = 0x10813FA8;
    entry.destination_port = 0x5000;
    match ctx.on_claims(&entry, Some(resolved_claims(false)), "date", &rules, &None) {
        Step::Forward { audited, headers, .. } => {
            assert!(audited);
            assert_eq!("{\"isRoot\": false}", headers[0].1);
        }
        _ => panic!("audit mode must forward"),
    }
}

#[test]
fn enforce_mode_denial_is_forbidden() {
    let acr = AccessControlRules {
        roles: Some(vec![Role { name: "r".to_string(), privileges: vec!["p".to_string()] }]),
        privileges: Some(vec![Privilege { name: "p".to_string(), path: "/".to_string(), queryParameters: None }]),
        identities: None,
        roleAssignments: Some(vec![RoleAssignment { role: "r".to_string(), identities: vec![] }]),
    };
    let item = AuthorizationItem {
        defaultAccess: "allow".to_string(),
        mode: "enforce".to_string(),
        rules: Some(acr),
        id: "1".to_string(),
    };
    let rules = Some(AuthorizationRules::from_authorization_item(item));
    let mut shared = SharedState::new();
    let mut ctx = context(&mut shared, "GET", "/metadata/instance");
    let mut entry = AuditEntry::empty();
    entry.destination_ipv4 = 0xFEA9_FEA9;
    entry.destination_port = 0x5000;
    match ctx.on_claims(&entry, Some(resolved_claims(false)), "date", &None, &rules) {
        Step::Respond { status, summary, .. } => {
            assert_eq!(403, status);
            assert_eq!("root", summary.unwrap().userName);
        }
        _ => panic!("enforce mode must refuse"),
    }
}

#[test]
fn bind_retries_only_while_address_in_use() {
    assert!(matches!(next_bind_action(0, 5, BindOutcome::Bound), BindAction::Serve));
    assert!(matches!(next_bind_action(0, 5, BindOutcome::AddressInUse), BindAction::RetryAfterSleep));
    assert!(matches!(next_bind_action(4, 5, BindOutcome::AddressInUse), BindAction::RetryAfterSleep));
    assert!(matches!(next_bind_action(5, 5, BindOutcome::AddressInUse), BindAction::Fail));
    assert!(matches!(next_bind_action(0, 5, BindOutcome::OtherError), BindAction::Fail));
}

#[test]
fn authorization_header_format() {
    let value = proxy_agent::proxy::signing::format_authorization("g", &vec![0x00, 0xab, 0x10]);
    assert_eq!("Azure-HMAC-SHA256 g 00ab10", value);
}
