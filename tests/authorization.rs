use proxy_agent::key::{
    AccessControlRules, AuthorizationItem, Identity, Privilege, RequestUrl, Role, RoleAssignment,
};
use proxy_agent::proxy::authorization_rules::AuthorizationRules;
use proxy_agent::proxy::proxy_authorizer::{authorize, AuthorizeResult};
use proxy_agent::proxy::Claims;

fn url(text: &str) -> RequestUrl {
    let uri: hyper::Uri = text.parse().unwrap();
    RequestUrl {
        path: uri.path().to_string(),
        query: uri.query().map(|q| q.to_string()),
    }
}

fn test_rules(identity_name: &str) -> AccessControlRules {
    AccessControlRules {
        roles: Some(vec![Role {
            name: "test".to_string(),
            privileges: vec!["test".to_string(), "test1".to_string()],
        }]),
        privileges: Some(vec![Privilege {
            name: "test".to_string(),
            path: "/test".to_string(),
            queryParameters: None,
        }]),
        identities: Some(vec![Identity {
            name: identity_name.to_string(),
            exePath: Some("test".to_string()),
            groupName: Some("test".to_string()),
            processName: Some("test".to_string()),
            userName: Some("test".to_string()),
        }]),
        roleAssignments: Some(vec![RoleAssignment {
            role: "test".to_string(),
            identities: vec![identity_name.to_string()],
        }]),
    }
}

fn item(default_access: &str, mode: &str, rules: Option<AccessControlRules>) -> AuthorizationItem {
    AuthorizationItem {
        defaultAccess: default_access.to_string(),
        mode: mode.to_string(),
        rules,
        id: "0".to_string(),
    }
}

fn test_claims(user_name: &str) -> Claims {
    Claims {
        userId: 0,
        userName: user_name.to_string(),
        userGroups: vec!["test".to_string()],
        processId: 0,
        processFullPath: "test".to_string(),
        clientIp: "0".to_string(),
        processName: "test".to_string(),
        processCmdLine: "test".to_string(),
        runAsElevated: true,
    }
}

fn user_only_rules(default_access: &str, mode: &str) -> AuthorizationRules {
    let acr = AccessControlRules {
        roles: Some(vec![Role {
            name: "reader".to_string(),
            privileges: vec!["test".to_string()],
        }]),
        privileges: Some(vec![Privilege {
            name: "test".to_string(),
            path: "/test".to_string(),
            queryParameters: None,
        }]),
        identities: Some(vec![Identity {
            name: "tester".to_string(),
            userName: Some("test".to_string()),
            groupName: None,
            exePath: None,
            processName: None,
        }]),
        roleAssignments: Some(vec![RoleAssignment {
            role: "reader".to_string(),
            identities: vec!["tester".to_string()],
        }]),
    };
    AuthorizationRules::from_authorization_item(item(default_access, mode, Some(acr)))
}

#[test]
fn test_authorization_rules() {
    // Test Enforce Mode
    let rules = AuthorizationRules::from_authorization_item(item("deny", "enforce", Some(test_rules("test"))));
    assert!(!rules.defaultAllowed);
    assert_eq!(rules.mode, "enforce");
    assert!(rules.rules.is_some());

    let mut claims = test_claims("test");
    // assert the claim is allowed given the rules above
    assert!(rules.is_allowed(0, &url("http://localhost/test/test"), &claims));
    let relative_url = url("/test/test");
    assert!(rules.is_allowed(0, &relative_url, &claims));
    claims.userName = "test1".to_string();
    // the identity also names the group `test`, which the caller still belongs to
    assert!(rules.is_allowed(0, &relative_url, &claims));

    // Test Audit Mode
    let rules = AuthorizationRules::from_authorization_item(item("deny", "audit", Some(test_rules("test"))));
    assert!(!rules.defaultAllowed);
    assert_eq!(rules.mode, "audit");
    assert!(rules.rules.is_some());

    // Test Disabled Mode
    let rules = AuthorizationRules::from_authorization_item(item("deny", "disabled", Some(test_rules("test"))));
    assert!(!rules.defaultAllowed);
    assert_eq!(rules.mode, "disabled");
    assert!(rules.rules.is_some());

    assert!(rules.is_allowed(0, &url("http://localhost/test/test1"), &claims));
    assert!(rules.is_allowed(0, &url("/test/test1"), &claims));

    // Test enforce mode, identity name `test1`
    let rules = AuthorizationRules::from_authorization_item(item("deny", "enforce", Some(test_rules("test1"))));
    assert!(!rules.defaultAllowed);
    assert_eq!(rules.mode, "enforce");
    assert!(rules.rules.is_some());

    // the identity's group `test` matches the caller's group
    assert!(rules.is_allowed(0, &url("http://localhost/test?"), &claims));
    assert!(rules.is_allowed(0, &url("/test?"), &claims));
}

#[test]
fn compiled_rules_resolve_names() {
    let rules = AuthorizationRules::from_authorization_item(item("Allow", "ENFORCE", Some(test_rules("test"))));
    assert!(rules.defaultAllowed);
    assert_eq!(rules.mode, "enforce");
    let compiled = rules.rules.unwrap();
    assert_eq!(1, compiled.len());
    assert_eq!("test", compiled[0].roleName);
    // the role names `test1` too, which no privilege carries: it is dropped
    assert_eq!(1, compiled[0].privileges.len());
    assert_eq!("/test", compiled[0].privileges[0].path);
    assert_eq!(1, compiled[0].identities.len());

    let unknown_role = AccessControlRules {
        roleAssignments: Some(vec![RoleAssignment {
            role: "missing".to_string(),
            identities: vec!["nobody".to_string()],
        }]),
        ..test_rules("test")
    };
    let rules = AuthorizationRules::from_authorization_item(item("deny", "enforce", Some(unknown_role)));
    let compiled = rules.rules.unwrap();
    assert_eq!(1, compiled.len());
    assert!(compiled[0].privileges.is_empty());
    assert!(compiled[0].identities.is_empty());

    let no_assignments = AccessControlRules { roleAssignments: None, ..test_rules("test") };
    let rules = AuthorizationRules::from_authorization_item(item("deny", "enforce", Some(no_assignments)));
    assert!(rules.rules.is_none());
    let rules = AuthorizationRules::from_authorization_item(item("deny", "enforce", None));
    assert!(rules.rules.is_none());
}

#[test]
fn disabled_allows_any_request() {
    let rules = AuthorizationRules::from_authorization_item(item("deny", "disabled", None));
    assert!(!rules.defaultAllowed);
    assert!(rules.is_allowed(0, &url("/anything"), &Claims::empty()));
    let rules = user_only_rules("deny", "disabled");
    assert!(rules.is_allowed(0, &url("/test/x"), &test_claims("someone")));
}

#[test]
fn enforce_match_and_mismatch() {
    let rules = user_only_rules("deny", "enforce");
    assert!(rules.is_allowed(0, &url("/test/test"), &test_claims("test")));
    assert!(rules.is_allowed(0, &url("/TEST/Test"), &test_claims("TEST")));
    assert!(!rules.is_allowed(0, &url("/test/test"), &test_claims("test1")));
}

#[test]
fn privilege_without_identity_denies_even_when_default_allows() {
    let rules = user_only_rules("allow", "enforce");
    assert!(rules.defaultAllowed);
    assert!(!rules.is_allowed(0, &url("/test/test"), &test_claims("test1")));
}

#[test]
fn no_privilege_falls_back_to_default() {
    let rules = user_only_rules("allow", "enforce");
    assert!(rules.is_allowed(0, &url("/other"), &test_claims("test1")));
    let rules = user_only_rules("deny", "enforce");
    assert!(!rules.is_allowed(0, &url("/other"), &test_claims("test")));
}

#[test]
fn audit_mode_passes_would_be_denials() {
    let rules = user_only_rules("deny", "audit");
    let claims = test_claims("test1");
    assert!(!rules.is_allowed(0, &url("/test/x"), &claims));
    let wire = Some(rules);
    let result = authorize("168.63.129.16", 1, &url("/test/x"), &claims, &wire, &None);
    assert!(matches!(result, AuthorizeResult::AllowedWithAudit));

    let enforce = Some(user_only_rules("deny", "enforce"));
    let result = authorize("168.63.129.16", 1, &url("/test/x"), &claims, &enforce, &None);
    assert!(matches!(result, AuthorizeResult::Forbidden));
    // the metadata service has no rules here, and other hosts have none at all
    let result = authorize("169.254.169.254", 1, &url("/test/x"), &claims, &enforce, &None);
    assert!(matches!(result, AuthorizeResult::Allowed));
    let result = authorize("10.0.0.1", 1, &url("/test/x"), &claims, &enforce, &enforce);
    assert!(matches!(result, AuthorizeResult::Allowed));
    let result = authorize("169.254.169.254", 1, &url("/test/x"), &claims, &None, &enforce);
    assert!(matches!(result, AuthorizeResult::Forbidden));
}

#[test]
fn identity_fields_match_by_any_claim() {
    let claims = test_claims("alice");
    let by_group = Identity {
        name: "g".to_string(),
        userName: None,
        groupName: Some("TEST".to_string()),
        exePath: None,
        processName: None,
    };
    assert!(by_group.is_match(0, &claims));
    let by_exe = Identity {
        name: "e".to_string(),
        userName: None,
        groupName: None,
        exePath: Some("TEST".to_string()),
        processName: None,
    };
    // the executable path is compared with its case
    assert!(!by_exe.is_match(0, &claims));
    let by_exe = Identity { exePath: Some("test".to_string()), ..by_exe };
    assert!(by_exe.is_match(0, &claims));
    let none = Identity {
        name: "n".to_string(),
        userName: None,
        groupName: None,
        exePath: None,
        processName: None,
    };
    assert!(!none.is_match(0, &claims));
}

#[test]
fn privilege_query_parameters_must_all_be_present() {
    let privilege = Privilege {
        name: "p".to_string(),
        path: "/metadata".to_string(),
        queryParameters: Some(vec![
            ("api-version".to_string(), "2021".to_string()),
            ("format".to_string(), "json".to_string()),
        ]),
    };
    assert!(privilege.is_match(0, &url("/metadata/instance?format=json&api-version=2021")));
    assert!(!privilege.is_match(0, &url("/metadata/instance?api-version=2021")));
    assert!(!privilege.is_match(0, &url("/metadata/instance")));
    assert!(!privilege.is_match(0, &url("/other?format=json&api-version=2021")));
    let plain = Privilege { queryParameters: None, ..privilege };
    assert!(plain.is_match(0, &url("/METADATA")));
    assert!(!plain.is_match(0, &url("/meta")));
}
