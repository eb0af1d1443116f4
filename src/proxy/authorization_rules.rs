//! The authorization engine: user rules compiled into flat, self-contained
//! rules, and the decision whether a request may pass.
use crate::key::{
    identity_matches, privilege_matches, url_query, AccessControlRules, AuthorizationItem,
    Identity, Privilege, PrivilegeView, RequestUrl, Role,
};
use crate::proxy::Claims;
use crate::text::{lower_of, same_text, to_lower};
use vstd::prelude::*;

verus! {

/// A role with its privileges and the identities it is granted to, resolved
/// by name.
#[allow(non_snake_case)]
pub struct Rule {
    pub roleName: String,
    pub privileges: Vec<Privilege>,
    pub identities: Vec<Identity>,
}

/// Compiled rules for one endpoint.
#[allow(non_snake_case)]
pub struct AuthorizationRules {
    /// Whether a request that no privilege covers is allowed.
    pub defaultAllowed: bool,
    /// One of `disabled`, `audit` or `enforce`.
    pub mode: String,
    pub rules: Option<Vec<Rule>>,
}

pub open spec fn privilege_views(ps: Seq<Privilege>) -> Seq<PrivilegeView> {
    ps.map_values(|p: Privilege| p@)
}

/// The privileges of `ps` named `name`, in order.
pub open spec fn named_privileges(ps: Seq<Privilege>, name: Seq<char>) -> Seq<PrivilegeView>
    decreases ps.len(),
{
    if ps.len() == 0 {
        seq![]
    } else {
        let prev = named_privileges(ps.drop_last(), name);
        if ps.last().name@ == name {
            prev.push(ps.last()@)
        } else {
            prev
        }
    }
}

/// For each of `names` in turn, the privileges of `ps` so named.
pub open spec fn privileges_for_names(names: Seq<String>, ps: Seq<Privilege>) -> Seq<PrivilegeView>
    decreases names.len(),
{
    if names.len() == 0 {
        seq![]
    } else {
        privileges_for_names(names.drop_last(), ps) + named_privileges(ps, names.last()@)
    }
}

/// For each of `roles` named `role` in turn, the privileges it names.
pub open spec fn privileges_for_role(roles: Seq<Role>, role: Seq<char>, ps: Seq<Privilege>) -> Seq<
    PrivilegeView,
>
    decreases roles.len(),
{
    if roles.len() == 0 {
        seq![]
    } else {
        privileges_for_role(roles.drop_last(), role, ps) + (if roles.last().name@ == role {
            privileges_for_names(roles.last().privileges@, ps)
        } else {
            seq![]
        })
    }
}

/// The privileges that the compiled rule for `role` holds.
pub open spec fn rule_privileges(acr: AccessControlRules, role: Seq<char>) -> Seq<PrivilegeView> {
    if acr.privileges is Some && acr.roles is Some {
        privileges_for_role(acr.roles->0@, role, acr.privileges->0@)
    } else {
        seq![]
    }
}

/// The identities of `is` named `name`, in order.
pub open spec fn named_identities(is: Seq<Identity>, name: Seq<char>) -> Seq<Identity>
    decreases is.len(),
{
    if is.len() == 0 {
        seq![]
    } else {
        let prev = named_identities(is.drop_last(), name);
        if is.last().name@ == name {
            prev.push(is.last())
        } else {
            prev
        }
    }
}

/// For each of `names` in turn, the identities of `is` so named.
pub open spec fn identities_for_names(names: Seq<String>, is: Seq<Identity>) -> Seq<Identity>
    decreases names.len(),
{
    if names.len() == 0 {
        seq![]
    } else {
        identities_for_names(names.drop_last(), is) + named_identities(is, names.last()@)
    }
}

/// The identities that the compiled rule for an assignment to `names` holds.
pub open spec fn rule_identities(acr: AccessControlRules, names: Seq<String>) -> Seq<Identity> {
    if acr.identities is Some {
        identities_for_names(names, acr.identities->0@)
    } else {
        seq![]
    }
}

fn push_named_privileges(ps: &Vec<Privilege>, name: &String, out: &mut Vec<Privilege>)
    ensures
        privilege_views(final(out)@) == privilege_views(old(out)@) + named_privileges(ps@, name@),
{
    let ghost start = privilege_views(out@);
    let mut i: usize = 0;
    while i < ps.len()
        invariant
            i <= ps@.len(),
            privilege_views(out@) == start + named_privileges(ps@.take(i as int), name@),
        decreases ps@.len() - i,
    {
        assert(ps@.take(i + 1).drop_last() == ps@.take(i as int));
        assert(ps@.take(i + 1).last() == ps@[i as int]);
        let ghost before = privilege_views(out@);
        if same_text(ps[i].name.as_str(), name.as_str()) {
            let p = ps[i].clone();
            out.push(p);
            assert(privilege_views(out@) =~= before.push(ps@[i as int]@));
        }
        i = i + 1;
        assert(privilege_views(out@) =~= start + named_privileges(ps@.take(i as int), name@));
    }
    assert(ps@.take(ps@.len() as int) == ps@);
}

fn push_privileges_for_names(names: &Vec<String>, ps: &Vec<Privilege>, out: &mut Vec<Privilege>)
    ensures
        privilege_views(final(out)@) == privilege_views(old(out)@) + privileges_for_names(
            names@,
            ps@,
        ),
{
    let ghost start = privilege_views(out@);
    let mut i: usize = 0;
    while i < names.len()
        invariant
            i <= names@.len(),
            privilege_views(out@) == start + privileges_for_names(names@.take(i as int), ps@),
        decreases names@.len() - i,
    {
        assert(names@.take(i + 1).drop_last() == names@.take(i as int));
        push_named_privileges(ps, &names[i], out);
        i = i + 1;
        assert(privilege_views(out@) =~= start + privileges_for_names(names@.take(i as int), ps@));
    }
    assert(names@.take(names@.len() as int) == names@);
}

fn privileges_of_role(roles: &Vec<Role>, role: &String, ps: &Vec<Privilege>) -> (r: Vec<Privilege>)
    ensures
        privilege_views(r@) == privileges_for_role(roles@, role@, ps@),
{
    let mut out: Vec<Privilege> = Vec::new();
    let mut i: usize = 0;
    assert(privilege_views(out@) =~= privileges_for_role(roles@.take(0), role@, ps@));
    while i < roles.len()
        invariant
            i <= roles@.len(),
            privilege_views(out@) == privileges_for_role(roles@.take(i as int), role@, ps@),
        decreases roles@.len() - i,
    {
        assert(roles@.take(i + 1).drop_last() == roles@.take(i as int));
        if same_text(roles[i].name.as_str(), role.as_str()) {
            push_privileges_for_names(&roles[i].privileges, ps, &mut out);
        }
        i = i + 1;
        assert(privilege_views(out@) =~= privileges_for_role(roles@.take(i as int), role@, ps@));
    }
    assert(roles@.take(roles@.len() as int) == roles@);
    out
}

fn push_named_identities(is: &Vec<Identity>, name: &String, out: &mut Vec<Identity>)
    ensures
        final(out)@ == old(out)@ + named_identities(is@, name@),
{
    let ghost start = out@;
    let mut i: usize = 0;
    while i < is.len()
        invariant
            i <= is@.len(),
            out@ == start + named_identities(is@.take(i as int), name@),
        decreases is@.len() - i,
    {
        assert(is@.take(i + 1).drop_last() == is@.take(i as int));
        if same_text(is[i].name.as_str(), name.as_str()) {
            out.push(is[i].clone());
        }
        i = i + 1;
        assert(out@ =~= start + named_identities(is@.take(i as int), name@));
    }
    assert(is@.take(is@.len() as int) == is@);
}

fn identities_of_names(names: &Vec<String>, is: &Vec<Identity>) -> (r: Vec<Identity>)
    ensures
        r@ == identities_for_names(names@, is@),
{
    let mut out: Vec<Identity> = Vec::new();
    let mut i: usize = 0;
    assert(out@ =~= identities_for_names(names@.take(0), is@));
    while i < names.len()
        invariant
            i <= names@.len(),
            out@ == identities_for_names(names@.take(i as int), is@),
        decreases names@.len() - i,
    {
        assert(names@.take(i + 1).drop_last() == names@.take(i as int));
        push_named_identities(is, &names[i], &mut out);
        i = i + 1;
    }
    assert(names@.take(names@.len() as int) == names@);
    out
}

/// What the rule compiled from `acr` for its `k`-th role assignment holds.
pub open spec fn compiled_rule(rule: Rule, acr: AccessControlRules, k: int) -> bool {
    let ra = acr.roleAssignments->0@[k];
    &&& rule.roleName@ == ra.role@
    &&& privilege_views(rule.privileges@) == rule_privileges(acr, ra.role@)
    &&& rule.identities@ == rule_identities(acr, ra.identities@)
}

/// Whether some privilege of `rule` covers a request with `path` and `query`.
pub open spec fn rule_privilege_matches(rule: Rule, path: Seq<char>, query: Option<Seq<char>>) -> bool {
    exists|i: int|
        0 <= i < rule.privileges@.len() && privilege_matches(
            #[trigger] rule.privileges@[i]@,
            path,
            query,
        )
}

/// Whether some identity of `rule` matches the caller `c`.
pub open spec fn rule_identity_matches(rule: Rule, c: Claims) -> bool {
    exists|i: int| 0 <= i < rule.identities@.len() && identity_matches(#[trigger] rule.identities@[i], c)
}

/// Whether `rule` lets the caller `c` make a request with `path` and
/// `query`: one of its privileges covers the request and one of its
/// identities matches the caller.
pub open spec fn rule_grants(rule: Rule, path: Seq<char>, query: Option<Seq<char>>, c: Claims) -> bool {
    rule_privilege_matches(rule, path, query) && rule_identity_matches(rule, c)
}

/// Whether some rule of `rules` grants the request.
pub open spec fn some_rule_grants(rules: AuthorizationRules, path: Seq<char>, query: Option<Seq<char>>, c: Claims) -> bool {
    rules.rules is Some && exists|j: int|
        0 <= j < rules.rules->0@.len() && rule_grants(#[trigger] rules.rules->0@[j], path, query, c)
}

/// Whether a privilege of some rule of `rules` covers the request.
pub open spec fn some_privilege_matches(rules: AuthorizationRules, path: Seq<char>, query: Option<Seq<char>>) -> bool {
    rules.rules is Some && exists|j: int|
        0 <= j < rules.rules->0@.len() && rule_privilege_matches(#[trigger] rules.rules->0@[j], path, query)
}

/// The engine's verdict on a request with `path` and `query` from the caller
/// `c`: allowed when the rules are disabled or some rule grants it; denied
/// when a privilege covers it but no identity of such a rule matches;
/// otherwise the default access.
pub open spec fn allowed(rules: AuthorizationRules, path: Seq<char>, query: Option<Seq<char>>, c: Claims) -> bool {
    if rules.mode@ == "disabled"@ {
        true
    } else if some_rule_grants(rules, path, query, c) {
        true
    } else if some_privilege_matches(rules, path, query) {
        false
    } else {
        rules.defaultAllowed
    }
}

fn any_privilege_matches(rule: &Rule, connection_id: u128, url: &RequestUrl) -> (r: bool)
    ensures
        r == rule_privilege_matches(*rule, url.path@, url_query(url)),
{
    let mut i: usize = 0;
    while i < rule.privileges.len()
        invariant
            i <= rule.privileges@.len(),
            forall|k: int|
                0 <= k < i ==> !privilege_matches(
                    #[trigger] rule.privileges@[k]@,
                    url.path@,
                    url_query(url),
                ),
        decreases rule.privileges@.len() - i,
    {
        if rule.privileges[i].is_match(connection_id, url) {
            return true;
        }
        i = i + 1;
    }
    false
}

fn any_identity_matches(rule: &Rule, connection_id: u128, claims: &Claims) -> (r: bool)
    ensures
        r == rule_identity_matches(*rule, *claims),
{
    let mut i: usize = 0;
    while i < rule.identities.len()
        invariant
            i <= rule.identities@.len(),
            forall|k: int| 0 <= k < i ==> !identity_matches(#[trigger] rule.identities@[k], *claims),
        decreases rule.identities@.len() - i,
    {
        if rule.identities[i].is_match(connection_id, claims) {
            return true;
        }
        i = i + 1;
    }
    false
}

impl AuthorizationRules {
    /// Compiles the user's authorization settings: default access and mode
    /// are lowered; each role assignment becomes one rule, holding the
    /// privileges its role names and the identities it names. Names that
    /// resolve to nothing are dropped.
    pub fn from_authorization_item(authorization_item: AuthorizationItem) -> (r: AuthorizationRules)
        ensures
            r.defaultAllowed == (lower_of(authorization_item.defaultAccess@) == "allow"@),
            r.mode@ == lower_of(authorization_item.mode@),
            r.rules is Some <==> (authorization_item.rules is Some
                && authorization_item.rules->0.roleAssignments is Some),
            r.rules is Some ==> r.rules->0@.len()
                == authorization_item.rules->0.roleAssignments->0@.len(),
            r.rules is Some ==> forall|k: int|
                0 <= k < r.rules->0@.len() ==> compiled_rule(
                    #[trigger] r.rules->0@[k],
                    authorization_item.rules->0,
                    k,
                ),
    {
        let rules = match &authorization_item.rules {
            Some(acr) => match &acr.roleAssignments {
                Some(role_assignments) => {
                    let mut rules: Vec<Rule> = Vec::new();
                    let mut k: usize = 0;
                    while k < role_assignments.len()
                        invariant
                            authorization_item.rules == Some(*acr),
                            acr.roleAssignments == Some(*role_assignments),
                            k <= role_assignments@.len(),
                            rules@.len() == k,
                            forall|m: int| 0 <= m < k ==> compiled_rule(#[trigger] rules@[m], *acr, m),
                        decreases role_assignments@.len() - k,
                    {
                        let role_assignment = &role_assignments[k];
                        let role_name = role_assignment.role.clone();
                        let privileges = match (&acr.privileges, &acr.roles) {
                            (Some(input_privileges), Some(roles)) => privileges_of_role(
                                roles,
                                &role_name,
                                input_privileges,
                            ),
                            _ => Vec::new(),
                        };
                        assert(privilege_views(privileges@) =~= rule_privileges(*acr, role_name@));
                        let identities = match &acr.identities {
                            Some(input_identities) => identities_of_names(
                                &role_assignment.identities,
                                input_identities,
                            ),
                            None => Vec::new(),
                        };
                        assert(identities@ =~= rule_identities(*acr, role_assignment.identities@));
                        rules.push(Rule { roleName: role_name, privileges, identities });
                        k = k + 1;
                    }
                    Some(rules)
                },
                None => None,
            },
            None => None,
        };
        let default_access = to_lower(authorization_item.defaultAccess.as_str());
        let mode = to_lower(authorization_item.mode.as_str());
        AuthorizationRules {
            defaultAllowed: same_text(default_access.as_str(), "allow"),
            mode,
            rules,
        }
    }

    /// Whether the caller described by `claims` may make a request to `url`.
    /// In `disabled` mode every request is allowed; otherwise the first rule
    /// with a privilege covering the request and an identity matching the
    /// caller allows it; a request that some privilege covers but no such
    /// rule allows is denied; any other request gets the default access.
    pub fn is_allowed(&self, connection_id: u128, url: &RequestUrl, claims: &Claims) -> (r: bool)
        ensures
            r == allowed(*self, url.path@, url_query(url), *claims),
            self.mode@ == "disabled"@ ==> r,
    {
        if same_text(self.mode.as_str(), "disabled") {
            return true;
        }
        if let Some(rules) = &self.rules {
            let mut role_privilege_matched = false;
            let mut j: usize = 0;
            while j < rules.len()
                invariant
                    self.rules == Some(*rules),
                    self.mode@ != "disabled"@,
                    j <= rules@.len(),
                    forall|m: int|
                        0 <= m < j ==> !rule_grants(#[trigger] rules@[m], url.path@, url_query(url), *claims),
                    role_privilege_matched == exists|m: int|
                        0 <= m < j && rule_privilege_matches(#[trigger] rules@[m], url.path@, url_query(url)),
                decreases rules@.len() - j,
            {
                if any_privilege_matches(&rules[j], connection_id, url) {
                    role_privilege_matched = true;
                    if any_identity_matches(&rules[j], connection_id, claims) {
                        assert(rule_grants(rules@[j as int], url.path@, url_query(url), *claims));
                        return true;
                    }
                }
                j = j + 1;
            }
            if role_privilege_matched {
                return false;
            }
        }
        self.defaultAllowed
    }
}

/// A request that some privilege covers, from a caller that no identity of
/// the rules matches, is denied whatever the default access, unless the
/// rules are disabled.
pub proof fn lemma_privilege_without_identity_denies(
    rules: AuthorizationRules,
    path: Seq<char>,
    query: Option<Seq<char>>,
    c: Claims,
)
    requires
        rules.mode@ != "disabled"@,
        some_privilege_matches(rules, path, query),
        forall|j: int, k: int|
            0 <= j < rules.rules->0@.len() && 0 <= k < rules.rules->0@[j].identities@.len()
                ==> !identity_matches(#[trigger] rules.rules->0@[j].identities@[k], c),
    ensures
        !allowed(rules, path, query, c),
{
    assert forall|j: int| 0 <= j < rules.rules->0@.len() implies !rule_grants(
        #[trigger] rules.rules->0@[j],
        path,
        query,
        c,
    ) by {
        assert forall|k: int| 0 <= k < rules.rules->0@[j].identities@.len() implies !identity_matches(
            #[trigger] rules.rules->0@[j].identities@[k],
            c,
        ) by {}
    }
}

/// A request that no privilege covers gets the default access, unless the
/// rules are disabled.
pub proof fn lemma_no_privilege_falls_back_to_default(
    rules: AuthorizationRules,
    path: Seq<char>,
    query: Option<Seq<char>>,
    c: Claims,
)
    requires
        rules.mode@ != "disabled"@,
        !some_privilege_matches(rules, path, query),
    ensures
        allowed(rules, path, query, c) == rules.defaultAllowed,
{
    if some_rule_grants(rules, path, query, c) {
        let j = choose|j: int|
            0 <= j < rules.rules->0@.len() && rule_grants(#[trigger] rules.rules->0@[j], path, query, c);
        assert(rule_privilege_matches(rules.rules->0@[j], path, query));
    }
}

/// Disabled rules allow every request.
pub proof fn lemma_disabled_allows_all(
    rules: AuthorizationRules,
    path: Seq<char>,
    query: Option<Seq<char>>,
    c: Claims,
)
    requires
        rules.mode@ == "disabled"@,
    ensures
        allowed(rules, path, query, c),
{
}

} // verus!
