//! What the key keeper hands over: the signing key and the user's access
//! control rules, and how a privilege or an identity of those rules matches.
use crate::proxy::Claims;
use crate::text::{lower_of, same_text, split, split_seq, starts_with, to_lower};
use vstd::prelude::*;

verus! {

/// The signing key handed out by the key keeper.
#[allow(non_snake_case)]
pub struct Key {
    pub guid: String,
    pub key: String,
    pub incarnationId: Option<u32>,
}

impl Clone for Key {
    fn clone(&self) -> (r: Key)
        ensures
            r == *self,
    {
        Key { guid: self.guid.clone(), key: self.key.clone(), incarnationId: self.incarnationId }
    }
}

/// The target of a request as the authorization engine reads it: its path,
/// and its query (the text after `?`) if it has one.
pub struct RequestUrl {
    pub path: String,
    pub query: Option<String>,
}

/// A URL-scoped permission: a path prefix and, optionally, query parameters
/// that must all be present.
#[allow(non_snake_case)]
pub struct Privilege {
    pub name: String,
    pub path: String,
    pub queryParameters: Option<Vec<(String, String)>>,
}

/// What a `Privilege` holds, as plain values.
pub ghost struct PrivilegeView {
    pub name: Seq<char>,
    pub path: Seq<char>,
    pub query_parameters: Option<Seq<(Seq<char>, Seq<char>)>>,
}

pub open spec fn pairs_view(v: Seq<(String, String)>) -> Seq<(Seq<char>, Seq<char>)> {
    v.map_values(|p: (String, String)| (p.0@, p.1@))
}

impl View for Privilege {
    type V = PrivilegeView;

    open spec fn view(&self) -> PrivilegeView {
        PrivilegeView {
            name: self.name@,
            path: self.path@,
            query_parameters: match self.queryParameters {
                Some(q) => Some(pairs_view(q@)),
                None => None,
            },
        }
    }
}

fn copy_pairs(v: &Vec<(String, String)>) -> (r: Vec<(String, String)>)
    ensures
        pairs_view(r@) == pairs_view(v@),
{
    let mut r: Vec<(String, String)> = Vec::new();
    let mut i: usize = 0;
    while i < v.len()
        invariant
            i <= v@.len(),
            r@.len() == i,
            forall|j: int| 0 <= j < i ==> (#[trigger] r@[j]).0@ == v@[j].0@ && r@[j].1@ == v@[j].1@,
        decreases v@.len() - i,
    {
        let pair = (v[i].0.clone(), v[i].1.clone());
        r.push(pair);
        i = i + 1;
    }
    assert(pairs_view(r@) =~= pairs_view(v@));
    r
}

impl Clone for Privilege {
    fn clone(&self) -> (r: Privilege)
        ensures
            r@ == self@,
    {
        let query = match &self.queryParameters {
            Some(q) => Some(copy_pairs(q)),
            None => None,
        };
        Privilege { name: self.name.clone(), path: self.path.clone(), queryParameters: query }
    }
}

/// A predicate over the caller: it holds when any of the fields it sets
/// matches the corresponding claim.
#[allow(non_snake_case)]
pub struct Identity {
    pub name: String,
    pub userName: Option<String>,
    pub groupName: Option<String>,
    pub exePath: Option<String>,
    pub processName: Option<String>,
}

fn copy_optional(s: &Option<String>) -> (r: Option<String>)
    ensures
        r == *s,
{
    match s {
        Some(t) => Some(t.clone()),
        None => None,
    }
}

impl Clone for Identity {
    fn clone(&self) -> (r: Identity)
        ensures
            r == *self,
    {
        Identity {
            name: self.name.clone(),
            userName: copy_optional(&self.userName),
            groupName: copy_optional(&self.groupName),
            exePath: copy_optional(&self.exePath),
            processName: copy_optional(&self.processName),
        }
    }
}

/// A named set of privileges, by privilege name.
pub struct Role {
    pub name: String,
    pub privileges: Vec<String>,
}

/// Grants a role to identities, both by name.
pub struct RoleAssignment {
    pub role: String,
    pub identities: Vec<String>,
}

/// The user's access control rules, with cross references by name.
#[allow(non_snake_case)]
pub struct AccessControlRules {
    pub roles: Option<Vec<Role>>,
    pub privileges: Option<Vec<Privilege>>,
    pub identities: Option<Vec<Identity>>,
    pub roleAssignments: Option<Vec<RoleAssignment>>,
}

/// The authorization settings for one endpoint.
#[allow(non_snake_case)]
pub struct AuthorizationItem {
    pub defaultAccess: String,
    pub mode: String,
    pub rules: Option<AccessControlRules>,
    pub id: String,
}

/// Whether `segment` of a query carries the parameter `name` with `value`,
/// that is reads `name=value`.
pub open spec fn segment_carries(segment: Seq<char>, name: Seq<char>, value: Seq<char>) -> bool {
    segment == name + seq!['='] + value
}

/// Whether the `i`-th `&`-separated segment of `query` reads `name=value`.
pub open spec fn carries_at(query: Seq<char>, i: int, name: Seq<char>, value: Seq<char>) -> bool {
    0 <= i < split_seq(query, '&').len() && segment_carries(split_seq(query, '&')[i], name, value)
}

/// Whether a query (the text after `?`) carries the parameter `name` with
/// `value` in one of its `&`-separated segments.
pub open spec fn query_carries(query: Option<Seq<char>>, name: Seq<char>, value: Seq<char>) -> bool {
    query is Some && exists|i: int| #[trigger] carries_at(query->0, i, name, value)
}

/// Whether the `j`-th of `params` is present in `query`.
pub open spec fn param_present(
    query: Option<Seq<char>>,
    params: Seq<(Seq<char>, Seq<char>)>,
    j: int,
) -> bool {
    query_carries(query, params[j].0, params[j].1)
}

/// Whether the privilege `p` covers a request with `path` and `query`: the
/// path begins with the privilege's path, compared case-insensitively, and
/// every query parameter the privilege lists is present.
pub open spec fn privilege_matches(p: PrivilegeView, path: Seq<char>, query: Option<Seq<char>>) -> bool {
    &&& lower_of(p.path).is_prefix_of(lower_of(path))
    &&& p.query_parameters is Some ==> forall|j: int|
        0 <= j < p.query_parameters->0.len() ==> #[trigger] param_present(
            query,
            p.query_parameters->0,
            j,
        )
}

/// The text of an optional string.
pub open spec fn opt_text(o: Option<String>) -> Option<Seq<char>> {
    match o {
        Some(s) => Some(s@),
        None => None,
    }
}

pub open spec fn url_query(url: &RequestUrl) -> Option<Seq<char>> {
    opt_text(url.query)
}

/// Whether `name` names one of `groups`, compared case-insensitively.
pub open spec fn in_groups(name: Seq<char>, groups: Seq<String>) -> bool {
    exists|k: int| 0 <= k < groups.len() && lower_of(name) == lower_of(#[trigger] groups[k]@)
}

/// Whether the identity `i` matches the caller `c`: any field it sets equals
/// the corresponding claim, compared case-insensitively except for the
/// executable path.
pub open spec fn identity_matches(i: Identity, c: Claims) -> bool {
    ||| (i.userName is Some && lower_of(i.userName->0@) == lower_of(c.userName@))
    ||| (i.groupName is Some && in_groups(i.groupName->0@, c.userGroups@))
    ||| (i.processName is Some && lower_of(i.processName->0@) == lower_of(c.processName@))
    ||| (i.exePath is Some && i.exePath->0@ == c.processFullPath@)
}

fn query_has(query: &Option<String>, name: &String, value: &String) -> (r: bool)
    ensures
        r == query_carries(opt_text(*query), name@, value@),
{
    match query {
        None => false,
        Some(q) => {
            let mut wanted = name.clone();
            wanted.append("=");
            wanted.append(value.as_str());
            proof {
                reveal_strlit("=");
            }
            let segments = split(q.as_str(), '&');
            let ghost views = segments@.map_values(|s: String| s@);
            let mut i: usize = 0;
            while i < segments.len()
                invariant
                    views == segments@.map_values(|s: String| s@),
                    views == split_seq(q@, '&'),
                    opt_text(*query) == Some(q@),
                    wanted@ == name@ + seq!['='] + value@,
                    i <= segments@.len(),
                    forall|j: int| 0 <= j < i ==> !segment_carries(#[trigger] views[j], name@, value@),
                    forall|j: int| 0 <= j < i ==> !#[trigger] carries_at(q@, j, name@, value@),
                decreases segments@.len() - i,
            {
                assert(views[i as int] == segments@[i as int]@);
                if same_text(segments[i].as_str(), wanted.as_str()) {
                    assert(carries_at(q@, i as int, name@, value@));
                    assert(opt_text(*query) == Some(q@));
                    assert(opt_text(*query)->0 == q@);
                    assert(carries_at(opt_text(*query)->0, i as int, name@, value@));
                    assert(query_carries(opt_text(*query), name@, value@));
                    return true;
                }
                i = i + 1;
            }
            assert(opt_text(*query) == Some(q@));
            false
        },
    }
}

impl Privilege {
    /// Whether this privilege covers the request target `url`.
    pub fn is_match(&self, connection_id: u128, url: &RequestUrl) -> (r: bool)
        ensures
            r == privilege_matches(self@, url.path@, url_query(url)),
    {
        let path = to_lower(url.path.as_str());
        let prefix = to_lower(self.path.as_str());
        if !starts_with(path.as_str(), prefix.as_str()) {
            return false;
        }
        match &self.queryParameters {
            None => true,
            Some(params) => {
                let mut j: usize = 0;
                while j < params.len()
                    invariant
                        self.queryParameters == Some(*params),
                        lower_of(self.path@).is_prefix_of(lower_of(url.path@)),
                        j <= params@.len(),
                        forall|k: int|
                            0 <= k < j ==> #[trigger] param_present(url_query(url), pairs_view(params@), k),
                    decreases params@.len() - j,
                {
                    assert(pairs_view(params@)[j as int] == (params@[j as int].0@, params@[j as int].1@));
                    if !query_has(&url.query, &params[j].0, &params[j].1) {
                        assert(!param_present(url_query(url), pairs_view(params@), j as int));
                        assert(self@.query_parameters == Some(pairs_view(params@)));
                        assert(j < pairs_view(params@).len());
                        assert(self@.query_parameters->0.len() == params@.len());
                        assert(!privilege_matches(self@, url.path@, url_query(url)));
                        return false;
                    }
                    j = j + 1;
                }
                assert(self@.query_parameters == Some(pairs_view(params@)));
                true
            },
        }
    }
}

fn lower_equal(a: &str, b: &str) -> (r: bool)
    ensures
        r == (lower_of(a@) == lower_of(b@)),
{
    let la = to_lower(a);
    let lb = to_lower(b);
    same_text(la.as_str(), lb.as_str())
}

impl Identity {
    /// Whether this identity matches the caller described by `claims`.
    pub fn is_match(&self, connection_id: u128, claims: &Claims) -> (r: bool)
        ensures
            r == identity_matches(*self, *claims),
    {
        if let Some(user_name) = &self.userName {
            if lower_equal(user_name.as_str(), claims.userName.as_str()) {
                return true;
            }
        }
        if let Some(group_name) = &self.groupName {
            let mut k: usize = 0;
            while k < claims.userGroups.len()
                invariant
                    self.groupName == Some(*group_name),
                    k <= claims.userGroups@.len(),
                    forall|m: int|
                        0 <= m < k ==> lower_of(group_name@) != lower_of(
                            #[trigger] claims.userGroups@[m]@,
                        ),
                decreases claims.userGroups@.len() - k,
            {
                if lower_equal(group_name.as_str(), claims.userGroups[k].as_str()) {
                    return true;
                }
                k = k + 1;
            }
        }
        if let Some(process_name) = &self.processName {
            if lower_equal(process_name.as_str(), claims.processName.as_str()) {
                return true;
            }
        }
        if let Some(exe_path) = &self.exePath {
            if same_text(exe_path.as_str(), claims.processFullPath.as_str()) {
                return true;
            }
        }
        false
    }
}

} // verus!
