//! Who is calling: the identity resolved for a redirected flow, and the claims
//! assembled from it.
use crate::redirector::AuditEntry;
use std::collections::HashMap;
use vstd::prelude::*;

pub mod authorization_rules;
pub mod proxy_authorizer;
pub mod proxy_server;
pub mod signing;

verus! {

/// Value of a claim field when the caller is not known at all.
pub const EMPTY: &'static str = "empty";

/// Value of a claim field when looking it up failed.
pub const UNDEFINED: &'static str = "undefined";

/// A copy of `v` holding the same strings.
pub(crate) fn copy_strings(v: &Vec<String>) -> (r: Vec<String>)
    ensures
        r@ == v@,
{
    let mut r: Vec<String> = Vec::new();
    let mut i: usize = 0;
    while i < v.len()
        invariant
            i <= v@.len(),
            r@ == v@.take(i as int),
        decreases v@.len() - i,
    {
        r.push(v[i].clone());
        assert(v@.take(i + 1) == v@.take(i as int).push(v@[i as int]));
        i = i + 1;
    }
    assert(v@.take(v@.len() as int) == v@);
    r
}

/// The resolved identity of a caller.
#[allow(non_snake_case)]
pub struct Claims {
    pub userId: u64,
    pub userName: String,
    pub userGroups: Vec<String>,
    pub processId: u32,
    pub processName: String,
    pub processFullPath: String,
    pub processCmdLine: String,
    pub runAsElevated: bool,
    pub clientIp: String,
}

/// Whether two claims records hold the same values.
pub open spec fn same_claims(a: Claims, b: Claims) -> bool {
    &&& a.userId == b.userId
    &&& a.userName@ == b.userName@
    &&& a.userGroups@.map_values(|g: String| g@) == b.userGroups@.map_values(|g: String| g@)
    &&& a.processId == b.processId
    &&& a.processName@ == b.processName@
    &&& a.processFullPath@ == b.processFullPath@
    &&& a.processCmdLine@ == b.processCmdLine@
    &&& a.runAsElevated == b.runAsElevated
    &&& a.clientIp@ == b.clientIp@
}

impl Clone for Claims {
    fn clone(&self) -> (r: Claims)
        ensures
            same_claims(r, *self),
    {
        Claims {
            userId: self.userId,
            userName: self.userName.clone(),
            userGroups: copy_strings(&self.userGroups),
            processId: self.processId,
            processName: self.processName.clone(),
            processFullPath: self.processFullPath.clone(),
            processCmdLine: self.processCmdLine.clone(),
            runAsElevated: self.runAsElevated,
            clientIp: self.clientIp.clone(),
        }
    }
}

impl Claims {
    /// Claims of an unknown caller: every text field `empty`, numbers zero,
    /// no groups, not elevated.
    pub fn empty() -> (r: Claims)
        ensures
            r.userId == 0,
            r.userName@ == EMPTY@,
            r.userGroups@.len() == 0,
            r.processId == 0,
            r.processName@ == EMPTY@,
            r.processFullPath@ == EMPTY@,
            r.processCmdLine@ == EMPTY@,
            !r.runAsElevated,
            r.clientIp@ == EMPTY@,
    {
        Claims {
            userId: 0,
            userName: String::from_str(EMPTY),
            userGroups: Vec::new(),
            processId: 0,
            processName: String::from_str(EMPTY),
            processFullPath: String::from_str(EMPTY),
            processCmdLine: String::from_str(EMPTY),
            runAsElevated: false,
            clientIp: String::from_str(EMPTY),
        }
    }

    /// Assembles the claims of the caller behind `entry`, connecting from
    /// `client_ip`, whose user and process have been resolved.
    pub fn from_audit_entry(entry: &AuditEntry, client_ip: &str, user: &User, process: &Process) -> (r: Claims)
        ensures
            r.userId == entry.logon_id,
            r.userName@ == user.user_name@,
            r.userGroups@.map_values(|g: String| g@) == user.user_groups@.map_values(|g: String| g@),
            r.processId == process.pid,
            r.processName@ == process.name@,
            r.processFullPath@ == process.exe_full_name@,
            r.processCmdLine@ == process.command_line@,
            r.runAsElevated == (entry.is_admin == 1),
            r.clientIp@ == client_ip@,
    {
        Claims {
            userId: entry.logon_id,
            userName: user.user_name.clone(),
            userGroups: copy_strings(&user.user_groups),
            processId: process.pid,
            processName: process.name.clone(),
            processFullPath: process.exe_full_name.clone(),
            processCmdLine: process.command_line.clone(),
            runAsElevated: entry.is_admin == 1,
            clientIp: String::from_str(client_ip),
        }
    }
}

/// A user resolved from a logon id.
pub struct User {
    pub logon_id: u64,
    pub user_name: String,
    pub user_groups: Vec<String>,
}

/// Whether two user records hold the same values.
pub open spec fn same_user(a: User, b: User) -> bool {
    &&& a.logon_id == b.logon_id
    &&& a.user_name@ == b.user_name@
    &&& a.user_groups@ == b.user_groups@
}

impl Clone for User {
    fn clone(&self) -> (r: User)
        ensures
            same_user(r, *self),
    {
        User {
            logon_id: self.logon_id,
            user_name: self.user_name.clone(),
            user_groups: copy_strings(&self.user_groups),
        }
    }
}

/// A process resolved from a process id.
pub struct Process {
    pub command_line: String,
    pub name: String,
    pub exe_full_name: String,
    pub pid: u32,
}

/// What `Path::file_name` gives for the path `path`, as text (empty when it
/// gives none).
pub uninterp spec fn file_name_of(path: Seq<char>) -> Seq<char>;

/// Relies on `std::path::Path::file_name`: the last component of the path,
/// none when the path ends in `..`; the result depends on the text alone.
#[verifier::external_body]
fn path_file_name(path: &str) -> (r: String)
    ensures
        r@ == file_name_of(path@),
{
    std::path::Path::new(path).file_name().unwrap_or_default().to_string_lossy().to_string()
}

impl Process {
    /// A process record for `pid` with its executable path and command
    /// line; its name is the file name of the executable path.
    pub fn new(pid: u32, exe_full_name: String, command_line: String) -> (r: Process)
        ensures
            r.pid == pid,
            r.exe_full_name@ == exe_full_name@,
            r.command_line@ == command_line@,
            r.name@ == file_name_of(exe_full_name@),
    {
        let name = path_file_name(exe_full_name.as_str());
        Process { command_line, name, exe_full_name, pid }
    }
}

/// Users already resolved, by logon id. Only successful resolutions are
/// stored; a second insertion for the same id replaces the first.
pub struct UserCache {
    users: HashMap<u64, User>,
}

impl View for UserCache {
    type V = Map<u64, User>;

    closed spec fn view(&self) -> Map<u64, User> {
        self.users@
    }
}

impl UserCache {
    /// An empty cache.
    pub fn new() -> (r: UserCache)
        ensures
            r@ == Map::<u64, User>::empty(),
    {
        UserCache { users: HashMap::new() }
    }

    /// The cached user for `logon_id`, if there is one.
    pub fn get_user(&self, logon_id: u64) -> (r: Option<User>)
        ensures
            r is Some <==> self@.contains_key(logon_id),
            r is Some ==> same_user(r->0, self@[logon_id]),
    {
        broadcast use vstd::std_specs::hash::group_hash_axioms;

        match self.users.get(&logon_id) {
            Some(u) => Some(u.clone()),
            None => None,
        }
    }

    /// Caches `user` under its logon id.
    pub fn add_user(&mut self, user: User)
        ensures
            final(self)@ == old(self)@.insert(user.logon_id, user),
    {
        broadcast use vstd::std_specs::hash::group_hash_axioms;

        self.users.insert(user.logon_id, user);
    }

    /// How many users are cached.
    pub fn len(&self) -> (r: usize)
        ensures
            r == self@.len(),
    {
        broadcast use vstd::std_specs::hash::group_hash_axioms;

        self.users.len()
    }
}

} // verus!
