//! The audit side of the kernel redirection: the record the kernel keeps for
//! each redirected flow, the table that maps a flow's source port to it, and
//! the text form of IPv4 addresses.
use crate::status::{ModuleState, ProxyAgentDetailStatus};
use crate::text::{lemma_split_append, lemma_split_without_sep, split, split_seq};
use std::collections::HashMap;
use vstd::prelude::*;

verus! {

/// The record the kernel writes for a redirected flow. Address and port hold
/// the original destination in network byte order.
pub struct AuditEntry {
    pub logon_id: u64,
    pub process_id: u32,
    pub is_admin: i32,
    pub destination_ipv4: u32,
    pub destination_port: u16,
}

/// `x` with its two bytes exchanged.
pub open spec fn swap_bytes_u16(x: u16) -> u16 {
    ((x % 256) * 256 + x / 256) as u16
}

/// `x` with its four bytes in reverse order.
pub open spec fn swap_bytes_u32(x: u32) -> u32 {
    ((x % 256) * 16777216 + ((x / 256) % 256) * 65536 + ((x / 65536) % 256) * 256 + x
        / 16777216) as u32
}

/// Relies on `u16::from_be`: the identity on a big-endian host, a byte swap on
/// a little-endian one.
#[verifier::external_body]
fn u16_from_network_order(x: u16) -> (r: u16)
    ensures
        r == x || r == swap_bytes_u16(x),
{
    u16::from_be(x)
}

/// Relies on `u32::from_le`: the identity on a little-endian host, a byte swap
/// on a big-endian one.
#[verifier::external_body]
fn u32_from_little_endian(x: u32) -> (r: u32)
    ensures
        r == x || r == swap_bytes_u32(x),
{
    u32::from_le(x)
}

impl AuditEntry {
    /// A record with every field zero.
    pub fn empty() -> (r: AuditEntry)
        ensures
            r.logon_id == 0,
            r.process_id == 0,
            r.is_admin == 0,
            r.destination_ipv4 == 0,
            r.destination_port == 0,
    {
        AuditEntry { logon_id: 0, process_id: 0, is_admin: 0, destination_ipv4: 0, destination_port: 0 }
    }

    /// The destination port in the host's byte order: the field itself on a
    /// big-endian host, its bytes exchanged on a little-endian one.
    pub fn destination_port_in_host_byte_order(&self) -> (r: u16)
        ensures
            r == self.destination_port || r == swap_bytes_u16(self.destination_port),
    {
        u16_from_network_order(self.destination_port)
    }

    /// The destination address as dotted text, its octets in the order in
    /// which the field's bytes lie in memory (the lowest byte first on a
    /// little-endian host).
    pub fn destination_ipv4_addr(&self) -> (r: String)
        ensures
            r@ == ip_text(self.destination_ipv4) || r@ == ip_text(
                swap_bytes_u32(self.destination_ipv4),
            ),
    {
        ip_to_string(u32_from_little_endian(self.destination_ipv4))
    }
}

/// The character for the decimal digit `d`.
pub open spec fn digit_char(d: nat) -> char {
    if d == 0 {
        '0'
    } else if d == 1 {
        '1'
    } else if d == 2 {
        '2'
    } else if d == 3 {
        '3'
    } else if d == 4 {
        '4'
    } else if d == 5 {
        '5'
    } else if d == 6 {
        '6'
    } else if d == 7 {
        '7'
    } else if d == 8 {
        '8'
    } else {
        '9'
    }
}

/// `n` in decimal, without leading zeros.
pub open spec fn decimal(n: nat) -> Seq<char>
    decreases n,
{
    if n < 10 {
        seq![digit_char(n)]
    } else {
        decimal(n / 10).push(digit_char(n % 10))
    }
}

pub open spec fn is_digit(c: char) -> bool {
    '0' <= c && c <= '9'
}

/// The value of a run of decimal digits.
pub open spec fn digits_value(s: Seq<char>) -> nat
    decreases s.len(),
{
    if s.len() == 0 {
        0
    } else {
        digits_value(s.drop_last()) * 10 + ((s.last() as int - '0' as int) as nat)
    }
}

/// What `str::parse::<u8>` accepts: an optional `+`, then one or more ASCII
/// digits whose value is at most 255.
pub open spec fn parse_u8_spec(s: Seq<char>) -> Option<u8> {
    let d = if s.len() > 0 && s[0] == '+' {
        s.drop_first()
    } else {
        s
    };
    if d.len() > 0 && (forall|i: int| 0 <= i < d.len() ==> is_digit(#[trigger] d[i]))
        && digits_value(d) <= 255 {
        Some(digits_value(d) as u8)
    } else {
        None
    }
}

/// Relies on `u32`'s `Display`: decimal digits without sign or leading
/// zeros.
#[verifier::external_body]
pub(crate) fn decimal_text(n: u32) -> (r: String)
    ensures
        r@ == decimal(n as nat),
{
    n.to_string()
}

/// Relies on `str::parse::<u8>`, whose accepted forms its documentation
/// gives: an optional `+` followed by digits only.
#[verifier::external_body]
fn parse_u8(s: &str) -> (r: Option<u8>)
    ensures
        r == parse_u8_spec(s@),
{
    s.parse::<u8>().ok()
}

/// The four octets of `ip`, lowest byte first.
pub open spec fn octets(ip: u32) -> Seq<nat> {
    seq![
        (ip % 256) as nat,
        ((ip / 256) % 256) as nat,
        ((ip / 65536) % 256) as nat,
        (ip / 16777216) as nat,
    ]
}

/// Dotted text of `ip`, its lowest byte first.
pub open spec fn ip_text(ip: u32) -> Seq<char> {
    let o = octets(ip);
    decimal(o[0]) + seq!['.'] + decimal(o[1]) + seq!['.'] + decimal(o[2]) + seq!['.']
        + decimal(o[3])
}

/// The address that dotted text stands for, its first segment the lowest
/// byte; zero unless the text has exactly four segments that each parse as a
/// `u8`.
pub open spec fn ip_value(s: Seq<char>) -> u32 {
    let segs = split_seq(s, '.');
    if segs.len() == 4 && (forall|i: int| 0 <= i < 4 ==> #[trigger] parse_u8_spec(segs[i]) is Some) {
        (parse_u8_spec(segs[0])->0 as int + parse_u8_spec(segs[1])->0 as int * 256
            + parse_u8_spec(segs[2])->0 as int * 65536 + parse_u8_spec(segs[3])->0 as int
            * 16777216) as u32
    } else {
        0
    }
}

proof fn lemma_digit_char(k: nat)
    requires
        k < 10,
    ensures
        is_digit(digit_char(k)),
        digit_char(k) as int - '0' as int == k,
{
}

/// Decimal text is a non-empty run of digits whose value is the number.
pub proof fn lemma_decimal(n: nat)
    ensures
        decimal(n).len() > 0,
        forall|i: int| 0 <= i < decimal(n).len() ==> is_digit(#[trigger] decimal(n)[i]),
        digits_value(decimal(n)) == n,
    decreases n,
{
    lemma_digit_char(n % 10);
    if n < 10 {
        assert(decimal(n).drop_last() =~= Seq::<char>::empty());
        assert(digits_value(Seq::<char>::empty()) == 0);
    } else {
        lemma_decimal(n / 10);
        let d = decimal(n);
        assert(d.drop_last() == decimal(n / 10));
        assert(d.last() == digit_char(n % 10));
        assert(digits_value(d) == (n / 10) * 10 + n % 10);
        assert forall|i: int| 0 <= i < d.len() implies is_digit(#[trigger] d[i]) by {
            if i < d.len() - 1 {
                assert(d[i] == decimal(n / 10)[i]);
            }
        }
    }
}

/// A number below 256, written in decimal, parses back as itself.
proof fn lemma_parse_decimal(n: nat)
    requires
        n < 256,
    ensures
        parse_u8_spec(decimal(n)) == Some(n as u8),
        forall|i: int| 0 <= i < decimal(n).len() ==> #[trigger] decimal(n)[i] != '.',
{
    lemma_decimal(n);
    assert(is_digit(decimal(n)[0]));
    assert forall|i: int| 0 <= i < decimal(n).len() implies #[trigger] decimal(n)[i] != '.' by {
        assert(is_digit(decimal(n)[i]));
    }
}

/// Reading back the dotted text of an address gives the address.
pub proof fn lemma_ip_round_trip(ip: u32)
    ensures
        ip_value(ip_text(ip)) == ip,
{
    let o = octets(ip);
    lemma_parse_decimal(o[0]);
    lemma_parse_decimal(o[1]);
    lemma_parse_decimal(o[2]);
    lemma_parse_decimal(o[3]);
    let d0 = decimal(o[0]);
    let d1 = decimal(o[1]);
    let d2 = decimal(o[2]);
    let d3 = decimal(o[3]);
    lemma_split_without_sep(d0, '.');
    lemma_split_append(d0, '.', d1);
    lemma_split_append(d0 + seq!['.'] + d1, '.', d2);
    lemma_split_append(d0 + seq!['.'] + d1 + seq!['.'] + d2, '.', d3);
    let segs = split_seq(ip_text(ip), '.');
    assert(segs =~= seq![d0, d1, d2, d3]);
    lemma_octets_sum(ip);
}

/// The octets of an address, weighted by their place, add up to it.
proof fn lemma_octets_sum(ip: u32)
    ensures
        ip == octets(ip)[0] + octets(ip)[1] * 256 + octets(ip)[2] * 65536 + octets(ip)[3]
            * 16777216,
{
    let q1 = ip / 256;
    let q2 = q1 / 256;
    let q3 = q2 / 256;
    assert(ip == q1 * 256 + ip % 256);
    assert(q1 == q2 * 256 + q1 % 256);
    assert(q2 == q3 * 256 + q2 % 256);
    assert(q2 == ip / 65536);
    assert(q3 == ip / 16777216);
}

/// Writes `ip` as dotted text, its lowest byte first.
pub fn ip_to_string(ip: u32) -> (r: String)
    ensures
        r@ == ip_text(ip),
{
    let mut ip_str = decimal_text(ip % 256);
    let rest = ip / 256;
    ip_str.append(".");
    ip_str.append(decimal_text(rest % 256).as_str());
    let rest = rest / 256;
    ip_str.append(".");
    ip_str.append(decimal_text(rest % 256).as_str());
    let rest = rest / 256;
    ip_str.append(".");
    ip_str.append(decimal_text(rest % 256).as_str());
    proof {
        reveal_strlit(".");
        assert(ip / 256 / 256 == ip / 65536);
        assert(ip / 256 / 256 / 256 == ip / 16777216);
    }
    assert(ip_str@ =~= ip_text(ip));
    ip_str
}

/// Reads dotted text as an address, its first segment the lowest byte.
/// Returns zero when the text does not have exactly four segments or a
/// segment does not parse as a `u8`.
pub fn string_to_ip(ip_str: &str) -> (r: u32)
    ensures
        r == ip_value(ip_str@),
        split_seq(ip_str@, '.').len() != 4 ==> r == 0,
        (exists|i: int|
            0 <= i < split_seq(ip_str@, '.').len() && #[trigger] parse_u8_spec(
                split_seq(ip_str@, '.')[i],
            ) is None) ==> r == 0,
{
    let segs = split(ip_str, '.');
    let ghost views = segs@.map_values(|p: String| p@);
    assert(views.len() == segs@.len());
    if segs.len() != 4 {
        return 0;
    }
    let mut ip: u32 = 0;
    let mut scale: u32 = 1;
    let mut i: usize = 0;
    while i < 4
        invariant
            segs@.len() == 4,
            views == segs@.map_values(|p: String| p@),
            views == split_seq(ip_str@, '.'),
            i <= 4,
            scale == (if i == 0 {
                1u32
            } else if i == 1 {
                256u32
            } else if i == 2 {
                65536u32
            } else {
                16777216u32
            }),
            forall|j: int| 0 <= j < i ==> #[trigger] parse_u8_spec(views[j]) is Some,
            ip as int == (if i == 0 {
                0int
            } else if i == 1 {
                parse_u8_spec(views[0])->0 as int
            } else if i == 2 {
                parse_u8_spec(views[0])->0 as int + parse_u8_spec(views[1])->0 as int * 256
            } else if i == 3 {
                parse_u8_spec(views[0])->0 as int + parse_u8_spec(views[1])->0 as int * 256
                    + parse_u8_spec(views[2])->0 as int * 65536
            } else {
                parse_u8_spec(views[0])->0 as int + parse_u8_spec(views[1])->0 as int * 256
                    + parse_u8_spec(views[2])->0 as int * 65536 + parse_u8_spec(views[3])->0 as int
                    * 16777216
            }),
        decreases 4 - i,
    {
        assert(views[i as int] == segs@[i as int]@);
        match parse_u8(segs[i].as_str()) {
            Some(n) => {
                ip = ip + (n as u32) * scale;
            },
            None => {
                return 0;
            },
        }
        if scale < 16777216 {
            scale = scale * 256;
        }
        i = i + 1;
    }
    ip
}

/// Status messages longer than this many characters are cut when read.
pub const MAX_STATUS_MESSAGE_LENGTH: usize = 1024;

/// The audit entries of the redirected flows that are open, by source port,
/// and whether redirection is running.
pub struct Redirector {
    started: bool,
    status_message: String,
    audits: HashMap<u16, AuditEntry>,
}

/// What a `Redirector` holds, as plain values.
pub ghost struct RedirectorView {
    pub started: bool,
    pub status_message: Seq<char>,
    pub audits: Map<u16, AuditEntry>,
}

impl View for Redirector {
    type V = RedirectorView;

    closed spec fn view(&self) -> RedirectorView {
        RedirectorView {
            started: self.started,
            status_message: self.status_message@,
            audits: self.audits@,
        }
    }
}

/// Why an audit lookup failed.
pub enum RedirectorError {
    /// No open flow has this source port.
    AuditNotFound(u16),
}

impl Redirector {
    /// Redirection not started, no flow recorded.
    pub fn new() -> (r: Redirector)
        ensures
            !r@.started,
            r@.status_message == Seq::<char>::empty(),
            r@.audits == Map::<u16, AuditEntry>::empty(),
    {
        Redirector { started: false, status_message: String::new(), audits: HashMap::new() }
    }

    /// Records whether redirection runs, and why.
    pub fn set_started(&mut self, started: bool, status_message: String)
        ensures
            final(self)@ == (RedirectorView {
                started,
                status_message: status_message@,
                ..old(self)@
            }),
    {
        self.started = started;
        self.status_message = status_message;
    }

    /// Records the audit entry the kernel wrote for the flow from
    /// `source_port`.
    pub fn record_audit(&mut self, source_port: u16, entry: AuditEntry)
        ensures
            final(self)@ == (RedirectorView {
                audits: old(self)@.audits.insert(source_port, entry),
                ..old(self)@
            }),
    {
        broadcast use vstd::std_specs::hash::group_hash_axioms;

        self.audits.insert(source_port, entry);
    }

    /// Forgets the audit entry of a flow that has ended.
    pub fn evict_audit(&mut self, source_port: u16)
        ensures
            final(self)@ == (RedirectorView {
                audits: old(self)@.audits.remove(source_port),
                ..old(self)@
            }),
    {
        broadcast use vstd::std_specs::hash::group_hash_axioms;

        self.audits.remove(&source_port);
    }
}

/// Stops redirection and forgets every recorded flow.
pub fn close(redirector: &mut Redirector)
    ensures
        !final(redirector)@.started,
        final(redirector)@.status_message == old(redirector)@.status_message,
        final(redirector)@.audits == Map::<u16, AuditEntry>::empty(),
{
    redirector.started = false;
    redirector.audits = HashMap::new();
}

/// Whether redirection runs.
pub fn is_started(redirector: &Redirector) -> (r: bool)
    ensures
        r == redirector@.started,
{
    redirector.started
}

/// The status message as read: at most 1024 characters, followed by `...`
/// when it was longer.
pub open spec fn truncated_message(m: Seq<char>) -> Seq<char> {
    if m.len() > MAX_STATUS_MESSAGE_LENGTH {
        m.take(MAX_STATUS_MESSAGE_LENGTH as int) + "..."@
    } else {
        m
    }
}

/// The redirector's status: running or stopped, with its message cut to
/// 1024 characters.
pub fn get_status(redirector: &Redirector) -> (r: ProxyAgentDetailStatus)
    ensures
        r.status == (if redirector@.started {
            ModuleState::Running
        } else {
            ModuleState::Stopped
        }),
        r.message@ == truncated_message(redirector@.status_message),
        r.states is None,
{
    let message = &redirector.status_message;
    let n = message.as_str().unicode_len();
    let text = if n > MAX_STATUS_MESSAGE_LENGTH {
        let mut cut = String::from_str(message.as_str().substring_char(0, MAX_STATUS_MESSAGE_LENGTH));
        cut.append("...");
        cut
    } else {
        message.clone()
    };
    let status = if redirector.started {
        ModuleState::Running
    } else {
        ModuleState::Stopped
    };
    ProxyAgentDetailStatus { status, message: text, states: None }
}

/// The audit entry of the flow from `source_port`.
pub fn lookup_audit(source_port: u16, redirector: &Redirector) -> (r: Result<AuditEntry, RedirectorError>)
    ensures
        match r {
            Ok(e) => redirector@.audits.contains_key(source_port) && e == redirector@.audits[source_port],
            Err(RedirectorError::AuditNotFound(p)) => p == source_port && !redirector@.audits.contains_key(source_port),
        },
{
    broadcast use vstd::std_specs::hash::group_hash_axioms;

    match redirector.audits.get(&source_port) {
        Some(e) => Ok(
            AuditEntry {
                logon_id: e.logon_id,
                process_id: e.process_id,
                is_admin: e.is_admin,
                destination_ipv4: e.destination_ipv4,
                destination_port: e.destination_port,
            },
        ),
        None => Err(RedirectorError::AuditNotFound(source_port)),
    }
}

} // verus!
