//! The data the controller reports: modes, proxies and connections.

use vstd::prelude::*;
use crate::list::SearchText;
use crate::netaddr::{in_network, ip_address, ip_in_cidr, ip_parts};
use crate::text::{ascii_lower, chars_of, contains_spec, str_contains, str_eq, to_ascii_lowercase, to_lowercase, unicode_lower};

verus! {

/// How the controller routes traffic.
#[derive(Debug, Clone, Copy, PartialEq, Eq, Structural)]
pub enum Mode {
    Rule,
    Global,
    Direct,
}

/// The mode that the controller names `name`, in any ASCII letter case:
/// `global`, `direct`, and rule routing for any other name.
pub open spec fn mode_named(name: Seq<char>) -> Mode {
    if ascii_lower(name) == "global"@ {
        Mode::Global
    } else if ascii_lower(name) == "direct"@ {
        Mode::Direct
    } else {
        Mode::Rule
    }
}

/// The name of a mode as the controller writes it.
pub open spec fn mode_name(m: Mode) -> Seq<char> {
    match m {
        Mode::Rule => "rule"@,
        Mode::Global => "global"@,
        Mode::Direct => "direct"@,
    }
}

impl Mode {
    /// The mode named `name`; see [`mode_named`].
    pub fn from_name(name: &str) -> (r: Mode)
        ensures
            r == mode_named(name@),
    {
        let lower = to_ascii_lowercase(name);
        if str_eq(lower.as_str(), "global") {
            Mode::Global
        } else if str_eq(lower.as_str(), "direct") {
            Mode::Direct
        } else {
            Mode::Rule
        }
    }

    /// The name of the mode; see [`mode_name`].
    pub fn name(self) -> (r: &'static str)
        ensures
            r@ == mode_name(self),
    {
        match self {
            Mode::Rule => "rule",
            Mode::Global => "global",
            Mode::Direct => "direct",
        }
    }
}

/// The type of a proxy or proxy group.
#[derive(Debug, Clone, Copy, PartialEq, Eq, Structural)]
pub enum ProxyType {
    Direct,
    Reject,
    Selector,
    URLTest,
    Fallback,
    LoadBalance,
    Relay,
    Shadowsocks,
    ShadowsocksR,
    Vmess,
    Vless,
    Trojan,
    Hysteria,
    Hysteria2,
    Tuic,
    WireGuard,
    Snell,
    Http,
    Socks5,
    Unknown,
}

/// Groups pick among other proxies.
pub open spec fn is_group(t: ProxyType) -> bool {
    t is Selector || t is URLTest || t is Fallback || t is LoadBalance || t is Relay
}

/// The proxies every controller has built in.
pub open spec fn is_built_in(t: ProxyType) -> bool {
    t is Direct || t is Reject
}

/// Proxies that carry traffic to a server: neither groups nor built-ins.
pub open spec fn is_normal(t: ProxyType) -> bool {
    !is_group(t) && !is_built_in(t)
}

impl ProxyType {
    /// Groups the user picks the member of.
    pub fn is_selector(self) -> (r: bool)
        ensures
            r == (self is Selector),
    {
        match self {
            ProxyType::Selector => true,
            _ => false,
        }
    }

    pub fn is_group(self) -> (r: bool)
        ensures
            r == is_group(self),
    {
        match self {
            ProxyType::Selector | ProxyType::URLTest | ProxyType::Fallback
            | ProxyType::LoadBalance | ProxyType::Relay => true,
            _ => false,
        }
    }

    pub fn is_built_in(self) -> (r: bool)
        ensures
            r == is_built_in(self),
    {
        match self {
            ProxyType::Direct | ProxyType::Reject => true,
            _ => false,
        }
    }

    pub fn is_normal(self) -> (r: bool)
        ensures
            r == is_normal(self),
    {
        !self.is_group() && !self.is_built_in()
    }
}

/// One latency measurement of a proxy, in milliseconds.
#[derive(Debug, Clone, Copy, PartialEq, Eq, Structural)]
pub struct History {
    pub delay: u64,
}

/// A proxy or group as the controller reports it.
#[derive(Debug, PartialEq, Eq)]
pub struct Proxy {
    pub proxy_type: ProxyType,
    pub history: Vec<History>,
    pub udp: Option<bool>,
    /// Members of a group.
    pub all: Option<Vec<String>>,
    /// The member a group currently uses.
    pub now: Option<String>,
}

/// All proxies of the controller, each under its name. Names are unique.
#[derive(Debug, PartialEq, Eq)]
pub struct Proxies {
    pub entries: Vec<(String, Proxy)>,
}

/// A delay test result.
#[derive(Debug, Clone, Copy, PartialEq, Eq, Structural)]
pub struct Delay {
    pub delay: u64,
}

/// What a rule matches on.
#[derive(Debug, Clone, Copy, PartialEq, Eq, Structural)]
pub enum RuleType {
    Domain,
    DomainSuffix,
    DomainKeyword,
    GeoIP,
    IPCIDR,
    SrcIPCIDR,
    SrcPort,
    DstPort,
    Process,
    Match,
    Direct,
    Reject,
    Unknown,
}

/// The rule type that the controller names `name`; names that no type
/// has are `Unknown`.
pub open spec fn rule_type_of(name: Seq<char>) -> RuleType {
    if name == "Domain"@ {
        RuleType::Domain
    } else if name == "DomainSuffix"@ {
        RuleType::DomainSuffix
    } else if name == "DomainKeyword"@ {
        RuleType::DomainKeyword
    } else if name == "GeoIP"@ {
        RuleType::GeoIP
    } else if name == "IPCIDR"@ {
        RuleType::IPCIDR
    } else if name == "SrcIPCIDR"@ {
        RuleType::SrcIPCIDR
    } else if name == "SrcPort"@ {
        RuleType::SrcPort
    } else if name == "DstPort"@ {
        RuleType::DstPort
    } else if name == "Process"@ {
        RuleType::Process
    } else if name == "Match"@ {
        RuleType::Match
    } else if name == "Direct"@ {
        RuleType::Direct
    } else if name == "Reject"@ {
        RuleType::Reject
    } else {
        RuleType::Unknown
    }
}

/// The name of a rule type, as the rules page shows it.
pub open spec fn rule_type_name(t: RuleType) -> Seq<char> {
    match t {
        RuleType::Domain => "Domain"@,
        RuleType::DomainSuffix => "DomainSuffix"@,
        RuleType::DomainKeyword => "DomainKeyword"@,
        RuleType::GeoIP => "GeoIP"@,
        RuleType::IPCIDR => "IPCIDR"@,
        RuleType::SrcIPCIDR => "SrcIPCIDR"@,
        RuleType::SrcPort => "SrcPort"@,
        RuleType::DstPort => "DstPort"@,
        RuleType::Process => "Process"@,
        RuleType::Match => "Match"@,
        RuleType::Direct => "Direct"@,
        RuleType::Reject => "Reject"@,
        RuleType::Unknown => "Unknown"@,
    }
}

impl RuleType {
    /// The rule type named `name`; see [`rule_type_of`].
    pub fn from_name(name: &str) -> (r: RuleType)
        ensures
            r == rule_type_of(name@),
    {
        if str_eq(name, "Domain") {
            RuleType::Domain
        } else if str_eq(name, "DomainSuffix") {
            RuleType::DomainSuffix
        } else if str_eq(name, "DomainKeyword") {
            RuleType::DomainKeyword
        } else if str_eq(name, "GeoIP") {
            RuleType::GeoIP
        } else if str_eq(name, "IPCIDR") {
            RuleType::IPCIDR
        } else if str_eq(name, "SrcIPCIDR") {
            RuleType::SrcIPCIDR
        } else if str_eq(name, "SrcPort") {
            RuleType::SrcPort
        } else if str_eq(name, "DstPort") {
            RuleType::DstPort
        } else if str_eq(name, "Process") {
            RuleType::Process
        } else if str_eq(name, "Match") {
            RuleType::Match
        } else if str_eq(name, "Direct") {
            RuleType::Direct
        } else if str_eq(name, "Reject") {
            RuleType::Reject
        } else {
            RuleType::Unknown
        }
    }

    /// The name of the rule type; see [`rule_type_name`].
    pub fn name(&self) -> (r: &'static str)
        ensures
            r@ == rule_type_name(*self),
    {
        match self {
            RuleType::Domain => "Domain",
            RuleType::DomainSuffix => "DomainSuffix",
            RuleType::DomainKeyword => "DomainKeyword",
            RuleType::GeoIP => "GeoIP",
            RuleType::IPCIDR => "IPCIDR",
            RuleType::SrcIPCIDR => "SrcIPCIDR",
            RuleType::SrcPort => "SrcPort",
            RuleType::DstPort => "DstPort",
            RuleType::Process => "Process",
            RuleType::Match => "Match",
            RuleType::Direct => "Direct",
            RuleType::Reject => "Reject",
            RuleType::Unknown => "Unknown",
        }
    }
}

/// A routing rule: what it matches on, its payload and the proxy that the
/// traffic it matches goes to.
#[derive(Debug, Clone, PartialEq, Eq)]
pub struct Rule {
    pub rule_type: RuleType,
    pub payload: String,
    pub proxy: String,
}

/// The rule types whose payload is an address or a network.
pub open spec fn is_network_rule(t: RuleType) -> bool {
    t == RuleType::IPCIDR || t == RuleType::SrcIPCIDR
}

/// A search finds a rule by its payload only: when the lower-cased payload
/// contains the query, or, for a network rule, when the query reads as an
/// address that lies in the payload's network.
impl SearchText for Rule {
    open spec fn hit(&self, query: Seq<char>) -> bool {
        ||| contains_spec(unicode_lower(self.payload@), query)
        ||| (is_network_rule(self.rule_type) && (ip_parts(query) matches Some((v6, parts)) && in_network(
            v6,
            parts,
            self.payload@,
        )))
    }

    fn is_hit(&self, query: &str) -> (r: bool) {
        self.matches_query(query)
    }
}

/// A search looks at a rule's payload only: two rules with the same
/// payload, both network rules or both not, are found by the same queries,
/// whatever their proxies and exact types.
pub proof fn rule_search_ignores_type_and_proxy(a: Rule, b: Rule, query: Seq<char>)
    requires
        a.payload@ == b.payload@,
        is_network_rule(a.rule_type) == is_network_rule(b.rule_type),
    ensures
        a.hit(query) == b.hit(query),
{
}

impl Rule {
    /// Whether a search for `query`, already in lower case, finds the rule.
    pub fn matches_query(&self, query: &str) -> (r: bool)
        ensures
            r == self.hit(query@),
    {
        let lower = to_lowercase(self.payload.as_str());
        if str_contains(lower.as_str(), query) {
            return true;
        }
        if self.rule_type == RuleType::IPCIDR || self.rule_type == RuleType::SrcIPCIDR {
            let q = chars_of(query);
            if let Some((v6, parts)) = ip_address(&q) {
                return ip_in_cidr(v6, &parts, self.payload.as_str());
            }
        }
        false
    }
}

/// Where a connection goes.
#[derive(Debug, PartialEq, Eq)]
pub struct Metadata {
    pub connection_type: String,
    pub source_ip: String,
    pub source_port: String,
    pub destination_ip: String,
    pub destination_port: String,
    pub host: String,
    pub network: String,
}

/// An open connection. `start` is the time it opened, in seconds since the
/// Unix epoch.
#[derive(Debug, PartialEq, Eq)]
pub struct Connection {
    pub id: String,
    pub upload: u64,
    pub download: u64,
    pub metadata: Metadata,
    pub rule: RuleType,
    pub rule_payload: String,
    pub start: i64,
    pub chains: Vec<String>,
}

/// All open connections with the byte totals.
#[derive(Debug, PartialEq, Eq)]
pub struct Connections {
    pub connections: Vec<Connection>,
    pub download_total: u64,
    pub upload_total: u64,
}

/// A connection with its average speeds in bytes per second.
#[derive(Debug, PartialEq, Eq)]
pub struct ConnectionWithSpeed {
    pub connection: Connection,
    pub upload: Option<u64>,
    pub download: Option<u64>,
}

/// All open connections with their speeds and the byte totals.
#[derive(Debug, PartialEq, Eq)]
pub struct ConnectionsWithSpeed {
    pub connections: Vec<ConnectionWithSpeed>,
    pub download_total: u64,
    pub upload_total: u64,
}

/// Whole seconds a connection opened at `start` has been open at `now`.
pub open spec fn elapsed(start: i64, now: i64) -> int {
    now - start
}

/// Average of `bytes` over the seconds a connection has been open; none
/// before a whole second has passed.
pub open spec fn speed(bytes: u64, start: i64, now: i64) -> Option<u64> {
    if elapsed(start, now) <= 0 {
        None
    } else {
        Some((bytes as int / elapsed(start, now)) as u64)
    }
}

fn average(bytes: u64, start: i64, now: i64) -> (r: Option<u64>)
    ensures
        r == speed(bytes, start, now),
{
    let elapsed: i128 = (now as i128) - (start as i128);
    if elapsed <= 0 {
        None
    } else {
        let q: i128 = (bytes as i128) / elapsed;
        proof {
            assert(0 <= q <= bytes) by (nonlinear_arith)
                requires
                    q == bytes as int / elapsed as int,
                    elapsed > 0,
                    bytes >= 0,
            ;
        }
        Some(q as u64)
    }
}

impl Connection {
    /// Average upload speed at time `now`.
    pub fn up_speed_at(&self, now: i64) -> (r: Option<u64>)
        ensures
            r == speed(self.upload, self.start, now),
    {
        average(self.upload, self.start, now)
    }

    /// Average download speed at time `now`.
    pub fn down_speed_at(&self, now: i64) -> (r: Option<u64>)
        ensures
            r == speed(self.download, self.start, now),
    {
        average(self.download, self.start, now)
    }
}

impl ConnectionWithSpeed {
    /// A connection with the speeds it has at time `now`.
    pub fn at(connection: Connection, now: i64) -> (r: ConnectionWithSpeed)
        ensures
            r.connection == connection,
            r.upload == speed(connection.upload, connection.start, now),
            r.download == speed(connection.download, connection.start, now),
    {
        let upload = connection.up_speed_at(now);
        let download = connection.down_speed_at(now);
        ConnectionWithSpeed { connection, upload, download }
    }
}

/// `w` holds the connections of `c`, in order, with the speeds they have
/// at time `now`, and the same totals.
pub open spec fn with_speeds(c: Connections, now: i64, w: ConnectionsWithSpeed) -> bool {
    &&& w.download_total == c.download_total
    &&& w.upload_total == c.upload_total
    &&& w.connections.len() == c.connections.len()
    &&& forall|i: int|
        0 <= i < w.connections.len() ==> {
            &&& #[trigger] w.connections@[i].connection == c.connections@[i]
            &&& w.connections@[i].upload == speed(c.connections@[i].upload, c.connections@[i].start, now)
            &&& w.connections@[i].download == speed(c.connections@[i].download, c.connections@[i].start, now)
        }
}

/// `c` holds the connections of `w` without their speeds, in order, and
/// the same totals.
pub open spec fn without_speeds(w: ConnectionsWithSpeed, c: Connections) -> bool {
    &&& c.download_total == w.download_total
    &&& c.upload_total == w.upload_total
    &&& c.connections.len() == w.connections.len()
    &&& forall|i: int| 0 <= i < c.connections.len() ==> #[trigger] c.connections@[i] == w.connections@[i].connection
}

/// Adding the speeds and dropping them again gives the connections back.
pub proof fn dropping_speeds_gives_the_connections_back(c: Connections, now: i64, w: ConnectionsWithSpeed, back: Connections)
    requires
        with_speeds(c, now, w),
        without_speeds(w, back),
    ensures
        back.connections@ == c.connections@,
        back.download_total == c.download_total,
        back.upload_total == c.upload_total,
{
    assert forall|i: int| 0 <= i < back.connections@.len() implies back.connections@[i] == c.connections@[i] by {
        assert(back.connections@[i] == w.connections@[i].connection);
    }
    assert(back.connections@ =~= c.connections@);
}

impl ConnectionsWithSpeed {
    /// All connections with the speeds they have at time `now`.
    pub fn at(connections: Connections, now: i64) -> (r: ConnectionsWithSpeed)
        ensures
            with_speeds(connections, now, r),
    {
        let Connections { connections: list, download_total, upload_total } = connections;
        let ghost old_list = list@;
        let mut list = list;
        let mut out: Vec<ConnectionWithSpeed> = Vec::new();
        let mut rest: Vec<Connection> = Vec::new();
        // take the connections from the back, then put them in order
        while list.len() > 0
            invariant
                list@.len() + rest@.len() == old_list.len(),
                list@ == old_list.subrange(0, list@.len() as int),
                forall|k: int|
                    0 <= k < rest@.len() ==> #[trigger] rest@[k] == old_list[old_list.len() - 1 - k],
            decreases list.len(),
        {
            let c = list.pop().unwrap();
            rest.push(c);
        }
        while rest.len() > 0
            invariant
                out@.len() + rest@.len() == old_list.len(),
                forall|k: int|
                    0 <= k < rest@.len() ==> #[trigger] rest@[k] == old_list[old_list.len() - 1 - k],
                forall|i: int|
                    0 <= i < out@.len() ==> {
                        &&& #[trigger] out@[i].connection == old_list[i]
                        &&& out@[i].upload == speed(old_list[i].upload, old_list[i].start, now)
                        &&& out@[i].download == speed(old_list[i].download, old_list[i].start, now)
                    },
            decreases rest.len(),
        {
            let c = rest.pop().unwrap();
            out.push(ConnectionWithSpeed::at(c, now));
        }
        ConnectionsWithSpeed { connections: out, download_total, upload_total }
    }

    /// The connections without their speeds.
    pub fn into_connections(self) -> (r: Connections)
        ensures
            without_speeds(self, r),
    {
        let ConnectionsWithSpeed { connections: list, download_total, upload_total } = self;
        let ghost old_list = list@;
        let mut list = list;
        let mut rest: Vec<Connection> = Vec::new();
        while list.len() > 0
            invariant
                list@.len() + rest@.len() == old_list.len(),
                list@ == old_list.subrange(0, list@.len() as int),
                forall|k: int|
                    0 <= k < rest@.len() ==> #[trigger] rest@[k] == old_list[old_list.len() - 1
                        - k].connection,
            decreases list.len(),
        {
            let c = list.pop().unwrap();
            rest.push(c.connection);
        }
        let mut out: Vec<Connection> = Vec::new();
        while rest.len() > 0
            invariant
                out@.len() + rest@.len() == old_list.len(),
                forall|k: int|
                    0 <= k < rest@.len() ==> #[trigger] rest@[k] == old_list[old_list.len() - 1
                        - k].connection,
                forall|i: int| 0 <= i < out@.len() ==> #[trigger] out@[i] == old_list[i].connection,
            decreases rest.len(),
        {
            let c = rest.pop().unwrap();
            out.push(c);
        }
        Connections { connections: out, download_total, upload_total }
    }
}

} // verus!
