//! What an operation of the API pages asks of the controller: the request
//! to send, or first the name to look up when a parameter is left blank, or
//! the answer given at once when the operation cannot go out.

use vstd::prelude::*;

use crate::api::{ApiOperation, ApiParams};
use crate::endpoint::{
    connections_endpoint, connections_spec, delay_endpoint, delay_spec, dns_query_endpoint, dns_query_spec,
    logs_endpoint, logs_spec, named_endpoint, named_spec, pprof_endpoint, pprof_spec, provider_proxy_check_endpoint,
    provider_proxy_check_spec, provider_proxy_endpoint, provider_proxy_spec, reload_endpoint, selection_body,
    upgrade_endpoint, upgrade_spec,
};
use crate::json::{serde_parse, JsonValue};
use crate::kind::ControllerKind;
use crate::logs::{compact_json, serde_compact};
use crate::path::{bool_text, log_format_structured, opt_str, opt_str_spec, parse_bool, structured_logs};
use crate::results::{parse_json, parse_optional_u64, parse_rules_disable, rules_disable_spec};
use crate::text::{concat, decimal, owned, trim_spec, unsigned_text_value, usize_to_decimal};
use crate::worker::{unsupported_message, unsupported_text};

verus! {

/// How the answer of a request is shown.
#[derive(Debug, Clone, Copy, PartialEq, Eq, Structural)]
pub enum Reply {
    /// `OK` or the error.
    Unit,
    /// The text, printed pretty when it is JSON.
    Text,
    /// The JSON document printed pretty.
    Json,
    /// The delay the controller measured.
    Delay,
    /// Only whether the stream opened.
    Stream,
    /// The first message of the WebSocket endpoint.
    Ws,
}

/// A name to look up from the controller before the request can go out.
#[derive(Debug, PartialEq, Eq)]
pub enum Lookup {
    /// The first proxy group.
    Group,
    /// The first proxy.
    Proxy,
    /// The first selector group with a member, and that member.
    SelectorMember,
    /// The first proxy provider.
    ProxyProvider,
    /// The first proxy of this provider.
    ProviderProxy { provider: String },
    /// The first rule provider.
    RuleProvider,
    /// The first open connection.
    Connection,
}

/// A request to the controller: method, endpoint relative to the
/// controller URL, body, whether it may take long, and how its answer is
/// shown.
#[derive(Debug, PartialEq, Eq)]
pub struct ApiRequest {
    pub method: String,
    pub endpoint: String,
    pub body: Option<String>,
    pub slow: bool,
    pub reply: Reply,
}

/// What an operation asks for next.
#[derive(Debug, PartialEq, Eq)]
pub enum ApiPlan {
    /// No request: this is the answer.
    Done(String),
    Request(ApiRequest),
    Lookup(Lookup),
}

/// A [`Lookup`] with its text as characters.
pub enum LookupView {
    Group,
    Proxy,
    SelectorMember,
    ProxyProvider,
    ProviderProxy(Seq<char>),
    RuleProvider,
    Connection,
}

/// An [`ApiPlan`] with its texts as characters: the answer; or method,
/// endpoint, body, slowness and reply of a request; or a lookup.
pub enum PlanView {
    Done(Seq<char>),
    Request(Seq<char>, Seq<char>, Option<Seq<char>>, bool, Reply),
    Lookup(LookupView),
}

/// The characters of a lookup.
pub open spec fn lookup_view(l: Lookup) -> LookupView {
    match l {
        Lookup::Group => LookupView::Group,
        Lookup::Proxy => LookupView::Proxy,
        Lookup::SelectorMember => LookupView::SelectorMember,
        Lookup::ProxyProvider => LookupView::ProxyProvider,
        Lookup::ProviderProxy { provider } => LookupView::ProviderProxy(provider@),
        Lookup::RuleProvider => LookupView::RuleProvider,
        Lookup::Connection => LookupView::Connection,
    }
}

/// The characters of a plan.
pub open spec fn plan_view(p: ApiPlan) -> PlanView {
    match p {
        ApiPlan::Done(s) => PlanView::Done(s@),
        ApiPlan::Request(r) => PlanView::Request(r.method@, r.endpoint@, match r.body {
            Some(b) => Some(b@),
            None => None,
        }, r.slow, r.reply),
        ApiPlan::Lookup(l) => PlanView::Lookup(lookup_view(l)),
    }
}

/// A quick request without a body.
pub open spec fn plain(method: Seq<char>, endpoint: Seq<char>, reply: Reply) -> PlanView {
    PlanView::Request(method, endpoint, None, false, reply)
}

/// A text parameter, unless it is left blank.
pub open spec fn given(v: String) -> Option<Seq<char>> {
    opt_str_spec(v@)
}

/// `v` is a JSON object of these string members, in this order.
pub open spec fn strings_object(v: JsonValue, fields: Seq<(Seq<char>, Seq<char>)>) -> bool {
    &&& v is Object
    &&& v->Object_0@.len() == fields.len()
    &&& forall|i: int|
        0 <= i < fields.len() ==> {
            &&& (#[trigger] v->Object_0@[i]).0@ == fields[i].0
            &&& v->Object_0@[i].1 is Str
            &&& v->Object_0@[i].1->Str_0@ == fields[i].1
        }
}

/// `b` is the compact JSON text `serde_json` writes for an object of these
/// string members.
pub open spec fn strings_body(b: Seq<char>, fields: Seq<(Seq<char>, Seq<char>)>) -> bool {
    exists|v: JsonValue| #[trigger] strings_object(v, fields) && b == serde_compact(v)
}

/// `v` is a JSON object that maps the decimal text of each rule index to
/// whether it is disabled, in this order.
pub open spec fn rules_object(v: JsonValue, rules: Seq<(usize, bool)>) -> bool {
    &&& v is Object
    &&& v->Object_0@.len() == rules.len()
    &&& forall|i: int|
        0 <= i < rules.len() ==> {
            &&& (#[trigger] v->Object_0@[i]).0@ == decimal(rules[i].0 as nat)
            &&& v->Object_0@[i].1 == JsonValue::Bool(rules[i].1)
        }
}

/// `b` is the compact JSON text `serde_json` writes for the rules to
/// disable.
pub open spec fn rules_body(b: Seq<char>, rules: Seq<(usize, bool)>) -> bool {
    exists|v: JsonValue| #[trigger] rules_object(v, rules) && b == serde_compact(v)
}

/// The operations that name a group, proxy, provider or connection, and
/// how many names they take.
pub open spec fn names_needed(op: ApiOperation) -> nat {
    match op {
        ApiOperation::SelectProxy | ApiOperation::GetProxyProviderProxy
        | ApiOperation::HealthcheckProxyProviderProxy => 2,
        ApiOperation::GetGroup | ApiOperation::GetGroupDelay | ApiOperation::ClearProxyFixed
        | ApiOperation::GetProxy | ApiOperation::GetProxyDelay | ApiOperation::GetProxyProvider
        | ApiOperation::UpdateProxyProvider | ApiOperation::HealthcheckProxyProvider
        | ApiOperation::UpdateRuleProvider | ApiOperation::CloseConnection => 1,
        _ => 0,
    }
}

/// The request of an operation that names things, given the names: the
/// group, proxy, provider, provider and proxy, or connection it is about.
pub open spec fn named_request(op: ApiOperation, p: ApiParams, n: Seq<Seq<char>>, test_url: Seq<char>, timeout: u64) -> PlanView {
    match op {
        ApiOperation::GetGroup => plain("GET"@, named_spec("group"@, n[0]), Reply::Json),
        ApiOperation::GetGroupDelay => plain(
            "GET"@,
            delay_spec("group"@, n[0], test_url, timeout, given(p.expected)),
            Reply::Delay,
        ),
        ApiOperation::ClearProxyFixed => plain("DELETE"@, named_spec("proxies"@, n[0]), Reply::Unit),
        ApiOperation::GetProxy => plain("GET"@, named_spec("proxies"@, n[0]), Reply::Text),
        ApiOperation::GetProxyDelay => plain(
            "GET"@,
            delay_spec("proxies"@, n[0], test_url, timeout, given(p.expected)),
            Reply::Delay,
        ),
        ApiOperation::SelectProxy => PlanView::Request(
            "PUT"@,
            named_spec("proxies"@, n[0]),
            Some("{\"name\":\""@ + n[1] + "\"}"@),
            false,
            Reply::Unit,
        ),
        ApiOperation::GetProxyProvider => plain("GET"@, named_spec("providers/proxies"@, n[0]), Reply::Json),
        ApiOperation::UpdateProxyProvider => plain("PUT"@, named_spec("providers/proxies"@, n[0]), Reply::Unit),
        ApiOperation::HealthcheckProxyProvider => plain(
            "GET"@,
            named_spec("providers/proxies"@, n[0]) + "/healthcheck"@,
            Reply::Json,
        ),
        ApiOperation::GetProxyProviderProxy => plain("GET"@, provider_proxy_spec(n[0], n[1]), Reply::Json),
        ApiOperation::HealthcheckProxyProviderProxy => plain(
            "GET"@,
            provider_proxy_check_spec(n[0], n[1], test_url, timeout),
            Reply::Delay,
        ),
        ApiOperation::UpdateRuleProvider => plain("PUT"@, named_spec("providers/rules"@, n[0]), Reply::Unit),
        ApiOperation::CloseConnection => plain("DELETE"@, "connections/"@ + n[0], Reply::Unit),
        _ => PlanView::Done(Seq::empty()),
    }
}

/// The plan of an operation that names things: with the names typed in,
/// or first a lookup of what is left blank; a selection with only one of
/// group and proxy typed in is refused.
pub open spec fn named_plan(op: ApiOperation, p: ApiParams, test_url: Seq<char>, timeout: u64) -> PlanView {
    match op {
        ApiOperation::GetGroup | ApiOperation::GetGroupDelay | ApiOperation::ClearProxyFixed => match given(
            p.group_name,
        ) {
            Some(g) => named_request(op, p, seq![g], test_url, timeout),
            None => PlanView::Lookup(LookupView::Group),
        },
        ApiOperation::GetProxy | ApiOperation::GetProxyDelay => match given(p.proxy_name) {
            Some(x) => named_request(op, p, seq![x], test_url, timeout),
            None => PlanView::Lookup(LookupView::Proxy),
        },
        ApiOperation::SelectProxy => match (given(p.group_name), given(p.proxy_name)) {
            (Some(g), Some(x)) => named_request(op, p, seq![g, x], test_url, timeout),
            (Some(_), None) => PlanView::Done("ERR proxy name is required with a manual group"@),
            (None, Some(_)) => PlanView::Done("ERR group name is required with a manual proxy"@),
            (None, None) => PlanView::Lookup(LookupView::SelectorMember),
        },
        ApiOperation::GetProxyProvider | ApiOperation::UpdateProxyProvider
        | ApiOperation::HealthcheckProxyProvider => match given(p.proxy_provider) {
            Some(v) => named_request(op, p, seq![v], test_url, timeout),
            None => PlanView::Lookup(LookupView::ProxyProvider),
        },
        ApiOperation::GetProxyProviderProxy | ApiOperation::HealthcheckProxyProviderProxy => match (
            given(p.proxy_provider),
            given(p.provider_proxy),
        ) {
            (Some(v), Some(x)) => named_request(op, p, seq![v, x], test_url, timeout),
            (Some(v), None) => PlanView::Lookup(LookupView::ProviderProxy(v)),
            (None, _) => PlanView::Lookup(LookupView::ProxyProvider),
        },
        ApiOperation::UpdateRuleProvider => match given(p.rule_provider) {
            Some(v) => named_request(op, p, seq![v], test_url, timeout),
            None => PlanView::Lookup(LookupView::RuleProvider),
        },
        _ => match given(p.connection_id) {
            Some(id) => named_request(op, p, seq![id], test_url, timeout),
            None => PlanView::Lookup(LookupView::Connection),
        },
    }
}

/// `v` is the plan of an operation that reads a parameter first: the JSON
/// of a configuration patch, of a storage value or of the rules to disable,
/// or the refresh interval of the connection list; an unreadable parameter
/// is answered at once.
pub open spec fn checked_plan(op: ApiOperation, p: ApiParams, v: PlanView) -> bool {
    match op {
        ApiOperation::PatchConfigs => match serde_parse(p.config_patch_json@) {
            Err(e) => v == PlanView::Done("ERR invalid json: "@ + e),
            Ok(_) => v == PlanView::Request("PATCH"@, "configs"@, Some(p.config_patch_json@), false, Reply::Json),
        },
        ApiOperation::PutStorage => match serde_parse(p.storage_value_json@) {
            Err(e) => v == PlanView::Done("ERR invalid json: "@ + e),
            Ok(_) => v == PlanView::Request(
                "PUT"@,
                named_spec("storage"@, p.storage_key@),
                Some(p.storage_value_json@),
                false,
                Reply::Unit,
            ),
        },
        ApiOperation::DisableRules => match serde_parse(p.rules_disable_json@) {
            Err(e) => v == PlanView::Done("ERR invalid json: "@ + e),
            Ok(JsonValue::Object(entries)) => match rules_disable_spec(entries@) {
                Ok(rules) => v matches PlanView::Request(m, e, Some(b), slow, reply) && m == "PATCH"@ && e
                    == "rules/disable"@ && !slow && reply == Reply::Unit && rules_body(b, rules),
                Err(()) => v is Done,
            },
            Ok(_) => v == PlanView::Done("ERR rules disable json must be an object"@),
        },
        _ => {
            let reply = if op is ConnectionsWs {
                Reply::Ws
            } else {
                Reply::Text
            };
            let t = trim_spec(p.connection_interval@);
            if t.len() == 0 {
                v == plain("GET"@, connections_spec(None), reply)
            } else {
                match unsigned_text_value(t) {
                    Some(n) if n <= u64::MAX => v == plain("GET"@, connections_spec(Some(n as u64)), reply),
                    _ => v matches PlanView::Done(m) && m.len() >= "ERR invalid interval: "@.len() && m.take(
                        "ERR invalid interval: "@.len() as int,
                    ) == "ERR invalid interval: "@,
                }
            }
        },
    }
}

/// The operations whose parameter is read first; see [`checked_plan`].
pub open spec fn is_checked(op: ApiOperation) -> bool {
    op is PatchConfigs || op is PutStorage || op is DisableRules || op is GetConnections || op is ConnectionsWs
}

/// The plan of an operation that needs neither a lookup nor a check.
pub open spec fn direct_plan(op: ApiOperation, p: ApiParams, v: PlanView) -> bool {
    match op {
        ApiOperation::Version => v == plain("GET"@, "version"@, Reply::Text),
        ApiOperation::Logs => v == plain("GET"@, logs_spec(given(p.log_level), structured_logs(p)), Reply::Stream),
        ApiOperation::LogsWs => v == plain("GET"@, logs_spec(given(p.log_level), structured_logs(p)), Reply::Ws),
        ApiOperation::Traffic => v == plain("GET"@, "traffic"@, Reply::Stream),
        ApiOperation::TrafficWs => v == plain("GET"@, "traffic"@, Reply::Ws),
        ApiOperation::Memory => v == plain("GET"@, "memory"@, Reply::Stream),
        ApiOperation::MemoryWs => v == plain("GET"@, "memory"@, Reply::Ws),
        ApiOperation::FlushFakeIpCache => v == plain("POST"@, "cache/fakeip/flush"@, Reply::Unit),
        ApiOperation::FlushDnsCache => v == plain("POST"@, "cache/dns/flush"@, Reply::Unit),
        ApiOperation::GetConfigs => v == plain("GET"@, "configs"@, Reply::Text),
        ApiOperation::ReloadConfigs => v matches PlanView::Request(m, e, Some(b), slow, reply) && m == "PUT"@
            && e == (if bool_text(p.config_force@) {
            "configs?force=true"@
        } else {
            "configs"@
        }) && !slow && reply == Reply::Unit && strings_body(b, seq![("path"@, p.config_path@)]),
        ApiOperation::UpdateGeo => v == PlanView::Request("POST"@, "configs/geo"@, None, true, Reply::Unit),
        ApiOperation::Restart => v matches PlanView::Request(m, e, Some(b), slow, reply) && m == "POST"@ && e
            == "restart"@ && !slow && reply == Reply::Unit && strings_body(
            b,
            seq![("path"@, p.payload_path@), ("payload"@, p.payload@)],
        ),
        ApiOperation::Upgrade => v == plain(
            "POST"@,
            upgrade_spec(given(p.upgrade_channel), bool_text(p.upgrade_force@)),
            Reply::Unit,
        ),
        ApiOperation::UpgradeUi => v == plain("POST"@, "upgrade/ui"@, Reply::Unit),
        ApiOperation::UpgradeGeo => v == PlanView::Request("POST"@, "upgrade/geo"@, None, true, Reply::Unit),
        ApiOperation::GetGroups => v == plain("GET"@, "group"@, Reply::Json),
        ApiOperation::GetProxies => v == plain("GET"@, "proxies"@, Reply::Text),
        ApiOperation::GetProxyProviders => v == plain("GET"@, "providers/proxies"@, Reply::Json),
        ApiOperation::GetRules => v == plain("GET"@, "rules"@, Reply::Text),
        ApiOperation::GetRuleProviders => v == plain("GET"@, "providers/rules"@, Reply::Json),
        ApiOperation::CloseConnections => v == plain("DELETE"@, "connections"@, Reply::Unit),
        ApiOperation::DnsQuery => v == plain("GET"@, dns_query_spec(p.dns_name@, p.dns_type@), Reply::Json),
        ApiOperation::GetStorage => v == plain("GET"@, named_spec("storage"@, p.storage_key@), Reply::Json),
        ApiOperation::DeleteStorage => v == plain("DELETE"@, named_spec("storage"@, p.storage_key@), Reply::Unit),
        ApiOperation::DebugGc => v == plain("PUT"@, "debug/gc"@, Reply::Unit),
        ApiOperation::DebugPprof => v == plain("GET"@, "debug/pprof"@, Reply::Text),
        _ => v == plain(
            "GET"@,
            pprof_spec(
                match given(p.pprof_profile) {
                    Some(x) => x,
                    None => "heap"@,
                },
                bool_text(p.pprof_raw@),
            ),
            Reply::Text,
        ),
    }
}

/// `v` is what operation `op` with parameters `p` asks of a controller of
/// `kind` first: an operation the controller does not offer is answered at
/// once; one that names things goes through [`named_plan`], one that reads
/// a parameter first through [`checked_plan`], any other is a fixed request
/// ([`direct_plan`]).
pub open spec fn planned(op: ApiOperation, p: ApiParams, kind: ControllerKind, test_url: Seq<char>, timeout: u64, v: PlanView) -> bool {
    match unsupported_text(op, kind) {
        Some(t) => v == PlanView::Done(t),
        None => if names_needed(op) > 0 {
            v == named_plan(op, p, test_url, timeout)
        } else if is_checked(op) {
            checked_plan(op, p, v)
        } else {
            direct_plan(op, p, v)
        },
    }
}

/// The texts of a vector of strings.
pub open spec fn texts(v: Seq<String>) -> Seq<Seq<char>> {
    v.map_values(|s: String| s@)
}

fn plain_request(method: &str, endpoint: String, reply: Reply) -> (r: ApiPlan)
    ensures
        plan_view(r) == plain(method@, endpoint@, reply),
{
    ApiPlan::Request(ApiRequest { method: owned(method), endpoint, body: None, slow: false, reply })
}

fn given_text(v: &String) -> (r: Option<String>)
    ensures
        match r {
            Some(s) => given(*v) == Some(s@),
            None => given(*v) is None,
        },
{
    match opt_str(v.as_str()) {
        Some(s) => Some(owned(s)),
        None => None,
    }
}

/// The compact JSON text of an object of string members.
fn strings_json(fields: Vec<(String, String)>) -> (r: String)
    ensures
        strings_body(r@, fields@.map_values(|f: (String, String)| (f.0@, f.1@))),
{
    let ghost fv = fields@.map_values(|f: (String, String)| (f.0@, f.1@));
    let mut entries: Vec<(String, JsonValue)> = Vec::new();
    let mut i: usize = 0;
    while i < fields.len()
        invariant
            i <= fields@.len(),
            fv == fields@.map_values(|f: (String, String)| (f.0@, f.1@)),
            entries@.len() == i,
            forall|k: int|
                0 <= k < i ==> {
                    &&& (#[trigger] entries@[k]).0@ == fv[k].0
                    &&& entries@[k].1 is Str
                    &&& entries@[k].1->Str_0@ == fv[k].1
                },
        decreases fields@.len() - i,
    {
        let key = fields[i].0.clone();
        let value = fields[i].1.clone();
        entries.push((key, JsonValue::Str(value)));
        i = i + 1;
    }
    let object = JsonValue::Object(entries);
    assert(strings_object(object, fv));
    compact_json(&object)
}

/// The compact JSON text that disables and enables rules by index.
fn rules_json(rules: &Vec<(usize, bool)>) -> (r: String)
    ensures
        rules_body(r@, rules@),
{
    let mut entries: Vec<(String, JsonValue)> = Vec::new();
    let mut i: usize = 0;
    while i < rules.len()
        invariant
            i <= rules@.len(),
            entries@.len() == i,
            forall|k: int|
                0 <= k < i ==> {
                    &&& (#[trigger] entries@[k]).0@ == decimal(rules@[k].0 as nat)
                    &&& entries@[k].1 == JsonValue::Bool(rules@[k].1)
                },
        decreases rules@.len() - i,
    {
        let (index, disabled) = rules[i];
        entries.push((usize_to_decimal(index), JsonValue::Bool(disabled)));
        i = i + 1;
    }
    let object = JsonValue::Object(entries);
    assert(rules_object(object, rules@));
    compact_json(&object)
}

/// The request of an operation that names things, given the names; see
/// [`named_request`].
fn named_request_of(op: ApiOperation, params: &ApiParams, n: &Vec<String>, test_url: &str, timeout: u64) -> (r:
    ApiPlan)
    requires
        names_needed(op) > 0,
        n@.len() >= names_needed(op),
    ensures
        plan_view(r) == named_request(op, *params, texts(n@), test_url@, timeout),
{
    let ghost t = texts(n@);
    assert(t[0] == n@[0]@);
    assert(names_needed(op) == 2 ==> t[1] == n@[1]@);
    let expected = opt_str(params.expected.as_str());
    match op {
        ApiOperation::GetGroup => plain_request("GET", named_endpoint("group", n[0].as_str()), Reply::Json),
        ApiOperation::GetGroupDelay => plain_request(
            "GET",
            delay_endpoint("group", n[0].as_str(), test_url, timeout, expected),
            Reply::Delay,
        ),
        ApiOperation::ClearProxyFixed => plain_request("DELETE", named_endpoint("proxies", n[0].as_str()), Reply::Unit),
        ApiOperation::GetProxy => plain_request("GET", named_endpoint("proxies", n[0].as_str()), Reply::Text),
        ApiOperation::GetProxyDelay => plain_request(
            "GET",
            delay_endpoint("proxies", n[0].as_str(), test_url, timeout, expected),
            Reply::Delay,
        ),
        ApiOperation::SelectProxy => ApiPlan::Request(
            ApiRequest {
                method: owned("PUT"),
                endpoint: named_endpoint("proxies", n[0].as_str()),
                body: Some(selection_body(n[1].as_str())),
                slow: false,
                reply: Reply::Unit,
            },
        ),
        ApiOperation::GetProxyProvider => plain_request(
            "GET",
            named_endpoint("providers/proxies", n[0].as_str()),
            Reply::Json,
        ),
        ApiOperation::UpdateProxyProvider => plain_request(
            "PUT",
            named_endpoint("providers/proxies", n[0].as_str()),
            Reply::Unit,
        ),
        ApiOperation::HealthcheckProxyProvider => {
            let e = named_endpoint("providers/proxies", n[0].as_str());
            plain_request("GET", concat(e.as_str(), "/healthcheck"), Reply::Json)
        },
        ApiOperation::GetProxyProviderProxy => plain_request(
            "GET",
            provider_proxy_endpoint(n[0].as_str(), n[1].as_str()),
            Reply::Json,
        ),
        ApiOperation::HealthcheckProxyProviderProxy => plain_request(
            "GET",
            provider_proxy_check_endpoint(n[0].as_str(), n[1].as_str(), test_url, timeout),
            Reply::Delay,
        ),
        ApiOperation::UpdateRuleProvider => plain_request(
            "PUT",
            named_endpoint("providers/rules", n[0].as_str()),
            Reply::Unit,
        ),
        _ => plain_request("DELETE", concat("connections/", n[0].as_str()), Reply::Unit),
    }
}

fn one(a: String) -> (r: Vec<String>)
    ensures
        texts(r@) == seq![a@],
        r@.len() == 1,
{
    let r = vec![a];
    assert(texts(r@) =~= seq![a@]);
    r
}

fn two(a: String, b: String) -> (r: Vec<String>)
    ensures
        texts(r@) == seq![a@, b@],
        r@.len() == 2,
{
    let r = vec![a, b];
    assert(texts(r@) =~= seq![a@, b@]);
    r
}

/// The plan of an operation that names things; see [`named_plan`].
fn named_plan_of(op: ApiOperation, params: &ApiParams, test_url: &str, timeout: u64) -> (r: ApiPlan)
    requires
        names_needed(op) > 0,
    ensures
        plan_view(r) == named_plan(op, *params, test_url@, timeout),
{
    match op {
        ApiOperation::GetGroup | ApiOperation::GetGroupDelay | ApiOperation::ClearProxyFixed => match given_text(
            &params.group_name,
        ) {
            Some(g) => named_request_of(op, params, &one(g), test_url, timeout),
            None => ApiPlan::Lookup(Lookup::Group),
        },
        ApiOperation::GetProxy | ApiOperation::GetProxyDelay => match given_text(&params.proxy_name) {
            Some(x) => named_request_of(op, params, &one(x), test_url, timeout),
            None => ApiPlan::Lookup(Lookup::Proxy),
        },
        ApiOperation::SelectProxy => match (given_text(&params.group_name), given_text(&params.proxy_name)) {
            (Some(g), Some(x)) => named_request_of(op, params, &two(g, x), test_url, timeout),
            (Some(_), None) => ApiPlan::Done(owned("ERR proxy name is required with a manual group")),
            (None, Some(_)) => ApiPlan::Done(owned("ERR group name is required with a manual proxy")),
            (None, None) => ApiPlan::Lookup(Lookup::SelectorMember),
        },
        ApiOperation::GetProxyProvider | ApiOperation::UpdateProxyProvider
        | ApiOperation::HealthcheckProxyProvider => match given_text(&params.proxy_provider) {
            Some(v) => named_request_of(op, params, &one(v), test_url, timeout),
            None => ApiPlan::Lookup(Lookup::ProxyProvider),
        },
        ApiOperation::GetProxyProviderProxy | ApiOperation::HealthcheckProxyProviderProxy => match (
            given_text(&params.proxy_provider),
            given_text(&params.provider_proxy),
        ) {
            (Some(v), Some(x)) => named_request_of(op, params, &two(v, x), test_url, timeout),
            (Some(v), None) => ApiPlan::Lookup(Lookup::ProviderProxy { provider: v }),
            (None, _) => ApiPlan::Lookup(Lookup::ProxyProvider),
        },
        ApiOperation::UpdateRuleProvider => match given_text(&params.rule_provider) {
            Some(v) => named_request_of(op, params, &one(v), test_url, timeout),
            None => ApiPlan::Lookup(Lookup::RuleProvider),
        },
        _ => match given_text(&params.connection_id) {
            Some(id) => named_request_of(op, params, &one(id), test_url, timeout),
            None => ApiPlan::Lookup(Lookup::Connection),
        },
    }
}

/// The plan of an operation that reads a parameter first; see
/// [`checked_plan`].
fn checked_plan_of(op: ApiOperation, params: &ApiParams) -> (r: ApiPlan)
    requires
        is_checked(op),
    ensures
        checked_plan(op, *params, plan_view(r)),
{
    match op {
        ApiOperation::PatchConfigs => match parse_json(params.config_patch_json.as_str()) {
            Err(m) => ApiPlan::Done(m),
            Ok(_) => ApiPlan::Request(
                ApiRequest {
                    method: owned("PATCH"),
                    endpoint: owned("configs"),
                    body: Some(params.config_patch_json.clone()),
                    slow: false,
                    reply: Reply::Json,
                },
            ),
        },
        ApiOperation::PutStorage => match parse_json(params.storage_value_json.as_str()) {
            Err(m) => ApiPlan::Done(m),
            Ok(_) => ApiPlan::Request(
                ApiRequest {
                    method: owned("PUT"),
                    endpoint: named_endpoint("storage", params.storage_key.as_str()),
                    body: Some(params.storage_value_json.clone()),
                    slow: false,
                    reply: Reply::Unit,
                },
            ),
        },
        ApiOperation::DisableRules => match parse_rules_disable(params.rules_disable_json.as_str()) {
            Err(m) => ApiPlan::Done(m),
            Ok(rules) => ApiPlan::Request(
                ApiRequest {
                    method: owned("PATCH"),
                    endpoint: owned("rules/disable"),
                    body: Some(rules_json(&rules)),
                    slow: false,
                    reply: Reply::Unit,
                },
            ),
        },
        _ => {
            let reply = match op {
                ApiOperation::ConnectionsWs => Reply::Ws,
                _ => Reply::Text,
            };
            match parse_optional_u64(params.connection_interval.as_str(), "interval") {
                Ok(interval) => plain_request("GET", connections_endpoint(interval), reply),
                Err(m) => {
                    proof {
                        reveal_strlit("interval");
                        assert("ERR invalid "@ + "interval"@ + ": "@ =~= "ERR invalid interval: "@) by {
                            reveal_strlit("ERR invalid ");
                            reveal_strlit(": ");
                            reveal_strlit("ERR invalid interval: ");
                        }
                    }
                    ApiPlan::Done(m)
                },
            }
        },
    }
}

/// The plan of an operation that needs neither a lookup nor a check; see
/// [`direct_plan`].
#[verifier::rlimit(40)]
fn direct_plan_of(op: ApiOperation, params: &ApiParams) -> (r: ApiPlan)
    requires
        names_needed(op) == 0,
        !is_checked(op),
    ensures
        direct_plan(op, *params, plan_view(r)),
{
    match op {
        ApiOperation::Version => plain_request("GET", owned("version"), Reply::Text),
        ApiOperation::Logs => plain_request(
            "GET",
            logs_endpoint(opt_str(params.log_level.as_str()), log_format_structured(params)),
            Reply::Stream,
        ),
        ApiOperation::LogsWs => plain_request(
            "GET",
            logs_endpoint(opt_str(params.log_level.as_str()), log_format_structured(params)),
            Reply::Ws,
        ),
        ApiOperation::Traffic => plain_request("GET", owned("traffic"), Reply::Stream),
        ApiOperation::TrafficWs => plain_request("GET", owned("traffic"), Reply::Ws),
        ApiOperation::Memory => plain_request("GET", owned("memory"), Reply::Stream),
        ApiOperation::MemoryWs => plain_request("GET", owned("memory"), Reply::Ws),
        ApiOperation::FlushFakeIpCache => plain_request("POST", owned("cache/fakeip/flush"), Reply::Unit),
        ApiOperation::FlushDnsCache => plain_request("POST", owned("cache/dns/flush"), Reply::Unit),
        ApiOperation::GetConfigs => plain_request("GET", owned("configs"), Reply::Text),
        ApiOperation::ReloadConfigs => {
            let fields = vec![(owned("path"), params.config_path.clone())];
            let ghost fv = fields@.map_values(|f: (String, String)| (f.0@, f.1@));
            assert(fv =~= seq![("path"@, params.config_path@)]);
            let body = strings_json(fields);
            ApiPlan::Request(
                ApiRequest {
                    method: owned("PUT"),
                    endpoint: owned(reload_endpoint(parse_bool(params.config_force.as_str()))),
                    body: Some(body),
                    slow: false,
                    reply: Reply::Unit,
                },
            )
        },
        ApiOperation::UpdateGeo => ApiPlan::Request(
            ApiRequest { method: owned("POST"), endpoint: owned("configs/geo"), body: None, slow: true, reply: Reply::Unit },
        ),
        ApiOperation::Restart => {
            let fields = vec![(owned("path"), params.payload_path.clone()), (owned("payload"), params.payload.clone())];
            let ghost fv = fields@.map_values(|f: (String, String)| (f.0@, f.1@));
            assert(fv =~= seq![("path"@, params.payload_path@), ("payload"@, params.payload@)]);
            let body = strings_json(fields);
            ApiPlan::Request(
                ApiRequest { method: owned("POST"), endpoint: owned("restart"), body: Some(body), slow: false, reply: Reply::Unit },
            )
        },
        ApiOperation::Upgrade => plain_request(
            "POST",
            upgrade_endpoint(opt_str(params.upgrade_channel.as_str()), parse_bool(params.upgrade_force.as_str())),
            Reply::Unit,
        ),
        ApiOperation::UpgradeUi => plain_request("POST", owned("upgrade/ui"), Reply::Unit),
        ApiOperation::UpgradeGeo => ApiPlan::Request(
            ApiRequest { method: owned("POST"), endpoint: owned("upgrade/geo"), body: None, slow: true, reply: Reply::Unit },
        ),
        ApiOperation::GetGroups => plain_request("GET", owned("group"), Reply::Json),
        ApiOperation::GetProxies => plain_request("GET", owned("proxies"), Reply::Text),
        ApiOperation::GetProxyProviders => plain_request("GET", owned("providers/proxies"), Reply::Json),
        ApiOperation::GetRules => plain_request("GET", owned("rules"), Reply::Text),
        ApiOperation::GetRuleProviders => plain_request("GET", owned("providers/rules"), Reply::Json),
        ApiOperation::CloseConnections => plain_request("DELETE", owned("connections"), Reply::Unit),
        ApiOperation::DnsQuery => plain_request(
            "GET",
            dns_query_endpoint(params.dns_name.as_str(), params.dns_type.as_str()),
            Reply::Json,
        ),
        ApiOperation::GetStorage => plain_request("GET", named_endpoint("storage", params.storage_key.as_str()), Reply::Json),
        ApiOperation::DeleteStorage => plain_request(
            "DELETE",
            named_endpoint("storage", params.storage_key.as_str()),
            Reply::Unit,
        ),
        ApiOperation::DebugGc => plain_request("PUT", owned("debug/gc"), Reply::Unit),
        ApiOperation::DebugPprof => plain_request("GET", owned("debug/pprof"), Reply::Text),
        _ => {
            let profile = match opt_str(params.pprof_profile.as_str()) {
                Some(x) => x,
                None => "heap",
            };
            plain_request("GET", pprof_endpoint(profile, parse_bool(params.pprof_raw.as_str())), Reply::Text)
        },
    }
}

/// What operation `op` with parameters `params` asks of a controller of
/// `kind` first, testing delays against `test_url` within `timeout`
/// milliseconds; see [`planned`].
pub fn api_request_plan(op: ApiOperation, params: &ApiParams, kind: ControllerKind, test_url: &str, timeout: u64) -> (r:
    ApiPlan)
    ensures
        planned(op, *params, kind, test_url@, timeout, plan_view(r)),
{
    if let Some(message) = unsupported_message(op, kind) {
        return ApiPlan::Done(message);
    }
    if op.names_count() > 0 {
        named_plan_of(op, params, test_url, timeout)
    } else if op.reads_parameter_first() {
        checked_plan_of(op, params)
    } else {
        direct_plan_of(op, params)
    }
}

impl ApiOperation {
    /// How many names the operation takes; see [`names_needed`].
    pub fn names_count(self) -> (r: usize)
        ensures
            r == names_needed(self),
    {
        match self {
            ApiOperation::SelectProxy | ApiOperation::GetProxyProviderProxy
            | ApiOperation::HealthcheckProxyProviderProxy => 2,
            ApiOperation::GetGroup | ApiOperation::GetGroupDelay | ApiOperation::ClearProxyFixed
            | ApiOperation::GetProxy | ApiOperation::GetProxyDelay | ApiOperation::GetProxyProvider
            | ApiOperation::UpdateProxyProvider | ApiOperation::HealthcheckProxyProvider
            | ApiOperation::UpdateRuleProvider | ApiOperation::CloseConnection => 1,
            _ => 0,
        }
    }

    /// Whether the operation reads a parameter before it goes out; see
    /// [`is_checked`].
    pub fn reads_parameter_first(self) -> (r: bool)
        ensures
            r == is_checked(self),
    {
        match self {
            ApiOperation::PatchConfigs | ApiOperation::PutStorage | ApiOperation::DisableRules
            | ApiOperation::GetConnections | ApiOperation::ConnectionsWs => true,
            _ => false,
        }
    }
}

/// The lookups that operation `op` can ask for; see [`named_plan`].
pub open spec fn lookup_fits(op: ApiOperation, l: LookupView) -> bool {
    match l {
        LookupView::Group => op is GetGroup || op is GetGroupDelay || op is ClearProxyFixed,
        LookupView::Proxy => op is GetProxy || op is GetProxyDelay,
        LookupView::SelectorMember => op is SelectProxy,
        LookupView::ProxyProvider => op is GetProxyProvider || op is UpdateProxyProvider
            || op is HealthcheckProxyProvider || op is GetProxyProviderProxy || op is HealthcheckProxyProviderProxy,
        LookupView::ProviderProxy(_) => op is GetProxyProviderProxy || op is HealthcheckProxyProviderProxy,
        LookupView::RuleProvider => op is UpdateRuleProvider,
        LookupView::Connection => op is CloseConnection,
    }
}

/// `e` reads `ERR` at its start.
pub open spec fn marked_error(e: Seq<char>) -> bool {
    e.len() >= 3 && e.take(3) == "ERR"@
}

/// The answer when a lookup failed with `e`: `ERR ` and the error, or the
/// error itself when it is marked already, for the lookups of groups,
/// proxies and providers.
pub open spec fn lookup_error(l: LookupView, e: Seq<char>) -> Seq<char> {
    match l {
        LookupView::SelectorMember | LookupView::Connection => "ERR "@ + e,
        _ => if marked_error(e) {
            e
        } else {
            "ERR "@ + e
        },
    }
}

/// The answer when a lookup found nothing.
pub open spec fn lookup_missing(l: LookupView) -> Seq<char> {
    match l {
        LookupView::Group => "ERR no proxy group found"@,
        LookupView::Proxy => "ERR no proxy found"@,
        LookupView::SelectorMember => "ERR no selector group with members found"@,
        LookupView::ProxyProvider => "ERR no proxy provider found"@,
        LookupView::ProviderProxy(_) => "ERR no proxy provider proxy found"@,
        LookupView::RuleProvider => "ERR no rule provider found"@,
        LookupView::Connection => "ERR no active connection"@,
    }
}

/// How many names a lookup gives: a group and its member, or one name.
pub open spec fn lookup_count(l: LookupView) -> nat {
    match l {
        LookupView::SelectorMember => 2,
        _ => 1,
    }
}

/// What operation `op` asks for after lookup `l` gave `found`: the names
/// found (fewer than it gives meaning nothing was found) or the error of
/// the lookup. A proxy provider found for an operation on one of its
/// proxies leads to the lookup of that proxy unless it was typed in.
pub open spec fn after_lookup(
    op: ApiOperation,
    p: ApiParams,
    l: LookupView,
    found: Result<Seq<Seq<char>>, Seq<char>>,
    test_url: Seq<char>,
    timeout: u64,
) -> PlanView {
    match found {
        Err(e) => PlanView::Done(lookup_error(l, e)),
        Ok(names) => if names.len() < lookup_count(l) {
            PlanView::Done(lookup_missing(l))
        } else {
            match l {
                LookupView::SelectorMember => named_request(op, p, seq![names[0], names[1]], test_url, timeout),
                LookupView::ProxyProvider => if op is GetProxyProviderProxy || op is HealthcheckProxyProviderProxy {
                    match given(p.provider_proxy) {
                        Some(x) => named_request(op, p, seq![names[0], x], test_url, timeout),
                        None => PlanView::Lookup(LookupView::ProviderProxy(names[0])),
                    }
                } else {
                    named_request(op, p, seq![names[0]], test_url, timeout)
                },
                LookupView::ProviderProxy(v) => named_request(op, p, seq![v, names[0]], test_url, timeout),
                _ => named_request(op, p, seq![names[0]], test_url, timeout),
            }
        },
    }
}

fn is_marked(e: &str) -> (r: bool)
    ensures
        r == marked_error(e@),
{
    proof {
        reveal_strlit("ERR");
    }
    if e.unicode_len() >= 3 && e.get_char(0) == 'E' && e.get_char(1) == 'R' && e.get_char(2) == 'R' {
        assert(e@.take(3) =~= "ERR"@);
        true
    } else {
        proof {
            if e@.len() >= 3 && e@.take(3) == "ERR"@ {
                assert(e@.take(3)[0] == e@[0]);
                assert(e@.take(3)[1] == e@[1]);
                assert(e@.take(3)[2] == e@[2]);
            }
        }
        false
    }
}

/// What operation `op` asks for after `lookup` gave `found`; see
/// [`after_lookup`].
pub fn api_after_lookup(
    op: ApiOperation,
    params: &ApiParams,
    lookup: &Lookup,
    found: Result<Vec<String>, String>,
    test_url: &str,
    timeout: u64,
) -> (r: ApiPlan)
    requires
        lookup_fits(op, lookup_view(*lookup)),
    ensures
        plan_view(r) == after_lookup(op, *params, lookup_view(*lookup), match found {
            Ok(v) => Ok(texts(v@)),
            Err(e) => Err(e@),
        }, test_url@, timeout),
{
    let names = match found {
        Err(e) => {
            let marked = is_marked(e.as_str());
            return match lookup {
                Lookup::SelectorMember | Lookup::Connection => ApiPlan::Done(concat("ERR ", e.as_str())),
                _ => if marked {
                    ApiPlan::Done(e)
                } else {
                    ApiPlan::Done(concat("ERR ", e.as_str()))
                },
            };
        },
        Ok(names) => names,
    };
    let needed: usize = match lookup {
        Lookup::SelectorMember => 2,
        _ => 1,
    };
    if names.len() < needed {
        let missing = match lookup {
            Lookup::Group => "ERR no proxy group found",
            Lookup::Proxy => "ERR no proxy found",
            Lookup::SelectorMember => "ERR no selector group with members found",
            Lookup::ProxyProvider => "ERR no proxy provider found",
            Lookup::ProviderProxy { .. } => "ERR no proxy provider proxy found",
            Lookup::RuleProvider => "ERR no rule provider found",
            Lookup::Connection => "ERR no active connection",
        };
        return ApiPlan::Done(owned(missing));
    }
    let ghost t = texts(names@);
    assert(t[0] == names@[0]@);
    match lookup {
        Lookup::SelectorMember => {
            assert(t[1] == names@[1]@);
            named_request_of(op, params, &two(names[0].clone(), names[1].clone()), test_url, timeout)
        },
        Lookup::ProxyProvider => match op {
            ApiOperation::GetProxyProviderProxy | ApiOperation::HealthcheckProxyProviderProxy => match given_text(
                &params.provider_proxy,
            ) {
                Some(x) => named_request_of(op, params, &two(names[0].clone(), x), test_url, timeout),
                None => ApiPlan::Lookup(Lookup::ProviderProxy { provider: names[0].clone() }),
            },
            _ => named_request_of(op, params, &one(names[0].clone()), test_url, timeout),
        },
        Lookup::ProviderProxy { provider } => named_request_of(
            op,
            params,
            &two(provider.clone(), names[0].clone()),
            test_url,
            timeout,
        ),
        _ => named_request_of(op, params, &one(names[0].clone()), test_url, timeout),
    }
}

} // verus!
