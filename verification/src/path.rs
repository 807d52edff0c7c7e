//! Paths and query strings: the previews the control pages show for an
//! operation with the parameters entered so far.

use vstd::prelude::*;
use vstd::utf8::encode_utf8;

use crate::api::{op_path, ApiOperation, ApiParams};
use crate::text::{ascii_lower, concat, eq_ignore_ascii_case, owned, str_eq, to_ascii_lowercase, trim, trim_spec};

verus! {

/// Upper-case hexadecimal digit of `d`.
pub open spec fn hex_upper(d: u8) -> char {
    if d < 10 {
        ((48 + d) as u8) as char
    } else {
        ((55 + d) as u8) as char
    }
}

/// `%` and the two upper-case hexadecimal digits of `b`.
pub open spec fn percent_byte(b: u8) -> Seq<char> {
    seq!['%', hex_upper(b / 16), hex_upper(b % 16)]
}

/// Bytes that `application/x-www-form-urlencoded` serialisation keeps.
pub open spec fn form_unchanged(b: u8) -> bool {
    b == 42 || b == 45 || b == 46 || (48 <= b && b <= 57) || (65 <= b && b <= 90) || b == 95 || (
    97 <= b && b <= 122)
}

/// Form serialisation of bytes: kept bytes as they are, space as `+`, every
/// other byte as `%XX`.
pub open spec fn form_encode(bytes: Seq<u8>) -> Seq<char>
    decreases bytes.len(),
{
    if bytes.len() == 0 {
        Seq::empty()
    } else {
        let b = bytes[0];
        let head = if form_unchanged(b) {
            seq![b as char]
        } else if b == 32 {
            seq!['+']
        } else {
            percent_byte(b)
        };
        head + form_encode(bytes.drop_first())
    }
}

/// The form serialisation of the UTF-8 bytes of a string.
pub open spec fn encoded_spec(s: Seq<char>) -> Seq<char> {
    form_encode(encode_utf8(s))
}

/// Serialises a string for a query value with
/// `url::form_urlencoded::byte_serialize`: ASCII letters, digits and `*-._`
/// stay, space becomes `+`, and every other byte of the UTF-8 text becomes
/// `%` and two upper-case hexadecimal digits.
#[verifier::external_body]
pub(crate) fn encoded(value: &str) -> (r: String)
    ensures
        r@ == encoded_spec(value@),
{
    url::form_urlencoded::byte_serialize(value.as_bytes()).collect()
}

/// Bytes that percent-encoding keeps: ASCII letters, digits and `-._~`.
pub open spec fn url_unreserved(b: u8) -> bool {
    b == 45 || b == 46 || (48 <= b && b <= 57) || (65 <= b && b <= 90) || b == 95 || (97 <= b
        && b <= 122) || b == 126
}

/// Percent-encoding of bytes: kept bytes as they are, every other byte as
/// `%XX`.
pub open spec fn percent_encode(bytes: Seq<u8>) -> Seq<char>
    decreases bytes.len(),
{
    if bytes.len() == 0 {
        Seq::empty()
    } else {
        let b = bytes[0];
        let head = if url_unreserved(b) {
            seq![b as char]
        } else {
            percent_byte(b)
        };
        head + percent_encode(bytes.drop_first())
    }
}

/// The percent-encoding of the UTF-8 bytes of a string.
pub open spec fn percent_encoded_spec(s: Seq<char>) -> Seq<char> {
    percent_encode(encode_utf8(s))
}

/// Encodes a path segment or query value with `urlencoding::encode`: ASCII
/// letters, digits and `-._~` stay, and every other byte of the UTF-8 text
/// becomes `%` and two upper-case hexadecimal digits.
#[verifier::external_body]
pub(crate) fn percent_encoded(value: &str) -> (r: String)
    ensures
        r@ == percent_encoded_spec(value@),
{
    urlencoding::encode(value).into_owned()
}

/// `None` for an empty string.
pub open spec fn opt_str_spec(value: Seq<char>) -> Option<Seq<char>> {
    if value.len() == 0 {
        None
    } else {
        Some(value)
    }
}

/// The value, or `None` when it is empty.
pub fn opt_str(value: &str) -> (r: Option<&str>)
    ensures
        match r {
            Some(v) => v@ == value@ && value@.len() > 0,
            None => value@.len() == 0,
        },
{
    if value.unicode_len() == 0 {
        None
    } else {
        Some(value)
    }
}

/// Texts read as "yes": `1`, `true`, `yes` or `on`, in any ASCII letter
/// case and with white space around.
pub open spec fn bool_text(value: Seq<char>) -> bool {
    let t = ascii_lower(trim_spec(value));
    t == "1"@ || t == "true"@ || t == "yes"@ || t == "on"@
}

/// Reads a yes/no parameter; see [`bool_text`].
pub fn parse_bool(value: &str) -> (r: bool)
    ensures
        r == bool_text(value@),
{
    let t = trim(value);
    let l = to_ascii_lowercase(t.as_str());
    let s = l.as_str();
    str_eq(s, "1") || str_eq(s, "true") || str_eq(s, "yes") || str_eq(s, "on")
}

/// `/` and the endpoint.
pub fn prefixed(endpoint: &str) -> (r: String)
    ensures
        r@ == "/"@ + endpoint@,
{
    concat("/", endpoint)
}

/// The value, or `<placeholder>` when the value is empty.
pub open spec fn name_or_placeholder_spec(value: Seq<char>, placeholder: Seq<char>) -> Seq<char> {
    if value.len() == 0 {
        "<"@ + placeholder + ">"@
    } else {
        value
    }
}

pub fn name_or_placeholder(value: &str, placeholder: &str) -> (r: String)
    ensures
        r@ == name_or_placeholder_spec(value@, placeholder@),
{
    match opt_str(value) {
        Some(v) => owned(v),
        None => {
            let mut r = concat("<", placeholder);
            r.append(">");
            r
        },
    }
}

/// `key=value` with the value serialised.
pub open spec fn pair_text(pair: (String, String)) -> Seq<char> {
    pair.0@ + "="@ + encoded_spec(pair.1@)
}

/// The pairs joined by `&`.
pub open spec fn query_text(pairs: Seq<(String, String)>) -> Seq<char>
    decreases pairs.len(),
{
    if pairs.len() == 0 {
        Seq::empty()
    } else if pairs.len() == 1 {
        pair_text(pairs[0])
    } else {
        query_text(pairs.drop_last()) + "&"@ + pair_text(pairs.last())
    }
}

/// `base`, and `?` with the query when there are pairs.
pub open spec fn query_endpoint_spec(base: Seq<char>, pairs: Seq<(String, String)>) -> Seq<char> {
    if pairs.len() == 0 {
        base
    } else {
        base + "?"@ + query_text(pairs)
    }
}

/// An endpoint with its query string.
pub fn query_endpoint(base: &str, query: &Vec<(String, String)>) -> (r: String)
    ensures
        r@ == query_endpoint_spec(base@, query@),
{
    let mut r = owned(base);
    if query.len() == 0 {
        return r;
    }
    r.append("?");
    let ghost start = r@;
    let mut i: usize = 0;
    while i < query.len()
        invariant
            i <= query@.len(),
            query@.len() > 0,
            r@ == start + query_text(query@.subrange(0, i as int)),
        decreases query@.len() - i,
    {
        let ghost before = query@.subrange(0, i as int);
        if i > 0 {
            r.append("&");
        }
        r.append(query[i].0.as_str());
        r.append("=");
        let e = encoded(query[i].1.as_str());
        r.append(e.as_str());
        proof {
            let now = query@.subrange(0, i + 1);
            assert(now.drop_last() =~= before);
            assert(now.last() == query@[i as int]);
            if i == 0 {
                assert(query_text(before) =~= Seq::<char>::empty());
            }
        }
        i = i + 1;
    }
    assert(query@.subrange(0, query@.len() as int) =~= query@);
    r
}

/// Logs are asked for in the structured format when the format parameter is
/// `structured` in any ASCII letter case, or reads as "yes".
pub open spec fn structured_logs(p: ApiParams) -> bool {
    ascii_lower(p.log_format@) == ascii_lower("structured"@) || bool_text(p.log_format@)
}

pub fn log_format_structured(params: &ApiParams) -> (r: bool)
    ensures
        r == structured_logs(*params),
{
    eq_ignore_ascii_case(params.log_format.as_str(), "structured") || parse_bool(
        params.log_format.as_str(),
    )
}

/// The query-string part of `pairs` as the logs endpoint sends it.
pub open spec fn log_endpoint_spec(p: ApiParams) -> Seq<char> {
    let level = p.log_level@.len() > 0;
    let structured = structured_logs(p);
    let level_text = "level="@ + encoded_spec(p.log_level@);
    let format_text = "format="@ + encoded_spec("structured"@);
    if level && structured {
        "logs?"@ + level_text + "&"@ + format_text
    } else if level {
        "logs?"@ + level_text
    } else if structured {
        "logs?"@ + format_text
    } else {
        "logs"@
    }
}

/// The logs endpoint with its query.
pub fn log_endpoint(params: &ApiParams) -> (r: String)
    ensures
        r@ == log_endpoint_spec(*params),
{
    proof {
        reveal_strlit("logs");
        reveal_strlit("?");
        reveal_strlit("logs?");
    }
    let level = params.log_level.unicode_len() > 0;
    let structured = log_format_structured(params);
    let mut r = owned("logs");
    if level || structured {
        r.append("?");
    }
    if level {
        r.append("level=");
        let e = encoded(params.log_level.as_str());
        r.append(e.as_str());
    }
    if structured {
        if level {
            r.append("&");
        }
        r.append("format=");
        let e = encoded("structured");
        r.append(e.as_str());
    }
    r
}

/// The connections endpoint with the refresh interval when one is given.
pub open spec fn connections_endpoint_spec(p: ApiParams) -> Seq<char> {
    if p.connection_interval@.len() > 0 {
        "connections?interval="@ + encoded_spec(p.connection_interval@)
    } else {
        "connections"@
    }
}

pub fn connections_endpoint(params: &ApiParams) -> (r: String)
    ensures
        r@ == connections_endpoint_spec(*params),
{
    proof {
        reveal_strlit("connections");
        reveal_strlit("?interval=");
        reveal_strlit("connections?interval=");
    }
    let mut r = owned("connections");
    if params.connection_interval.unicode_len() > 0 {
        r.append("?interval=");
        let e = encoded(params.connection_interval.as_str());
        r.append(e.as_str());
    }
    r
}

/// The pprof endpoint of the chosen profile (`heap` when none is given), raw
/// when asked for.
pub open spec fn pprof_endpoint_spec(p: ApiParams) -> Seq<char> {
    let profile = if p.pprof_profile@.len() > 0 {
        p.pprof_profile@
    } else {
        "heap"@
    };
    if bool_text(p.pprof_raw@) {
        "debug/pprof/"@ + profile + "?raw=true"@
    } else {
        "debug/pprof/"@ + profile
    }
}

pub fn pprof_profile_endpoint(params: &ApiParams) -> (r: String)
    ensures
        r@ == pprof_endpoint_spec(*params),
{
    let mut r = owned("debug/pprof/");
    match opt_str(params.pprof_profile.as_str()) {
        Some(p) => r.append(p),
        None => r.append("heap"),
    }
    if parse_bool(params.pprof_raw.as_str()) {
        r.append("?raw=true");
    }
    r
}

/// The preview of a delay test path.
pub open spec fn delay_preview_spec(prefix: Seq<char>, name: Seq<char>, p: ApiParams) -> Seq<char> {
    let base = "/"@ + prefix + "/"@ + name + "/delay?url=<test-url>&timeout=<timeout>"@;
    if p.expected@.len() > 0 {
        base + "&expected="@ + p.expected@
    } else {
        base
    }
}

pub fn delay_preview_path(prefix: &str, name: String, params: &ApiParams) -> (r: String)
    ensures
        r@ == delay_preview_spec(prefix@, name@, *params),
{
    let mut r = concat("/", prefix);
    r.append("/");
    r.append(name.as_str());
    r.append("/delay?url=<test-url>&timeout=<timeout>");
    if params.expected.unicode_len() > 0 {
        r.append("&expected=");
        r.append(params.expected.as_str());
    }
    r
}

/// The query of an upgrade: the channel when one is given, and `force=true`
/// when forcing.
pub open spec fn upgrade_preview_spec(p: ApiParams) -> Seq<char> {
    let channel = p.upgrade_channel@.len() > 0;
    let force = bool_text(p.upgrade_force@);
    if channel && force {
        "/upgrade?channel="@ + p.upgrade_channel@ + "&force=true"@
    } else if channel {
        "/upgrade?channel="@ + p.upgrade_channel@
    } else if force {
        "/upgrade?force=true"@
    } else {
        "/upgrade"@
    }
}

/// What the path of an operation looks like with the parameters entered so
/// far; placeholders stand for the names the worker looks up itself.
pub open spec fn preview_spec(op: ApiOperation, p: ApiParams) -> Seq<char> {
    match op {
        ApiOperation::ReloadConfigs => if bool_text(p.config_force@) {
            "/configs?force=true"@
        } else {
            "/configs"@
        },
        ApiOperation::Upgrade => upgrade_preview_spec(p),
        ApiOperation::Logs | ApiOperation::LogsWs => "/"@ + log_endpoint_spec(p),
        ApiOperation::GetConnections | ApiOperation::ConnectionsWs => "/"@
            + connections_endpoint_spec(p),
        ApiOperation::GetGroup => "/group/"@ + name_or_placeholder_spec(
            p.group_name@,
            "selected-group"@,
        ),
        ApiOperation::GetGroupDelay => delay_preview_spec(
            "group"@,
            name_or_placeholder_spec(p.group_name@, "selected-group"@),
            p,
        ),
        ApiOperation::GetProxy => "/proxies/"@ + name_or_placeholder_spec(
            p.proxy_name@,
            "selected-proxy"@,
        ),
        ApiOperation::SelectProxy | ApiOperation::ClearProxyFixed => "/proxies/"@
            + name_or_placeholder_spec(p.group_name@, "selected-group"@),
        ApiOperation::GetProxyDelay => delay_preview_spec(
            "proxies"@,
            name_or_placeholder_spec(p.proxy_name@, "selected-proxy"@),
            p,
        ),
        ApiOperation::GetProxyProvider | ApiOperation::UpdateProxyProvider => "/providers/proxies/"@
            + name_or_placeholder_spec(p.proxy_provider@, "provider"@),
        ApiOperation::HealthcheckProxyProvider => "/providers/proxies/"@
            + name_or_placeholder_spec(p.proxy_provider@, "provider"@) + "/healthcheck"@,
        ApiOperation::GetProxyProviderProxy => "/providers/proxies/"@ + name_or_placeholder_spec(
            p.proxy_provider@,
            "provider"@,
        ) + "/"@ + name_or_placeholder_spec(p.provider_proxy@, "proxy"@),
        ApiOperation::HealthcheckProxyProviderProxy => "/providers/proxies/"@
            + name_or_placeholder_spec(p.proxy_provider@, "provider"@) + "/"@
            + name_or_placeholder_spec(p.provider_proxy@, "proxy"@)
            + "/healthcheck?url=<test-url>&timeout=<timeout>"@,
        ApiOperation::UpdateRuleProvider => "/providers/rules/"@ + name_or_placeholder_spec(
            p.rule_provider@,
            "provider"@,
        ),
        ApiOperation::CloseConnection => "/connections/"@ + name_or_placeholder_spec(
            p.connection_id@,
            "first-active-id"@,
        ),
        ApiOperation::DnsQuery => "/dns/query?name="@ + p.dns_name@ + "&type="@ + p.dns_type@,
        ApiOperation::GetStorage | ApiOperation::PutStorage | ApiOperation::DeleteStorage => "/storage/"@
            + p.storage_key@,
        ApiOperation::DebugPprofHeap => "/"@ + pprof_endpoint_spec(p),
        _ => op_path(op),
    }
}

impl ApiOperation {
    /// The path preview of this operation with `params`; see [`preview_spec`].
    pub fn preview_path(self, params: &ApiParams) -> (r: String)
        ensures
            r@ == preview_spec(self, *params),
    {
        match self {
            ApiOperation::ReloadConfigs => {
                if parse_bool(params.config_force.as_str()) {
                    owned("/configs?force=true")
                } else {
                    owned("/configs")
                }
            },
            ApiOperation::Upgrade => {
                proof {
                    reveal_strlit("/upgrade");
                    reveal_strlit("?channel=");
                    reveal_strlit("/upgrade?channel=");
                    reveal_strlit("?force=true");
                    reveal_strlit("/upgrade?force=true");
                }
                let channel = params.upgrade_channel.unicode_len() > 0;
                let force = parse_bool(params.upgrade_force.as_str());
                let mut r = owned("/upgrade");
                if channel {
                    r.append("?channel=");
                    r.append(params.upgrade_channel.as_str());
                    if force {
                        r.append("&force=true");
                    }
                } else if force {
                    r.append("?force=true");
                }
                r
            },
            ApiOperation::Logs | ApiOperation::LogsWs => {
                let e = log_endpoint(params);
                prefixed(e.as_str())
            },
            ApiOperation::GetConnections | ApiOperation::ConnectionsWs => {
                let e = connections_endpoint(params);
                prefixed(e.as_str())
            },
            ApiOperation::GetGroup => {
                let n = name_or_placeholder(params.group_name.as_str(), "selected-group");
                concat("/group/", n.as_str())
            },
            ApiOperation::GetGroupDelay => {
                let n = name_or_placeholder(params.group_name.as_str(), "selected-group");
                delay_preview_path("group", n, params)
            },
            ApiOperation::GetProxy => {
                let n = name_or_placeholder(params.proxy_name.as_str(), "selected-proxy");
                concat("/proxies/", n.as_str())
            },
            ApiOperation::SelectProxy | ApiOperation::ClearProxyFixed => {
                let n = name_or_placeholder(params.group_name.as_str(), "selected-group");
                concat("/proxies/", n.as_str())
            },
            ApiOperation::GetProxyDelay => {
                let n = name_or_placeholder(params.proxy_name.as_str(), "selected-proxy");
                delay_preview_path("proxies", n, params)
            },
            ApiOperation::GetProxyProvider | ApiOperation::UpdateProxyProvider => {
                let n = name_or_placeholder(params.proxy_provider.as_str(), "provider");
                concat("/providers/proxies/", n.as_str())
            },
            ApiOperation::HealthcheckProxyProvider => {
                let n = name_or_placeholder(params.proxy_provider.as_str(), "provider");
                let mut r = concat("/providers/proxies/", n.as_str());
                r.append("/healthcheck");
                r
            },
            ApiOperation::GetProxyProviderProxy => {
                let n = name_or_placeholder(params.proxy_provider.as_str(), "provider");
                let m = name_or_placeholder(params.provider_proxy.as_str(), "proxy");
                let mut r = concat("/providers/proxies/", n.as_str());
                r.append("/");
                r.append(m.as_str());
                r
            },
            ApiOperation::HealthcheckProxyProviderProxy => {
                let n = name_or_placeholder(params.proxy_provider.as_str(), "provider");
                let m = name_or_placeholder(params.provider_proxy.as_str(), "proxy");
                let mut r = concat("/providers/proxies/", n.as_str());
                r.append("/");
                r.append(m.as_str());
                r.append("/healthcheck?url=<test-url>&timeout=<timeout>");
                r
            },
            ApiOperation::UpdateRuleProvider => {
                let n = name_or_placeholder(params.rule_provider.as_str(), "provider");
                concat("/providers/rules/", n.as_str())
            },
            ApiOperation::CloseConnection => {
                let n = name_or_placeholder(params.connection_id.as_str(), "first-active-id");
                concat("/connections/", n.as_str())
            },
            ApiOperation::DnsQuery => {
                let mut r = concat("/dns/query?name=", params.dns_name.as_str());
                r.append("&type=");
                r.append(params.dns_type.as_str());
                r
            },
            ApiOperation::GetStorage | ApiOperation::PutStorage | ApiOperation::DeleteStorage => {
                concat("/storage/", params.storage_key.as_str())
            },
            ApiOperation::DebugPprofHeap => {
                let e = pprof_profile_endpoint(params);
                prefixed(e.as_str())
            },
            _ => owned(self.path()),
        }
    }
}

} // verus!
