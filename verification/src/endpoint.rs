//! The endpoints of the controller API, relative to the controller URL, with
//! names and values percent-encoded as the requests send them.

use vstd::prelude::*;

use crate::path::{percent_encoded, percent_encoded_spec};
use crate::text::{concat, decimal, owned, u64_to_decimal};

verus! {

/// `prefix`, a slash and the encoded `name`.
pub open spec fn named_spec(prefix: Seq<char>, name: Seq<char>) -> Seq<char> {
    prefix + "/"@ + percent_encoded_spec(name)
}

/// The endpoint of the item `name` under `prefix`, such as a proxy under
/// `proxies` or a provider under `providers/proxies`.
pub fn named_endpoint(prefix: &str, name: &str) -> (r: String)
    ensures
        r@ == named_spec(prefix@, name@),
{
    let a = concat(prefix, "/");
    let e = percent_encoded(name);
    concat(a.as_str(), e.as_str())
}

/// The delay test of the group or proxy `name` under `prefix`.
pub open spec fn delay_spec(
    prefix: Seq<char>,
    name: Seq<char>,
    test_url: Seq<char>,
    timeout: u64,
    expected: Option<Seq<char>>,
) -> Seq<char> {
    let base = named_spec(prefix, name) + "/delay?url="@ + percent_encoded_spec(test_url)
        + "&timeout="@ + decimal(timeout as nat);
    match expected {
        Some(e) => base + "&expected="@ + percent_encoded_spec(e),
        None => base,
    }
}

/// The endpoint that tests the delay of `name` under `prefix` against
/// `test_url`, within `timeout` milliseconds, expecting the status codes
/// `expected` when given.
pub fn delay_endpoint(prefix: &str, name: &str, test_url: &str, timeout: u64, expected: Option<&str>) -> (r: String)
    ensures
        r@ == delay_spec(prefix@, name@, test_url@, timeout, match expected {
            Some(e) => Some(e@),
            None => None,
        }),
{
    let named = named_endpoint(prefix, name);
    let a = concat(named.as_str(), "/delay?url=");
    let u = percent_encoded(test_url);
    let b = concat(a.as_str(), u.as_str());
    let c = concat(b.as_str(), "&timeout=");
    let t = u64_to_decimal(timeout);
    let d = concat(c.as_str(), t.as_str());
    match expected {
        Some(e) => {
            let f = concat(d.as_str(), "&expected=");
            let g = percent_encoded(e);
            concat(f.as_str(), g.as_str())
        },
        None => d,
    }
}

/// The log stream, at `level` when one is given and not empty, and in the
/// structured format when asked for.
pub open spec fn logs_spec(level: Option<Seq<char>>, structured: bool) -> Seq<char> {
    let lv = match level {
        Some(l) => l.len() > 0,
        None => false,
    };
    let level_part = "level="@ + percent_encoded_spec(level.unwrap_or(Seq::empty()));
    if lv && structured {
        "logs?"@ + level_part + "&format=structured"@
    } else if lv {
        "logs?"@ + level_part
    } else if structured {
        "logs?format=structured"@
    } else {
        "logs"@
    }
}

/// The endpoint of the log stream.
pub fn logs_endpoint(level: Option<&str>, structured: bool) -> (r: String)
    ensures
        r@ == logs_spec(match level {
            Some(l) => Some(l@),
            None => None,
        }, structured),
{
    let given = match level {
        Some(l) => l.unicode_len() > 0,
        None => false,
    };
    if given {
        let l = match level {
            Some(l) => l,
            None => "",
        };
        let e = percent_encoded(l);
        let a = concat("logs?level=", e.as_str());
        proof {
            reveal_strlit("logs?level=");
            reveal_strlit("logs?");
            reveal_strlit("level=");
            assert(a@ =~= "logs?"@ + ("level="@ + percent_encoded_spec(l@)));
        }
        if structured {
            concat(a.as_str(), "&format=structured")
        } else {
            a
        }
    } else if structured {
        owned("logs?format=structured")
    } else {
        owned("logs")
    }
}

/// The connection list, refreshed every `interval` milliseconds when given.
pub open spec fn connections_spec(interval: Option<u64>) -> Seq<char> {
    match interval {
        Some(i) => "connections?interval="@ + decimal(i as nat),
        None => "connections"@,
    }
}

/// The endpoint of the connection list.
pub fn connections_endpoint(interval: Option<u64>) -> (r: String)
    ensures
        r@ == connections_spec(interval),
{
    match interval {
        Some(i) => {
            let n = u64_to_decimal(i);
            concat("connections?interval=", n.as_str())
        },
        None => owned("connections"),
    }
}

/// One proxy of a proxy provider.
pub open spec fn provider_proxy_spec(provider: Seq<char>, proxy: Seq<char>) -> Seq<char> {
    named_spec("providers/proxies"@, provider) + "/"@ + percent_encoded_spec(proxy)
}

/// The endpoint of the proxy `proxy` of the provider `provider`.
pub fn provider_proxy_endpoint(provider: &str, proxy: &str) -> (r: String)
    ensures
        r@ == provider_proxy_spec(provider@, proxy@),
{
    let a = named_endpoint("providers/proxies", provider);
    let b = concat(a.as_str(), "/");
    let e = percent_encoded(proxy);
    concat(b.as_str(), e.as_str())
}

/// The health check of one proxy of a provider against `test_url`.
pub open spec fn provider_proxy_check_spec(
    provider: Seq<char>,
    proxy: Seq<char>,
    test_url: Seq<char>,
    timeout: u64,
) -> Seq<char> {
    provider_proxy_spec(provider, proxy) + "/healthcheck?url="@ + percent_encoded_spec(test_url)
        + "&timeout="@ + decimal(timeout as nat)
}

/// The endpoint of the health check of one proxy of a provider.
pub fn provider_proxy_check_endpoint(provider: &str, proxy: &str, test_url: &str, timeout: u64) -> (r:
    String)
    ensures
        r@ == provider_proxy_check_spec(provider@, proxy@, test_url@, timeout),
{
    let a = provider_proxy_endpoint(provider, proxy);
    let b = concat(a.as_str(), "/healthcheck?url=");
    let u = percent_encoded(test_url);
    let c = concat(b.as_str(), u.as_str());
    let d = concat(c.as_str(), "&timeout=");
    let t = u64_to_decimal(timeout);
    concat(d.as_str(), t.as_str())
}

/// A DNS query of `name` for records of `query_type`.
pub open spec fn dns_query_spec(name: Seq<char>, query_type: Seq<char>) -> Seq<char> {
    "dns/query?name="@ + percent_encoded_spec(name) + "&type="@ + percent_encoded_spec(query_type)
}

/// The endpoint of a DNS query.
pub fn dns_query_endpoint(name: &str, query_type: &str) -> (r: String)
    ensures
        r@ == dns_query_spec(name@, query_type@),
{
    let n = percent_encoded(name);
    let a = concat("dns/query?name=", n.as_str());
    let b = concat(a.as_str(), "&type=");
    let t = percent_encoded(query_type);
    concat(b.as_str(), t.as_str())
}

/// A profile of the runtime, raw when asked for.
pub open spec fn pprof_spec(profile: Seq<char>, raw: bool) -> Seq<char> {
    if raw {
        named_spec("debug/pprof"@, profile) + "?raw=true"@
    } else {
        named_spec("debug/pprof"@, profile)
    }
}

/// The endpoint of a runtime profile.
pub fn pprof_endpoint(profile: &str, raw: bool) -> (r: String)
    ensures
        r@ == pprof_spec(profile@, raw),
{
    let a = named_endpoint("debug/pprof", profile);
    if raw {
        concat(a.as_str(), "?raw=true")
    } else {
        a
    }
}

/// An upgrade of the core, from `channel` when given, forced when asked.
pub open spec fn upgrade_spec(channel: Option<Seq<char>>, force: bool) -> Seq<char> {
    match channel {
        Some(c) => if force {
            "upgrade?channel="@ + percent_encoded_spec(c) + "&force=true"@
        } else {
            "upgrade?channel="@ + percent_encoded_spec(c)
        },
        None => if force {
            "upgrade?force=true"@
        } else {
            "upgrade"@
        },
    }
}

/// The endpoint of an upgrade of the core.
pub fn upgrade_endpoint(channel: Option<&str>, force: bool) -> (r: String)
    ensures
        r@ == upgrade_spec(match channel {
            Some(c) => Some(c@),
            None => None,
        }, force),
{
    match channel {
        Some(c) => {
            let e = percent_encoded(c);
            let a = concat("upgrade?channel=", e.as_str());
            if force {
                concat(a.as_str(), "&force=true")
            } else {
                a
            }
        },
        None => if force {
            owned("upgrade?force=true")
        } else {
            owned("upgrade")
        },
    }
}

/// The reload of the configuration file, forced when asked.
pub fn reload_endpoint(force: bool) -> (r: &'static str)
    ensures
        r@ == (if force { "configs?force=true"@ } else { "configs"@ }),
{
    if force {
        "configs?force=true"
    } else {
        "configs"
    }
}

/// The body that selects `proxy` in a group: the name is put between the
/// quotes as it is.
pub fn selection_body(proxy: &str) -> (r: String)
    ensures
        r@ == "{\"name\":\""@ + proxy@ + "\"}"@,
{
    let a = concat("{\"name\":\"", proxy);
    concat(a.as_str(), "\"}")
}

} // verus!
