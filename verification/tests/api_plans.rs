use mihomoctl::api::{ApiOperation, ApiParams};
use mihomoctl::api_plan::{api_after_lookup, api_request_plan, ApiPlan, ApiRequest, Lookup, Reply};
use mihomoctl::kind::ControllerKind;

fn plan(op: ApiOperation, params: &ApiParams) -> ApiPlan {
    api_request_plan(op, params, ControllerKind::Mihomo, "http://t/204", 5000)
}

fn request(method: &str, endpoint: &str, body: Option<&str>, slow: bool, reply: Reply) -> ApiPlan {
    ApiPlan::Request(ApiRequest {
        method: method.to_owned(),
        endpoint: endpoint.to_owned(),
        body: body.map(str::to_owned),
        slow,
        reply,
    })
}

#[test]
fn fixed_operations_plan_their_documented_requests() {
    let p = ApiParams::default();
    assert_eq!(plan(ApiOperation::Version, &p), request("GET", "version", None, false, Reply::Text));
    assert_eq!(plan(ApiOperation::FlushFakeIpCache, &p), request("POST", "cache/fakeip/flush", None, false, Reply::Unit));
    assert_eq!(plan(ApiOperation::UpdateGeo, &p), request("POST", "configs/geo", None, true, Reply::Unit));
    assert_eq!(plan(ApiOperation::MemoryWs, &p), request("GET", "memory", None, false, Reply::Ws));
    assert_eq!(plan(ApiOperation::DebugGc, &p), request("PUT", "debug/gc", None, false, Reply::Unit));
    assert_eq!(
        plan(ApiOperation::DnsQuery, &p),
        request("GET", "dns/query?name=example.com&type=A", None, false, Reply::Json)
    );
    assert_eq!(
        plan(ApiOperation::DebugPprofHeap, &p),
        request("GET", "debug/pprof/heap?raw=true", None, false, Reply::Text)
    );
}

#[test]
fn bodies_are_json_objects() {
    let mut p = ApiParams::default();
    p.config_path = "/tmp/a.yaml".to_owned();
    p.config_force = "true".to_owned();
    assert_eq!(
        plan(ApiOperation::ReloadConfigs, &p),
        request("PUT", "configs?force=true", Some(r#"{"path":"/tmp/a.yaml"}"#), false, Reply::Unit)
    );
    assert_eq!(
        plan(ApiOperation::Restart, &p),
        request("POST", "restart", Some(r#"{"path":"","payload":""}"#), false, Reply::Unit)
    );
    p.rules_disable_json = r#"{"0":true,"1":false}"#.to_owned();
    assert_eq!(
        plan(ApiOperation::DisableRules, &p),
        request("PATCH", "rules/disable", Some(r#"{"0":true,"1":false}"#), false, Reply::Unit)
    );
    p.config_patch_json = "{bad".to_owned();
    assert!(matches!(plan(ApiOperation::PatchConfigs, &p), ApiPlan::Done(m) if m.starts_with("ERR invalid json: ")));
    p.connection_interval = "x".to_owned();
    assert!(matches!(plan(ApiOperation::GetConnections, &p), ApiPlan::Done(m) if m.starts_with("ERR invalid interval: ")));
    p.connection_interval = "250".to_owned();
    assert_eq!(plan(ApiOperation::ConnectionsWs, &p), request("GET", "connections?interval=250", None, false, Reply::Ws));
}

#[test]
fn clash_controller_refuses_mihomo_operations() {
    let p = ApiParams::default();
    let r = api_request_plan(ApiOperation::UpgradeUi, &p, ControllerKind::Clash, "u", 1);
    assert!(matches!(r, ApiPlan::Done(m) if m.starts_with("operation requires mihomo controller: ")));
}

#[test]
fn blank_names_are_looked_up_first() {
    let mut p = ApiParams::default();
    assert_eq!(plan(ApiOperation::GetGroup, &p), ApiPlan::Lookup(Lookup::Group));
    assert_eq!(
        api_after_lookup(ApiOperation::GetGroup, &p, &Lookup::Group, Ok(vec!["My Group".to_owned()]), "u", 1),
        request("GET", "group/My%20Group", None, false, Reply::Json)
    );
    assert_eq!(
        api_after_lookup(ApiOperation::GetGroup, &p, &Lookup::Group, Ok(Vec::new()), "u", 1),
        ApiPlan::Done("ERR no proxy group found".to_owned())
    );
    assert_eq!(
        api_after_lookup(ApiOperation::GetGroup, &p, &Lookup::Group, Err("timed out".to_owned()), "u", 1),
        ApiPlan::Done("ERR timed out".to_owned())
    );
    assert_eq!(
        api_after_lookup(ApiOperation::GetGroup, &p, &Lookup::Group, Err("ERR invalid json: x".to_owned()), "u", 1),
        ApiPlan::Done("ERR invalid json: x".to_owned())
    );
    assert_eq!(plan(ApiOperation::SelectProxy, &p), ApiPlan::Lookup(Lookup::SelectorMember));
    assert_eq!(
        api_after_lookup(
            ApiOperation::SelectProxy,
            &p,
            &Lookup::SelectorMember,
            Ok(vec!["G".to_owned(), "A".to_owned()]),
            "u",
            1
        ),
        request("PUT", "proxies/G", Some(r#"{"name":"A"}"#), false, Reply::Unit)
    );
    p.group_name = "G".to_owned();
    assert_eq!(
        plan(ApiOperation::SelectProxy, &p),
        ApiPlan::Done("ERR proxy name is required with a manual group".to_owned())
    );
    assert_eq!(plan(ApiOperation::CloseConnection, &p), ApiPlan::Lookup(Lookup::Connection));
    assert_eq!(
        api_after_lookup(ApiOperation::CloseConnection, &p, &Lookup::Connection, Err("down".to_owned()), "u", 1),
        ApiPlan::Done("ERR down".to_owned())
    );
}

#[test]
fn provider_proxy_needs_two_lookups_when_both_are_blank() {
    let p = ApiParams::default();
    let op = ApiOperation::GetProxyProviderProxy;
    assert_eq!(plan(op, &p), ApiPlan::Lookup(Lookup::ProxyProvider));
    let next = api_after_lookup(op, &p, &Lookup::ProxyProvider, Ok(vec!["sub".to_owned()]), "u", 1);
    assert_eq!(next, ApiPlan::Lookup(Lookup::ProviderProxy { provider: "sub".to_owned() }));
    let last = api_after_lookup(
        op,
        &p,
        &Lookup::ProviderProxy { provider: "sub".to_owned() },
        Ok(vec!["Japan".to_owned()]),
        "u",
        1,
    );
    assert_eq!(last, request("GET", "providers/proxies/sub/Japan", None, false, Reply::Json));
}
