use mihomoctl::api::{contains_operation, ApiOperation, ApiParams};
use mihomoctl::api_page::{
    api_state_for_kind, begin_edit, clear_current_param, current_needs_input, default_api_state,
    dns_api_state, input_char, select_operation, set_current_param_value, submit_current,
    ApiItem, ApiListState,
};
use mihomoctl::event::Action;
use mihomoctl::results::parse_json;
use mihomoctl::kind::ControllerKind;
use mihomoctl::model::{Proxies, Proxy, ProxyType};
use mihomoctl::results::{
    first_group_name, first_named_child, first_proxy_name, first_selector_member, json_result,
    text_result,
};

fn operations(state: &ApiListState) -> Vec<ApiOperation> {
    state.items.iter().map(|item| item.operation).collect()
}

#[test]
fn first_named_child_reads_provider_response_shapes() {
    assert_eq!(
        first_named_child(&parse_json(r#"{"providers": {"sub": {}}}"#).unwrap(), "providers"),
        Some("sub".to_owned())
    );
    assert_eq!(
        first_named_child(&parse_json(r#"{"sub": {}}"#).unwrap(), "providers"),
        Some("sub".to_owned())
    );
    assert_eq!(
        first_named_child(
            &parse_json(r#"{"proxies": [{"name": "Hong Kong"}, {"name": "Japan"}]}"#).unwrap(),
            "proxies",
        ),
        Some("Hong Kong".to_owned())
    );
}

#[test]
fn proxy_choice_helpers_read_current_proxy_model() {
    let proxies = Proxies {
        entries: vec![
            (
                "Auto".to_owned(),
                Proxy {
                    proxy_type: ProxyType::Selector,
                    history: vec![],
                    udp: None,
                    all: Some(vec!["DIRECT".to_owned()]),
                    now: Some("DIRECT".to_owned()),
                },
            ),
            (
                "DIRECT".to_owned(),
                Proxy {
                    proxy_type: ProxyType::Direct,
                    history: vec![],
                    udp: None,
                    all: None,
                    now: None,
                },
            ),
        ],
    };

    assert_eq!(first_group_name(&proxies), Some("Auto".to_owned()));
    assert_eq!(first_proxy_name(&proxies), Some("DIRECT".to_owned()));
    assert_eq!(
        first_selector_member(&proxies),
        Some(("Auto".to_owned(), "DIRECT".to_owned()))
    );
}

#[test]
fn api_catalog_contains_websocket_variants() {
    assert!(contains_operation(ApiOperation::LogsWs));
    assert!(contains_operation(ApiOperation::TrafficWs));
    assert!(contains_operation(ApiOperation::MemoryWs));
    assert!(contains_operation(ApiOperation::ConnectionsWs));
}

#[test]
fn clash_api_catalog_excludes_mihomo_only_operations() {
    let clash = operations(&api_state_for_kind(ControllerKind::Clash));

    for operation in [
        ApiOperation::Memory,
        ApiOperation::MemoryWs,
        ApiOperation::FlushFakeIpCache,
        ApiOperation::GetGroups,
        ApiOperation::Restart,
        ApiOperation::DisableRules,
        ApiOperation::GetStorage,
        ApiOperation::DebugPprof,
        ApiOperation::ConnectionsWs,
    ] {
        assert!(!clash.contains(&operation), "{operation:?} should be hidden");
    }

    assert!(clash.contains(&ApiOperation::Version));
    assert!(clash.contains(&ApiOperation::GetProxies));
    assert!(clash.contains(&ApiOperation::DnsQuery));
}

#[test]
fn mihomo_api_catalog_keeps_full_catalog() {
    let mihomo = operations(&api_state_for_kind(ControllerKind::Mihomo));
    let full = operations(&default_api_state());

    assert_eq!(mihomo, full);
}

#[test]
fn api_catalog_covers_current_metacubex_reference() {
    let catalog = ApiOperation::all()
        .iter()
        .map(|operation| (operation.method(), operation.path()))
        .collect::<std::collections::BTreeSet<_>>();

    for expected in [
        ("GET", "/logs"),
        ("WS", "/logs"),
        ("GET", "/traffic"),
        ("WS", "/traffic"),
        ("GET", "/memory"),
        ("WS", "/memory"),
        ("GET", "/version"),
        ("POST", "/cache/fakeip/flush"),
        ("POST", "/cache/dns/flush"),
        ("GET", "/configs"),
        ("PUT", "/configs"),
        ("PATCH", "/configs"),
        ("POST", "/configs/geo"),
        ("POST", "/restart"),
        ("POST", "/upgrade"),
        ("POST", "/upgrade/ui"),
        ("POST", "/upgrade/geo"),
        ("GET", "/group"),
        ("GET", "/group/GLOBAL"),
        ("GET", "/group/GLOBAL/delay"),
        ("GET", "/proxies"),
        ("GET", "/proxies/DIRECT"),
        ("PUT", "/proxies/GLOBAL"),
        ("DELETE", "/proxies/GLOBAL"),
        ("GET", "/proxies/DIRECT/delay"),
        ("GET", "/providers/proxies"),
        ("GET", "/providers/proxies/default"),
        ("PUT", "/providers/proxies/default"),
        ("GET", "/providers/proxies/default/healthcheck"),
        ("GET", "/providers/proxies/default/DIRECT"),
        ("GET", "/providers/proxies/default/DIRECT/healthcheck"),
        ("GET", "/rules"),
        ("PATCH", "/rules/disable"),
        ("GET", "/providers/rules"),
        ("PUT", "/providers/rules/default"),
        ("GET", "/connections"),
        ("WS", "/connections"),
        ("DELETE", "/connections"),
        ("DELETE", "/connections/:id"),
        ("GET", "/dns/query"),
        ("GET", "/storage/mihomoctl"),
        ("PUT", "/storage/mihomoctl"),
        ("DELETE", "/storage/mihomoctl"),
        ("PUT", "/debug/gc"),
        ("GET", "/debug/pprof"),
        ("GET", "/debug/pprof/heap?raw=true"),
    ] {
        assert!(catalog.contains(&expected), "{expected:?} is missing from API catalog");
    }
}

#[test]
fn dns_quick_page_hides_storage_and_debug_endpoints() {
    let dns = operations(&dns_api_state());

    for operation in [
        ApiOperation::GetStorage,
        ApiOperation::PutStorage,
        ApiOperation::DeleteStorage,
        ApiOperation::DebugGc,
        ApiOperation::DebugPprof,
        ApiOperation::DebugPprofHeap,
    ] {
        assert!(!dns.contains(&operation), "{operation:?} should be hidden");
    }

    assert!(dns.contains(&ApiOperation::FlushFakeIpCache));
    assert!(dns.contains(&ApiOperation::FlushDnsCache));
    assert!(dns.contains(&ApiOperation::DnsQuery));

    let full = operations(&default_api_state());
    assert!(full.contains(&ApiOperation::GetStorage));
    assert!(full.contains(&ApiOperation::DebugPprofHeap));
}

#[test]
fn api_results_keep_full_pretty_payload_for_popup() {
    let long_value = "x".repeat(240);
    let json = json_result(Ok(format!(r#"{{"outer": {{"value": "{long_value}"}}}}"#)));
    assert!(json.contains('\n'));
    assert!(json.contains(&"x".repeat(200)));

    let text = text_result(Ok("alpha\nbeta".to_owned()));
    assert_eq!(text, "alpha\nbeta");
}

#[test]
fn edited_dns_parameter_is_sent_with_action() {
    let mut state = default_api_state();
    select_operation(&mut state, ApiOperation::DnsQuery).unwrap();

    begin_edit(&mut state);
    clear_current_param(&mut state);
    for ch in "openai.com".chars() {
        input_char(&mut state, ch);
    }

    let action = submit_current(&mut state).unwrap();
    assert_eq!(
        action,
        Action::InvokeApi {
            operation: ApiOperation::DnsQuery,
            params: ApiParams {
                dns_name: "openai.com".to_owned(),
                ..ApiParams::default()
            }
        }
    );
}

#[test]
fn geo_upgrade_operations_do_not_prompt_for_payload() {
    for operation in [ApiOperation::UpdateGeo, ApiOperation::UpgradeGeo] {
        let mut state = default_api_state();
        select_operation(&mut state, operation).unwrap();

        assert!(!current_needs_input(&state));
    }
}

#[test]
fn current_api_parameter_can_be_filled_by_picker() {
    let mut state = default_api_state();
    select_operation(&mut state, ApiOperation::GetGroup).unwrap();

    assert!(set_current_param_value(&mut state, "Auto"));

    let action = submit_current(&mut state).unwrap();
    assert_eq!(
        action,
        Action::InvokeApi {
            operation: ApiOperation::GetGroup,
            params: ApiParams {
                group_name: "Auto".to_owned(),
                ..ApiParams::default()
            }
        }
    );
}

#[test]
fn preview_path_uses_editable_parameters() {
    let params = ApiParams {
        log_level: "debug".to_owned(),
        log_format: "structured".to_owned(),
        connection_interval: "750".to_owned(),
        group_name: "Auto".to_owned(),
        proxy_name: "Proxy 1".to_owned(),
        proxy_provider: "sub".to_owned(),
        provider_proxy: "Provider Proxy".to_owned(),
        rule_provider: "geosite".to_owned(),
        connection_id: "abc123".to_owned(),
        rules_disable_json: r#"{"0":true}"#.to_owned(),
        dns_name: "openai.com".to_owned(),
        dns_type: "AAAA".to_owned(),
        storage_key: "dash".to_owned(),
        pprof_profile: "allocs".to_owned(),
        pprof_raw: "false".to_owned(),
        ..ApiParams::default()
    };

    assert_eq!(ApiOperation::Logs.preview_path(&params), "/logs?level=debug&format=structured");
    assert_eq!(ApiOperation::LogsWs.preview_path(&params), "/logs?level=debug&format=structured");
    assert_eq!(ApiOperation::ConnectionsWs.preview_path(&params), "/connections?interval=750");
    assert_eq!(ApiOperation::GetGroup.preview_path(&params), "/group/Auto");
    assert_eq!(ApiOperation::GetProxy.preview_path(&params), "/proxies/Proxy 1");
    assert_eq!(
        ApiOperation::GetProxyProviderProxy.preview_path(&params),
        "/providers/proxies/sub/Provider Proxy"
    );
    assert_eq!(ApiOperation::UpdateRuleProvider.preview_path(&params), "/providers/rules/geosite");
    assert_eq!(ApiOperation::CloseConnection.preview_path(&params), "/connections/abc123");
    assert_eq!(
        ApiOperation::DnsQuery.preview_path(&params),
        "/dns/query?name=openai.com&type=AAAA"
    );
    assert_eq!(ApiOperation::GetStorage.preview_path(&params), "/storage/dash");
    assert_eq!(ApiOperation::DebugPprofHeap.preview_path(&params), "/debug/pprof/allocs");
}

#[test]
fn api_items_render_control_categories() {
    let restart = ApiItem::catalog()
        .into_iter()
        .find(|item| item.operation == ApiOperation::Restart)
        .unwrap();
    let rendered = restart.line();

    assert!(rendered.contains("config"));
    assert!(rendered.contains("POST"));
    assert!(rendered.contains("/restart"));
    assert!(rendered.contains("restart core"));
}

#[test]
fn api_item_line_shows_the_edited_parameter_and_result() {
    let mut item = ApiItem::new(ApiOperation::DnsQuery);
    item.editing = true;
    item.last_result = Some("ok".to_owned());
    let line = item.line();
    assert!(line.starts_with(&format!("{:<8}{:<6}", "dns", "GET")));
    assert!(line.contains(" [*"));
    assert!(line.ends_with("] ok"));
    let fresh = ApiItem::new(ApiOperation::Version);
    assert!(fresh.line().ends_with(" press Enter to invoke"));
    assert!(!fresh.line().contains(" ["));
}
