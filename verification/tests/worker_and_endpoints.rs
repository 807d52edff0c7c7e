use mihomoctl::api::ApiOperation;
use mihomoctl::con_sort::{sort_connections, ConSort, ConSortBy, SortOrder};
use mihomoctl::endpoint::{
    connections_endpoint, delay_endpoint, dns_query_endpoint, logs_endpoint, named_endpoint,
    pprof_endpoint, provider_proxy_check_endpoint, provider_proxy_endpoint, reload_endpoint,
    selection_body, upgrade_endpoint,
};
use mihomoctl::event::Action;
use mihomoctl::kind::ControllerKind;
use mihomoctl::model::{Connection, ConnectionWithSpeed, Metadata, Mode, RuleType};
use mihomoctl::tui::{Event, UpdateEvent};
use mihomoctl::worker::{
    action_start, compact_result, geo_update_refusal, name_frequency, report_action, selector_member_choice,
    unsupported_message, PairChoice, Refresh,
};

#[test]
fn endpoints_encode_names_and_values() {
    assert_eq!(named_endpoint("proxies", "Proxy 1/ü~"), "proxies/Proxy%201%2F%C3%BC~");
    assert_eq!(named_endpoint("proxies", "Hong Kong"), "proxies/Hong%20Kong");
    assert_eq!(
        delay_endpoint("proxies", "DIRECT", "http://a.b/c", 5000, None),
        "proxies/DIRECT/delay?url=http%3A%2F%2Fa.b%2Fc&timeout=5000"
    );
    assert_eq!(
        delay_endpoint("group", "G", "u", 1, Some("200-299")),
        "group/G/delay?url=u&timeout=1&expected=200-299"
    );
    assert_eq!(logs_endpoint(None, false), "logs");
    assert_eq!(logs_endpoint(Some(""), true), "logs?format=structured");
    assert_eq!(logs_endpoint(Some("debug"), true), "logs?level=debug&format=structured");
    assert_eq!(logs_endpoint(Some("info"), false), "logs?level=info");
    assert_eq!(connections_endpoint(Some(750)), "connections?interval=750");
    assert_eq!(connections_endpoint(None), "connections");
    assert_eq!(provider_proxy_endpoint("sub", "a b"), "providers/proxies/sub/a%20b");
    assert_eq!(
        provider_proxy_check_endpoint("sub", "x", "http://t", 9),
        "providers/proxies/sub/x/healthcheck?url=http%3A%2F%2Ft&timeout=9"
    );
    assert_eq!(dns_query_endpoint("openai.com", "AAAA"), "dns/query?name=openai.com&type=AAAA");
    assert_eq!(pprof_endpoint("heap", true), "debug/pprof/heap?raw=true");
    assert_eq!(pprof_endpoint("allocs", false), "debug/pprof/allocs");
    assert_eq!(upgrade_endpoint(Some("alpha"), true), "upgrade?channel=alpha&force=true");
    assert_eq!(upgrade_endpoint(None, false), "upgrade");
    assert_eq!(reload_endpoint(true), "configs?force=true");
    assert_eq!(selection_body("node-a"), r#"{"name":"node-a"}"#);
}

#[test]
fn unsupported_mihomo_operation_is_guarded_before_request() {
    let result = unsupported_message(ApiOperation::Memory, ControllerKind::Clash).unwrap();
    assert!(result.contains("requires mihomo controller"));
    assert_eq!(unsupported_message(ApiOperation::Memory, ControllerKind::Mihomo), None);
    assert_eq!(unsupported_message(ApiOperation::Version, ControllerKind::Clash), None);
}

#[test]
fn geo_update_is_refused_by_clash_controllers() {
    assert_eq!(
        geo_update_refusal(ControllerKind::Clash).as_deref(),
        Some("geo update requires a mihomo controller")
    );
    assert_eq!(geo_update_refusal(ControllerKind::Mihomo), None);
}

#[test]
fn action_reports_name_the_outcome_and_the_refreshes() {
    let (event, refresh) = report_action(
        Action::ApplySelection { group: "G".to_owned(), proxy: "p".to_owned() },
        Some("boom".to_owned()),
    )
    .unwrap();
    assert_eq!(
        event,
        UpdateEvent::ProxySelectionResult {
            group: "G".to_owned(),
            proxy: "p".to_owned(),
            error: Some("boom".to_owned())
        }
    );
    assert_eq!(refresh, vec![Refresh::Proxies]);

    let (event, refresh) = report_action(Action::ReloadConfigs, None).unwrap();
    assert_eq!(event, UpdateEvent::ConfigReloadResult { error: None });
    assert_eq!(refresh, vec![Refresh::Configs, Refresh::Proxies, Refresh::Rules]);

    let (event, refresh) = report_action(Action::SetMode { mode: Mode::Direct }, None).unwrap();
    assert_eq!(event, UpdateEvent::ModeSwitchResult { mode: Mode::Direct, error: None });
    assert_eq!(refresh, vec![Refresh::Configs]);

    assert!(report_action(Action::FetchConfigs, None).is_none());
}

#[test]
fn selector_member_needs_both_or_neither() {
    assert_eq!(
        selector_member_choice("G", "p"),
        PairChoice::Given("G".to_owned(), "p".to_owned())
    );
    assert_eq!(
        selector_member_choice("G", ""),
        PairChoice::Refused("ERR proxy name is required with a manual group".to_owned())
    );
    assert_eq!(
        selector_member_choice("", "p"),
        PairChoice::Refused("ERR group name is required with a manual proxy".to_owned())
    );
    assert_eq!(selector_member_choice("", ""), PairChoice::Lookup);
}

#[test]
fn compact_results_fit_on_one_line() {
    assert_eq!(compact_result("a\nb"), "a b");
    let long = "x".repeat(80);
    assert_eq!(compact_result(&long), format!("{}...", "x".repeat(72)));
    assert_eq!(compact_result(&"y".repeat(72)), "y".repeat(72));
}

#[test]
fn rule_targets_are_counted_in_first_seen_order() {
    let names: Vec<String> = ["Proxy", "DIRECT", "Proxy", "REJECT", "Proxy", "DIRECT"]
        .iter()
        .map(|s| s.to_string())
        .collect();
    assert_eq!(
        name_frequency(&names),
        vec![("Proxy".to_owned(), 3), ("DIRECT".to_owned(), 2), ("REJECT".to_owned(), 1)]
    );
    assert!(name_frequency(&Vec::new()).is_empty());
}

fn connection(host: &str, download: u64, speed: Option<u64>, start: i64) -> ConnectionWithSpeed {
    ConnectionWithSpeed {
        download: speed,
        upload: None,
        connection: Connection {
            id: host.to_owned(),
            upload: 0,
            download,
            metadata: Metadata {
                connection_type: "HTTP".to_owned(),
                source_ip: "127.0.0.1".to_owned(),
                source_port: "50000".to_owned(),
                destination_ip: "1.1.1.1".to_owned(),
                destination_port: "443".to_owned(),
                host: host.to_owned(),
                network: "tcp".to_owned(),
            },
            rule: RuleType::Match,
            rule_payload: String::new(),
            start,
            chains: vec!["DIRECT".to_owned()],
        },
    }
}

fn hosts(list: &[ConnectionWithSpeed]) -> Vec<&str> {
    list.iter().map(|c| c.connection.metadata.host.as_str()).collect()
}

#[test]
fn connection_sort_orders_by_fields_and_cycles() {
    let list = || {
        vec![
            connection("b.example", 10, Some(1), 30),
            connection("a.example", 30, None, 10),
            connection("c.example", 20, Some(5), 20),
        ]
    };
    let by = |by, order| ConSort { by, order };

    assert_eq!(
        hosts(&sort_connections(list(), by(ConSortBy::Host, SortOrder::Ascendant))),
        vec!["a.example", "b.example", "c.example"]
    );
    assert_eq!(
        hosts(&sort_connections(list(), by(ConSortBy::Down, SortOrder::Descendant))),
        vec!["a.example", "c.example", "b.example"]
    );
    assert_eq!(
        hosts(&sort_connections(list(), by(ConSortBy::DownSpeed, SortOrder::Ascendant))),
        vec!["a.example", "b.example", "c.example"]
    );
    assert_eq!(
        hosts(&sort_connections(list(), ConSort::first())),
        vec!["b.example", "c.example", "a.example"]
    );

    let first = ConSort::first();
    assert_eq!(first.label(), "Time ▼");
    assert_eq!(first.next_sort(), by(ConSortBy::Host, SortOrder::Ascendant));
    assert_eq!(first.prev_sort(), by(ConSortBy::Time, SortOrder::Ascendant));
    assert_eq!(first.prev_sort().next_sort(), first);
    assert_eq!(by(ConSortBy::Down, SortOrder::Ascendant).label(), "Down ▲");

    let mut s = first;
    for _ in 0..22 {
        s = s.next_sort();
    }
    assert_eq!(s, first);
}

#[test]
fn equal_connections_keep_their_order() {
    let list = vec![
        connection("x", 5, None, 1),
        connection("y", 5, None, 2),
        connection("z", 1, None, 3),
    ];
    let sorted = sort_connections(list, ConSort { by: ConSortBy::Down, order: SortOrder::Descendant });
    assert_eq!(hosts(&sorted), vec!["x", "y", "z"]);
}

#[test]
fn worker_echoes_each_action_and_refuses_geo_update_on_clash() {
    let (echo, refusal) = action_start(&Action::UpdateGeo, ControllerKind::Clash);
    assert_eq!(echo, Event::Action(Action::UpdateGeo));
    assert_eq!(refusal.as_deref(), Some("geo update requires a mihomo controller"));
    let (event, refresh) = report_action(Action::UpdateGeo, refusal).unwrap();
    assert_eq!(
        event,
        UpdateEvent::GeoUpdateResult { error: Some("geo update requires a mihomo controller".to_owned()) }
    );
    assert!(refresh.is_empty());

    let (echo, refusal) = action_start(&Action::UpdateGeo, ControllerKind::Mihomo);
    assert_eq!(echo, Event::Action(Action::UpdateGeo));
    assert_eq!(refusal, None);
    let test = Action::TestLatency { proxies: vec!["a".to_owned(), "b".to_owned()] };
    let (echo, refusal) = action_start(&test, ControllerKind::Clash);
    assert_eq!(echo, Event::Action(test));
    assert_eq!(refusal, None);
}
