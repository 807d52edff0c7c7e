use mihomoctl::api::{ApiOperation, ApiParams};
use mihomoctl::api_page::{
    current_operation, current_param_value, current_result, default_api_state, is_editing,
    select_operation, submit_current,
};
use mihomoctl::event::{key_code_input_of, key_input_of, Action, InputEvent, KeyCode, KeyEvent, KeyInput, KeyModifiers};
use mihomoctl::kind::ControllerKind;
use mihomoctl::con_sort::{ConSort, ConSortBy, SortOrder};
use mihomoctl::model::{
    Connection, ConnectionWithSpeed, History, Metadata, Mode, Proxies, Proxy, ProxyType, RuleType,
};
use mihomoctl::popup::{ModeSwitchPopup, NoticePopup, Server, ServerFormField, ServerPopupMode};
use mihomoctl::proxy::{ProxyGroup, ProxyItem, ProxyTree};
use mihomoctl::tui::{title_of, ConnectionRow, Event, TuiStates, UpdateEvent};

fn key_with(code: KeyCode, modifiers: KeyModifiers) -> Event {
    match key_input_of(KeyEvent { code, modifiers }) {
        KeyInput::Quit => Event::Quit,
        KeyInput::Input(input) => Event::Input(input),
    }
}

fn key(code: KeyCode) -> Event {
    key_with(code, KeyModifiers::none())
}

fn ctrl_key(code: KeyCode) -> Event {
    key_with(code, KeyModifiers::control())
}

fn shift_key(c: char) -> Event {
    key_with(KeyCode::Char(c), KeyModifiers::shift())
}

fn handle(state: &mut TuiStates, event: Event) -> Option<Action> {
    state.handle(event, String::new(), 0)
}

fn type_text(state: &mut TuiStates, text: &str) {
    for ch in text.chars() {
        handle(state, key(KeyCode::Char(ch)));
    }
}

fn connections(upload_total: u64, download_total: u64) -> Event {
    Event::Update(UpdateEvent::Connection { rows: Vec::new(), upload_total, download_total })
}

fn connection_fixture(id: &str, start: i64) -> ConnectionWithSpeed {
    ConnectionWithSpeed {
        connection: Connection {
            id: id.to_owned(),
            upload: 0,
            download: 0,
            metadata: Metadata {
                connection_type: "HTTP".to_owned(),
                source_ip: "127.0.0.1".to_owned(),
                source_port: "50000".to_owned(),
                destination_ip: "1.1.1.1".to_owned(),
                destination_port: "443".to_owned(),
                host: format!("{id}.example.com"),
                network: "tcp".to_owned(),
            },
            rule: RuleType::Match,
            rule_payload: String::new(),
            start,
            chains: vec!["DIRECT".to_owned()],
        },
        upload: None,
        download: None,
    }
}

fn connection_rows(ids: &[&str]) -> Event {
    Event::Update(UpdateEvent::Connection {
        rows: ids
            .iter()
            .enumerate()
            .map(|(i, id)| ConnectionRow {
                id: (*id).to_owned(),
                line: format!("example.com {id}"),
                connection: connection_fixture(id, i as i64),
            })
            .collect(),
        upload_total: 0,
        download_total: 0,
    })
}

fn test_servers() -> Vec<Server> {
    vec![
        Server {
            url: "http://127.0.0.1:9090/".to_owned(),
            secret: None,
            kind: ControllerKind::Mihomo,
        },
        Server { url: "http://10.0.0.2:9090/".to_owned(), secret: None, kind: ControllerKind::Clash },
    ]
}

#[test]
fn status_page_m_key_opens_mode_switcher_popup() {
    let mut state = TuiStates::new();
    assert_eq!(state.title(), "Status");

    // Mode unknown yet: key press is a no-op
    handle(&mut state, key(KeyCode::Char('m')));
    assert!(state.mode_popup.is_none());

    handle(&mut state, Event::Update(UpdateEvent::Config { mode: Mode::Rule }));

    handle(&mut state, key(KeyCode::Char('m')));
    let popup = state.mode_popup.as_ref().expect("popup should open");
    assert_eq!(popup.selected(), Mode::Rule);

    // Selecting the current mode again closes without emitting an action
    assert_eq!(handle(&mut state, key(KeyCode::Enter)), None);
    assert!(state.mode_popup.is_none());

    // Move to Global and apply
    handle(&mut state, key(KeyCode::Char('m')));
    handle(&mut state, key(KeyCode::Down));
    assert_eq!(handle(&mut state, key(KeyCode::Enter)), Some(Action::SetMode { mode: Mode::Global }));
    assert!(state.mode_popup.is_none());

    // Esc closes without action
    handle(&mut state, key(KeyCode::Char('m')));
    assert_eq!(handle(&mut state, key(KeyCode::Esc)), None);
    assert!(state.mode_popup.is_none());
}

#[test]
fn status_page_r_keys_fetch_or_reload_configs() {
    let mut state = TuiStates::new();
    assert_eq!(handle(&mut state, key(KeyCode::Char('r'))), Some(Action::FetchConfigs));
    assert_eq!(handle(&mut state, shift_key('R')), Some(Action::ReloadConfigs));

    handle(&mut state, key(KeyCode::Char('4')));
    assert_eq!(handle(&mut state, key(KeyCode::Char('r'))), None);
}

#[test]
fn status_page_g_key_requests_geo_update() {
    let mut state = TuiStates::new();
    assert_eq!(handle(&mut state, key(KeyCode::Char('g'))), Some(Action::UpdateGeo));
    assert!(state.notice_popup.is_some());

    // The pending notice absorbs the next key press
    handle(&mut state, key(KeyCode::Char('4')));
    assert!(state.notice_popup.is_none());

    handle(&mut state, key(KeyCode::Char('4')));
    assert_eq!(handle(&mut state, key(KeyCode::Char('g'))), None);
}

#[test]
fn geo_update_result_shows_notice_or_error_popup() {
    let mut state = TuiStates::new();
    handle(&mut state, Event::Update(UpdateEvent::GeoUpdateResult { error: None }));
    assert!(state.notice_popup.is_some());

    handle(
        &mut state,
        Event::Update(UpdateEvent::GeoUpdateResult { error: Some("download failed".to_owned()) }),
    );
    assert!(state.api_result_popup.is_some());
}

#[test]
fn conns_page_k_key_closes_selected_connection() {
    let mut state = TuiStates::new();
    handle(&mut state, key(KeyCode::Char('4')));
    assert_eq!(state.title(), "Conns");

    // Empty list: no action, but a hint notice appears
    assert_eq!(handle(&mut state, key(KeyCode::Char('k'))), None);
    assert!(state.notice_popup.take().is_some());

    handle(&mut state, connection_rows(&["conn-1", "conn-2"]));

    let action = handle(&mut state, key(KeyCode::Char('k')));
    assert!(matches!(action, Some(Action::CloseConnection { .. })));
}

#[test]
fn conns_page_shift_k_asks_before_closing_all_connections() {
    let mut state = TuiStates::new();
    handle(&mut state, key(KeyCode::Char('4')));
    assert_eq!(state.title(), "Conns");

    // Empty list: hint only
    handle(&mut state, shift_key('K'));
    assert!(state.confirm_popup.is_none());
    assert!(state.notice_popup.take().is_some());

    handle(&mut state, connection_rows(&["conn-1"]));

    handle(&mut state, shift_key('K'));
    assert!(state.confirm_popup.is_some());

    assert_eq!(handle(&mut state, key(KeyCode::Esc)), None);
    assert!(state.confirm_popup.is_none());

    handle(&mut state, shift_key('K'));
    assert_eq!(handle(&mut state, key(KeyCode::Enter)), Some(Action::CloseAllConnections));
    assert!(state.confirm_popup.is_none());
}

#[test]
fn connection_close_result_shows_notice_or_error_popup() {
    let mut state = TuiStates::new();
    handle(&mut state, Event::Update(UpdateEvent::ConnectionCloseResult { all: false, error: None }));
    assert!(state.notice_popup.take().is_some());

    handle(
        &mut state,
        Event::Update(UpdateEvent::ConnectionCloseResult {
            all: true,
            error: Some("connection not found".to_owned()),
        }),
    );
    assert!(state.api_result_popup.is_some());
}

#[test]
fn config_fetch_result_shows_notice_or_error_popup() {
    let mut state = TuiStates::new();
    handle(&mut state, Event::Update(UpdateEvent::ConfigFetchResult { error: None }));
    assert!(state.notice_popup.is_some());

    handle(
        &mut state,
        Event::Update(UpdateEvent::ConfigFetchResult { error: Some("connection refused".to_owned()) }),
    );
    assert!(state.api_result_popup.is_some());
}

#[test]
fn config_reload_result_shows_notice_or_error_popup() {
    let mut state = TuiStates::new();
    handle(&mut state, Event::Update(UpdateEvent::ConfigReloadResult { error: None }));
    assert!(state.notice_popup.is_some());
    assert!(state.api_result_popup.is_none());

    handle(
        &mut state,
        Event::Update(UpdateEvent::ConfigReloadResult {
            error: Some("config file not found".to_owned()),
        }),
    );
    assert!(state.api_result_popup.is_some());
}

#[test]
fn mode_switcher_selection_wraps_around() {
    let mut popup = ModeSwitchPopup::new(Mode::Rule);
    assert_eq!(popup.index, 0);

    popup.index = ModeSwitchPopup::modes().len() - 1;
    assert_eq!(popup.selected(), Mode::Direct);
}

#[test]
fn mode_switch_result_shows_notice_or_error_popup() {
    let mut state = TuiStates::new();
    handle(&mut state, Event::Update(UpdateEvent::ModeSwitchResult { mode: Mode::Global, error: None }));
    assert!(state.notice_popup.is_some());
    assert!(state.api_result_popup.is_none());

    handle(
        &mut state,
        Event::Update(UpdateEvent::ModeSwitchResult {
            mode: Mode::Direct,
            error: Some("connection refused".to_owned()),
        }),
    );
    assert!(state.api_result_popup.is_some());
}

#[test]
fn api_page_enter_invokes_current_endpoint() {
    let state = default_api_state();
    let action = current_operation(&state)
        .map(|operation| Action::InvokeApi { operation, params: Default::default() });

    assert_eq!(
        action,
        Some(Action::InvokeApi { operation: ApiOperation::Version, params: Default::default() })
    );
}

#[test]
fn dangerous_api_requires_second_enter_to_confirm() {
    let mut state = default_api_state();
    select_operation(&mut state, ApiOperation::Restart).unwrap();

    assert_eq!(submit_current(&mut state), None);
    assert!(current_result(&state).unwrap().contains("press Enter again"));

    assert_eq!(
        submit_current(&mut state),
        Some(Action::InvokeApi { operation: ApiOperation::Restart, params: Default::default() })
    );
}

#[test]
fn tui_exposes_split_api_control_pages() {
    let titles: Vec<&str> = (0..9).map(title_of).collect();
    assert!(!titles.contains(&"Runtime"));
    assert!(titles.contains(&"Core"));
    assert!(!titles.contains(&"DNS/Storage/Debug"));
    assert!(titles.contains(&"DNS"));
    assert!(!titles.contains(&"Configs"));

    let mut state = TuiStates::new();
    state.page_index = 5;
    assert_eq!(current_operation(state.active_api_state().unwrap()), Some(ApiOperation::GetConfigs));
    state.page_index = 6;
    assert_eq!(
        current_operation(state.active_api_state().unwrap()),
        Some(ApiOperation::FlushFakeIpCache)
    );
    state.page_index = 7;
    assert_eq!(current_operation(state.active_api_state().unwrap()), Some(ApiOperation::Version));
    state.page_index = 0;
    assert!(state.active_api_state().is_none());
}

#[test]
fn tui_state_uses_controller_kind_for_api_catalogs() {
    let clash = TuiStates::for_controller_kind(ControllerKind::Clash);
    let clash_api: Vec<_> = clash.api_state.items.iter().map(|item| item.operation).collect();
    let clash_dns: Vec<_> = clash.dns_api_state.items.iter().map(|item| item.operation).collect();

    assert!(!clash_api.contains(&ApiOperation::Memory));
    assert!(!clash_api.contains(&ApiOperation::FlushFakeIpCache));
    assert!(clash_api.contains(&ApiOperation::Version));
    assert_eq!(clash_dns, vec![ApiOperation::DnsQuery]);

    let mihomo = TuiStates::for_controller_kind(ControllerKind::Mihomo);
    let mihomo_api: Vec<_> = mihomo.api_state.items.iter().map(|item| item.operation).collect();
    assert!(mihomo_api.contains(&ApiOperation::Memory));
    assert_eq!(current_operation(&mihomo.dns_api_state), Some(ApiOperation::FlushFakeIpCache));
}

#[test]
fn api_control_page_uses_arrow_selected_operation() {
    let mut state = TuiStates::new();
    state.page_index = 5;

    handle(&mut state, key(KeyCode::Down));
    assert_eq!(
        current_operation(state.active_api_state().unwrap()),
        Some(ApiOperation::ReloadConfigs)
    );

    assert_eq!(handle(&mut state, key(KeyCode::Enter)), None);
    assert!(is_editing(state.active_api_state().unwrap()));
    assert_eq!(handle(&mut state, key(KeyCode::Enter)), None);
    assert!(current_result(state.active_api_state().unwrap()).unwrap().contains("press Enter again"));
    assert_eq!(
        handle(&mut state, key(KeyCode::Enter)),
        Some(Action::InvokeApi { operation: ApiOperation::ReloadConfigs, params: Default::default() })
    );
}

#[test]
fn api_result_update_opens_popup_and_escape_closes_it() {
    let mut state = TuiStates::new();
    handle(
        &mut state,
        Event::Update(UpdateEvent::ApiResult {
            operation: ApiOperation::DnsQuery,
            result: r#"{"Answer":[]}"#.to_owned(),
        }),
    );

    let popup = state.api_result_popup.as_ref().unwrap();
    assert!(popup.title.contains("query example.com A"));
    assert!(popup.body.contains("Answer"));

    handle(&mut state, key(KeyCode::Esc));
    assert!(state.api_result_popup.is_none());
}

#[test]
fn api_input_box_only_opens_for_parameterized_operations() {
    let mut state = TuiStates::new();
    state.page_index = 6;

    handle(&mut state, key(KeyCode::Char('i')));
    assert!(!is_editing(state.active_api_state().unwrap()));

    handle(&mut state, key(KeyCode::Down));
    handle(&mut state, key(KeyCode::Down));
    assert_eq!(current_operation(state.active_api_state().unwrap()), Some(ApiOperation::DnsQuery));

    handle(&mut state, key(KeyCode::Char('i')));
    assert!(is_editing(state.active_api_state().unwrap()));

    handle(&mut state, key(KeyCode::Down));
    assert_eq!(current_operation(state.active_api_state().unwrap()), Some(ApiOperation::DnsQuery));

    handle(&mut state, key(KeyCode::Esc));
    assert!(!is_editing(state.active_api_state().unwrap()));
}

#[test]
fn dns_query_enter_prompts_for_domain_before_running() {
    let mut state = TuiStates::new();
    state.page_index = 6;
    handle(&mut state, key(KeyCode::Down));
    handle(&mut state, key(KeyCode::Down));

    assert_eq!(handle(&mut state, key(KeyCode::Enter)), None);
    assert!(is_editing(state.active_api_state().unwrap()));
    assert_eq!(current_param_value(state.active_api_state().unwrap()), Some("example.com"));

    handle(&mut state, ctrl_key(KeyCode::Char('u')));
    assert_eq!(current_param_value(state.active_api_state().unwrap()), Some(""));

    type_text(&mut state, "openai.com");

    assert_eq!(
        handle(&mut state, key(KeyCode::Enter)),
        Some(Action::InvokeApi {
            operation: ApiOperation::DnsQuery,
            params: ApiParams { dns_name: "openai.com".to_owned(), ..Default::default() },
        })
    );
}

#[test]
fn dns_query_prompts_again_after_first_result() {
    let mut state = TuiStates::new();
    state.page_index = 6;
    handle(&mut state, key(KeyCode::Down));
    handle(&mut state, key(KeyCode::Down));

    handle(&mut state, key(KeyCode::Enter));
    handle(&mut state, ctrl_key(KeyCode::Char('u')));
    type_text(&mut state, "openai.com");
    assert!(handle(&mut state, key(KeyCode::Enter)).is_some());
    handle(
        &mut state,
        Event::Update(UpdateEvent::ApiResult {
            operation: ApiOperation::DnsQuery,
            result: "{}".to_owned(),
        }),
    );
    handle(&mut state, key(KeyCode::Esc));

    assert_eq!(handle(&mut state, key(KeyCode::Enter)), None);
    assert!(is_editing(state.active_api_state().unwrap()));
    assert_eq!(current_param_value(state.active_api_state().unwrap()), Some("openai.com"));
}

#[test]
fn api_result_popup_arrow_keys_scroll_result() {
    let mut state = TuiStates::new();
    handle(
        &mut state,
        Event::Update(UpdateEvent::ApiResult {
            operation: ApiOperation::DnsQuery,
            result: "line1\nline2\nline3".to_owned(),
        }),
    );

    handle(&mut state, key(KeyCode::Down));
    assert_eq!(state.api_result_popup.as_ref().unwrap().offset.y, 1);

    handle(&mut state, key(KeyCode::Right));
    assert_eq!(state.api_result_popup.as_ref().unwrap().offset.x, 4);
}

#[test]
fn bracket_keys_cycle_visible_pages() {
    let mut state = TuiStates::new();

    for _ in 0..5 {
        handle(&mut state, key(KeyCode::Char(']')));
    }
    assert_eq!(state.title(), "Core");

    for _ in 0..3 {
        handle(&mut state, key(KeyCode::Char(']')));
    }
    assert_eq!(state.title(), "Status");

    handle(&mut state, key(KeyCode::Char(']')));
    assert_eq!(state.title(), "Proxies");

    handle(&mut state, key(KeyCode::Char('[')));
    assert_eq!(state.title(), "Status");
}

#[test]
fn debug_events_are_trimmed_when_limit_is_reached() {
    let mut state = TuiStates::new();

    for _ in 0..350 {
        handle(&mut state, Event::Quit);
    }

    assert!(state.debug_state.len() <= 300);
    assert_eq!(state.all_events_recv, 350);
}

#[test]
fn slash_starts_search_on_connection_rule_and_log_pages() {
    let mut state = TuiStates::new();

    state.page_index = 3;
    handle(&mut state, key(KeyCode::Char('/')));
    assert!(state.con_state.is_searching());

    state.page_index = 2;
    handle(&mut state, key(KeyCode::Char('/')));
    assert!(state.rule_state.is_searching());

    state.page_index = 4;
    handle(&mut state, key(KeyCode::Char('/')));
    assert!(state.log_state.is_searching());
}

#[test]
fn esc_and_enter_exit_list_search() {
    let mut state = TuiStates::new();
    state.page_index = 4;

    handle(&mut state, key(KeyCode::Char('/')));
    handle(&mut state, key(KeyCode::Char('e')));
    assert_eq!(state.log_state.search_query(), Some("e"));

    handle(&mut state, key(KeyCode::Esc));
    assert!(!state.log_state.is_searching());

    handle(&mut state, key(KeyCode::Char('/')));
    handle(&mut state, key(KeyCode::Enter));
    assert!(!state.log_state.is_searching());
}

#[test]
fn p_pauses_and_resumes_connection_updates() {
    let mut state = TuiStates::new();
    state.page_index = 3;

    handle(&mut state, connections(10, 20));
    assert_eq!(state.con_size, (10, 20));

    handle(&mut state, key(KeyCode::Char('p')));
    assert!(state.con_state.is_paused());

    handle(&mut state, connections(30, 40));
    assert_eq!(state.con_size, (10, 20));

    handle(&mut state, key(KeyCode::Char('p')));
    assert!(!state.con_state.is_paused());

    handle(&mut state, connections(50, 60));
    assert_eq!(state.con_size, (50, 60));
}

#[test]
fn server_popup_starts_on_active_server_and_esc_closes_it() {
    let mut state = TuiStates::new();
    let servers = test_servers();
    let active = Some(servers[1].url.clone());

    state.open_server_popup_with(servers, active);
    assert_eq!(state.server_popup.as_ref().unwrap().index, 1);

    handle(&mut state, key(KeyCode::Esc));
    assert!(state.server_popup.is_none());
    assert!(state.switch_to_server.is_none());
    assert!(!state.should_quit);
}

#[test]
fn server_popup_enter_requests_switch_to_selected_server() {
    let mut state = TuiStates::new();
    let servers = test_servers();
    let expected = servers[1].url.clone();

    state.open_server_popup_with(servers, Some("http://127.0.0.1:9090/".to_owned()));
    handle(&mut state, key(KeyCode::Down));
    handle(&mut state, key(KeyCode::Enter));

    assert!(state.server_popup.is_none());
    assert_eq!(state.switch_to_server, Some(expected));
    assert!(state.should_quit);
}

#[test]
fn server_popup_enter_on_active_server_is_noop() {
    let mut state = TuiStates::new();
    let servers = test_servers();
    let active = Some(servers[0].url.clone());

    state.open_server_popup_with(servers, active);
    handle(&mut state, key(KeyCode::Enter));

    assert!(state.server_popup.is_none());
    assert!(state.switch_to_server.is_none());
    assert!(!state.should_quit);
}

#[test]
fn server_popup_navigation_wraps_and_blocks_other_keys() {
    let mut state = TuiStates::new();

    state.open_server_popup_with(test_servers(), None);
    assert_eq!(state.server_popup.as_ref().unwrap().index, 0);

    handle(&mut state, key(KeyCode::Up));
    assert_eq!(state.server_popup.as_ref().unwrap().index, 1);

    handle(&mut state, key(KeyCode::Down));
    assert_eq!(state.server_popup.as_ref().unwrap().index, 0);

    handle(&mut state, key(KeyCode::Char('3')));
    assert_eq!(state.page_index, 0);
}

fn proxy(proxy_type: ProxyType, all: Option<Vec<&str>>, now: Option<&str>) -> Proxy {
    Proxy {
        proxy_type,
        history: vec![],
        udp: None,
        all: all.map(|x| x.into_iter().map(ToOwned::to_owned).collect()),
        now: now.map(ToOwned::to_owned),
    }
}

#[test]
fn shift_t_tests_all_unique_normal_nodes_across_groups() {
    let mut state = TuiStates::new();
    state.page_index = 1;

    let proxies = Proxies {
        entries: vec![
            ("a".to_owned(), proxy(ProxyType::Vmess, None, None)),
            ("b".to_owned(), proxy(ProxyType::Trojan, None, None)),
            ("G1".to_owned(), proxy(ProxyType::Selector, Some(vec!["a", "b"]), Some("a"))),
            ("G2".to_owned(), proxy(ProxyType::Selector, Some(vec!["b", "G1"]), Some("b"))),
        ],
    };
    handle(&mut state, Event::Update(UpdateEvent::Proxies(proxies)));

    let action = handle(&mut state, shift_key('T'));
    let Some(Action::TestLatency { mut proxies }) = action else {
        panic!("expected TestLatency action, got {action:?}");
    };
    proxies.sort();
    assert_eq!(proxies, vec!["a".to_owned(), "b".to_owned()]);
    assert!(state.proxy_tree.is_testing());

    assert_eq!(handle(&mut state, shift_key('T')), None);
}

#[test]
fn shift_h_toggles_scrollable_help_popup() {
    let mut state = TuiStates::new();

    handle(&mut state, shift_key('H'));
    assert!(state.help_popup.is_some());

    handle(&mut state, key(KeyCode::Down));
    assert_eq!(state.help_popup.as_ref().unwrap().y, 1);

    handle(&mut state, key(KeyCode::Char('q')));
    assert!(!state.should_quit);
    assert!(state.help_popup.is_some());

    handle(&mut state, shift_key('H'));
    assert!(state.help_popup.is_none());

    handle(&mut state, shift_key('H'));
    handle(&mut state, key(KeyCode::Esc));
    assert!(state.help_popup.is_none());
}

#[test]
fn notice_popup_closes_on_any_key_without_side_effects() {
    let mut state = TuiStates::new();
    state.notice_popup =
        Some(NoticePopup::new("Server Switched".to_owned(), "Switched".to_owned(), 0));

    handle(&mut state, key(KeyCode::Char('q')));
    assert!(state.notice_popup.is_none());
    assert!(!state.should_quit);
}

#[test]
fn notice_popup_expires_on_background_updates() {
    let mut state = TuiStates::new();
    state.notice_popup =
        Some(NoticePopup::new("Server Switched".to_owned(), "Switched".to_owned(), 1_000));

    state.handle(connections(1, 2), String::new(), 1_000 + 5_000 + 1_000);

    assert!(state.notice_popup.is_none());
}

#[test]
fn notice_popup_stays_before_its_time() {
    let mut state = TuiStates::new();
    state.notice_popup =
        Some(NoticePopup::new("Server Switched".to_owned(), "Switched".to_owned(), 1_000));

    state.handle(connections(1, 2), String::new(), 1_000 + 4_999);

    assert!(state.notice_popup.is_some());
}

#[test]
fn server_popup_supports_adding_from_an_empty_list() {
    let mut state = TuiStates::new();

    state.open_server_popup_with(Vec::new(), None);
    assert!(state.server_popup.as_ref().unwrap().servers.is_empty());

    handle(&mut state, key(KeyCode::Down));
    handle(&mut state, key(KeyCode::Char('d')));
    handle(&mut state, key(KeyCode::Enter));
    assert!(matches!(state.server_popup.as_ref().unwrap().mode, ServerPopupMode::List));
    assert!(!state.should_quit);

    handle(&mut state, key(KeyCode::Char('a')));
    type_text(&mut state, "http://10.1.1.1:9090/");
    handle(&mut state, key(KeyCode::Enter));
    state.complete_server_change(Ok(()));

    let popup = state.server_popup.as_ref().unwrap();
    assert_eq!(popup.servers.len(), 1);
    assert_eq!(popup.servers[0].url.as_str(), "http://10.1.1.1:9090/");
}

#[test]
fn server_popup_add_form_saves_new_server() {
    let mut state = TuiStates::new();
    state.open_server_popup_with(test_servers(), None);

    handle(&mut state, key(KeyCode::Char('a')));
    assert!(matches!(state.server_popup.as_ref().unwrap().mode, ServerPopupMode::Add(_)));

    type_text(&mut state, "http://192.168.1.5:9090/");
    handle(&mut state, key(KeyCode::Tab));
    type_text(&mut state, "token");
    handle(&mut state, key(KeyCode::Down));
    handle(&mut state, key(KeyCode::Right));
    {
        let popup = state.server_popup.as_ref().unwrap();
        let ServerPopupMode::Add(form) = &popup.mode else {
            panic!("expected add mode");
        };
        assert_eq!(form.field, ServerFormField::Kind);
        assert_eq!(form.kind, ControllerKind::Clash);
    }

    handle(&mut state, key(KeyCode::Enter));
    state.complete_server_change(Ok(()));

    let popup = state.server_popup.as_ref().unwrap();
    assert!(matches!(popup.mode, ServerPopupMode::List));
    let added = popup.servers.last().unwrap();
    assert_eq!(added.url.as_str(), "http://192.168.1.5:9090/");
    assert_eq!(added.secret.as_deref(), Some("token"));
    assert_eq!(added.kind, ControllerKind::Clash);
    assert!(popup.message.as_ref().unwrap().contains("Added"));
}

#[test]
fn server_popup_add_form_rejects_invalid_and_duplicate_urls() {
    let mut state = TuiStates::new();
    state.open_server_popup_with(test_servers(), None);
    handle(&mut state, key(KeyCode::Char('a')));

    type_text(&mut state, "not a url");
    handle(&mut state, key(KeyCode::Enter));
    {
        let popup = state.server_popup.as_ref().unwrap();
        let ServerPopupMode::Add(form) = &popup.mode else {
            panic!("expected add mode");
        };
        assert!(form.error.as_ref().unwrap().contains("Invalid URL"));
    }

    handle(&mut state, ctrl_key(KeyCode::Char('u')));
    type_text(&mut state, "http://127.0.0.1:9090/");
    handle(&mut state, key(KeyCode::Enter));
    {
        let popup = state.server_popup.as_ref().unwrap();
        let ServerPopupMode::Add(form) = &popup.mode else {
            panic!("expected add mode");
        };
        assert!(form.error.as_ref().unwrap().contains("already configured"));
    }

    handle(&mut state, key(KeyCode::Esc));
    let popup = state.server_popup.as_ref().unwrap();
    assert!(matches!(popup.mode, ServerPopupMode::List));
    assert_eq!(popup.servers.len(), 2);

    handle(&mut state, key(KeyCode::Esc));
    assert!(state.server_popup.is_none());
}

#[test]
fn server_popup_deletes_inactive_server_after_confirmation() {
    let mut state = TuiStates::new();
    let servers = test_servers();
    let active = Some(servers[0].url.clone());
    state.open_server_popup_with(servers, active);

    handle(&mut state, key(KeyCode::Down));
    handle(&mut state, key(KeyCode::Char('d')));
    assert!(matches!(state.server_popup.as_ref().unwrap().mode, ServerPopupMode::ConfirmDelete));

    handle(&mut state, key(KeyCode::Enter));
    state.complete_server_change(Ok(()));

    let popup = state.server_popup.as_ref().unwrap();
    assert!(matches!(popup.mode, ServerPopupMode::List));
    assert_eq!(popup.servers.len(), 1);
    assert_eq!(popup.servers[0].url.as_str(), "http://127.0.0.1:9090/");
    assert!(popup.message.as_ref().unwrap().contains("Removed"));
}

#[test]
fn server_popup_refuses_to_delete_the_active_server() {
    let mut state = TuiStates::new();
    let servers = test_servers();
    let active = Some(servers[0].url.clone());
    state.open_server_popup_with(servers, active);

    handle(&mut state, key(KeyCode::Char('d')));

    let popup = state.server_popup.as_ref().unwrap();
    assert!(matches!(popup.mode, ServerPopupMode::List));
    assert_eq!(popup.servers.len(), 2);
    assert!(popup.message.as_ref().unwrap().contains("active"));
}

#[test]
fn p_pauses_and_resumes_log_updates() {
    let mut state = TuiStates::new();
    state.page_index = 4;

    handle(&mut state, Event::Update(UpdateEvent::Log("first".to_owned())));
    assert_eq!(state.log_state.len(), 1);

    handle(&mut state, key(KeyCode::Char('p')));
    assert!(state.log_state.is_paused());

    handle(&mut state, Event::Update(UpdateEvent::Log("second".to_owned())));
    assert_eq!(state.log_state.len(), 1);

    handle(&mut state, key(KeyCode::Char('p')));
    assert!(!state.log_state.is_paused());

    handle(&mut state, Event::Update(UpdateEvent::Log("third".to_owned())));
    assert_eq!(state.log_state.len(), 2);
    assert_eq!(state.log_state.items[1], "third");
}

#[test]
fn successful_node_switch_shows_confirmation() {
    let mut state = TuiStates::new();
    handle(
        &mut state,
        Event::Update(UpdateEvent::ProxySelectionResult {
            group: "GLOBAL".to_owned(),
            proxy: "node-a".to_owned(),
            error: None,
        }),
    );

    let notice = state.notice_popup.as_ref().unwrap();
    assert_eq!(notice.title, "Node Switched");
    assert!(notice.body.contains("GLOBAL → node-a"));
}

#[test]
fn failed_node_switch_shows_error_details() {
    let mut state = TuiStates::new();
    handle(
        &mut state,
        Event::Update(UpdateEvent::ProxySelectionResult {
            group: "GLOBAL".to_owned(),
            proxy: "node-a".to_owned(),
            error: Some("authentication failed".to_owned()),
        }),
    );

    let popup = state.api_result_popup.as_ref().unwrap();
    assert_eq!(popup.title, "Switch Node Failed");
    assert!(popup.body.contains("authentication failed"));
}

fn item(name: &str) -> ProxyItem {
    ProxyItem {
        name: name.to_owned(),
        proxy_type: ProxyType::Vmess,
        history: Some(History { delay: 10 }),
        udp: None,
        now: None,
    }
}

fn group(name: &str, members: Vec<ProxyItem>) -> ProxyGroup {
    ProxyGroup { name: name.to_owned(), proxy_type: ProxyType::Selector, members, current: None, cursor: 0 }
}

#[test]
fn proxy_tree_search_focuses_matching_member_and_can_cancel() {
    let mut tree = ProxyTree::new();
    tree.groups = vec![
        group("GlobalMedia", vec![item("home-pass"), item("racknerd")]),
        group("Fallback", vec![item("trojan-racknerd")]),
    ];

    tree.begin_search();
    for ch in "rack".chars() {
        tree.input_search_char(ch);
    }

    assert!(tree.is_searching());
    assert!(tree.expanded);
    assert_eq!(tree.cursor, 0);
    assert_eq!(tree.groups[0].cursor, 1);
    assert_eq!(tree.visible_group_indices(), vec![0, 1]);
    assert_eq!(tree.visible_member_indices(0), Some(&[1][..]));
    assert_eq!(tree.visible_member_indices(1), Some(&[0][..]));

    tree.cancel_search();
    assert!(!tree.is_searching());
}

#[test]
fn typing_a_search_char_then_backspace_gives_the_search_back() {
    let mut tree = ProxyTree::new();
    tree.groups = vec![
        group("GlobalMedia", vec![item("home-pass"), item("racknerd")]),
        group("Fallback", vec![item("trojan-racknerd")]),
        group("Direct", vec![item("home-lan")]),
    ];

    tree.begin_search();
    tree.input_search_char('h');
    let groups_before = tree.visible_group_indices();
    let members_before: Vec<Option<Vec<usize>>> =
        (0..3).map(|i| tree.visible_member_indices(i).map(|m| m.to_vec())).collect();
    assert_eq!(groups_before, vec![0, 2]);

    tree.input_search_char('o');
    tree.input_search_char('x');
    assert_eq!(tree.visible_group_indices(), Vec::<usize>::new());
    tree.backspace_search();
    tree.backspace_search();

    assert_eq!(tree.search_query.as_deref(), Some("h"));
    assert_eq!(tree.visible_group_indices(), groups_before);
    let members_after: Vec<Option<Vec<usize>>> =
        (0..3).map(|i| tree.visible_member_indices(i).map(|m| m.to_vec())).collect();
    assert_eq!(members_after, members_before);
}

#[test]
fn connection_page_uses_real_sort_method() {
    let state = TuiStates::new();
    assert_eq!(state.con_sort.label(), "Time ▼");
}

fn listed_ids(state: &TuiStates) -> Vec<&str> {
    state.con_state.items.iter().map(|r| r.id.as_str()).collect()
}

#[test]
fn connection_updates_are_ordered_and_sort_keys_cycle_the_order() {
    let mut state = TuiStates::new();
    handle(&mut state, key(KeyCode::Char('4')));
    handle(&mut state, connection_rows(&["b", "a", "c"]));
    // newest first: started at 0, 1, 2
    assert_eq!(listed_ids(&state), vec!["c", "a", "b"]);

    // alt-s goes back to the previous order: oldest first
    handle(&mut state, key_with(KeyCode::Char('s'), KeyModifiers::alt()));
    assert_eq!(state.con_sort, ConSort { by: ConSortBy::Time, order: SortOrder::Ascendant });
    assert_eq!(listed_ids(&state), vec!["b", "a", "c"]);

    // the next order after the first is by host, ascending
    handle(&mut state, key(KeyCode::Char('s')));
    handle(&mut state, key(KeyCode::Char('s')));
    assert_eq!(state.con_sort, ConSort { by: ConSortBy::Host, order: SortOrder::Ascendant });
    assert_eq!(listed_ids(&state), vec!["a", "b", "c"]);
}

#[test]
fn sort_keys_leave_other_pages_alone() {
    let mut state = TuiStates::new();
    handle(&mut state, key(KeyCode::Char('s')));
    assert_eq!(state.con_sort, ConSort::first());
}

#[test]
fn esc_key_event_maps_to_esc_input() {
    let event = key_input_of(KeyEvent { code: KeyCode::Esc, modifiers: KeyModifiers::none() });

    assert!(matches!(event, KeyInput::Input(InputEvent::Esc)));
}

#[test]
fn bare_key_codes_read_as_quit_latency_hold_and_tabs() {
    assert!(matches!(key_code_input_of(KeyCode::Char('q')), Some(KeyInput::Quit)));
    assert!(matches!(key_code_input_of(KeyCode::Char('t')), Some(KeyInput::Input(InputEvent::TestLatency))));
    assert!(matches!(key_code_input_of(KeyCode::Char('3')), Some(KeyInput::Input(InputEvent::TabGoto(3)))));
    assert!(key_code_input_of(KeyCode::Char('z')).is_none());
}

#[test]
fn connection_sort_keeps_ties_in_arrival_order() {
    let rows: Vec<ConnectionRow> = [("a", 5), ("b", 3), ("c", 5), ("d", 3)]
        .iter()
        .map(|(id, start)| ConnectionRow {
            id: (*id).to_owned(),
            line: (*id).to_owned(),
            connection: connection_fixture(id, *start),
        })
        .collect();
    let by_time = ConSort { by: ConSortBy::Time, order: SortOrder::Ascendant };
    let ids: Vec<String> = mihomoctl::con_sort::sort_connections(rows, by_time).into_iter().map(|r| r.id).collect();
    assert_eq!(ids, vec!["b", "d", "a", "c"]);
}

#[test]
fn groups_sort_by_rule_frequency_then_name_keeping_ties_in_order() {
    let mut tree = ProxyTree::new();
    tree.groups = vec![group("b", vec![]), group("a", vec![]), group("c", vec![]), group("d", vec![])];
    tree.sort_groups_with_frequency(&vec![("c".to_owned(), 1), ("d".to_owned(), 5)]);
    let names: Vec<&str> = tree.groups.iter().map(|g| g.name.as_str()).collect();
    assert_eq!(names, vec!["d", "c", "a", "b"]);

    let mut tie = ProxyTree::new();
    tie.groups = vec![group("x", vec![]), group("y", vec![]), group("z", vec![])];
    tie.sort_groups_with_frequency(&vec![("z".to_owned(), 2), ("x".to_owned(), 2), ("y".to_owned(), 2)]);
    let names: Vec<&str> = tie.groups.iter().map(|g| g.name.as_str()).collect();
    assert_eq!(names, vec!["x", "y", "z"]);
}

#[test]
fn debug_page_keeps_count_and_newest_line_across_handle() {
    let mut state = TuiStates::new();
    for i in 0..350 {
        state.handle(Event::Quit, format!("event {i}"), 0);
    }
    assert!(state.debug_state.items.len() <= 300);
    assert_eq!(state.all_events_recv, 350);
    assert_eq!(state.debug_state.items.last().map(String::as_str), Some("event 349"));
}

#[test]
fn api_result_is_recorded_on_the_operation_in_every_api_page() {
    let mut state = TuiStates::new();
    state.handle_update(
        UpdateEvent::ApiResult { operation: ApiOperation::DnsQuery, result: "ok".to_owned() },
        0,
    );
    let recorded = |list: &mihomoctl::api_page::ApiListState| {
        list.items.iter().find(|i| i.operation == ApiOperation::DnsQuery).map(|i| i.last_result.clone())
    };
    assert_eq!(recorded(&state.api_state), Some(Some("ok".to_owned())));
    assert_eq!(recorded(&state.dns_api_state), Some(Some("ok".to_owned())));
    assert!(state
        .config_core_api_state
        .items
        .iter()
        .all(|i| i.operation != ApiOperation::DnsQuery && i.last_result.is_none()));
}
