//! The state of the terminal interface and how it reacts to key presses
//! and to what the background worker reports.

use vstd::prelude::*;

use crate::api::{op_method, op_title, ApiOperation};
use crate::api_page::{
    api_state_for_kind, backspace_current_param, begin_edit, cancel_confirmation,
    clear_current_param, config_core_api_state_for_kind, current_needs_input, current_param_label,
    dns_api_state_for_kind, end_edit, input_char, is_editing, next_param, set_current_param_value,
    submit_current, update_result, ApiListState,
};
use crate::event::{Action, InputEvent, KeyCode, KeyEvent, ListEvent};
use crate::kind::ControllerKind;
use crate::list::{filter_ok, filter_in_range, moved, searched_filter_ok, Coord, ListState, SearchText};
use crate::con_sort::{con_sorts, sort_connections, sort_index, sorted_by, ConSort, ConnectionItem};
use crate::json::JsonValue;
use crate::model::{ConnectionWithSpeed, Mode, Proxies, Rule};
use crate::popup::{
    elapsed_ms, ApiResultPopup, ConfirmPopup, ModeSwitchPopup, NoticePopup, Server, ServerPopupMode,
    ServerPopupOutcome, ServerSwitchPopup, switcher_wf,
};
use crate::proxy::{groups_wf, listing_is_complete, member_lists_ok, proxies_complete, tree_wf, ProxyTree};
use crate::text::{concat, owned, str_eq, u64_to_decimal, usize_to_decimal};

verus! {

/// A connection as the connection page lists it: its id, its line and the
/// connection itself, by which the page orders it.
#[derive(Debug, PartialEq, Eq)]
pub struct ConnectionRow {
    pub id: String,
    pub line: String,
    pub connection: ConnectionWithSpeed,
}

impl ConnectionItem for ConnectionRow {
    open spec fn item_connection(&self) -> ConnectionWithSpeed {
        self.connection
    }

    fn connection_ref(&self) -> (r: &ConnectionWithSpeed) {
        &self.connection
    }
}

/// A connection is found when its lower-cased line contains the query.
impl SearchText for ConnectionRow {
    open spec fn hit(&self, query: Seq<char>) -> bool {
        crate::text::contains_spec(crate::text::unicode_lower(self.line@), query)
    }

    fn is_hit(&self, query: &str) -> (r: bool) {
        let lower = crate::text::to_lowercase(self.line.as_str());
        crate::text::str_contains(lower.as_str(), query)
    }
}

/// Traffic in bytes per second.
#[derive(Debug, Clone, Copy, PartialEq, Eq, Structural)]
pub struct Traffic {
    pub up: u64,
    pub down: u64,
}

/// What the background worker reports.
#[derive(Debug, PartialEq, Eq)]
pub enum UpdateEvent {
    /// The runtime configuration; the interface keeps its mode.
    Config { mode: Mode },
    /// The open connections, as lines in the order shown, and the totals.
    Connection { rows: Vec<ConnectionRow>, upload_total: u64, download_total: u64 },
    Version(String),
    Traffic(Traffic),
    Memory(JsonValue),
    Proxies(Proxies),
    /// The rules, and how often each proxy is named by a rule.
    Rules { rules: Vec<Rule>, frequency: Vec<(String, usize)> },
    Log(String),
    ProxyTestLatencyDone,
    ProxySelectionResult { group: String, proxy: String, error: Option<String> },
    ModeSwitchResult { mode: Mode, error: Option<String> },
    ConfigReloadResult { error: Option<String> },
    ConfigFetchResult { error: Option<String> },
    GeoUpdateResult { error: Option<String> },
    ConnectionCloseResult { all: bool, error: Option<String> },
    ApiResult { operation: ApiOperation, result: String },
}

/// The page titles, in tab order; the last page is only there while
/// debugging.
pub open spec fn titles() -> Seq<Seq<char>> {
    seq![
        "Status"@,
        "Proxies"@,
        "Rules"@,
        "Conns"@,
        "Logs"@,
        "Core"@,
        "DNS"@,
        "APIs"@,
        "Debug"@,
    ]
}

/// Page positions.
pub open spec fn status_page() -> u8 { 0 }
pub open spec fn proxies_page() -> u8 { 1 }
pub open spec fn rules_page() -> u8 { 2 }
pub open spec fn conns_page() -> u8 { 3 }
pub open spec fn logs_page() -> u8 { 4 }
pub open spec fn core_page() -> u8 { 5 }
pub open spec fn dns_page() -> u8 { 6 }
pub open spec fn apis_page() -> u8 { 7 }
pub open spec fn debug_page() -> u8 { 8 }

/// The whole state of the interface.
#[derive(Debug, PartialEq, Eq)]
pub struct TuiStates {
    pub should_quit: bool,
    pub version: Option<String>,
    pub traffics: Vec<Traffic>,
    /// The last memory report of the controller.
    pub memory: Option<JsonValue>,
    pub max_traffic: Traffic,
    pub all_events_recv: usize,
    pub page_index: u8,
    pub show_debug: bool,
    pub proxy_tree: ProxyTree,
    pub rule_freq: Vec<(String, usize)>,
    /// Upload and download totals of the connections.
    pub con_size: (u64, u64),
    pub log_state: ListState<String>,
    pub con_state: ListState<ConnectionRow>,
    /// The order of the connection page.
    pub con_sort: ConSort,
    pub rule_state: ListState<Rule>,
    pub debug_state: ListState<String>,
    pub config_core_api_state: ApiListState,
    pub dns_api_state: ApiListState,
    pub api_state: ApiListState,
    pub api_result_popup: Option<ApiResultPopup>,
    pub notice_popup: Option<NoticePopup>,
    pub server_popup: Option<ServerSwitchPopup>,
    pub mode_popup: Option<ModeSwitchPopup>,
    pub confirm_popup: Option<ConfirmPopup>,
    /// Scroll position of the help popup, while it is shown.
    pub help_popup: Option<Coord>,
    /// The server to restart on, once the interface quits.
    pub switch_to_server: Option<String>,
    /// The server switcher was asked for: the caller opens it with the
    /// configured servers.
    pub server_popup_wanted: bool,
    /// The routing mode the controller last reported.
    pub mode: Option<Mode>,
    /// A change of the configured servers the server switcher asked for:
    /// the caller saves it and reports back with
    /// [`TuiStates::complete_server_change`].
    pub pending_server_change: Option<ServerChange>,
}

/// A change of the configured servers.
#[derive(Debug, PartialEq, Eq)]
pub enum ServerChange {
    Add(Server),
    Remove(String),
}

/// Number of pages: all of them while debugging, all but the last one
/// otherwise.
pub open spec fn page_count(show_debug: bool) -> nat {
    if show_debug {
        9
    } else {
        8
    }
}

/// The parts of the state that keep their shape: a page that exists, the
/// lists' filters point at items, the proxy page's cursors point at groups
/// and members, the mode switcher's cursor at a mode and the server
/// switcher's at a server.
pub open spec fn tui_wf(s: TuiStates) -> bool {
    &&& s.page_index < 9
    &&& filter_in_range(s.log_state.filtered_indices, s.log_state.items@.len())
    &&& filter_in_range(s.con_state.filtered_indices, s.con_state.items@.len())
    &&& filter_in_range(s.rule_state.filtered_indices, s.rule_state.items@.len())
    &&& filter_in_range(s.debug_state.filtered_indices, s.debug_state.items@.len())
    &&& s.debug_state.items@.len() <= debug_limit()
    &&& groups_wf(s.proxy_tree.groups@)
    &&& crate::proxy::shows_its_search(s.proxy_tree)
    &&& (s.mode_popup matches Some(p) ==> p.index < 3)
    &&& (s.server_popup matches Some(p) ==> crate::popup::switcher_wf(p))
}

/// The name a mode is shown with.
pub open spec fn mode_name(m: Mode) -> Seq<char> {
    match m {
        Mode::Rule => "Rule"@,
        Mode::Global => "Global"@,
        Mode::Direct => "Direct"@,
    }
}

pub fn mode_label(m: Mode) -> (r: &'static str)
    ensures
        r@ == mode_name(m),
{
    match m {
        Mode::Rule => "Rule",
        Mode::Global => "Global",
        Mode::Direct => "Direct",
    }
}

/// The page titles, in tab order.
pub fn title_of(index: u8) -> (r: &'static str)
    requires
        index < 9,
    ensures
        r@ == titles()[index as int],
{
    match index {
        0 => "Status",
        1 => "Proxies",
        2 => "Rules",
        3 => "Conns",
        4 => "Logs",
        5 => "Core",
        6 => "DNS",
        7 => "APIs",
        _ => "Debug",
    }
}

fn new_list<T>() -> (r: ListState<T>)
    ensures
        r.items@.len() == 0,
        r.offset == (Coord { x: 0, y: 0, hold: false }),
        r.padding == 1,
        !r.with_index && !r.reverse_index && r.reverse_items,
        !r.pause_enabled && !r.paused,
        r.search_query is None && r.filtered_indices is None && r.placeholder is None,
{
    ListState::new(Vec::new())
}

impl TuiStates {
    /// The interface as it starts, for a controller of `kind`: on the
    /// status page, logs numbered newest first and pausable, connections
    /// pausable and saying so when there are none, and the API pages
    /// listing what the controller offers.
    pub fn for_controller_kind(kind: ControllerKind) -> (r: TuiStates)
        ensures
            tui_wf(r),
            r.page_index == 0 && !r.show_debug && !r.should_quit,
            r.all_events_recv == 0,
            r.api_result_popup is None && r.notice_popup is None && r.server_popup is None,
            r.mode_popup is None && r.confirm_popup is None && r.help_popup is None,
            r.switch_to_server is None && !r.server_popup_wanted && r.mode is None,
            r.pending_server_change is None,
            r.log_state.with_index && r.log_state.reverse_index && r.log_state.pause_enabled,
            r.con_state.pause_enabled,
            r.con_state.placeholder matches Some(p) && p@ == "No active connections"@,
            r.con_sort == con_sorts()[0],
            r.log_state.items@.len() == 0 && r.con_state.items@.len() == 0,
            r.rule_state.items@.len() == 0 && r.debug_state.items@.len() == 0,
            r.proxy_tree.groups@.len() == 0,
            !r.proxy_tree.expanded && r.proxy_tree.cursor == 0 && !r.proxy_tree.testing,
            r.proxy_tree.search_query is None && r.proxy_tree.visible_group_indices is None,
            member_lists_ok(r.proxy_tree),
            !r.log_state.offset.hold,
            forall|ev: InputEvent| #[trigger] input_ok(r, ev),
            crate::api_page::fresh_page(r.config_core_api_state, crate::api_page::supported_ops(crate::api_page::config_core_operations(), kind)),
            crate::api_page::fresh_page(r.dns_api_state, crate::api_page::supported_ops(crate::api_page::dns_operations(), kind)),
            crate::api_page::fresh_page(r.api_state, crate::api_page::supported_ops(crate::api::all_operations(), kind)),
    {
        let mut log_state = new_list();
        log_state.with_index();
        log_state.dsc_index();
        log_state.pausable();
        let mut con_state = new_list();
        con_state.pausable();
        con_state.placeholder(owned("No active connections"));
        TuiStates {
            should_quit: false,
            version: None,
            traffics: Vec::new(),
            memory: None,
            max_traffic: Traffic { up: 0, down: 0 },
            all_events_recv: 0,
            page_index: 0,
            show_debug: false,
            proxy_tree: ProxyTree::new(),
            rule_freq: Vec::new(),
            con_size: (0, 0),
            log_state,
            con_state,
            con_sort: ConSort::first(),
            rule_state: new_list(),
            debug_state: new_list(),
            config_core_api_state: config_core_api_state_for_kind(kind),
            dns_api_state: dns_api_state_for_kind(kind),
            api_state: api_state_for_kind(kind),
            api_result_popup: None,
            notice_popup: None,
            server_popup: None,
            mode_popup: None,
            confirm_popup: None,
            help_popup: None,
            switch_to_server: None,
            server_popup_wanted: false,
            mode: None,
            pending_server_change: None,
        }
    }

    /// The interface for a Mihomo controller.
    pub fn new() -> (r: TuiStates)
        ensures
            tui_wf(r),
            r.page_index == 0 && !r.show_debug && !r.should_quit,
            r.proxy_tree.groups@.len() == 0,
            !r.proxy_tree.expanded && r.proxy_tree.cursor == 0 && !r.proxy_tree.testing,
            r.proxy_tree.search_query is None && r.proxy_tree.visible_group_indices is None,
            member_lists_ok(r.proxy_tree),
            !r.log_state.offset.hold,
            forall|ev: InputEvent| #[trigger] input_ok(r, ev),
            crate::api_page::fresh_page(r.api_state, crate::api_page::supported_ops(crate::api::all_operations(), ControllerKind::Mihomo)),
    {
        TuiStates::for_controller_kind(ControllerKind::Mihomo)
    }

    /// Number of pages that can be visited.
    pub fn page_len(&self) -> (r: usize)
        ensures
            r == page_count(self.show_debug),
    {
        if self.show_debug {
            9
        } else {
            8
        }
    }

    /// The title of the page shown.
    pub fn title(&self) -> (r: &'static str)
        requires
            self.page_index < 9,
        ensures
            r@ == titles()[self.page_index as int],
    {
        title_of(self.page_index)
    }

    /// Position of the debug page.
    pub fn debug_page_index(&self) -> (r: u8)
        ensures
            r == debug_page(),
    {
        8
    }

    /// Position of the page listing every API operation.
    pub fn api_page_index() -> (r: u8)
        ensures
            r == apis_page(),
    {
        7
    }

    /// Whether the page shown is one of the API pages.
    pub fn is_api_page(&self) -> (r: bool)
        ensures
            r == (self.page_index == core_page() || self.page_index == dns_page()
                || self.page_index == apis_page()),
    {
        self.page_index == 5 || self.page_index == 6 || self.page_index == 7
    }

    /// Opens the server switcher on `servers`, with the cursor on the
    /// server in use; see [`ServerSwitchPopup::open`].
    pub fn open_server_popup_with(&mut self, servers: Vec<Server>, active: Option<String>)
        ensures
            tui_wf(*old(self)) ==> tui_wf(*final(self)),
            final(self).server_popup matches Some(p) && (p.servers == servers && p.active == active
                && p.mode == ServerPopupMode::List && p.message is None
                && p.index == (match active {
                    Some(a) => match crate::popup::server_pos(servers@, a@) {
                        Some(i) => i as usize,
                        None => 0,
                    },
                    None => 0,
                })),
            *final(self) == (TuiStates { server_popup: final(self).server_popup, ..*old(self) }),
    {
        self.server_popup = Some(ServerSwitchPopup::open(servers, active));
    }

    /// Opens the server switcher, as [`Self::open_server_popup_with`]
    /// does, telling how to add a server when none is configured; the
    /// request for it is then answered.
    pub fn open_server_popup(&mut self, servers: Vec<Server>, active: Option<String>)
        ensures
            tui_wf(*old(self)) ==> tui_wf(*final(self)),
            final(self).server_popup matches Some(p) && (p.servers == servers && p.active == active
                && p.mode == ServerPopupMode::List
                && (if servers@.len() == 0 {
                    p.message matches Some(m) && m@ == "No servers configured, press a to add one"@
                } else {
                    p.message is None
                })),
            !final(self).server_popup_wanted,
            *final(self) == (TuiStates {
                server_popup: final(self).server_popup,
                server_popup_wanted: false,
                ..*old(self)
            }),
    {
        let empty = servers.len() == 0;
        let mut popup = ServerSwitchPopup::open(servers, active);
        if empty {
            popup.message = Some(owned("No servers configured, press a to add one"));
        }
        self.server_popup = Some(popup);
        self.server_popup_wanted = false;
    }
}

/// The outcome of a request shown: a failure opens a result popup with the
/// failure's title and text, a success a notice with its title and text,
/// shown at `now`; nothing else changes.
pub open spec fn reported(
    old: TuiStates,
    new: TuiStates,
    failed: bool,
    fail_title: Seq<char>,
    fail_body: Seq<char>,
    ok_title: Seq<char>,
    ok_body: Seq<char>,
    now: u64,
) -> bool {
    if failed {
        &&& new == (TuiStates { api_result_popup: new.api_result_popup, ..old })
        &&& new.api_result_popup matches Some(p)
        &&& p.title@ == fail_title && p.body@ == fail_body
        &&& p.offset == (Coord { x: 0, y: 0, hold: false })
    } else {
        &&& new == (TuiStates { notice_popup: new.notice_popup, ..old })
        &&& new.notice_popup matches Some(n)
        &&& n.title@ == ok_title && n.body@ == ok_body && n.created_ms == now
    }
}

/// The text after a switch of `group` to `proxy`.
pub open spec fn switch_text(group: Seq<char>, proxy: Seq<char>) -> Seq<char> {
    group + " → "@ + proxy
}

/// What a connection close was about.
pub open spec fn close_target(all: bool) -> Seq<char> {
    if all {
        "All Connections"@
    } else {
        "Connection"@
    }
}

/// The error text, or nothing.
pub open spec fn error_text(e: Option<String>) -> Seq<char> {
    match e {
        Some(e) => e@,
        None => Seq::empty(),
    }
}

/// What a report of the background worker does; see
/// [`TuiStates::handle_update`].
pub open spec fn update_done(old: TuiStates, new: TuiStates, update: UpdateEvent, now: u64) -> bool {
    match update {
        UpdateEvent::ProxySelectionResult { group, proxy, error } => reported(
            old,
            new,
            error is Some,
            "Switch Node Failed"@,
            switch_text(group@, proxy@) + "\n\n"@ + error_text(error),
            "Node Switched"@,
            switch_text(group@, proxy@),
            now,
        ),
        UpdateEvent::ModeSwitchResult { mode, error } => reported(
            old,
            new,
            error is Some,
            "Switch Mode Failed"@,
            "mode → "@ + mode_name(mode) + "\n\n"@ + error_text(error),
            "Mode Switched"@,
            "mode → "@ + mode_name(mode),
            now,
        ),
        UpdateEvent::ConfigFetchResult { error } => reported(
            old,
            new,
            error is Some,
            "Fetch Configs Failed"@,
            error_text(error),
            "Configs Refreshed"@,
            "Fetched the latest configs from the server"@,
            now,
        ),
        UpdateEvent::ConnectionCloseResult { all, error } => reported(
            old,
            new,
            error is Some,
            "Close "@ + close_target(all) + " Failed"@,
            error_text(error),
            close_target(all) + " Closed"@,
            "The server has dropped the connection(s)"@,
            now,
        ),
        UpdateEvent::GeoUpdateResult { error } => reported(
            old,
            new,
            error is Some,
            "Update Geo Failed"@,
            error_text(error),
            "Geo Update Started"@,
            "The server is downloading the geo databases"@,
            now,
        ),
        UpdateEvent::ConfigReloadResult { error } => reported(
            old,
            new,
            error is Some,
            "Reload Configs Failed"@,
            error_text(error),
            "Configs Reloaded"@,
            "Reloaded from the config file on the server"@,
            now,
        ),
        UpdateEvent::Config { mode } => new == (TuiStates { mode: Some(mode), ..old }),
        UpdateEvent::Version(v) => new == (TuiStates { version: Some(v), ..old }),
        UpdateEvent::Memory(m) => new == (TuiStates { memory: Some(m), ..old }),
        UpdateEvent::Traffic(t) => {
            &&& new.traffics@ == old.traffics@.push(t)
            &&& new.max_traffic == (Traffic {
                up: if t.up > old.max_traffic.up { t.up } else { old.max_traffic.up },
                down: if t.down > old.max_traffic.down { t.down } else { old.max_traffic.down },
            })
            &&& new == (TuiStates {
                traffics: new.traffics,
                max_traffic: new.max_traffic,
                ..old
            })
        },
        UpdateEvent::ProxyTestLatencyDone => new == (TuiStates {
            proxy_tree: ProxyTree { testing: false, ..old.proxy_tree },
            ..old
        }),
        UpdateEvent::Log(line) => if old.log_state.paused {
            new == old
        } else {
            &&& new.log_state.items@ == old.log_state.items@.push(line)
            &&& ListState::<String>::searched(
                ListState {
                    items: new.log_state.items,
                    offset: if old.log_state.offset.hold {
                        Coord { y: (old.log_state.offset.y + 1) as usize, ..old.log_state.offset }
                    } else {
                        old.log_state.offset
                    },
                    ..old.log_state
                },
                new.log_state,
            )
            &&& new == (TuiStates { log_state: new.log_state, ..old })
        },
        UpdateEvent::Connection { rows, upload_total, download_total } => if old.con_state.paused {
            new == old
        } else {
            &&& new.con_state.items@ == sorted_by(old.con_sort, rows@)
            &&& ListState::<ConnectionRow>::searched(ListState { items: new.con_state.items, ..old.con_state }, ListState { with_index: old.con_state.with_index, ..new.con_state })
            &&& new.con_state.with_index
            &&& new.con_size == (upload_total, download_total)
            &&& new == (TuiStates {
                con_state: new.con_state,
                con_size: new.con_size,
                ..old
            })
        },
        UpdateEvent::Rules { rules, frequency } => {
            &&& ListState::<Rule>::searched(ListState { items: rules, ..old.rule_state }, new.rule_state)
            &&& new.rule_freq == frequency
            &&& new == (TuiStates {
                rule_state: new.rule_state,
                rule_freq: new.rule_freq,
                ..old
            })
        },
        UpdateEvent::Proxies(p) => {
            &&& exists|fresh: ProxyTree, sorted: ProxyTree| {
                &&& crate::proxy::built_from(fresh, p)
                &&& crate::proxy::sorted_by_frequency(fresh, sorted, old.rule_freq@)
                &&& crate::proxy::replaced_by(old.proxy_tree, sorted, new.proxy_tree)
            }
            &&& new == (TuiStates { proxy_tree: new.proxy_tree, ..old })
        },
        UpdateEvent::ApiResult { operation, result } => {
            &&& new.api_result_popup matches Some(p)
            &&& p.title@ == op_method(operation) + " "@ + op_title(operation)
            &&& p.body@ == result@
            &&& p.offset == (Coord { x: 0, y: 0, hold: false })
            &&& crate::api_page::result_recorded(old.config_core_api_state, new.config_core_api_state, operation, result@)
            &&& crate::api_page::result_recorded(old.dns_api_state, new.dns_api_state, operation, result@)
            &&& crate::api_page::result_recorded(old.api_state, new.api_state, operation, result@)
            &&& new == (TuiStates {
                api_result_popup: new.api_result_popup,
                config_core_api_state: new.config_core_api_state,
                dns_api_state: new.dns_api_state,
                api_state: new.api_state,
                ..old
            })
        },
    }
}

impl TuiStates {
    fn report(
        &mut self,
        error: Option<String>,
        fail_title: String,
        fail_body: String,
        ok_title: String,
        ok_body: String,
        now_ms: u64,
    )
        ensures
            reported(*old(self), *final(self), error is Some, fail_title@, fail_body@, ok_title@, ok_body@, now_ms),
    {
        match error {
            Some(_) => {
                self.api_result_popup = Some(ApiResultPopup::new(fail_title, fail_body));
            },
            None => {
                self.notice_popup = Some(NoticePopup::new(ok_title, ok_body, now_ms));
            },
        }
    }

    /// A report of the background worker: data updates the lists and the
    /// status, the outcome of a request opens a popup or a notice (see
    /// [`reported`]), and an API result goes to the operation's item on
    /// every API page and opens a popup titled with its method and title.
    pub fn handle_update(&mut self, update: UpdateEvent, now_ms: u64)
        requires
            tui_wf(*old(self)),
            old(self).log_state.offset.hold ==> old(self).log_state.offset.y < usize::MAX,
            update matches UpdateEvent::Proxies(p) ==> proxies_complete(p.entries@),
        ensures
            tui_wf(*final(self)),
            update_done(*old(self), *final(self), update, now_ms),
    {
        match update {
            UpdateEvent::Config { mode } => {
                self.mode = Some(mode);
            },
            UpdateEvent::Connection { rows, upload_total, download_total } => {
                if !self.con_state.is_paused() {
                    self.con_size = (upload_total, download_total);
                    proof {
                        crate::list::lemma_vec_len_fits(&rows);
                    }
                    let ghost before = self.con_state;
                    let rows = sort_connections(rows, self.con_sort);
                    proof {
                        crate::list::lemma_vec_len_fits(&rows);
                    }
                    self.con_state.replace_items(rows);
                    proof {
                        searched_filter_ok(ListState { items: rows, ..before }, self.con_state);
                    }
                    self.con_state.with_index();
                }
            },
            UpdateEvent::Version(v) => {
                self.version = Some(v);
            },
            UpdateEvent::Traffic(t) => {
                if t.up > self.max_traffic.up {
                    self.max_traffic.up = t.up;
                }
                if t.down > self.max_traffic.down {
                    self.max_traffic.down = t.down;
                }
                self.traffics.push(t);
            },
            UpdateEvent::Memory(m) => {
                self.memory = Some(m);
            },
            UpdateEvent::Proxies(proxies) => {
                let tree = ProxyTree::from_proxies(&proxies);
                let ghost fresh = tree;
                let mut tree = tree;
                tree.sort_groups_with_frequency(&self.rule_freq);
                let ghost sorted = tree;
                self.proxy_tree.replace_with(tree);
                assert(crate::proxy::built_from(fresh, proxies) && crate::proxy::sorted_by_frequency(fresh, sorted, self.rule_freq@));
            },
            UpdateEvent::Log(line) => {
                if !self.log_state.is_paused() {
                    proof {
                        crate::list::lemma_vec_len_fits(&self.log_state.items);
                    }
                    let ghost before = self.log_state;
                    self.log_state.push(line);
                    proof {
                        crate::list::lemma_vec_len_fits(&self.log_state.items);
                    }
                    proof {
                        searched_filter_ok(
                            ListState {
                                items: self.log_state.items,
                                offset: if before.offset.hold {
                                    Coord { y: (before.offset.y + 1) as usize, ..before.offset }
                                } else {
                                    before.offset
                                },
                                ..before
                            },
                            self.log_state,
                        );
                    }
                }
            },
            UpdateEvent::Rules { rules, frequency } => {
                self.rule_freq = frequency;
                proof {
                    crate::list::lemma_vec_len_fits(&rules);
                }
                let ghost before = self.rule_state;
                self.rule_state.replace_items(rules);
                proof {
                    searched_filter_ok(ListState { items: rules, ..before }, self.rule_state);
                }
            },
            UpdateEvent::ProxyTestLatencyDone => {
                self.proxy_tree.end_testing();
            },
            UpdateEvent::ProxySelectionResult { group, proxy, error } => {
                let mut body = owned(group.as_str());
                body.append(" → ");
                body.append(proxy.as_str());
                let ok_body = owned(body.as_str());
                body.append("\n\n");
                match &error {
                    Some(e) => body.append(e.as_str()),
                    None => {},
                }
                self.report(error, owned("Switch Node Failed"), body, owned("Node Switched"), ok_body, now_ms);
            },
            UpdateEvent::ModeSwitchResult { mode, error } => {
                let mut body = concat("mode → ", mode_label(mode));
                let ok_body = owned(body.as_str());
                body.append("\n\n");
                match &error {
                    Some(e) => body.append(e.as_str()),
                    None => {},
                }
                self.report(error, owned("Switch Mode Failed"), body, owned("Mode Switched"), ok_body, now_ms);
            },
            UpdateEvent::ConfigFetchResult { error } => {
                let body = match &error {
                    Some(e) => e.clone(),
                    None => String::new(),
                };
                self.report(
                    error,
                    owned("Fetch Configs Failed"),
                    body,
                    owned("Configs Refreshed"),
                    owned("Fetched the latest configs from the server"),
                    now_ms,
                );
            },
            UpdateEvent::ConnectionCloseResult { all, error } => {
                let target = if all {
                    "All Connections"
                } else {
                    "Connection"
                };
                let mut fail_title = concat("Close ", target);
                fail_title.append(" Failed");
                let ok_title = concat(target, " Closed");
                let body = match &error {
                    Some(e) => e.clone(),
                    None => String::new(),
                };
                self.report(
                    error,
                    fail_title,
                    body,
                    ok_title,
                    owned("The server has dropped the connection(s)"),
                    now_ms,
                );
            },
            UpdateEvent::GeoUpdateResult { error } => {
                let body = match &error {
                    Some(e) => e.clone(),
                    None => String::new(),
                };
                self.report(
                    error,
                    owned("Update Geo Failed"),
                    body,
                    owned("Geo Update Started"),
                    owned("The server is downloading the geo databases"),
                    now_ms,
                );
            },
            UpdateEvent::ConfigReloadResult { error } => {
                let body = match &error {
                    Some(e) => e.clone(),
                    None => String::new(),
                };
                self.report(
                    error,
                    owned("Reload Configs Failed"),
                    body,
                    owned("Configs Reloaded"),
                    owned("Reloaded from the config file on the server"),
                    now_ms,
                );
            },
            UpdateEvent::ApiResult { operation, result } => {
                let ghost core0 = self.config_core_api_state;
                let ghost dns0 = self.dns_api_state;
                let ghost api0 = self.api_state;
                let r1 = result.clone();
                let r2 = result.clone();
                let r3 = result.clone();
                update_result(&mut self.config_core_api_state, operation, r1);
                update_result(&mut self.dns_api_state, operation, r2);
                update_result(&mut self.api_state, operation, r3);
                proof {
                    crate::api_page::lemma_result_recorded(core0, self.config_core_api_state, operation, r1);
                    crate::api_page::lemma_result_recorded(dns0, self.dns_api_state, operation, r2);
                    crate::api_page::lemma_result_recorded(api0, self.api_state, operation, r3);
                }
                let mut title = owned(operation.method());
                title.append(" ");
                title.append(operation.title());
                self.api_result_popup = Some(ApiResultPopup::new(title, result));
            },
        }
    }
}

/// The list of the API page shown, when an API page is shown.
pub open spec fn api_of(s: TuiStates) -> ApiListState {
    if s.page_index == core_page() {
        s.config_core_api_state
    } else if s.page_index == dns_page() {
        s.dns_api_state
    } else {
        s.api_state
    }
}

/// `s` with the list of the API page shown replaced by `a`.
pub open spec fn with_api(s: TuiStates, a: ApiListState) -> TuiStates {
    if s.page_index == core_page() {
        TuiStates { config_core_api_state: a, ..s }
    } else if s.page_index == dns_page() {
        TuiStates { dns_api_state: a, ..s }
    } else {
        TuiStates { api_state: a, ..s }
    }
}

/// An API page is shown.
pub open spec fn on_api_page(s: TuiStates) -> bool {
    s.page_index == core_page() || s.page_index == dns_page() || s.page_index == apis_page()
}

impl TuiStates {
    fn active_api_mut(&mut self) -> (r: &mut ApiListState)
        requires
            on_api_page(*old(self)),
        ensures
            *r == api_of(*old(self)),
            *final(self) == with_api(*old(self), *final(r)),
    {
        if self.page_index == 5 {
            &mut self.config_core_api_state
        } else if self.page_index == 6 {
            &mut self.dns_api_state
        } else {
            &mut self.api_state
        }
    }

    fn active_api(&self) -> (r: &ApiListState)
        requires
            on_api_page(*self),
        ensures
            *r == api_of(*self),
    {
        if self.page_index == 5 {
            &self.config_core_api_state
        } else if self.page_index == 6 {
            &self.dns_api_state
        } else {
            &self.api_state
        }
    }

    /// The operations list of the API page shown, when one is shown.
    pub fn active_api_state(&self) -> (r: Option<&ApiListState>)
        ensures
            on_api_page(*self) ==> r == Some(&api_of(*self)),
            !on_api_page(*self) ==> r is None,
    {
        if self.page_index == 5 || self.page_index == 6 || self.page_index == 7 {
            Some(self.active_api())
        } else {
            None
        }
    }
}

/// `(a - b)` or zero, for positions.
pub open spec fn sat_sub_usize(a: usize, b: int) -> usize {
    if a >= b {
        (a - b) as usize
    } else {
        0
    }
}

/// `(a + b)` or the largest position.
pub open spec fn sat_add_usize(a: usize, b: int) -> usize {
    if a + b <= usize::MAX {
        (a + b) as usize
    } else {
        usize::MAX
    }
}

/// A popup scrolled by an arrow key: a row at a time, four columns at a
/// time, eight times as far when fast.
pub open spec fn scrolled(offset: Coord, ev: ListEvent) -> Coord {
    let step: int = if ev.fast {
        8
    } else {
        1
    };
    match ev.code {
        KeyCode::Up => Coord { y: sat_sub_usize(offset.y, step), ..offset },
        KeyCode::Down => Coord { y: sat_add_usize(offset.y, step), ..offset },
        KeyCode::Left => Coord { x: sat_sub_usize(offset.x, step * 4), ..offset },
        KeyCode::Right => Coord { x: sat_add_usize(offset.x, step * 4), ..offset },
        _ => offset,
    }
}

fn scroll(offset: Coord, ev: ListEvent) -> (r: Coord)
    ensures
        r == scrolled(offset, ev),
{
    let step: usize = if ev.fast {
        8
    } else {
        1
    };
    match ev.code {
        KeyCode::Up => Coord { y: offset.y.saturating_sub(step), ..offset },
        KeyCode::Down => Coord { y: offset.y.saturating_add(step), ..offset },
        KeyCode::Left => Coord { x: offset.x.saturating_sub(step * 4), ..offset },
        KeyCode::Right => Coord { x: offset.x.saturating_add(step * 4), ..offset },
        _ => offset,
    }
}

/// The mode switcher after an arrow key: Up and Down move round the three
/// modes.
pub open spec fn mode_cursor(index: usize, code: KeyCode) -> usize {
    match code {
        KeyCode::Up => if index >= 1 {
            (index - 1) as usize
        } else {
            2
        },
        KeyCode::Down => ((index + 1) % 3) as usize,
        _ => index,
    }
}

/// An arrow key scrolls a popup: Up and Down move the row one back or on
/// (eight when fast), Left and Right move the column four back or on
/// (thirty-two when fast), never below zero nor past the largest `usize`;
/// the other coordinate and the hold stay, and any other key changes
/// nothing.
pub proof fn popup_keys_scroll(offset: Coord, ev: ListEvent)
    ensures
        ({
            let r = scrolled(offset, ev);
            let sy: int = if ev.fast {
                8
            } else {
                1
            };
            let sx: int = if ev.fast {
                32
            } else {
                4
            };
            &&& r.hold == offset.hold
            &&& ev.code is Up ==> r.x == offset.x && r.y == (if offset.y >= sy {
                offset.y - sy
            } else {
                0
            })
            &&& ev.code is Down ==> r.x == offset.x && r.y == (if offset.y + sy <= usize::MAX {
                offset.y + sy
            } else {
                usize::MAX as int
            })
            &&& ev.code is Left ==> r.y == offset.y && r.x == (if offset.x >= sx {
                offset.x - sx
            } else {
                0
            })
            &&& ev.code is Right ==> r.y == offset.y && r.x == (if offset.x + sx <= usize::MAX {
                offset.x + sx
            } else {
                usize::MAX as int
            })
            &&& !(ev.code is Up || ev.code is Down || ev.code is Left || ev.code is Right) ==> r == offset
        }),
{
}

/// Up and Down move round the three modes: Down goes to the next mode and
/// from the last back to the first, Up to the previous one and from the
/// first to the last, so that Up undoes Down; other keys stay.
pub proof fn mode_keys_go_round(index: usize, code: KeyCode)
    requires
        index < 3,
    ensures
        code is Down ==> mode_cursor(index, code) == (if index == 2 {
            0
        } else {
            index + 1
        }),
        code is Up ==> mode_cursor(index, code) == (if index == 0 {
            2
        } else {
            index - 1
        }),
        mode_cursor(mode_cursor(index, KeyCode::Down), KeyCode::Up) == index,
        !(code is Up || code is Down) ==> mode_cursor(index, code) == index,
{
}

/// The names of the normal members of a group, in order.
pub open spec fn normal_names(members: Seq<crate::proxy::ProxyItem>) -> Seq<Seq<char>> {
    crate::proxy::normal_names_of(members)
}

impl TuiStates {
    /// Goes to page `index`, counted from one, when there is such a page.
    pub fn tab_goto(&mut self, index: u8)
        ensures
            *final(self) == (if 1 <= index && index <= page_count(old(self).show_debug) {
                TuiStates { page_index: (index - 1) as u8, ..*old(self) }
            } else {
                *old(self)
            }),
    {
        let len = self.page_len();
        if index >= 1 && (index as usize) <= len {
            self.page_index = index - 1;
        }
    }

    /// Shows or hides the debug page; leaving it while on it goes to the
    /// page before, showing it goes to it.
    pub fn toggle_debug(&mut self)
        ensures
            *final(self) == (TuiStates {
                show_debug: !old(self).show_debug,
                page_index: if old(self).page_index == debug_page() {
                    (debug_page() - 1) as u8
                } else if !old(self).show_debug {
                    debug_page()
                } else {
                    old(self).page_index
                },
                ..*old(self)
            }),
    {
        self.show_debug = !self.show_debug;
        if self.page_index == 8 {
            self.page_index = 7;
        } else if self.show_debug {
            self.page_index = 8;
        }
    }

    /// The mode switcher after an arrow key or Enter: Enter closes it and
    /// asks to switch to the mode under the cursor when it is not the
    /// current one.
    fn mode_popup_key(&mut self, ev: ListEvent) -> (r: Option<Action>)
        requires
            old(self).mode_popup matches Some(p) && p.index < 3,
        ensures
            ({
                let p = old(self).mode_popup->0;
                if ev.code is Enter {
                    let m = crate::popup::modes()[p.index as int];
                    &&& *final(self) == (TuiStates { mode_popup: None, ..*old(self) })
                    &&& r == (if m != p.current {
                        Some(Action::SetMode { mode: m })
                    } else {
                        None
                    })
                } else {
                    &&& r is None
                    &&& *final(self) == (TuiStates {
                        mode_popup: Some(ModeSwitchPopup { index: mode_cursor(p.index, ev.code), ..p }),
                        ..*old(self)
                    })
                }
            }),
    {
        let p = match self.mode_popup {
            Some(p) => p,
            None => return None,
        };
        match ev.code {
            KeyCode::Up => {
                let index = if p.index >= 1 {
                    p.index - 1
                } else {
                    2
                };
                self.mode_popup = Some(ModeSwitchPopup { index, ..p });
                None
            },
            KeyCode::Down => {
                self.mode_popup = Some(ModeSwitchPopup { index: (p.index + 1) % 3, ..p });
                None
            },
            KeyCode::Enter => {
                let mode = p.selected();
                self.mode_popup = None;
                if mode != p.current {
                    Some(Action::SetMode { mode })
                } else {
                    None
                }
            },
            _ => None,
        }
    }

    /// Starts a latency test of the normal members of the group under the
    /// cursor, on the proxy page when no test runs.
    pub fn test_latency(&mut self) -> (r: Option<Action>)
        requires
            old(self).page_index == proxies_page() && !old(self).proxy_tree.testing
                ==> old(self).proxy_tree.cursor < old(self).proxy_tree.groups@.len(),
        ensures
            if old(self).page_index == proxies_page() && !old(self).proxy_tree.testing {
                let g = old(self).proxy_tree.groups@[old(self).proxy_tree.cursor as int];
                &&& *final(self) == (TuiStates {
                    proxy_tree: ProxyTree { testing: true, ..old(self).proxy_tree },
                    ..*old(self)
                })
                &&& r matches Some(Action::TestLatency { proxies })
                &&& crate::proxy::views(proxies@) == normal_names(g.members@)
            } else {
                r is None && *final(self) == *old(self)
            },
    {
        if self.page_index == 1 && !self.proxy_tree.testing {
            self.proxy_tree.start_testing();
            let members = &self.proxy_tree.groups[self.proxy_tree.cursor].members;
            let mut proxies: Vec<String> = Vec::new();
            let mut i: usize = 0;
            while i < members.len()
                invariant
                    i <= members@.len(),
                    crate::proxy::views(proxies@) == normal_names(members@.subrange(0, i as int)),
                decreases members@.len() - i,
            {
                proof {
                    assert(members@.subrange(0, i + 1).drop_last() =~= members@.subrange(0, i as int));
                }
                if members[i].proxy_type.is_normal() {
                    let ghost before = proxies@;
                    proxies.push(members[i].name.clone());
                    assert(crate::proxy::views(proxies@) =~= crate::proxy::views(before).push(members@[i as int].name@));
                }
                i = i + 1;
            }
            assert(members@.subrange(0, members@.len() as int) =~= members@);
            return Some(Action::TestLatency { proxies });
        }
        None
    }

    /// Starts a latency test of every normal member of every group, each
    /// once, on the proxy page when no test runs and there is one.
    pub fn test_latency_all(&mut self) -> (r: Option<Action>)
        ensures
            if old(self).page_index == proxies_page() && !old(self).proxy_tree.testing
                && crate::proxy::first_occurrences(crate::proxy::normal_member_names(old(self).proxy_tree.groups@)).len() > 0 {
                &&& *final(self) == (TuiStates {
                    proxy_tree: ProxyTree { testing: true, ..old(self).proxy_tree },
                    ..*old(self)
                })
                &&& r matches Some(Action::TestLatency { proxies })
                &&& crate::proxy::views(proxies@) == crate::proxy::first_occurrences(
                    crate::proxy::normal_member_names(old(self).proxy_tree.groups@),
                )
            } else {
                r is None && *final(self) == *old(self)
            },
    {
        if self.page_index == 1 && !self.proxy_tree.testing {
            let proxies = self.proxy_tree.unique_normal_members();
            if proxies.len() == 0 {
                return None;
            }
            self.proxy_tree.start_testing();
            return Some(Action::TestLatency { proxies });
        }
        None
    }
}

/// A scroll position held, or released back to the top when it was held.
pub open spec fn toggled(c: Coord) -> Coord {
    if c.hold {
        Coord { x: 0, y: 0, hold: false }
    } else {
        Coord { hold: true, ..c }
    }
}

/// The list of the page shown held or released (see [`toggled`]); on the
/// proxy page the group under the cursor is opened or closed.
pub open spec fn hold_toggled(s: TuiStates) -> TuiStates {
    let p = s.page_index;
    if p == proxies_page() {
        TuiStates { proxy_tree: ProxyTree { expanded: !s.proxy_tree.expanded, ..s.proxy_tree }, ..s }
    } else if p == rules_page() {
        TuiStates { rule_state: ListState { offset: toggled(s.rule_state.offset), ..s.rule_state }, ..s }
    } else if p == conns_page() {
        TuiStates { con_state: ListState { offset: toggled(s.con_state.offset), ..s.con_state }, ..s }
    } else if p == logs_page() {
        TuiStates { log_state: ListState { offset: toggled(s.log_state.offset), ..s.log_state }, ..s }
    } else if p == debug_page() {
        TuiStates { debug_state: ListState { offset: toggled(s.debug_state.offset), ..s.debug_state }, ..s }
    } else if on_api_page(s) {
        with_api(s, ListState { offset: toggled(api_of(s).offset), ..api_of(s) })
    } else {
        s
    }
}

/// The list of the page shown released back to the top; on the proxy page
/// the group under the cursor is closed.
pub open spec fn list_ended(s: TuiStates) -> TuiStates {
    let p = s.page_index;
    let top = Coord { x: 0, y: 0, hold: false };
    if p == proxies_page() {
        TuiStates { proxy_tree: ProxyTree { expanded: false, ..s.proxy_tree }, ..s }
    } else if p == rules_page() {
        TuiStates { rule_state: ListState { offset: top, ..s.rule_state }, ..s }
    } else if p == conns_page() {
        TuiStates { con_state: ListState { offset: top, ..s.con_state }, ..s }
    } else if p == logs_page() {
        TuiStates { log_state: ListState { offset: top, ..s.log_state }, ..s }
    } else if p == debug_page() {
        TuiStates { debug_state: ListState { offset: top, ..s.debug_state }, ..s }
    } else if on_api_page(s) {
        with_api(s, ListState { offset: top, ..api_of(s) })
    } else {
        s
    }
}

/// The list of the page shown after a movement key (see
/// [`crate::list::moved`]); the proxy page is left to the caller's
/// description.
pub open spec fn list_moved(s: TuiStates, ev: ListEvent) -> TuiStates {
    let p = s.page_index;
    if p == rules_page() {
        TuiStates { rule_state: ListState { offset: moved(s.rule_state.offset, ev, s.rule_state.visible_len_spec()), ..s.rule_state }, ..s }
    } else if p == conns_page() {
        TuiStates { con_state: ListState { offset: moved(s.con_state.offset, ev, s.con_state.visible_len_spec()), ..s.con_state }, ..s }
    } else if p == logs_page() {
        TuiStates { log_state: ListState { offset: moved(s.log_state.offset, ev, s.log_state.visible_len_spec()), ..s.log_state }, ..s }
    } else if p == debug_page() {
        TuiStates { debug_state: ListState { offset: moved(s.debug_state.offset, ev, s.debug_state.visible_len_spec()), ..s.debug_state }, ..s }
    } else if on_api_page(s) {
        with_api(s, ListState { offset: moved(api_of(s).offset, ev, api_of(s).visible_len_spec()), ..api_of(s) })
    } else {
        s
    }
}

/// A movement key on the proxy page can be handled: an opened group is a
/// group, and a selector opened to switch has members.
pub open spec fn proxy_key_ok(t: ProxyTree, ev: ListEvent) -> bool {
    &&& member_lists_ok(t)
    &&& t.expanded ==> t.cursor < t.groups@.len()
    &&& t.expanded && (ev.code is Right || ev.code is Enter) && t.groups@[t.cursor as int].proxy_type is Selector
        ==> t.groups@[t.cursor as int].members@.len() > 0
}

impl TuiStates {
    /// Holds or releases the list of the page shown; see [`hold_toggled`].
    pub fn toggle_hold(&mut self)
        requires
            old(self).page_index < 9,
        ensures
            *final(self) == hold_toggled(*old(self)),
    {
        match self.page_index {
            1 => self.proxy_tree.toggle(),
            2 => self.rule_state.toggle(),
            3 => self.con_state.toggle(),
            4 => self.log_state.toggle(),
            8 => self.debug_state.toggle(),
            5 | 6 | 7 => self.active_api_mut().toggle(),
            _ => {},
        }
    }

    /// Releases the list of the page shown; see [`list_ended`].
    pub fn end_list(&mut self)
        requires
            old(self).page_index < 9,
        ensures
            *final(self) == list_ended(*old(self)),
    {
        match self.page_index {
            1 => self.proxy_tree.end(),
            2 => self.rule_state.end(),
            3 => self.con_state.end(),
            4 => self.log_state.end(),
            8 => self.debug_state.end(),
            5 | 6 | 7 => self.active_api_mut().end(),
            _ => {},
        }
    }

    /// A movement key for the list of the page shown; on the proxy page it
    /// may ask to switch a selector.
    fn move_list(&mut self, ev: ListEvent) -> (r: Option<Action>)
        requires
            old(self).page_index < 9,
            groups_wf(old(self).proxy_tree.groups@),
            old(self).page_index == proxies_page() ==> proxy_key_ok(old(self).proxy_tree, ev),
        ensures
            groups_wf(final(self).proxy_tree.groups@),
            old(self).page_index != proxies_page() ==> r is None && *final(self) == list_moved(*old(self), ev),
            old(self).page_index == proxies_page() ==> *final(self) == (TuiStates {
                proxy_tree: final(self).proxy_tree,
                ..*old(self)
            }) && member_lists_ok(final(self).proxy_tree),
            crate::proxy::shows_its_search(old(self).proxy_tree) ==> crate::proxy::shows_its_search(
                final(self).proxy_tree,
            ),
    {
        match self.page_index {
            1 => self.proxy_tree.handle(ev),
            2 => self.rule_state.handle(ev),
            3 => self.con_state.handle(ev),
            4 => self.log_state.handle(ev),
            8 => self.debug_state.handle(ev),
            5 | 6 | 7 => self.active_api_mut().handle(ev),
            _ => None,
        }
    }
}

/// A search runs on the list of the page shown (rules, connections or
/// logs).
pub open spec fn list_searching(s: TuiStates) -> bool {
    let p = s.page_index;
    (p == rules_page() && s.rule_state.search_query is Some)
    || (p == conns_page() && s.con_state.search_query is Some)
    || (p == logs_page() && s.log_state.search_query is Some)
}

/// The page shown has a searchable list.
pub open spec fn searchable_page(p: u8) -> bool {
    p == rules_page() || p == conns_page() || p == logs_page()
}

/// Only the searchable list of the page shown changed, and it keeps its
/// items and its filter points at them.
pub open spec fn only_list_changed(old: TuiStates, new: TuiStates) -> bool {
    let p = old.page_index;
    &&& p == rules_page() ==> new == (TuiStates { rule_state: new.rule_state, ..old }) && new.rule_state.items == old.rule_state.items
    &&& p == conns_page() ==> new == (TuiStates { con_state: new.con_state, ..old }) && new.con_state.items == old.con_state.items
    &&& p == logs_page() ==> new == (TuiStates { log_state: new.log_state, ..old }) && new.log_state.items == old.log_state.items
    &&& !searchable_page(p) ==> new == old
}

/// The query of the searchable list of the page shown.
pub open spec fn list_query(s: TuiStates) -> Option<String> {
    let p = s.page_index;
    if p == rules_page() {
        s.rule_state.search_query
    } else if p == conns_page() {
        s.con_state.search_query
    } else if p == logs_page() {
        s.log_state.search_query
    } else {
        None
    }
}

impl TuiStates {
    /// Starts a search on the list of the page shown, when it has one.
    fn begin_list_search(&mut self) -> (r: bool)
        requires
            tui_wf(*old(self)),
        ensures
            tui_wf(*final(self)),
            r == searchable_page(old(self).page_index),
            only_list_changed(*old(self), *final(self)),
            r ==> (list_query(*final(self)) matches Some(q) && q@.len() == 0),
    {
        match self.page_index {
            2 => {
                self.rule_state.begin_search();
                true
            },
            3 => {
                self.con_state.begin_search();
                true
            },
            4 => {
                self.log_state.begin_search();
                true
            },
            _ => false,
        }
    }

    /// Ends the search on the list of the page shown, when one runs.
    fn cancel_list_search_if_active(&mut self) -> (r: bool)
        requires
            tui_wf(*old(self)),
        ensures
            tui_wf(*final(self)),
            r == list_searching(*old(self)),
            only_list_changed(*old(self), *final(self)),
            r ==> list_query(*final(self)) is None,
            !r ==> *final(self) == *old(self),
    {
        match self.page_index {
            2 => {
                if self.rule_state.is_searching() {
                    self.rule_state.cancel_search();
                    return true;
                }
                false
            },
            3 => {
                if self.con_state.is_searching() {
                    self.con_state.cancel_search();
                    return true;
                }
                false
            },
            4 => {
                if self.log_state.is_searching() {
                    self.log_state.cancel_search();
                    return true;
                }
                false
            },
            _ => false,
        }
    }

    /// A key for the search of the list of the page shown: characters and
    /// Backspace edit the query, Enter ends the search.
    fn list_search_key(&mut self, ev: KeyEvent) -> (r: bool)
        requires
            tui_wf(*old(self)),
        ensures
            tui_wf(*final(self)),
            only_list_changed(*old(self), *final(self)),
            r == (list_searching(*old(self)) && (ev.code is Char || ev.code is Backspace || ev.code is Enter)),
            !r ==> *final(self) == *old(self),
            r ==> match ev.code {
                KeyCode::Char(c) => (list_query(*final(self)) matches Some(q) && q@ == list_query(*old(self))->0@.push(c)),
                KeyCode::Backspace => (list_query(*final(self)) matches Some(q) && q@ == (if list_query(*old(self))->0@.len() > 0 {
                    list_query(*old(self))->0@.drop_last()
                } else {
                    list_query(*old(self))->0@
                })),
                _ => list_query(*final(self)) is None,
            },
    {
        match ev.code {
            KeyCode::Char(c) => {
                match self.page_index {
                    2 => {
                        if self.rule_state.is_searching() {
                            proof {
                                crate::list::lemma_vec_len_fits(&self.rule_state.items);
                            }
                            let ghost before = self.rule_state;
                            self.rule_state.input_search_char(c);
                            proof {
                                searched_filter_ok(ListState { search_query: Some(self.rule_state.search_query->0), ..before }, self.rule_state);
                            }
                            return true;
                        }
                        false
                    },
                    3 => {
                        if self.con_state.is_searching() {
                            proof {
                                crate::list::lemma_vec_len_fits(&self.con_state.items);
                            }
                            let ghost before = self.con_state;
                            self.con_state.input_search_char(c);
                            proof {
                                searched_filter_ok(ListState { search_query: Some(self.con_state.search_query->0), ..before }, self.con_state);
                            }
                            return true;
                        }
                        false
                    },
                    4 => {
                        if self.log_state.is_searching() {
                            proof {
                                crate::list::lemma_vec_len_fits(&self.log_state.items);
                            }
                            let ghost before = self.log_state;
                            self.log_state.input_search_char(c);
                            proof {
                                searched_filter_ok(ListState { search_query: Some(self.log_state.search_query->0), ..before }, self.log_state);
                            }
                            return true;
                        }
                        false
                    },
                    _ => false,
                }
            },
            KeyCode::Backspace => {
                match self.page_index {
                    2 => {
                        if self.rule_state.is_searching() {
                            proof {
                                crate::list::lemma_vec_len_fits(&self.rule_state.items);
                            }
                            let ghost before = self.rule_state;
                            self.rule_state.backspace_search();
                            proof {
                                searched_filter_ok(ListState { search_query: Some(self.rule_state.search_query->0), ..before }, self.rule_state);
                            }
                            return true;
                        }
                        false
                    },
                    3 => {
                        if self.con_state.is_searching() {
                            proof {
                                crate::list::lemma_vec_len_fits(&self.con_state.items);
                            }
                            let ghost before = self.con_state;
                            self.con_state.backspace_search();
                            proof {
                                searched_filter_ok(ListState { search_query: Some(self.con_state.search_query->0), ..before }, self.con_state);
                            }
                            return true;
                        }
                        false
                    },
                    4 => {
                        if self.log_state.is_searching() {
                            proof {
                                crate::list::lemma_vec_len_fits(&self.log_state.items);
                            }
                            let ghost before = self.log_state;
                            self.log_state.backspace_search();
                            proof {
                                searched_filter_ok(ListState { search_query: Some(self.log_state.search_query->0), ..before }, self.log_state);
                            }
                            return true;
                        }
                        false
                    },
                    _ => false,
                }
            },
            KeyCode::Enter => self.cancel_list_search_if_active(),
            _ => false,
        }
    }
}

/// The connection under the cursor of the connection page.
pub open spec fn current_connection(s: TuiStates) -> Option<ConnectionRow> {
    match s.con_state.current_index() {
        Some(i) => if 0 <= i < s.con_state.items@.len() {
            Some(s.con_state.items@[i])
        } else {
            None
        },
        None => None,
    }
}

/// The label of the parameter being edited on the API page shown.
pub open spec fn api_param_label(s: TuiStates) -> Option<Seq<char>> {
    match crate::api_page::current_item(api_of(s)) {
        Some(item) => match crate::api_page::item_param(item) {
            Some(f) => Some(crate::api::param_label(f)),
            None => None,
        },
        None => None,
    }
}

/// What a picker puts into the parameter being edited: the group under the
/// cursor of the proxy page for a group, the member under its cursor for a
/// proxy, the connection under the cursor for a connection id.
pub open spec fn picked_value(s: TuiStates) -> Option<Seq<char>> {
    let t = s.proxy_tree;
    let shown = crate::proxy::shown_indices(t).len() > 0;
    match api_param_label(s) {
        Some(l) => if l == "group"@ && shown {
            Some(t.groups@[t.cursor as int].name@)
        } else if l == "proxy"@ && shown {
            let g = t.groups@[t.cursor as int];
            if g.cursor < g.members@.len() {
                Some(g.members@[g.cursor as int].name@)
            } else {
                None
            }
        } else if l == "connection id"@ {
            match current_connection(s) {
                Some(c) => Some(c.id@),
                None => None,
            }
        } else {
            None
        },
        None => None,
    }
}

impl TuiStates {
    fn current_connection_id(&self) -> (r: Option<String>)
        ensures
            match r {
                Some(id) => current_connection(*self) matches Some(c) && id@ == c.id@,
                None => current_connection(*self) is None,
            },
    {
        match self.con_state.current_item_index() {
            Some(i) => match self.con_state.get(i) {
                Some(c) => Some(c.id.clone()),
                None => None,
            },
            None => None,
        }
    }

    /// Fills the parameter being edited on the API page shown from what the
    /// other pages point at; see [`picked_value`].
    fn pick_api_param(&mut self) -> (r: bool)
        requires
            on_api_page(*old(self)),
            crate::proxy::shown_indices(old(self).proxy_tree).len() > 0
                ==> old(self).proxy_tree.cursor < old(self).proxy_tree.groups@.len(),
        ensures
            match picked_value(*old(self)) {
                Some(v) => r && *final(self) == with_api(*old(self), api_of(*final(self)))
                    && crate::api_page::param_set(api_of(*old(self)), api_of(*final(self)), v, true),
                None => !r && *final(self) == *old(self),
            },
    {
        let label = match current_param_label(self.active_api()) {
            Some(l) => l,
            None => return false,
        };
        proof {
            reveal_strlit("group");
            reveal_strlit("proxy");
            reveal_strlit("connection id");
        }
        let shown = !self.proxy_tree.is_empty();
        let value: String = if str_eq(label, "group") && shown {
            self.proxy_tree.current_group().name.clone()
        } else if str_eq(label, "proxy") && shown {
            match self.proxy_tree.current_group().current_member_name() {
                Some(n) => owned(n),
                None => return false,
            }
        } else if str_eq(label, "connection id") {
            match self.current_connection_id() {
                Some(id) => id,
                None => return false,
            }
        } else {
            return false;
        };
        let ghost before = *self;
        let api = self.active_api_mut();
        let ok = set_current_param_value(api, value.as_str());
        proof {
            assert(ok);
        }
        ok
    }
}

/// The inputs that start a latency test of the group under the cursor.
pub open spec fn latency_key(ev: InputEvent) -> bool {
    ||| ev is TestLatency
    ||| ev matches InputEvent::Other(k) && k.code == KeyCode::Char('t') && k.modifiers.bits == 0
}

/// The inputs the interface can take in state `s`: the state is well
/// formed, and a latency test or a move inside an open group needs a group
/// under the cursor (and a selector group a member to select).
pub open spec fn input_ok(s: TuiStates, ev: InputEvent) -> bool {
    &&& tui_wf(s)
    &&& s.page_index < page_count(s.show_debug)
    &&& member_lists_ok(s.proxy_tree)
    &&& (latency_key(ev) && s.page_index == proxies_page() && !s.proxy_tree.testing ==> s.proxy_tree.cursor < s.proxy_tree.groups@.len())
    &&& (ev is List && s.page_index == proxies_page() ==> s.proxy_tree.expanded ==> s.proxy_tree.cursor < s.proxy_tree.groups@.len())
    &&& (ev is List && s.page_index == proxies_page() && s.proxy_tree.expanded && s.proxy_tree.groups@[s.proxy_tree.cursor as int].proxy_type is Selector
        ==> s.proxy_tree.groups@[s.proxy_tree.cursor as int].members@.len() > 0)
    &&& (crate::proxy::shown_indices(s.proxy_tree).len() > 0 ==> s.proxy_tree.cursor < s.proxy_tree.groups@.len())
    &&& (s.log_state.offset.hold ==> s.log_state.offset.y < usize::MAX)
}

/// Only the server switcher, the server to switch to, the request to quit
/// and the pending change of servers changed.
pub open spec fn only_switcher_changed(old: TuiStates, new: TuiStates) -> bool {
    new == (TuiStates {
        server_popup: new.server_popup,
        switch_to_server: new.switch_to_server,
        should_quit: new.should_quit,
        pending_server_change: new.pending_server_change,
        ..old
    })
}

/// Whether a parameter is being edited on the API page shown.
pub open spec fn api_editing(s: TuiStates) -> bool {
    on_api_page(s) && match crate::api_page::current_item(api_of(s)) {
        Some(item) => item.editing,
        None => false,
    }
}

/// What Esc does; see [`TuiStates::handle_input`].
pub open spec fn esc_done(old: TuiStates, new: TuiStates) -> bool {
    if old.help_popup is Some {
        new == (TuiStates { help_popup: None, ..old })
    } else if old.server_popup is Some {
        let p = old.server_popup->0;
        if p.mode is List {
            new == (TuiStates { server_popup: None, ..old })
        } else {
            new == (TuiStates {
                server_popup: Some(ServerSwitchPopup { mode: ServerPopupMode::List, message: None, ..p }),
                ..old
            })
        }
    } else if old.mode_popup is Some {
        new == (TuiStates { mode_popup: None, ..old })
    } else if old.confirm_popup is Some {
        new == (TuiStates { confirm_popup: None, ..old })
    } else if old.api_result_popup is Some {
        new == (TuiStates { api_result_popup: None, ..old })
    } else if api_editing(old) {
        new == with_api(old, api_of(new)) && crate::api_page::edit_ended(api_of(old), api_of(new))
    } else if old.page_index == proxies_page() && old.proxy_tree.search_query is Some {
        &&& new == (TuiStates { proxy_tree: new.proxy_tree, ..old })
        &&& new.proxy_tree == (ProxyTree {
            search_query: None,
            visible_group_indices: None,
            visible_member_indices: new.proxy_tree.visible_member_indices,
            ..old.proxy_tree
        })
        &&& new.proxy_tree.visible_member_indices@.len() == 0
    } else if list_searching(old) {
        only_list_changed(old, new) && list_query(new) is None
    } else if on_api_page(old) {
        exists|mid: ApiListState|
            crate::api_page::confirmations_cleared(api_of(old), mid) && new == list_ended(with_api(old, mid))
    } else {
        new == list_ended(old)
    }
}

/// The API list `a` held where it is.
pub open spec fn held(a: ApiListState) -> ApiListState {
    ListState { offset: Coord { hold: true, ..a.offset }, ..a }
}

/// A popup is shown.
pub open spec fn popup_shown(s: TuiStates) -> bool {
    s.help_popup is Some || s.server_popup is Some || s.mode_popup is Some || s.confirm_popup is Some
        || s.api_result_popup is Some
}

/// What an arrow key or Enter does to the topmost popup.
pub open spec fn popup_list_done(old: TuiStates, new: TuiStates, ev: ListEvent, r: Option<Action>) -> bool {
    if old.help_popup is Some {
        r is None && new == (TuiStates { help_popup: Some(scrolled(old.help_popup->0, ev)), ..old })
    } else if old.server_popup is Some {
        r is None && only_switcher_changed(old, new)
    } else if old.mode_popup is Some {
        let p = old.mode_popup->0;
        if ev.code is Enter {
            let m = crate::popup::modes()[p.index as int];
            &&& new == (TuiStates { mode_popup: None, ..old })
            &&& r == (if m != p.current {
                Some(Action::SetMode { mode: m })
            } else {
                None
            })
        } else {
            &&& r is None
            &&& new == (TuiStates {
                mode_popup: Some(ModeSwitchPopup { index: mode_cursor(p.index, ev.code), ..p }),
                ..old
            })
        }
    } else if old.confirm_popup is Some {
        if ev.code is Enter {
            r == Some(old.confirm_popup->0.action) && new == (TuiStates { confirm_popup: None, ..old })
        } else {
            r is None && new == old
        }
    } else {
        let p = old.api_result_popup->0;
        &&& r is None
        &&& new == (TuiStates {
            api_result_popup: Some(ApiResultPopup { offset: scrolled(p.offset, ev), ..p }),
            ..old
        })
    }
}

/// What an arrow key or Enter does on the page shown, when no popup is.
pub open spec fn page_list_done(old: TuiStates, new: TuiStates, ev: ListEvent, r: Option<Action>) -> bool {
    if api_editing(old) {
        if ev.code is Enter {
            &&& new == with_api(old, api_of(new))
            &&& exists|mid: ApiListState|
                crate::api_page::edit_ended(api_of(old), mid) && crate::api_page::current_submitted(mid, api_of(new), r)
        } else {
            r is None && new == old
        }
    } else if ev.code is Enter && old.page_index == proxies_page() && old.proxy_tree.search_query is Some {
        &&& r is None
        &&& new == (TuiStates { proxy_tree: new.proxy_tree, ..old })
        &&& new.proxy_tree == (ProxyTree {
            search_query: None,
            visible_group_indices: None,
            visible_member_indices: new.proxy_tree.visible_member_indices,
            ..old.proxy_tree
        })
    } else if ev.code is Enter && list_searching(old) {
        r is None && only_list_changed(old, new) && list_query(new) is None
    } else if ev.code is Enter && on_api_page(old) {
        let h = held(api_of(old));
        &&& new == with_api(old, api_of(new))
        &&& if (match crate::api_page::current_item(h) {
            Some(item) => crate::api_page::item_param(item) is Some && !item.confirm,
            None => false,
        }) {
            r is None && crate::api_page::edit_begun(h, api_of(new), true)
        } else {
            crate::api_page::current_submitted(h, api_of(new), r)
        }
    } else if old.page_index == proxies_page() {
        new == (TuiStates { proxy_tree: new.proxy_tree, ..old })
    } else {
        r is None && new == list_moved(old, ev)
    }
}

/// What an arrow key or Enter does; see [`TuiStates::handle_input`].
pub open spec fn list_done(old: TuiStates, new: TuiStates, ev: ListEvent, r: Option<Action>) -> bool {
    if popup_shown(old) {
        popup_list_done(old, new, ev, r)
    } else {
        page_list_done(old, new, ev, r)
    }
}

/// What a shortcut that works on every page does.
pub open spec fn global_shortcut_done(old: TuiStates, new: TuiStates, ev: KeyEvent, r: Option<Action>) -> bool {
    let m = ev.modifiers.bits;
    let p = old.page_index;
    let len = page_count(old.show_debug);
    match ev.code {
        KeyCode::Char(c) => if m == 0 && (c == 'q' || c == 'x') {
            r is None && new == (TuiStates { should_quit: true, ..old })
        } else if c == 'S' {
            r is None && new == (TuiStates { server_popup_wanted: true, ..old })
        } else if c == 'H' {
            r is None && new == (TuiStates { help_popup: Some(Coord { x: 0, y: 0, hold: false }), ..old })
        } else if m == 0 && c == 't' {
            if p == proxies_page() && !old.proxy_tree.testing {
                &&& new == (TuiStates { proxy_tree: ProxyTree { testing: true, ..old.proxy_tree }, ..old })
                &&& r matches Some(Action::TestLatency { proxies })
                &&& crate::proxy::views(proxies@) == normal_names(old.proxy_tree.groups@[old.proxy_tree.cursor as int].members@)
            } else {
                r is None && new == old
            }
        } else if c == 'T' {
            let all = crate::proxy::first_occurrences(crate::proxy::normal_member_names(old.proxy_tree.groups@));
            if p == proxies_page() && !old.proxy_tree.testing && all.len() > 0 {
                &&& new == (TuiStates { proxy_tree: ProxyTree { testing: true, ..old.proxy_tree }, ..old })
                &&& r matches Some(Action::TestLatency { proxies })
                &&& crate::proxy::views(proxies@) == all
            } else {
                r is None && new == old
            }
        } else if m == 0 && c == ' ' {
            r is None && new == hold_toggled(old)
        } else if m == 0 && '0' <= c && c <= '9' {
            let d = (c as u32 - 48) as int;
            r is None && new == (if 1 <= d && d <= len {
                TuiStates { page_index: (d - 1) as u8, ..old }
            } else {
                old
            })
        } else if m == 0 && c == ']' {
            r is None && new == (TuiStates { page_index: ((p + 1) % (len as int)) as u8, ..old })
        } else if m == 0 && c == '[' {
            r is None && new == (TuiStates { page_index: ((p + len - 1) % (len as int)) as u8, ..old })
        } else {
            r is None && new == old
        },
        _ => r is None && new == old,
    }
}

/// What a shortcut of the status and connection pages, or pausing, does.
pub open spec fn page_shortcut_done(old: TuiStates, new: TuiStates, ev: KeyEvent, r: Option<Action>, now: u64) -> bool {
    let m = ev.modifiers.bits;
    let p = old.page_index;
    match ev.code {
        KeyCode::Char(c) => if m == 0 && c == 's' {
            r is None && resorted(old, new, con_sorts()[(sort_index(old.con_sort) + 1) % 22])
        } else if m == 0 && c == 'm' && p == status_page() {
            r is None && new == (match old.mode {
                Some(mode) => TuiStates {
                    mode_popup: Some(ModeSwitchPopup {
                        current: mode,
                        index: match mode {
                            Mode::Rule => 0,
                            Mode::Global => 1,
                            Mode::Direct => 2,
                        },
                    }),
                    ..old
                },
                None => old,
            })
        } else if m == 0 && c == 'r' && p == status_page() {
            r == Some(Action::FetchConfigs) && new == old
        } else if c == 'R' && p == status_page() {
            r == Some(Action::ReloadConfigs) && new == old
        } else if m == 0 && c == 'k' && p == conns_page() {
            match current_connection(old) {
                Some(con) => {
                    &&& new == old
                    &&& r matches Some(Action::CloseConnection { id })
                    &&& id@ == con.id@
                },
                None => {
                    &&& r is None
                    &&& new == (TuiStates { notice_popup: new.notice_popup, ..old })
                    &&& new.notice_popup matches Some(n)
                    &&& n.title@ == "No Connection Selected"@
                    &&& n.body@ == "Hold the list with Space and move to a connection first"@
                    &&& n.created_ms == now
                },
            }
        } else if c == 'K' && p == conns_page() {
            &&& r is None
            &&& if old.con_state.items@.len() == 0 {
                &&& new == (TuiStates { notice_popup: new.notice_popup, ..old })
                &&& new.notice_popup matches Some(n)
                &&& n.title@ == "No Active Connections"@ && n.body@ == "There is nothing to close"@
                &&& n.created_ms == now
            } else {
                &&& new == (TuiStates { confirm_popup: new.confirm_popup, ..old })
                &&& new.confirm_popup matches Some(cp)
                &&& cp.title@ == "Close All Connections"@
                &&& cp.body@ == "Close all "@ + crate::text::decimal(old.con_state.items@.len()) + " active connections?"@
                &&& cp.action == Action::CloseAllConnections
            }
        } else if m == 0 && c == 'g' && p == status_page() {
            &&& r == Some(Action::UpdateGeo)
            &&& new == (TuiStates { notice_popup: new.notice_popup, ..old })
            &&& new.notice_popup matches Some(n)
            &&& n.title@ == "Updating Geo"@
            &&& n.body@ == "Requested geo database update, this may take a while..."@
            &&& n.created_ms == now
        } else if m == 0 && c == 'p' && p == conns_page() {
            r is None && new == (TuiStates {
                con_state: ListState { paused: if old.con_state.pause_enabled { !old.con_state.paused } else { old.con_state.paused }, ..old.con_state },
                ..old
            })
        } else if m == 0 && c == 'p' && p == logs_page() {
            r is None && new == (TuiStates {
                log_state: ListState { paused: if old.log_state.pause_enabled { !old.log_state.paused } else { old.log_state.paused }, ..old.log_state },
                ..old
            })
        } else {
            r is None && new == old
        },
        _ => r is None && new == old,
    }
}

/// The key is one of the shortcuts that work on every page.
pub open spec fn global_shortcut(ev: KeyEvent) -> bool {
    let m = ev.modifiers.bits;
    match ev.code {
        KeyCode::Char(c) => (m == 0 && (c == 'q' || c == 'x')) || c == 'S' || c == 'H' || (m == 0 && c == 't')
            || c == 'T' || (m == 0 && c == ' ') || (m == 0 && '0' <= c && c <= '9') || (m == 0 && c == ']')
            || (m == 0 && c == '['),
        _ => false,
    }
}

/// What a shortcut key does; see [`TuiStates::handle_key_event`].
pub open spec fn shortcut_done(old: TuiStates, new: TuiStates, ev: KeyEvent, r: Option<Action>, now: u64) -> bool {
    if global_shortcut(ev) {
        global_shortcut_done(old, new, ev, r)
    } else {
        page_shortcut_done(old, new, ev, r, now)
    }
}

/// An API page takes the key: while editing, typing keys; otherwise `i`,
/// `p` and Tab.
pub open spec fn api_key_taken(s: TuiStates, ev: KeyEvent) -> bool {
    let m = ev.modifiers.bits;
    on_api_page(s) && ((api_editing(s) && match ev.code {
        KeyCode::Char(c) => (m == 2 && c == 'u') || m == 0 || m == 1,
        KeyCode::Backspace | KeyCode::Tab => true,
        _ => false,
    }) || ev.code == KeyCode::Char('i') || ev.code == KeyCode::Char('p') || ev.code is Tab)
}

/// The proxy page takes the key for its search.
pub open spec fn proxy_search_taken(s: TuiStates, ev: KeyEvent) -> bool {
    s.page_index == proxies_page() && ((s.proxy_tree.search_query is Some
        && (ev.code is Char || ev.code is Backspace || ev.code is Enter))
        || (ev.modifiers.bits == 0 && ev.code == KeyCode::Char('/')))
}

/// What a key that is not an arrow, Enter or Esc does; see
/// [`TuiStates::handle_key_event`].
pub open spec fn key_done(old: TuiStates, new: TuiStates, ev: KeyEvent, r: Option<Action>, now: u64) -> bool {
    if old.help_popup is Some {
        r is None && new == (if ev.code == KeyCode::Char('H') {
            TuiStates { help_popup: None, ..old }
        } else {
            old
        })
    } else if old.server_popup is Some {
        r is None && new == (TuiStates { server_popup: new.server_popup, ..old })
    } else if old.mode_popup is Some || old.confirm_popup is Some || old.api_result_popup is Some {
        r is None && new == old
    } else if proxy_search_taken(old, ev) {
        r is None && new == (TuiStates { proxy_tree: new.proxy_tree, ..old })
    } else if list_searching(old) && (ev.code is Char || ev.code is Backspace || ev.code is Enter) {
        r is None && only_list_changed(old, new)
    } else if ev.modifiers.bits == 0 && ev.code == KeyCode::Char('/') && searchable_page(old.page_index) {
        r is None && only_list_changed(old, new) && (list_query(new) matches Some(q) && q@.len() == 0)
    } else if api_key_taken(old, ev) {
        r is None && new == with_api(old, api_of(new))
    } else {
        shortcut_done(old, new, ev, r, now)
    }
}

/// A change of the order to `sort`: on the connection page the order is
/// taken and the connections are ordered by it, with the search applied
/// again; the orders of the other pages are not kept, so there nothing
/// changes.
pub open spec fn resorted(old: TuiStates, new: TuiStates, sort: ConSort) -> bool {
    if old.page_index == conns_page() {
        &&& new.con_sort == sort
        &&& new.con_state.items@ == sorted_by(sort, old.con_state.items@)
        &&& ListState::<ConnectionRow>::searched(ListState { items: new.con_state.items, ..old.con_state }, new.con_state)
        &&& new == (TuiStates { con_state: new.con_state, con_sort: sort, ..old })
    } else {
        new == old
    }
}

/// What a request of the user does; see [`TuiStates::handle_input`].
pub open spec fn input_done(old: TuiStates, new: TuiStates, ev: InputEvent, r: Option<Action>, now: u64) -> bool {
    match ev {
        InputEvent::TabGoto(i) => r is None && new == (if 1 <= i && i <= page_count(old.show_debug) {
            TuiStates { page_index: (i - 1) as u8, ..old }
        } else {
            old
        }),
        InputEvent::ToggleDebug => r is None && new == (TuiStates {
            show_debug: !old.show_debug,
            page_index: if old.page_index == debug_page() {
                (debug_page() - 1) as u8
            } else if !old.show_debug {
                debug_page()
            } else {
                old.page_index
            },
            ..old
        }),
        InputEvent::Esc => r is None && esc_done(old, new),
        InputEvent::ToggleHold => r is None && new == hold_toggled(old),
        InputEvent::List(l) => list_done(old, new, l, r),
        InputEvent::TestLatency => global_shortcut_done(old, new, KeyEvent { code: KeyCode::Char('t'), modifiers: crate::event::KeyModifiers { bits: 0 } }, r),
        InputEvent::TestLatencyAll => global_shortcut_done(old, new, KeyEvent { code: KeyCode::Char('T'), modifiers: crate::event::KeyModifiers { bits: 0 } }, r),
        InputEvent::NextSort => r is None && resorted(old, new, con_sorts()[(sort_index(old.con_sort) + 1) % 22]),
        InputEvent::PrevSort => r is None && resorted(old, new, con_sorts()[(sort_index(old.con_sort) + 21) % 22]),
        InputEvent::Other(k) => key_done(old, new, k, r, now),
    }
}


/// Whether the member lists of a search of the proxy page point at members.
fn member_lists_checked(t: &ProxyTree) -> (r: bool)
    ensures
        r == member_lists_ok(*t),
{
    let lists = &t.visible_member_indices;
    let mut k: usize = 0;
    while k < lists.len()
        invariant
            *lists == t.visible_member_indices,
            k <= lists@.len(),
            forall|q: int|
                0 <= q < k ==> {
                    let e = #[trigger] lists@[q];
                    &&& e.1@.len() > 0
                    &&& e.0 < t.groups@.len()
                    &&& forall|j: int| 0 <= j < e.1@.len() ==> #[trigger] e.1@[j] < t.groups@[e.0 as int].members@.len()
                },
        decreases lists@.len() - k,
    {
        let g = lists[k].0;
        let members = &lists[k].1;
        if members.len() == 0 || g >= t.groups.len() {
            assert(!member_lists_ok(*t)) by {
                let e = lists@[k as int];
                assert(e.1@.len() == 0 || e.0 >= t.groups@.len());
            }
            return false;
        }
        let n = t.groups[g].members.len();
        let mut j: usize = 0;
        while j < members.len()
            invariant
                *lists == t.visible_member_indices,
                k < lists@.len(),
                g == lists@[k as int].0,
                g < t.groups@.len(),
                *members == lists@[k as int].1,
                n == t.groups@[g as int].members@.len(),
                j <= members@.len(),
                forall|i: int| 0 <= i < j ==> #[trigger] members@[i] < n,
            decreases members@.len() - j,
        {
            if members[j] >= n {
                assert(!member_lists_ok(*t)) by {
                    let e = lists@[k as int];
                    assert(e.1@[j as int] >= t.groups@[e.0 as int].members@.len());
                }
                return false;
            }
            j = j + 1;
        }
        k = k + 1;
    }
    true
}

impl TuiStates {
    /// Whether [`Self::handle`] can take `event` in this state: the
    /// counters have room, a proxy listing can be shown as groups, and a
    /// latency test or a move inside an open group has a group (and a
    /// selector group a member) under the cursor.
    pub fn accepts(&self, event: &Event) -> (r: bool)
        requires
            tui_wf(*self),
        ensures
            r == event_ok(*self, *event),
    {
        if self.all_events_recv == usize::MAX {
            return false;
        }
        if self.debug_state.offset.hold && self.debug_state.offset.y >= usize::MAX - 1 {
            return false;
        }
        let log_ok = !self.log_state.offset.hold || self.log_state.offset.y < usize::MAX;
        match event {
            Event::Update(u) => {
                if !log_ok {
                    return false;
                }
                match u {
                    UpdateEvent::Proxies(p) => crate::proxy::listing_is_complete(p),
                    _ => true,
                }
            },
            Event::Input(ev) => {
                if !log_ok || self.page_index as usize >= self.page_len() {
                    return false;
                }
                if !member_lists_checked(&self.proxy_tree) {
                    return false;
                }
                let t = &self.proxy_tree;
                let n = t.groups.len();
                let on_proxies = self.page_index == 1;
                let latency = match ev {
                    InputEvent::TestLatency => true,
                    InputEvent::Other(k) => k.code == KeyCode::Char('t') && k.modifiers.bits == 0,
                    _ => false,
                };
                if latency && on_proxies && !t.testing && t.cursor >= n {
                    return false;
                }
                let is_list = match ev {
                    InputEvent::List(_) => true,
                    _ => false,
                };
                if is_list && on_proxies && t.expanded {
                    if t.cursor >= n {
                        return false;
                    }
                    let g = &t.groups[t.cursor];
                    if g.proxy_type.is_selector() && g.members.len() == 0 {
                        return false;
                    }
                }
                let shown = t.visible_group_indices();
                if shown.len() > 0 && t.cursor >= n {
                    return false;
                }
                true
            },
            _ => true,
        }
    }
}

/// An event noted: an expired notice dropped, the event counted and its
/// debug line added, the oldest lines dropped when the page was full.
pub open spec fn noted(old: TuiStates, new: TuiStates, line: String, now: u64) -> bool {
    let lines = old.debug_state.items@;
    let kept = if lines.len() >= debug_limit() {
        lines.subrange(debug_drop() as int, lines.len() as int)
    } else {
        lines
    };
    &&& new.all_events_recv == old.all_events_recv + 1
    &&& new.debug_state.items@ == kept.push(line)
    &&& new.notice_popup == (match old.notice_popup {
        Some(n) => if elapsed_ms(n.created_ms, now) >= crate::popup::NOTICE_TTL_MS {
            None
        } else {
            Some(n)
        },
        None => None,
    })
    &&& new == (TuiStates {
        all_events_recv: new.all_events_recv,
        debug_state: new.debug_state,
        notice_popup: new.notice_popup,
        ..old
    })
}

/// The state `new` after the pending change of servers of `old` was saved
/// with `result`: the server switcher shows the outcome (see
/// [`crate::popup::added`] and [`crate::popup::deleted`]) when it still
/// shows the form or a list to delete from, and nothing else changes.
pub open spec fn server_change_done(old: TuiStates, new: TuiStates, result: Result<(), String>) -> bool {
    &&& new == (TuiStates { server_popup: new.server_popup, pending_server_change: None, ..old })
    &&& match (old.pending_server_change, old.server_popup) {
        (Some(ServerChange::Add(server)), Some(p)) => if p.mode is Add {
            new.server_popup matches Some(np) && crate::popup::added(p, np, server, result)
        } else {
            new.server_popup == old.server_popup
        },
        (Some(ServerChange::Remove(url)), Some(p)) => if p.servers@.len() > 0 {
            new.server_popup matches Some(np) && crate::popup::deleted(p, np, url@, result)
        } else {
            new.server_popup == old.server_popup
        },
        _ => new.server_popup == old.server_popup,
    }
}

/// The interface after the switcher answered a key with `out`, leaving
/// itself as `np`: it stays open as `np`, or closes; picking another server
/// closes it and ends the interface to restart on that server; a new server
/// or a removal is left for the caller to save.
pub open spec fn outcome_applied(old: TuiStates, np: ServerSwitchPopup, out: ServerPopupOutcome) -> TuiStates {
    match out {
        ServerPopupOutcome::Stay => TuiStates { server_popup: Some(np), ..old },
        ServerPopupOutcome::Close => TuiStates { server_popup: None, ..old },
        ServerPopupOutcome::SwitchTo(url) => TuiStates {
            server_popup: None,
            switch_to_server: Some(url),
            should_quit: true,
            ..old
        },
        ServerPopupOutcome::SaveNew(server) => TuiStates {
            server_popup: Some(np),
            pending_server_change: Some(ServerChange::Add(server)),
            ..old
        },
        ServerPopupOutcome::Remove(url) => TuiStates {
            server_popup: Some(np),
            pending_server_change: Some(ServerChange::Remove(url)),
            ..old
        },
    }
}

/// What a list key does while the server switcher is shown: the switcher
/// answers it (see [`crate::popup::list_key_done`]) and the interface
/// follows the answer (see [`outcome_applied`]).
pub open spec fn switcher_key_done(old: TuiStates, new: TuiStates, ev: ListEvent) -> bool {
    exists|np: ServerSwitchPopup, out: ServerPopupOutcome|
        #[trigger] crate::popup::list_key_done(old.server_popup->0, np, ev.code, out) && new == outcome_applied(
            old,
            np,
            out,
        )
}

impl TuiStates {
    fn server_popup_key(&mut self, ev: ListEvent)
        requires
            tui_wf(*old(self)),
            old(self).server_popup is Some,
        ensures
            tui_wf(*final(self)),
            only_switcher_changed(*old(self), *final(self)),
            switcher_key_done(*old(self), *final(self), ev),
    {
        let ghost before = *self;
        let outcome = match &mut self.server_popup {
            Some(p) => p.list_key(ev.code),
            None => return ,
        };
        let ghost np = self.server_popup->0;
        let ghost out = outcome;
        assert(crate::popup::list_key_done(before.server_popup->0, np, ev.code, out));
        match outcome {
            ServerPopupOutcome::Stay => {},
            ServerPopupOutcome::Close => {
                self.server_popup = None;
            },
            ServerPopupOutcome::SwitchTo(url) => {
                self.server_popup = None;
                self.switch_to_server = Some(url);
                self.should_quit = true;
            },
            ServerPopupOutcome::SaveNew(server) => {
                self.pending_server_change = Some(ServerChange::Add(server));
            },
            ServerPopupOutcome::Remove(url) => {
                self.pending_server_change = Some(ServerChange::Remove(url));
            },
        }
    }

    /// Reports back on the change of servers the switcher asked for; see
    /// [`ServerSwitchPopup::finish_add`] and
    /// [`ServerSwitchPopup::finish_delete`].
    pub fn complete_server_change(&mut self, result: Result<(), String>)
        requires
            tui_wf(*old(self)),
        ensures
            tui_wf(*final(self)),
            server_change_done(*old(self), *final(self), result),
    {
        let change = self.pending_server_change.take();
        match change {
            Some(ServerChange::Add(server)) => {
                if let Some(p) = &mut self.server_popup {
                    if let ServerPopupMode::Add(_) = &p.mode {
                        p.finish_add(server, result);
                    }
                }
            },
            Some(ServerChange::Remove(url)) => {
                if let Some(p) = &mut self.server_popup {
                    if p.servers.len() > 0 {
                        p.finish_delete(url.as_str(), result);
                    }
                }
            },
            None => {},
        }
    }

    /// Esc: closes the topmost popup, backs out of the server form or
    /// deletion, stops editing a parameter, ends a search, drops pending
    /// confirmations on an API page, and releases the list.
    fn esc(&mut self)
        requires
            input_ok(*old(self), InputEvent::Esc),
        ensures
            tui_wf(*final(self)),
            esc_done(*old(self), *final(self)),
    {
        if self.help_popup.is_some() {
            self.help_popup = None;
            return ;
        }
        if let Some(p) = &mut self.server_popup {
            if let ServerPopupMode::List = p.mode {
                self.server_popup = None;
            } else {
                p.mode = ServerPopupMode::List;
                p.message = None;
            }
            return ;
        }
        if self.mode_popup.is_some() {
            self.mode_popup = None;
            return ;
        }
        if self.confirm_popup.is_some() {
            self.confirm_popup = None;
            return ;
        }
        if self.api_result_popup.is_some() {
            self.api_result_popup = None;
            return ;
        }
        if self.is_api_page() {
            if is_editing(self.active_api()) {
                end_edit(self.active_api_mut());
                return ;
            }
        }
        if self.page_index == 1 && self.proxy_tree.is_searching() {
            self.proxy_tree.cancel_search();
            return ;
        }
        if self.cancel_list_search_if_active() {
            return ;
        }
        if self.is_api_page() {
            cancel_confirmation(self.active_api_mut());
        }
        self.end_list();
    }

    /// An arrow key or Enter: it goes to the topmost popup; else, on an API
    /// page while editing, Enter runs the operation; else Enter ends a
    /// search; else on an API page Enter opens the parameter editor or runs
    /// the operation; else the key moves the list of the page shown.
    fn popup_list_input(&mut self, ev: ListEvent) -> (r: Option<Action>)
        requires
            tui_wf(*old(self)),
            popup_shown(*old(self)),
        ensures
            tui_wf(*final(self)),
            popup_list_done(*old(self), *final(self), ev, r),
    {
        if let Some(offset) = self.help_popup {
            self.help_popup = Some(scroll(offset, ev));
            return None;
        }
        if self.server_popup.is_some() {
            self.server_popup_key(ev);
            return None;
        }
        if self.mode_popup.is_some() {
            return self.mode_popup_key(ev);
        }
        if self.confirm_popup.is_some() {
            if ev.code == KeyCode::Enter {
                return match self.confirm_popup.take() {
                    Some(p) => Some(p.action),
                    None => None,
                };
            }
            return None;
        }
        if let Some(p) = &mut self.api_result_popup {
            p.offset = scroll(p.offset, ev);
        }
        None
    }

    /// Enter or an arrow while a parameter of an API page is edited.
    #[verifier::rlimit(40)]
    fn api_edit_key(&mut self, ev: ListEvent) -> (r: Option<Action>)
        requires
            input_ok(*old(self), InputEvent::List(ev)),
            !popup_shown(*old(self)),
            api_editing(*old(self)),
        ensures
            tui_wf(*final(self)),
            page_list_done(*old(self), *final(self), ev, r),
    {
        if ev.code == KeyCode::Enter {
            let api = self.active_api_mut();
            end_edit(api);
            return submit_current(api);
        }
        None
    }

    /// Enter on an API page that is not edited and not searched.
    #[verifier::rlimit(40)]
    fn api_enter(&mut self, ev: ListEvent) -> (r: Option<Action>)
        requires
            input_ok(*old(self), InputEvent::List(ev)),
            !popup_shown(*old(self)),
            !api_editing(*old(self)),
            on_api_page(*old(self)),
            ev.code == KeyCode::Enter,
            !list_searching(*old(self)),
        ensures
            tui_wf(*final(self)),
            page_list_done(*old(self), *final(self), ev, r),
    {
        let api = self.active_api_mut();
        api.hold();
        if current_needs_input(api) {
            begin_edit(api);
            return None;
        }
        submit_current(api)
    }

    /// Enter on a page that is not an edited API page.
    #[verifier::rlimit(40)]
    fn page_enter(&mut self, ev: ListEvent) -> (r: Option<Action>)
        requires
            input_ok(*old(self), InputEvent::List(ev)),
            !popup_shown(*old(self)),
            !api_editing(*old(self)),
            ev.code == KeyCode::Enter,
        ensures
            tui_wf(*final(self)),
            page_list_done(*old(self), *final(self), ev, r),
    {
        if self.page_index == 1 && self.proxy_tree.is_searching() {
            self.proxy_tree.cancel_search();
            return None;
        }
        if self.cancel_list_search_if_active() {
            return None;
        }
        if self.is_api_page() {
            return self.api_enter(ev);
        }
        self.move_list(ev)
    }

    #[verifier::rlimit(40)]
    fn page_list_input(&mut self, ev: ListEvent) -> (r: Option<Action>)
        requires
            input_ok(*old(self), InputEvent::List(ev)),
            !popup_shown(*old(self)),
        ensures
            tui_wf(*final(self)),
            page_list_done(*old(self), *final(self), ev, r),
    {
        if self.is_api_page() {
            if is_editing(self.active_api()) {
                return self.api_edit_key(ev);
            }
        }
        if ev.code == KeyCode::Enter {
            return self.page_enter(ev);
        }
        self.move_list(ev)
    }

    /// An arrow key or Enter; see [`list_done`].
    fn list_input(&mut self, ev: ListEvent) -> (r: Option<Action>)
        requires
            input_ok(*old(self), InputEvent::List(ev)),
        ensures
            tui_wf(*final(self)),
            list_done(*old(self), *final(self), ev, r),
    {
        if self.help_popup.is_some() || self.server_popup.is_some() || self.mode_popup.is_some()
            || self.confirm_popup.is_some() || self.api_result_popup.is_some() {
            self.popup_list_input(ev)
        } else {
            self.page_list_input(ev)
        }
    }
}

impl TuiStates {
    /// A key on the proxy page: while searching, characters and Backspace
    /// edit the query and Enter ends the search; a plain `/` starts one.
    fn proxy_search_key(&mut self, ev: KeyEvent) -> (r: bool)
        requires
            tui_wf(*old(self)),
            member_lists_ok(old(self).proxy_tree),
        ensures
            tui_wf(*final(self)),
            member_lists_ok(final(self).proxy_tree),
            *final(self) == (TuiStates { proxy_tree: final(self).proxy_tree, ..*old(self) }),
            final(self).proxy_tree.groups@.len() == old(self).proxy_tree.groups@.len(),
            r == (old(self).page_index == proxies_page() && ((old(self).proxy_tree.search_query is Some
                && (ev.code is Char || ev.code is Backspace || ev.code is Enter))
                || (ev.modifiers.bits == 0 && ev.code == KeyCode::Char('/')))),
            !r ==> *final(self) == *old(self),
    {
        if self.page_index != 1 {
            return false;
        }
        if self.proxy_tree.is_searching() {
            match ev.code {
                KeyCode::Char(c) => {
                    self.proxy_tree.input_search_char(c);
                    return true;
                },
                KeyCode::Backspace => {
                    self.proxy_tree.backspace_search();
                    return true;
                },
                KeyCode::Enter => {
                    self.proxy_tree.cancel_search();
                    return true;
                },
                _ => {},
            }
        }
        if ev.modifiers.bits == 0 && ev.code == KeyCode::Char('/') {
            self.proxy_tree.begin_search();
            return true;
        }
        false
    }

    /// A key on an API page: while editing, characters type into the
    /// parameter, control-u empties it, Backspace deletes a character and
    /// Tab moves to the next parameter; otherwise `i` starts editing, `p`
    /// picks the value from the other pages and Tab moves to the next
    /// parameter.
    fn api_key(&mut self, ev: KeyEvent) -> (r: bool)
        requires
            tui_wf(*old(self)),
            on_api_page(*old(self)),
            crate::proxy::shown_indices(old(self).proxy_tree).len() > 0
                ==> old(self).proxy_tree.cursor < old(self).proxy_tree.groups@.len(),
        ensures
            tui_wf(*final(self)),
            *final(self) == with_api(*old(self), api_of(*final(self))),
            !r ==> *final(self) == *old(self),
            r == api_key_taken(*old(self), ev),
    {
        let m = ev.modifiers.bits;
        if is_editing(self.active_api()) {
            match ev.code {
                KeyCode::Char(c) => {
                    if m == 2 && c == 'u' {
                        clear_current_param(self.active_api_mut());
                        return true;
                    } else if m == 0 || m == 1 {
                        input_char(self.active_api_mut(), c);
                        return true;
                    }
                },
                KeyCode::Backspace => {
                    backspace_current_param(self.active_api_mut());
                    return true;
                },
                KeyCode::Tab => {
                    next_param(self.active_api_mut());
                    return true;
                },
                _ => {},
            }
        }
        match ev.code {
            KeyCode::Char('i') => {
                begin_edit(self.active_api_mut());
                true
            },
            KeyCode::Char('p') => {
                self.pick_api_param();
                true
            },
            KeyCode::Tab => {
                next_param(self.active_api_mut());
                true
            },
            _ => false,
        }
    }

    /// The shortcuts that work on every page, and those of the status and
    /// connection pages and of pausing.
    #[verifier::rlimit(40)]
    fn global_shortcut_key(&mut self, ev: KeyEvent) -> (r: Option<Action>)
        requires
            input_ok(*old(self), InputEvent::Other(ev)),
            global_shortcut(ev),
        ensures
            tui_wf(*final(self)),
            global_shortcut_done(*old(self), *final(self), ev, r),
    {
        let m = ev.modifiers.bits;
        let c = match ev.code {
            KeyCode::Char(c) => c,
            _ => return None,
        };
        if m == 0 && (c == 'q' || c == 'x') {
            self.should_quit = true;
        } else if c == 'S' {
            self.server_popup_wanted = true;
        } else if c == 'H' {
            self.help_popup = Some(Coord { x: 0, y: 0, hold: false });
        } else if m == 0 && c == 't' {
            return self.test_latency();
        } else if c == 'T' {
            return self.test_latency_all();
        } else if m == 0 && c == ' ' {
            self.toggle_hold();
        } else if m == 0 && '0' <= c && c <= '9' {
            let d: u8 = (c as u8) - 48u8;
            self.tab_goto(d);
        } else if m == 0 && c == ']' {
            let len = self.page_len() as u8;
            self.page_index = (self.page_index + 1) % len;
        } else if m == 0 && c == '[' {
            let len = self.page_len() as u8;
            self.page_index = (self.page_index + len - 1) % len;
        }
        None
    }

    #[verifier::rlimit(40)]
    fn page_shortcut_key(&mut self, ev: KeyEvent, now_ms: u64) -> (r: Option<Action>)
        requires
            input_ok(*old(self), InputEvent::Other(ev)),
            !global_shortcut(ev),
        ensures
            tui_wf(*final(self)),
            page_shortcut_done(*old(self), *final(self), ev, r, now_ms),
    {
        let m = ev.modifiers.bits;
        let c = match ev.code {
            KeyCode::Char(c) => c,
            _ => return None,
        };
        if m == 0 && c == 's' {
            let sort = self.con_sort.next_sort();
            self.change_sort(sort);
        } else if m == 0 && c == 'm' && self.page_index == 0 {
            if let Some(mode) = self.mode {
                self.mode_popup = Some(ModeSwitchPopup::new(mode));
            }
        } else if m == 0 && c == 'r' && self.page_index == 0 {
            return Some(Action::FetchConfigs);
        } else if c == 'R' && self.page_index == 0 {
            return Some(Action::ReloadConfigs);
        } else if m == 0 && c == 'k' && self.page_index == 3 {
            return self.close_current_connection(now_ms);
        } else if c == 'K' && self.page_index == 3 {
            self.ask_close_all(now_ms);
        } else if m == 0 && c == 'g' && self.page_index == 0 {
            self.notice_popup = Some(NoticePopup::new(
                owned("Updating Geo"),
                owned("Requested geo database update, this may take a while..."),
                now_ms,
            ));
            return Some(Action::UpdateGeo);
        } else if m == 0 && c == 'p' {
            if self.page_index == 3 {
                self.con_state.toggle_paused();
            } else if self.page_index == 4 {
                self.log_state.toggle_paused();
            }
        }
        None
    }

    /// A shortcut; see [`shortcut_done`].
    fn shortcut(&mut self, ev: KeyEvent, now_ms: u64) -> (r: Option<Action>)
        requires
            input_ok(*old(self), InputEvent::Other(ev)),
        ensures
            tui_wf(*final(self)),
            shortcut_done(*old(self), *final(self), ev, r, now_ms),
    {
        let m = ev.modifiers.bits;
        let global = match ev.code {
            KeyCode::Char(c) => (m == 0 && (c == 'q' || c == 'x')) || c == 'S' || c == 'H' || (m == 0 && c == 't')
                || c == 'T' || (m == 0 && c == ' ') || (m == 0 && '0' <= c && c <= '9') || (m == 0 && c == ']')
                || (m == 0 && c == '['),
            _ => false,
        };
        if global {
            self.global_shortcut_key(ev)
        } else {
            self.page_shortcut_key(ev, now_ms)
        }
    }

    /// `k` on the connection page: asks to close the connection under the
    /// cursor, or tells how to pick one.
    fn close_current_connection(&mut self, now_ms: u64) -> (r: Option<Action>)
        ensures
            match current_connection(*old(self)) {
                Some(c) => {
                    &&& *final(self) == *old(self)
                    &&& r matches Some(Action::CloseConnection { id })
                    &&& id@ == c.id@
                },
                None => {
                    &&& r is None
                    &&& *final(self) == (TuiStates { notice_popup: final(self).notice_popup, ..*old(self) })
                    &&& final(self).notice_popup matches Some(n)
                    &&& n.title@ == "No Connection Selected"@
                    &&& n.body@ == "Hold the list with Space and move to a connection first"@
                    &&& n.created_ms == now_ms
                },
            },
    {
        match self.current_connection_id() {
            Some(id) => Some(Action::CloseConnection { id }),
            None => {
                self.notice_popup = Some(NoticePopup::new(
                    owned("No Connection Selected"),
                    owned("Hold the list with Space and move to a connection first"),
                    now_ms,
                ));
                None
            },
        }
    }

    /// `K` on the connection page: asks to confirm closing every
    /// connection, or tells there is none.
    fn ask_close_all(&mut self, now_ms: u64)
        ensures
            if old(self).con_state.items@.len() == 0 {
                &&& *final(self) == (TuiStates { notice_popup: final(self).notice_popup, ..*old(self) })
                &&& final(self).notice_popup matches Some(n)
                &&& n.title@ == "No Active Connections"@ && n.body@ == "There is nothing to close"@
                &&& n.created_ms == now_ms
            } else {
                &&& *final(self) == (TuiStates { confirm_popup: final(self).confirm_popup, ..*old(self) })
                &&& final(self).confirm_popup matches Some(p)
                &&& p.title@ == "Close All Connections"@
                &&& p.body@ == "Close all "@ + crate::text::decimal(old(self).con_state.items@.len()) + " active connections?"@
                &&& p.action == Action::CloseAllConnections
            },
    {
        if self.con_state.is_empty() {
            self.notice_popup = Some(NoticePopup::new(
                owned("No Active Connections"),
                owned("There is nothing to close"),
                now_ms,
            ));
        } else {
            let mut body = owned("Close all ");
            let n = usize_to_decimal(self.con_state.len());
            body.append(n.as_str());
            body.append(" active connections?");
            self.confirm_popup = Some(ConfirmPopup {
                title: owned("Close All Connections"),
                body,
                action: Action::CloseAllConnections,
            });
        }
    }

    /// A key that is not an arrow, Enter or Esc: it goes to the topmost
    /// popup (the help popup only closes on `H`, the other popups but the
    /// server switcher ignore it); else it edits a search or starts one
    /// with `/`; else on an API page it edits the parameters; else it is a
    /// shortcut.
    pub fn handle_key_event(&mut self, ev: KeyEvent, now_ms: u64) -> (r: Option<Action>)
        requires
            input_ok(*old(self), InputEvent::Other(ev)),
        ensures
            tui_wf(*final(self)),
            key_done(*old(self), *final(self), ev, r, now_ms),
    {
        if self.help_popup.is_some() {
            if ev.code == KeyCode::Char('H') {
                self.help_popup = None;
            }
            return None;
        }
        if let Some(p) = &mut self.server_popup {
            p.char_key(ev);
            return None;
        }
        if self.mode_popup.is_some() || self.confirm_popup.is_some() || self.api_result_popup.is_some() {
            return None;
        }
        if self.proxy_search_key(ev) {
            return None;
        }
        if self.list_search_key(ev) {
            return None;
        }
        if ev.modifiers.bits == 0 && ev.code == KeyCode::Char('/') && self.begin_list_search() {
            return None;
        }
        if self.is_api_page() {
            if self.api_key(ev) {
                return None;
            }
        }
        self.shortcut(ev, now_ms)
    }

    /// A request of the user, read from a key press.
    pub fn handle_input(&mut self, ev: InputEvent, now_ms: u64) -> (r: Option<Action>)
        requires
            input_ok(*old(self), ev),
        ensures
            tui_wf(*final(self)),
            input_done(*old(self), *final(self), ev, r, now_ms),
    {
        match ev {
            InputEvent::TabGoto(i) => {
                self.tab_goto(i);
                None
            },
            InputEvent::ToggleDebug => {
                self.toggle_debug();
                None
            },
            InputEvent::Esc => {
                self.esc();
                None
            },
            InputEvent::ToggleHold => {
                self.toggle_hold();
                None
            },
            InputEvent::List(l) => self.list_input(l),
            InputEvent::TestLatency => self.test_latency(),
            InputEvent::TestLatencyAll => self.test_latency_all(),
            InputEvent::NextSort => {
                let sort = self.con_sort.next_sort();
                self.change_sort(sort);
                None
            },
            InputEvent::PrevSort => {
                let sort = self.con_sort.prev_sort();
                self.change_sort(sort);
                None
            },
            InputEvent::Other(k) => self.handle_key_event(k, now_ms),
        }
    }

    /// Orders the connection page by `sort`, when it is shown.
    fn change_sort(&mut self, sort: ConSort)
        requires
            tui_wf(*old(self)),
        ensures
            tui_wf(*final(self)),
            resorted(*old(self), *final(self), sort),
    {
        if self.page_index == 3 {
            self.con_sort = sort;
            let mut rows: Vec<ConnectionRow> = Vec::new();
            std::mem::swap(&mut rows, &mut self.con_state.items);
            let ghost mid = self.con_state;
            let rows = sort_connections(rows, sort);
            proof {
                crate::list::lemma_vec_len_fits(&rows);
            }
            self.con_state.replace_items(rows);
            proof {
                searched_filter_ok(ListState { items: rows, ..mid }, self.con_state);
            }
        }
    }
}

/// The level of a diagnostic message.
#[derive(Debug, Clone, Copy, PartialEq, Eq, Structural)]
pub enum LogLevel {
    Error,
    Warn,
    Info,
    Debug,
    Trace,
}

/// A message of the interface about itself.
#[derive(Debug, PartialEq, Eq)]
pub enum DiagnosticEvent {
    Log(LogLevel, String),
}

/// Everything the interface reacts to.
#[derive(Debug, PartialEq, Eq)]
pub enum Event {
    Quit,
    Action(Action),
    Input(InputEvent),
    Update(UpdateEvent),
    Diagnostic(DiagnosticEvent),
}

/// How many debug lines are kept before the oldest are dropped, and how
/// many are dropped then.
pub open spec fn debug_limit() -> nat {
    300
}

pub open spec fn debug_drop() -> nat {
    100
}

/// The state can take the event.
pub open spec fn event_ok(s: TuiStates, ev: Event) -> bool {
    &&& tui_wf(s)
    &&& s.all_events_recv < usize::MAX
    &&& (s.debug_state.offset.hold ==> s.debug_state.offset.y < usize::MAX - 1)
    &&& match ev {
        Event::Input(i) => input_ok(s, i),
        Event::Update(u) => (s.log_state.offset.hold ==> s.log_state.offset.y < usize::MAX)
            && (u matches UpdateEvent::Proxies(p) ==> proxies_complete(p.entries@)),
        _ => true,
    }
}

impl TuiStates {
    /// Drops the oldest `num` debug lines, or all when there are fewer.
    fn drop_events(&mut self, num: usize)
        ensures
            final(self).debug_state.items@ == old(self).debug_state.items@.subrange(
                if num as int <= old(self).debug_state.items@.len() { num as int } else { old(self).debug_state.items@.len() as int },
                old(self).debug_state.items@.len() as int,
            ),
            *final(self) == (TuiStates { debug_state: ListState { items: final(self).debug_state.items, ..old(self).debug_state }, ..*old(self) }),
    {
        let len = self.debug_state.items.len();
        let n = if num <= len {
            num
        } else {
            len
        };
        let kept = self.debug_state.items.split_off(n);
        self.debug_state.items = kept;
    }

    /// Notes an event: drops an expired notice, counts the event and adds
    /// its line to the debug page, which keeps at most [`debug_limit`]
    /// lines by dropping [`debug_drop`] of the oldest when full.
    fn note_event(&mut self, debug_line: String, now_ms: u64)
        requires
            tui_wf(*old(self)),
            old(self).all_events_recv < usize::MAX,
            old(self).debug_state.offset.hold ==> old(self).debug_state.offset.y < usize::MAX - 1,
        ensures
            tui_wf(*final(self)),
            noted(*old(self), *final(self), debug_line, now_ms),
    {
        if let Some(n) = &self.notice_popup {
            if n.is_expired(now_ms) {
                self.notice_popup = None;
            }
        }
        self.all_events_recv = self.all_events_recv + 1;
        if self.debug_state.items.len() >= 300 {
            self.drop_events(100);
        }
        proof {
            crate::list::lemma_vec_len_fits(&self.debug_state.items);
        }
        let ghost before = self.debug_state;
        self.debug_state.push(debug_line);
        proof {
            crate::list::lemma_vec_len_fits(&self.debug_state.items);
        }
        proof {
            searched_filter_ok(
                ListState {
                    items: self.debug_state.items,
                    offset: if before.offset.hold {
                        Coord { y: (before.offset.y + 1) as usize, ..before.offset }
                    } else {
                        before.offset
                    },
                    ..before
                },
                self.debug_state,
            );
        }
    }

    /// Carries out `event` once it was noted; see [`TuiStates::handle`].
    #[verifier::rlimit(100)]
    fn dispatch(&mut self, event: Event, now_ms: u64) -> (r: Option<Action>)
        requires
            tui_wf(*old(self)),
            match event {
                Event::Input(i) => old(self).notice_popup is None ==> input_ok(*old(self), i),
                Event::Update(u) => (old(self).log_state.offset.hold ==> old(self).log_state.offset.y < usize::MAX)
                    && (u matches UpdateEvent::Proxies(p) ==> proxies_complete(p.entries@)),
                _ => true,
            },
        ensures
            tui_wf(*final(self)),
            match event {
                Event::Quit => r is None && *final(self) == (TuiStates { should_quit: true, ..*old(self) }),
                Event::Input(i) => if old(self).notice_popup is Some {
                    r is None && *final(self) == (TuiStates { notice_popup: None, ..*old(self) })
                } else {
                    input_done(*old(self), *final(self), i, r, now_ms)
                },
                Event::Update(u) => r is None && update_done(*old(self), *final(self), u, now_ms),
                _ => r is None && *final(self) == *old(self),
            },
    {
        match event {
            Event::Quit => {
                self.should_quit = true;
                None
            },
            Event::Input(i) => {
                if self.notice_popup.is_some() {
                    self.notice_popup = None;
                    return None;
                }
                self.handle_input(i, now_ms)
            },
            Event::Update(u) => {
                self.handle_update(u, now_ms);
                None
            },
            _ => None,
        }
    }

    /// An event, at `now_ms`, shown on the debug page as `debug_line`; see
    /// [`noted`]. Quit ends the interface; a key press is absorbed by a
    /// notice when one is shown and is handled as input otherwise (see
    /// [`input_done`]); a report of the worker is handled as an update (see
    /// [`TuiStates::handle_update`]).
    #[verifier::rlimit(100)]
    pub fn handle(&mut self, event: Event, debug_line: String, now_ms: u64) -> (r: Option<Action>)
        requires
            event_ok(*old(self), event),
        ensures
            tui_wf(*final(self)),
            final(self).all_events_recv == old(self).all_events_recv + 1,
            final(self).debug_state.items@.len() > 0,
            final(self).debug_state.items@.last() == debug_line,
            exists|mid: TuiStates| {
                &&& noted(*old(self), mid, debug_line, now_ms)
                &&& match event {
                    Event::Quit => r is None && *final(self) == (TuiStates { should_quit: true, ..mid }),
                    Event::Input(i) => if mid.notice_popup is Some {
                        r is None && *final(self) == (TuiStates { notice_popup: None, ..mid })
                    } else {
                        input_done(mid, *final(self), i, r, now_ms)
                    },
                    Event::Update(u) => r is None && update_done(mid, *final(self), u, now_ms),
                    _ => r is None && *final(self) == mid,
                }
            },
    {
        self.note_event(debug_line, now_ms);
        let ghost mid = *self;
        proof {
            match event {
                Event::Input(i) => {
                    assert(mid.notice_popup is None ==> input_ok(mid, i));
                },
                _ => {},
            }
        }
        self.dispatch(event, now_ms)
    }
}


/// The debug page never holds more than [`debug_limit`] lines: noting an
/// event keeps it within the limit.
pub proof fn debug_lines_stay_bounded(old: TuiStates, new: TuiStates, line: String, now: u64)
    requires
        noted(old, new, line, now),
        old.debug_state.items@.len() <= debug_limit(),
    ensures
        new.debug_state.items@.len() <= debug_limit(),
        new.all_events_recv == old.all_events_recv + 1,
{
}

/// The debug page stays bounded through everything the interface does:
/// every state it is kept in (each that [`TuiStates::new`] builds and
/// [`TuiStates::handle`] leaves, both of which keep [`tui_wf`]) holds at
/// most [`debug_limit`] lines; each handled event counts once and is noted
/// as the newest line (see the contract of [`TuiStates::handle`]).
pub proof fn debug_page_stays_bounded(s: TuiStates)
    requires
        tui_wf(s),
    ensures
        s.debug_state.items@.len() <= debug_limit(),
{
}

/// While the log or connection list is paused, its reports change nothing.
pub proof fn paused_lists_ignore_updates(old: TuiStates, new: TuiStates, u: UpdateEvent, now: u64)
    requires
        update_done(old, new, u, now),
        (u is Log && old.log_state.paused) || (u is Connection && old.con_state.paused),
    ensures
        new == old,
{
}


} // verus!
