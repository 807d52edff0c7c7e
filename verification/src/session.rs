//! A session of the terminal interface: the configured servers and the
//! active one, the state a session starts in, the messages shown when a
//! switch of servers or the background worker fails, and how a session ends.

use vstd::prelude::*;

use crate::kind::ControllerKind;
use crate::popup::{duplicate_servers, find_server, server_pos, ApiResultPopup, NoticePopup, Server, ServerPopupMode};
use crate::config_page::{dashes, pad_end, push_repeated, spaces};
use crate::kind::kind_name;
use crate::popup::{parse_url, url_parse};
use crate::row_text::pad_right;
use crate::text::{concat, owned, str_eq};
use crate::tui::{tui_wf, TuiStates};

verus! {

/// The failure of an I/O operation of std; carried through, never read.
#[verifier::external_type_specification]
#[verifier::external_body]
pub struct ExIoError(std::io::Error);

/// The servers this client knows and the address of the one in use.
#[derive(Debug)]
pub struct ConfigData {
    pub servers: Vec<Server>,
    pub using: Option<String>,
}

/// What can go wrong when choosing the server in use.
#[derive(Debug, Clone, Copy, PartialEq, Eq, Structural)]
pub enum ConfigError {
    /// No configured server has the address asked for.
    ServerNotFound,
}

/// The position of the server in use among `servers`, if it is there.
pub open spec fn using_pos(servers: Seq<Server>, using: Option<String>) -> Option<int> {
    match using {
        Some(u) => server_pos(servers, u@),
        None => None,
    }
}

impl ConfigData {
    /// The configured server whose address is `url`.
    pub fn get_server(&self, url: &str) -> (r: Option<&Server>)
        ensures
            match server_pos(self.servers@, url@) {
                Some(i) => r == Some(&self.servers@[i]),
                None => r is None,
            },
    {
        match find_server(&self.servers, url) {
            Some(i) => Some(&self.servers[i]),
            None => None,
        }
    }

    /// The server in use: the configured server whose address is the one
    /// marked as in use.
    pub fn using_server(&self) -> (r: Option<&Server>)
        ensures
            match using_pos(self.servers@, self.using) {
                Some(i) => r == Some(&self.servers@[i]),
                None => r is None,
            },
    {
        match &self.using {
            Some(url) => self.get_server(url.as_str()),
            None => None,
        }
    }

    /// Marks the server at `url` as the one in use; refused when no
    /// configured server has that address.
    pub fn use_server(&mut self, url: String) -> (r: Result<(), ConfigError>)
        ensures
            server_pos(old(self).servers@, url@) is Some ==> r is Ok && final(self).servers
                == old(self).servers && final(self).using == Some(url),
            server_pos(old(self).servers@, url@) is None ==> r == Err::<(), ConfigError>(
                ConfigError::ServerNotFound,
            ) && *final(self) == *old(self),
    {
        match find_server(&self.servers, url.as_str()) {
            Some(_) => {
                self.using = Some(url);
                Ok(())
            },
            None => Err(ConfigError::ServerNotFound),
        }
    }
}

/// The servers of `servers` whose address is not among `urls`, in order.
pub open spec fn kept_servers(servers: Seq<Server>, urls: Seq<Seq<char>>) -> Seq<Server>
    decreases servers.len(),
{
    if servers.len() == 0 {
        Seq::empty()
    } else {
        let rest = kept_servers(servers.drop_last(), urls);
        if urls.contains(servers.last().url@) {
            rest
        } else {
            rest.push(servers.last())
        }
    }
}

/// The characters of each string of `v`.
pub open spec fn url_texts(v: Seq<String>) -> Seq<Seq<char>> {
    v.map_values(|s: String| s@)
}

/// Whether two servers have the same address, secret and kind.
pub open spec fn same_server_spec(a: Server, b: Server) -> bool {
    &&& a.url@ == b.url@
    &&& match (a.secret, b.secret) {
        (Some(x), Some(y)) => x@ == y@,
        (None, None) => true,
        _ => false,
    }
    &&& a.kind == b.kind
}

/// Whether the `i`-th server is shown as the one in use: it is the same
/// as the server in use.
pub open spec fn shown_active(servers: Seq<Server>, using: Option<String>, i: int) -> bool {
    match using_pos(servers, using) {
        Some(p) => same_server_spec(servers[i], servers[p]),
        None => false,
    }
}

/// Whether the string `s` is one of `v`.
fn contains_text(v: &Vec<String>, s: &str) -> (r: bool)
    ensures
        r == url_texts(v@).contains(s@),
{
    let mut i: usize = 0;
    while i < v.len()
        invariant
            i <= v@.len(),
            forall|k: int| 0 <= k < i ==> v@[k]@ != s@,
        decreases v@.len() - i,
    {
        if str_eq(v[i].as_str(), s) {
            assert(url_texts(v@)[i as int] == s@);
            return true;
        }
        i = i + 1;
    }
    proof {
        if url_texts(v@).contains(s@) {
            let k = choose|k: int| 0 <= k < url_texts(v@).len() && url_texts(v@)[k] == s@;
            assert(v@[k]@ == s@);
        }
    }
    false
}

/// Whether two servers are the same: address, secret and kind.
fn same_server(a: &Server, b: &Server) -> (r: bool)
    ensures
        r == same_server_spec(*a, *b),
{
    let same_secret = match (&a.secret, &b.secret) {
        (Some(x), Some(y)) => str_eq(x.as_str(), y.as_str()),
        (None, None) => true,
        _ => false,
    };
    let same_kind = match (a.kind, b.kind) {
        (ControllerKind::Mihomo, ControllerKind::Mihomo) => true,
        (ControllerKind::Clash, ControllerKind::Clash) => true,
        _ => false,
    };
    str_eq(a.url.as_str(), b.url.as_str()) && same_secret && same_kind
}

impl ConfigData {
    /// Adds `server` and makes it the one in use.
    pub fn add_server(&mut self, server: Server)
        ensures
            final(self).servers@ == old(self).servers@.push(server),
            final(self).using == Some(server.url),
    {
        let url = server.url.clone();
        self.servers.push(server);
        self.using = Some(url);
    }

    /// Removes the servers whose address is among `urls`.
    pub fn remove_servers(&mut self, urls: &Vec<String>)
        ensures
            final(self).servers@ == kept_servers(old(self).servers@, url_texts(urls@)),
            final(self).using == old(self).using,
    {
        let ghost start = self.servers@;
        let mut kept: Vec<Server> = Vec::new();
        let mut i: usize = 0;
        while i < self.servers.len()
            invariant
                self.servers@ == start,
                i <= start.len(),
                kept@ == kept_servers(start.take(i as int), url_texts(urls@)),
            decreases start.len() - i,
        {
            proof {
                assert(start.take(i + 1).drop_last() =~= start.take(i as int));
            }
            if !contains_text(urls, self.servers[i].url.as_str()) {
                kept.push(self.servers[i].duplicate());
            }
            i = i + 1;
        }
        proof {
            assert(start.take(start.len() as int) =~= start);
        }
        self.servers = kept;
    }

    /// For each server, whether it is shown as the one in use.
    pub fn active_flags(&self) -> (r: Vec<bool>)
        ensures
            r@.len() == self.servers@.len(),
            forall|i: int| 0 <= i < r@.len() ==> r@[i] == shown_active(self.servers@, self.using, i),
    {
        let active = self.using_server();
        let mut r: Vec<bool> = Vec::new();
        let mut i: usize = 0;
        while i < self.servers.len()
            invariant
                i <= self.servers@.len(),
                r@.len() == i,
                match using_pos(self.servers@, self.using) {
                    Some(p) => active == Some(&self.servers@[p]),
                    None => active is None,
                },
                forall|k: int| 0 <= k < i ==> r@[k] == shown_active(self.servers@, self.using, k),
            decreases self.servers@.len() - i,
        {
            let flag = match active {
                Some(a) => same_server(&self.servers[i], a),
                None => false,
            };
            r.push(flag);
            i = i + 1;
        }
        r
    }
}

/// The question asked for the kind of a new server, naming the detected
/// kind when there is one.
pub fn kind_prompt_message(detected: Option<ControllerKind>) -> (r: String)
    ensures
        match detected {
            Some(k) => r@ == "Confirm controller type (detected "@ + crate::kind::kind_name(k) + ")"@,
            None => r@ == "Select controller type"@,
        },
{
    match detected {
        Some(kind) => {
            let a = concat("Confirm controller type (detected ", kind.as_str());
            concat(a.as_str(), ")")
        },
        None => owned("Select controller type"),
    }
}

/// The question confirming the removal of `count` servers.
pub fn remove_confirm_message(count: usize) -> (r: String)
    ensures
        r@ == "Confirm to remove "@ + crate::text::decimal(count as nat) + " servers?"@,
{
    let n = crate::text::usize_to_decimal(count);
    let a = concat("Confirm to remove ", n.as_str());
    concat(a.as_str(), " servers?")
}

/// The feedback of a switch of servers, shown when the next session starts.
#[derive(Debug, Clone)]
pub enum SessionNotice {
    Success(String),
    Failure(String),
}

/// How a session ended: the user quit, or asked to switch to the server at
/// the address given.
#[derive(Debug, Clone)]
pub enum SessionOutcome {
    Quit,
    Switch(String),
}

/// How the background worker of a session stopped.
#[derive(Debug, Clone)]
pub enum WorkerExit {
    /// It panicked.
    Panicked,
    /// It returned this error, as text.
    Failed(String),
    /// It returned without an error.
    Stopped,
}

/// The text for the user when the background worker stopped as `exit` says.
pub open spec fn worker_exit_text(exit: WorkerExit) -> Seq<char> {
    match exit {
        WorkerExit::Panicked => "Background worker panicked"@,
        WorkerExit::Failed(e) => e@,
        WorkerExit::Stopped => "Background worker stopped"@,
    }
}

/// The text for the user when the background worker stopped.
pub fn servo_failure_message(exit: WorkerExit) -> (r: String)
    ensures
        r@ == worker_exit_text(exit),
{
    match exit {
        WorkerExit::Panicked => owned("Background worker panicked"),
        WorkerExit::Failed(e) => e,
        WorkerExit::Stopped => owned("Background worker stopped"),
    }
}

/// The start of the message shown when the server cannot be reached.
pub open spec fn unavailable_head() -> Seq<char> {
    "The configured service is unavailable.\n\n"@
}

/// The end of the message shown when the server cannot be reached: what
/// still works and the keys to go on.
pub open spec fn unavailable_tail() -> Seq<char> {
    "\n\nData updates are stopped.\nPress Shift+S to select another server, Esc to close this message, or q to quit."@
}

/// The message shown when the server cannot be reached: `message`, framed
/// by what it means and how to pick another server.
pub fn server_failure_body(message: &str) -> (r: String)
    ensures
        r@ == unavailable_head() + message@ + unavailable_tail(),
{
    let head = concat("The configured service is unavailable.\n\n", message);
    concat(
        head.as_str(),
        "\n\nData updates are stopped.\nPress Shift+S to select another server, Esc to close this message, or q to quit.",
    )
}

/// The notice after switching to the server at `url`.
pub fn switch_success_notice(url: &str) -> (r: String)
    ensures
        r@ == "Switched to "@ + url@,
{
    concat("Switched to ", url)
}

/// The message when the server at `url` could not be reached, `error`
/// saying why.
pub fn switch_failure_message(url: &str, error: &str) -> (r: String)
    ensures
        r@ == "Failed to connect to "@ + url@ + ": "@ + error@
            + "\n\nStaying on the current server."@,
{
    let a = concat("Failed to connect to ", url);
    let b = concat(a.as_str(), ": ");
    let c = concat(b.as_str(), error);
    concat(c.as_str(), "\n\nStaying on the current server.")
}

/// The message when the server at `url` was removed from the configuration
/// in the meantime.
pub fn missing_server_message(url: &str) -> (r: String)
    ensures
        r@ == "Server "@ + url@ + " is not in the config anymore"@,
{
    let a = concat("Server ", url);
    concat(a.as_str(), " is not in the config anymore")
}

/// The hint shown when no server is in use.
pub open spec fn no_server_hint() -> Seq<char> {
    "No active server: press a to add one, Enter to use the selected"@
}

/// The state a session starts in, for a controller of `kind`: the notice of
/// the previous switch, if any, is shown (a success as a passing notice
/// stamped `now_ms`, a failure as a message that stays); and when no
/// configured server is in use the server switcher is open with a hint.
pub fn initial_state(kind: ControllerKind, notice: Option<SessionNotice>, config: &ConfigData, now_ms: u64) -> (r:
    TuiStates)
    ensures
        tui_wf(r),
        r.page_index == 0 && !r.should_quit,
        r.switch_to_server is None,
        crate::api_page::fresh_page(r.config_core_api_state, crate::api_page::supported_ops(crate::api_page::config_core_operations(), kind)),
        crate::api_page::fresh_page(r.dns_api_state, crate::api_page::supported_ops(crate::api_page::dns_operations(), kind)),
        crate::api_page::fresh_page(r.api_state, crate::api_page::supported_ops(crate::api::all_operations(), kind)),
        match notice {
            Some(SessionNotice::Success(body)) => r.notice_popup matches Some(p) && (p.title@
                == "Server Switched"@ && p.body == body && p.created_ms == now_ms)
                && r.api_result_popup is None,
            Some(SessionNotice::Failure(body)) => r.api_result_popup matches Some(p) && (p.title@
                == "Switch Server"@ && p.body == body && p.offset.x == 0 && p.offset.y == 0)
                && r.notice_popup is None,
            None => r.notice_popup is None && r.api_result_popup is None,
        },
        using_pos(config.servers@, config.using) is Some ==> r.server_popup is None,
        using_pos(config.servers@, config.using) is None ==> (r.server_popup matches Some(p) && (
        p.servers@ == config.servers@ && p.active == config.using && p.mode == ServerPopupMode::List
            && (p.message matches Some(m) && m@ == no_server_hint()))),
{
    let mut state = TuiStates::for_controller_kind(kind);
    match notice {
        Some(SessionNotice::Success(body)) => {
            state.notice_popup = Some(NoticePopup::new(owned("Server Switched"), body, now_ms));
        },
        Some(SessionNotice::Failure(body)) => {
            state.api_result_popup = Some(ApiResultPopup::new(owned("Switch Server"), body));
        },
        None => {},
    }
    let has_server = config.using_server().is_some();
    if !has_server {
        state.open_server_popup_with(duplicate_servers(&config.servers), config.using.clone());
        if let Some(popup) = state.server_popup.as_mut() {
            popup.message = Some(
                owned("No active server: press a to add one, Enter to use the selected"),
            );
        }
    }
    state
}

/// How a session in `state` ended.
pub fn session_outcome(state: &TuiStates) -> (r: SessionOutcome)
    ensures
        match state.switch_to_server {
            Some(url) => r matches SessionOutcome::Switch(u) && u == url,
            None => r is Quit,
        },
{
    match &state.switch_to_server {
        Some(url) => SessionOutcome::Switch(url.clone()),
        None => SessionOutcome::Quit,
    }
}

/// The width of the terminal from what asking for its size gave: the width
/// reported, or `default` when asking failed.
pub fn terminal_width_from_size(size: std::io::Result<(u16, u16)>, default: u16) -> (r: u16)
    ensures
        match size {
            Ok((width, _)) => r == width,
            Err(_) => r == default,
        },
{
    match size {
        Ok((width, _)) => width,
        Err(_) => default,
    }
}


/// After the server at `url` is chosen, it is the server in use: the
/// configured server with that address (the first, when several share it).
pub proof fn chosen_server_is_in_use(servers: Seq<Server>, url: String)
    requires
        server_pos(servers, url@) is Some,
    ensures
        using_pos(servers, Some(url)) == server_pos(servers, url@),
        using_pos(servers, Some(url)) matches Some(i) && 0 <= i < servers.len() && servers[i].url@ == url@,
{
    crate::popup::lemma_server_pos_found(servers, url@);
}

/// A server added as new is in use afterwards, unless a configured server
/// already had its address.
pub proof fn added_server_is_in_use(servers: Seq<Server>, server: Server)
    requires
        server_pos(servers, server.url@) is None,
    ensures
        using_pos(servers.push(server), Some(server.url)) == Some(servers.len() as int),
{
    crate::popup::lemma_server_pos_found(servers, server.url@);
    lemma_server_pos_push(servers, server);
}

proof fn lemma_server_pos_push(servers: Seq<Server>, server: Server)
    requires
        server_pos(servers, server.url@) is None,
    ensures
        server_pos(servers.push(server), server.url@) == Some(servers.len() as int),
    decreases servers.len(),
{
    if servers.len() == 0 {
        assert(servers.push(server)[0] == server);
    } else {
        assert(servers.push(server).drop_first() =~= servers.drop_first().push(server));
        assert(servers.push(server)[0] == servers[0]);
        lemma_server_pos_push(servers.drop_first(), server);
    }
}

/// Removing servers by address keeps exactly the servers whose address is
/// not among the removed ones, in their order.
pub proof fn removal_keeps_exactly_the_others(servers: Seq<Server>, urls: Seq<Seq<char>>)
    ensures
        forall|i: int|
            0 <= i < kept_servers(servers, urls).len() ==> !urls.contains(
                #[trigger] kept_servers(servers, urls)[i].url@,
            ),
        forall|s: Server| #[trigger]
            kept_servers(servers, urls).contains(s) <==> (servers.contains(s) && !urls.contains(s.url@)),
    decreases servers.len(),
{
    if servers.len() > 0 {
        let rest = servers.drop_last();
        removal_keeps_exactly_the_others(rest, urls);
        let k = kept_servers(rest, urls);
        assert forall|s: Server| #[trigger]
            kept_servers(servers, urls).contains(s) <==> (servers.contains(s) && !urls.contains(s.url@)) by {
            assert(servers =~= rest.push(servers.last()));
            if servers.contains(s) {
                let j = choose|j: int| 0 <= j < servers.len() && servers[j] == s;
                if j < servers.len() - 1 {
                    assert(rest[j] == s);
                }
            }
            if rest.contains(s) {
                let j = choose|j: int| 0 <= j < rest.len() && rest[j] == s;
                assert(servers[j] == s);
            }
            if kept_servers(servers, urls).contains(s) && !urls.contains(servers.last().url@) {
                let j = choose|j: int| 0 <= j < k.push(servers.last()).len() && k.push(servers.last())[j] == s;
                if j < k.len() {
                    assert(k[j] == s);
                }
            }
            if !urls.contains(servers.last().url@) && k.contains(s) {
                let j = choose|j: int| 0 <= j < k.len() && k[j] == s;
                assert(k.push(servers.last())[j] == s);
            }
            if !urls.contains(servers.last().url@) && s == servers.last() {
                assert(k.push(servers.last())[k.len() as int] == s);
            }
            assert(servers.last() == servers[servers.len() - 1]);
        }
        assert forall|i: int|
            0 <= i < kept_servers(servers, urls).len() implies !urls.contains(
                #[trigger] kept_servers(servers, urls)[i].url@,
            ) by {
            if !urls.contains(servers.last().url@) {
                if i < k.len() {
                    assert(kept_servers(servers, urls)[i] == k[i]);
                }
            }
        }
    }
}


/// The server that the answers to the questions for a new server give: the
/// URL as the URL parser writes it, the secret unless it was left empty,
/// and `kind`; the parser's complaint when the URL does not parse.
pub fn server_from_answers(url_text: &str, secret_text: &str, kind: ControllerKind) -> (r: Result<Server, String>)
    ensures
        match url_parse(url_text@) {
            Ok(u) => r matches Ok(s) && s.url@ == u && s.kind == kind && (if secret_text@.len() == 0 {
                s.secret is None
            } else {
                s.secret matches Some(t) && t@ == secret_text@
            }),
            Err(e) => r matches Err(m) && m@ == "Invalid URL: "@ + e,
        },
{
    match parse_url(url_text) {
        Ok(url) => {
            let secret = if secret_text.unicode_len() == 0 {
                None
            } else {
                Some(owned(secret_text))
            };
            Ok(Server { url, secret, kind })
        },
        Err(e) => Err(concat("Invalid URL: ", e.as_str())),
    }
}

/// A line of the server table: a part shown in green, then plain text.
#[derive(Debug, PartialEq, Eq)]
pub struct TableLine {
    pub green: String,
    pub plain: String,
}

/// The characters of both parts of each line.
pub open spec fn table_texts(v: Seq<TableLine>) -> Seq<(Seq<char>, Seq<char>)> {
    v.map_values(|l: TableLine| (l.green@, l.plain@))
}

/// The mark of a server in the table: an arrow centred in eight columns for
/// the server in use, blank otherwise.
pub open spec fn active_mark(active: bool) -> Seq<char> {
    if active {
        spaces(3) + "→"@ + spaces(4)
    } else {
        spaces(8)
    }
}

/// The row of the server at `i`: its mark, then its kind in ten columns and
/// its URL in fifty.
pub open spec fn server_row(servers: Seq<Server>, using: Option<String>, i: int) -> (Seq<char>, Seq<char>) {
    (active_mark(shown_active(servers, using, i)), pad_end(kind_name(servers[i].kind), 10) + pad_end(servers[i].url@, 50))
}

/// The table of the configured servers `width` columns wide: a blank line,
/// a rule, the heading, a rule, a row per server, a rule and a blank line.
pub open spec fn server_table_spec(servers: Seq<Server>, using: Option<String>, width: nat) -> Seq<(Seq<char>, Seq<char>)> {
    let blank = (Seq::<char>::empty(), Seq::<char>::empty());
    let rule = (Seq::<char>::empty(), dashes(width));
    seq![blank, rule, (pad_end("ACTIVE"@, 8), pad_end("KIND"@, 10) + pad_end("URL"@, 50)), rule]
        + Seq::new(servers.len(), |i: int| server_row(servers, using, i)) + seq![rule, blank]
}

/// A rule of `width` dashes.
fn rule_line(width: usize) -> (r: TableLine)
    ensures
        r.green@.len() == 0,
        r.plain@ == dashes(width as nat),
{
    let mut plain = String::new();
    push_repeated(&mut plain, '-', width);
    assert(plain@ =~= dashes(width as nat));
    TableLine { green: String::new(), plain }
}

impl ConfigData {
    /// The table that lists the configured servers, `width` columns wide.
    pub fn server_table(&self, width: usize) -> (r: Vec<TableLine>)
        ensures
            table_texts(r@) == server_table_spec(self.servers@, self.using, width as nat),
    {
        let active = self.active_flags();
        let mut r: Vec<TableLine> = Vec::new();
        r.push(TableLine { green: String::new(), plain: String::new() });
        r.push(rule_line(width));
        let mut heading = pad_right("KIND", 10);
        heading.append(pad_right("URL", 50).as_str());
        r.push(TableLine { green: pad_right("ACTIVE", 8), plain: heading });
        r.push(rule_line(width));
        let ghost head = table_texts(r@);
        proof {
            let blank = (Seq::<char>::empty(), Seq::<char>::empty());
            let rule = (Seq::<char>::empty(), dashes(width as nat));
            assert(r@[0].green@ =~= Seq::<char>::empty() && r@[0].plain@ =~= Seq::<char>::empty());
            assert(r@[1].green@ =~= Seq::<char>::empty() && r@[3].green@ =~= Seq::<char>::empty());
            assert(head =~= seq![blank, rule, (pad_end("ACTIVE"@, 8), pad_end("KIND"@, 10) + pad_end("URL"@, 50)), rule]);
        }
        let mut i: usize = 0;
        while i < self.servers.len()
            invariant
                i <= self.servers@.len(),
                active@.len() == self.servers@.len(),
                forall|k: int| 0 <= k < active@.len() ==> active@[k] == shown_active(self.servers@, self.using, k),
                table_texts(r@) == head + Seq::new(i as nat, |k: int| server_row(self.servers@, self.using, k)),
            decreases self.servers@.len() - i,
        {
            let mark = if active[i] {
                let mut m = String::new();
                push_repeated(&mut m, ' ', 3);
                push_char_arrow(&mut m);
                push_repeated(&mut m, ' ', 4);
                assert(m@ =~= spaces(3) + "→"@ + spaces(4));
                m
            } else {
                let mut m = String::new();
                push_repeated(&mut m, ' ', 8);
                assert(m@ =~= spaces(8));
                m
            };
            let mut plain = pad_right(self.servers[i].kind.as_str(), 10);
            plain.append(pad_right(self.servers[i].url.as_str(), 50).as_str());
            let ghost before = table_texts(r@);
            r.push(TableLine { green: mark, plain });
            proof {
                assert(table_texts(r@) =~= before.push(server_row(self.servers@, self.using, i as int)));
                assert(Seq::new((i + 1) as nat, |k: int| server_row(self.servers@, self.using, k)) =~= Seq::new(
                    i as nat,
                    |k: int| server_row(self.servers@, self.using, k),
                ).push(server_row(self.servers@, self.using, i as int)));
            }
            i = i + 1;
        }
        let ghost body = table_texts(r@);
        let last_rule = rule_line(width);
        r.push(last_rule);
        let ghost with_rule = table_texts(r@);
        r.push(TableLine { green: String::new(), plain: String::new() });
        proof {
            let blank = (Seq::<char>::empty(), Seq::<char>::empty());
            let rule = (Seq::<char>::empty(), dashes(width as nat));
            assert(last_rule.green@ =~= Seq::<char>::empty());
            assert(with_rule =~= body.push(rule));
            assert(r@.last().green@ =~= Seq::<char>::empty() && r@.last().plain@ =~= Seq::<char>::empty());
            assert(table_texts(r@) =~= with_rule.push(blank));
            assert(table_texts(r@) =~= server_table_spec(self.servers@, self.using, width as nat));
        }
        r
    }
}

/// Appends the arrow that marks the server in use.
fn push_char_arrow(m: &mut String)
    ensures
        final(m)@ == old(m)@ + "→"@,
{
    proof {
        reveal_strlit("→");
    }
    crate::text::push_char(m, '→');
    assert(final(m)@ =~= old(m)@ + "→"@) by {
        reveal_strlit("→");
    }
}

} // verus!
