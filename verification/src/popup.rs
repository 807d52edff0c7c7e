//! The popups of the terminal interface: the mode switcher, confirmations,
//! API results, short notices, and the server switcher with its form for
//! adding a server.

use vstd::prelude::*;

use crate::event::{Action, KeyCode, KeyEvent};
use crate::config_page::pad_end;
use crate::kind::{kind_name, ControllerKind};
use crate::row_text::{pad_right, repeated};
use crate::list::Coord;
use crate::model::Mode;
use crate::text::{concat, owned, pop_char, push_char, str_eq, trim, trim_spec};

verus! {

/// The text of the help popup: the keys of each page.
pub const HELP_TEXT: &'static str = "\
Global
  1-8         Go to tab
  [ / ]       Previous / next tab
  q, x        Quit
  Ctrl+C      Force quit
  Ctrl+D      Toggle debug page
  Shift-S     Manage / switch servers
  Shift-H     Toggle this help
  Space       Hold list, then move with arrow keys
  s / Alt+s   Next / previous sort method
  Esc         Close popup, leave hold or search mode

Status
  m           Open mode switcher (rule / global / direct)
  r           Refresh configs from the server
  Shift-R     Reload configs from the server's config file
  g           Update geo databases (POST /configs/geo)

Proxies
  Space/Enter Expand current group
  Up / Down   Move cursor
  Right/Enter Switch to selected node in expanded selector group
  t           Test latency of current group
  Shift-T     Test latency of all proxies
  /           Search proxies

Rules / Conns / Logs
  /           Search
  p           Pause updates (Conns, Logs)

Conns
  k           Close the selected connection
  Shift-K     Close all connections (Enter to confirm)

API pages (Core / DNS / APIs)
  Up / Down   Select operation
  Enter       Run operation (dangerous ones ask to confirm)
  i           Edit parameters
  Tab         Next parameter
  p           Pick parameter from current context
  Ctrl+U      Clear parameter while editing

Server manager (Shift-S)
  Up / Down   Select server
  Enter       Switch to selected server
  a           Add server
  d           Delete selected server (Enter to confirm)

Popups
  Arrow keys  Scroll
  Esc         Close";

/// The modes in the order the mode switcher lists them.
pub open spec fn modes() -> Seq<Mode> {
    seq![Mode::Rule, Mode::Global, Mode::Direct]
}

/// The mode switcher: the current mode and the row the cursor is on.
#[derive(Debug, Clone, Copy, PartialEq, Eq, Structural)]
pub struct ModeSwitchPopup {
    pub current: Mode,
    pub index: usize,
}

impl ModeSwitchPopup {
    /// The modes in the order the switcher lists them.
    pub fn modes() -> (r: [Mode; 3])
        ensures
            r@ == modes(),
    {
        let r = [Mode::Rule, Mode::Global, Mode::Direct];
        assert(r@ =~= modes());
        r
    }

    /// A switcher with the cursor on `current`.
    pub fn new(current: Mode) -> (r: ModeSwitchPopup)
        ensures
            r.current == current,
            r.index < 3,
            modes()[r.index as int] == current,
    {
        let index = match current {
            Mode::Rule => 0,
            Mode::Global => 1,
            Mode::Direct => 2,
        };
        ModeSwitchPopup { current, index }
    }

    /// The mode under the cursor.
    pub fn selected(&self) -> (r: Mode)
        requires
            self.index < 3,
        ensures
            r == modes()[self.index as int],
    {
        let all = ModeSwitchPopup::modes();
        all[self.index]
    }
}

/// A popup that runs `action` once Enter confirms it.
#[derive(Debug, PartialEq, Eq)]
pub struct ConfirmPopup {
    pub title: String,
    pub body: String,
    pub action: Action,
}

/// A popup showing the full text of a result, scrollable.
#[derive(Debug, PartialEq, Eq)]
pub struct ApiResultPopup {
    pub title: String,
    pub body: String,
    pub offset: Coord,
}

impl ApiResultPopup {
    /// A popup scrolled to the top.
    pub fn new(title: String, body: String) -> (r: ApiResultPopup)
        ensures
            r.title == title,
            r.body == body,
            r.offset == (Coord { x: 0, y: 0, hold: false }),
    {
        ApiResultPopup { title, body, offset: Coord { x: 0, y: 0, hold: false } }
    }
}

/// How long a notice stays, in milliseconds.
pub const NOTICE_TTL_MS: u64 = 5000;

/// A short notice, dismissed by any key or after [`NOTICE_TTL_MS`];
/// `created_ms` is the time it was shown, on a millisecond clock.
#[derive(Debug, PartialEq, Eq)]
pub struct NoticePopup {
    pub title: String,
    pub body: String,
    pub created_ms: u64,
}

/// Milliseconds between `created` and `now`; none when the clock reads an
/// earlier time.
pub open spec fn elapsed_ms(created: u64, now: u64) -> int {
    if now >= created {
        now - created
    } else {
        0
    }
}

impl NoticePopup {
    /// A notice shown at `now_ms`.
    pub fn new(title: String, body: String, now_ms: u64) -> (r: NoticePopup)
        ensures
            r.title == title,
            r.body == body,
            r.created_ms == now_ms,
    {
        NoticePopup { title, body, created_ms: now_ms }
    }

    /// Whether the notice has been shown for its whole lifetime at `now_ms`.
    pub fn is_expired(&self, now_ms: u64) -> (r: bool)
        ensures
            r == (elapsed_ms(self.created_ms, now_ms) >= NOTICE_TTL_MS),
    {
        let elapsed = if now_ms >= self.created_ms {
            now_ms - self.created_ms
        } else {
            0
        };
        elapsed >= NOTICE_TTL_MS
    }

    /// Whole seconds, rounded up, until the notice goes at `now_ms`.
    pub fn remaining_secs(&self, now_ms: u64) -> (r: u64)
        ensures
            ({
                let left = if elapsed_ms(self.created_ms, now_ms) >= NOTICE_TTL_MS {
                    0
                } else {
                    NOTICE_TTL_MS - elapsed_ms(self.created_ms, now_ms)
                };
                r == (left + 999) / 1000
            }),
    {
        let elapsed = if now_ms >= self.created_ms {
            now_ms - self.created_ms
        } else {
            0
        };
        let left = if elapsed >= NOTICE_TTL_MS {
            0
        } else {
            NOTICE_TTL_MS - elapsed
        };
        (left + 999) / 1000
    }
}

/// The switcher `new` after the server `server` of the form of `old` was
/// stored with `result`: added to the list with a message, or the form
/// shows the error.
pub open spec fn added(old: ServerSwitchPopup, new: ServerSwitchPopup, server: Server, result: Result<(), String>) -> bool {
    match result {
        Ok(()) => {
            &&& new.servers@ == old.servers@.push(server)
            &&& new.mode == ServerPopupMode::List
            &&& new.message matches Some(m) && m@ == "Added "@ + server.url@
            &&& new.active == old.active
            &&& new.index == old.index
        },
        Err(e) => {
            &&& new == (ServerSwitchPopup { mode: new.mode, ..old })
            &&& new.mode matches ServerPopupMode::Add(nf)
            &&& old.mode matches ServerPopupMode::Add(f)
            &&& nf == (ServerForm { error: Some(e), ..f })
        },
    }
}

/// The switcher `new` after the server under the cursor of `old`, at
/// `url`, was removed from the configuration with `result`: gone from the
/// list with a message and the cursor kept on the list, or the list is kept
/// and the error shown.
pub open spec fn deleted(old: ServerSwitchPopup, new: ServerSwitchPopup, url: Seq<char>, result: Result<(), String>) -> bool {
    &&& new.mode == ServerPopupMode::List
    &&& new.active == old.active
    &&& match result {
        Ok(()) => {
            &&& new.servers@ == old.servers@.remove(old.index as int)
            &&& new.index == (if old.index < new.servers@.len() {
                old.index
            } else if new.servers@.len() > 0 {
                (new.servers@.len() - 1) as usize
            } else {
                0
            })
            &&& new.message matches Some(m) && m@ == "Removed "@ + url
        },
        Err(e) => {
            &&& new.servers == old.servers
            &&& new.index == old.index
            &&& new.message == Some(e)
        },
    }
}

/// A configured server: its controller URL, as the URL parser writes it,
/// its secret and the kind of controller it runs.
#[derive(Debug, PartialEq, Eq)]
pub struct Server {
    pub url: String,
    pub secret: Option<String>,
    pub kind: ControllerKind,
}

impl Server {
    /// A copy of this server.
    pub fn duplicate(&self) -> (r: Server)
        ensures
            r == *self,
    {
        let secret = match &self.secret {
            Some(s) => Some(s.clone()),
            None => None,
        };
        Server { url: self.url.clone(), secret, kind: self.kind }
    }
}

/// A copy of each server of `servers`.
pub fn duplicate_servers(servers: &Vec<Server>) -> (r: Vec<Server>)
    ensures
        r@ == servers@,
{
    let mut r: Vec<Server> = Vec::new();
    let mut i: usize = 0;
    while i < servers.len()
        invariant
            i <= servers@.len(),
            r@ == servers@.take(i as int),
        decreases servers@.len() - i,
    {
        r.push(servers[i].duplicate());
        assert(servers@.take(i + 1) =~= servers@.take(i as int).push(servers@[i as int]));
        i = i + 1;
    }
    assert(servers@.take(servers@.len() as int) =~= servers@);
    r
}

/// What the server switcher shows.
#[derive(Debug, PartialEq, Eq)]
pub enum ServerPopupMode {
    List,
    ConfirmDelete,
    Add(ServerForm),
}

/// The form for adding a server.
#[derive(Debug, PartialEq, Eq)]
pub struct ServerForm {
    pub url: String,
    pub secret: String,
    pub kind: ControllerKind,
    pub field: ServerFormField,
    pub error: Option<String>,
}

/// A field of the server form.
#[derive(Debug, Clone, Copy, PartialEq, Eq, Structural)]
pub enum ServerFormField {
    Url,
    Secret,
    Kind,
}

/// The field after `f`, round to the first.
pub open spec fn next_field(f: ServerFormField) -> ServerFormField {
    match f {
        ServerFormField::Url => ServerFormField::Secret,
        ServerFormField::Secret => ServerFormField::Kind,
        ServerFormField::Kind => ServerFormField::Url,
    }
}

/// The field before `f`, round to the last.
pub open spec fn prev_field(f: ServerFormField) -> ServerFormField {
    match f {
        ServerFormField::Url => ServerFormField::Kind,
        ServerFormField::Secret => ServerFormField::Url,
        ServerFormField::Kind => ServerFormField::Secret,
    }
}

impl ServerFormField {
    pub fn next(self) -> (r: ServerFormField)
        ensures
            r == next_field(self),
    {
        match self {
            ServerFormField::Url => ServerFormField::Secret,
            ServerFormField::Secret => ServerFormField::Kind,
            ServerFormField::Kind => ServerFormField::Url,
        }
    }

    pub fn prev(self) -> (r: ServerFormField)
        ensures
            r == prev_field(self),
    {
        match self {
            ServerFormField::Url => ServerFormField::Kind,
            ServerFormField::Secret => ServerFormField::Url,
            ServerFormField::Kind => ServerFormField::Secret,
        }
    }
}

/// Going to the next field and back lands where it started.
pub proof fn prev_undoes_next(f: ServerFormField)
    ensures
        prev_field(next_field(f)) == f,
        next_field(prev_field(f)) == f,
{
}

/// Three steps forward visit every field and come back.
pub proof fn fields_cycle(f: ServerFormField)
    ensures
        next_field(next_field(next_field(f))) == f,
        next_field(f) != f,
        next_field(next_field(f)) != f,
{
}

impl ServerForm {
    /// An empty form on the URL field, for a Mihomo controller.
    pub fn new() -> (r: ServerForm)
        ensures
            r.url@.len() == 0 && r.secret@.len() == 0,
            r.kind == ControllerKind::Mihomo,
            r.field == ServerFormField::Url,
            r.error is None,
    {
        ServerForm {
            url: String::new(),
            secret: String::new(),
            kind: ControllerKind::Mihomo,
            field: ServerFormField::Url,
            error: None,
        }
    }
}

/// The other kind of controller.
pub open spec fn other_kind(k: ControllerKind) -> ControllerKind {
    match k {
        ControllerKind::Mihomo => ControllerKind::Clash,
        ControllerKind::Clash => ControllerKind::Mihomo,
    }
}

fn flip_kind(k: ControllerKind) -> (r: ControllerKind)
    ensures
        r == other_kind(k),
{
    match k {
        ControllerKind::Mihomo => ControllerKind::Clash,
        ControllerKind::Clash => ControllerKind::Mihomo,
    }
}

/// The server switcher: the configured servers, the one in use, the row
/// the cursor is on, what is shown, and a line of feedback.
#[derive(Debug, PartialEq, Eq)]
pub struct ServerSwitchPopup {
    pub servers: Vec<Server>,
    pub active: Option<String>,
    pub index: usize,
    pub mode: ServerPopupMode,
    pub message: Option<String>,
}

/// The cursor is on a server, or at the top of an empty list; a deletion
/// is only asked to be confirmed when there is a server.
pub open spec fn switcher_wf(p: ServerSwitchPopup) -> bool {
    &&& (p.servers@.len() == 0 && p.index == 0) || p.index < p.servers@.len()
    &&& p.mode is ConfirmDelete ==> p.servers@.len() > 0
}

/// Position of the first server with URL `url`.
pub open spec fn server_pos(servers: Seq<Server>, url: Seq<char>) -> Option<int>
    decreases servers.len(),
{
    if servers.len() == 0 {
        None
    } else if servers[0].url@ == url {
        Some(0)
    } else {
        match server_pos(servers.drop_first(), url) {
            Some(i) => Some(i + 1),
            None => None,
        }
    }
}

proof fn lemma_server_pos(servers: Seq<Server>, url: Seq<char>, i: int)
    requires
        0 <= i <= servers.len(),
        forall|k: int| 0 <= k < i ==> servers[k].url@ != url,
    ensures
        i < servers.len() && servers[i].url@ == url ==> server_pos(servers, url) == Some(i),
        i == servers.len() ==> server_pos(servers, url) is None,
    decreases i,
{
    if i > 0 {
        lemma_server_pos(servers.drop_first(), url, i - 1);
    }
}

/// Where `server_pos` finds a server, that server has the address.
pub(crate) proof fn lemma_server_pos_found(servers: Seq<Server>, url: Seq<char>)
    ensures
        server_pos(servers, url) matches Some(i) ==> 0 <= i < servers.len() && servers[i].url@ == url,
        (exists|k: int| 0 <= k < servers.len() && servers[k].url@ == url) ==> server_pos(servers, url) is Some,
    decreases servers.len(),
{
    if servers.len() > 0 {
        lemma_server_pos_found(servers.drop_first(), url);
        if exists|k: int| 0 <= k < servers.len() && servers[k].url@ == url {
            let k = choose|k: int| 0 <= k < servers.len() && servers[k].url@ == url;
            if k > 0 && servers[0].url@ != url {
                assert(servers.drop_first()[k - 1].url@ == url);
            }
        }
    }
}

pub(crate) fn find_server(servers: &Vec<Server>, url: &str) -> (r: Option<usize>)
    ensures
        match r {
            Some(i) => server_pos(servers@, url@) == Some(i as int) && (i as int) < servers@.len(),
            None => server_pos(servers@, url@) is None,
        },
{
    let mut i: usize = 0;
    while i < servers.len()
        invariant
            i <= servers@.len(),
            forall|k: int| 0 <= k < i ==> servers@[k].url@ != url@,
        decreases servers@.len() - i,
    {
        if str_eq(servers[i].url.as_str(), url) {
            proof {
                lemma_server_pos(servers@, url@, i as int);
            }
            return Some(i);
        }
        i = i + 1;
    }
    proof {
        lemma_server_pos(servers@, url@, i as int);
    }
    None
}

/// What a key does in the switcher: see [`ServerSwitchPopup::list_key`];
/// `new` is the switcher after the key and `r` what it asks for.
pub open spec fn list_key_done(old: ServerSwitchPopup, new: ServerSwitchPopup, code: KeyCode, r: ServerPopupOutcome) -> bool {
    match old.mode {
        ServerPopupMode::List => if old.servers@.len() == 0 {
            r == ServerPopupOutcome::Stay && new == old
        } else if code is Enter {
            let url = old.servers@[old.index as int].url;
            &&& new == old
            &&& if old.active matches Some(a) && a@ == url@ {
                r == ServerPopupOutcome::Close
            } else {
                r matches ServerPopupOutcome::SwitchTo(u) && u@ == url@
            }
        } else {
            &&& r == ServerPopupOutcome::Stay
            &&& new == (ServerSwitchPopup {
                index: wrapped_index(old.index, old.servers@.len(), code),
                ..old
            })
        },
        ServerPopupMode::ConfirmDelete => if code is Enter {
            &&& new == old
            &&& r matches ServerPopupOutcome::Remove(u) && u@ == old.servers@[old.index as int].url@
        } else {
            r == ServerPopupOutcome::Stay && new == old
        },
        ServerPopupMode::Add(form) => match code {
            KeyCode::Down => r == ServerPopupOutcome::Stay && new.mode == ServerPopupMode::Add(
                ServerForm { field: next_field(form.field), ..form },
            ) && new == (ServerSwitchPopup { mode: new.mode, ..old }),
            KeyCode::Up => r == ServerPopupOutcome::Stay && new.mode == ServerPopupMode::Add(
                ServerForm { field: prev_field(form.field), ..form },
            ) && new == (ServerSwitchPopup { mode: new.mode, ..old }),
            KeyCode::Left | KeyCode::Right => r == ServerPopupOutcome::Stay && if form.field
                == ServerFormField::Kind {
                new.mode == ServerPopupMode::Add(
                    ServerForm { kind: other_kind(form.kind), ..form },
                ) && new == (ServerSwitchPopup { mode: new.mode, ..old })
            } else {
                new == old
            },
            KeyCode::Enter => submitted(old, new, r),
            _ => r == ServerPopupOutcome::Stay && new == old,
        },
    }
}

/// What a key in the server switcher asks the interface to do.
#[derive(Debug, PartialEq, Eq)]
pub enum ServerPopupOutcome {
    /// Keep the switcher open.
    Stay,
    /// Close the switcher.
    Close,
    /// Close the switcher and restart on the server with this URL.
    SwitchTo(String),
    /// Save this new server to the configuration, then call
    /// [`ServerSwitchPopup::finish_add`].
    SaveNew(Server),
    /// Remove the server with this URL from the configuration, then call
    /// [`ServerSwitchPopup::finish_delete`].
    Remove(String),
}

/// The URL `url` reads as, as the URL parser writes it, or the parser's
/// error text.
pub uninterp spec fn url_parse(text: Seq<char>) -> Result<Seq<char>, Seq<char>>;

/// Parses a URL with `url::Url::parse`; the result is the named
/// [`url_parse`]: the URL as the parser writes it back, or its error text.
#[verifier::external_body]
pub(crate) fn parse_url(text: &str) -> (r: Result<String, String>)
    ensures
        url_parse(text@) == (match r {
            Ok(u) => Ok::<Seq<char>, Seq<char>>(u@),
            Err(e) => Err::<Seq<char>, Seq<char>>(e@),
        }),
{
    match url::Url::parse(text) {
        Ok(u) => Ok(u.to_string()),
        Err(e) => Err(e.to_string()),
    }
}

/// What submitting the form with `url_text` leads to: the URL it reads as,
/// unless it does not parse or a server has it already.
pub open spec fn form_url_check(servers: Seq<Server>, url_text: Seq<char>) -> Result<Seq<char>, Seq<char>> {
    match url_parse(trim_spec(url_text)) {
        Err(e) => Err("Invalid URL: "@ + e),
        Ok(u) => if server_pos(servers, u) is Some {
            Err(u + " is already configured"@)
        } else {
            Ok(u)
        },
    }
}

/// The secret the form gives: none when it is blank.
pub open spec fn form_secret(secret: Seq<char>) -> Option<Seq<char>> {
    if trim_spec(secret).len() == 0 {
        None
    } else {
        Some(trim_spec(secret))
    }
}

/// The key `code` moves the cursor of a list of `len` servers from `index`,
/// round from one end to the other.
pub open spec fn wrapped_index(index: usize, len: nat, code: KeyCode) -> usize {
    match code {
        KeyCode::Up => if index == 0 {
            (len - 1) as usize
        } else {
            (index - 1) as usize
        },
        KeyCode::Down => ((index + 1) % (len as int)) as usize,
        _ => index,
    }
}

/// Up and Down move round the list of servers: Down goes to the next
/// server and from the last to the first, Up to the previous one and from
/// the first to the last, so that Up undoes Down.
pub proof fn server_keys_go_round(index: usize, len: nat, code: KeyCode)
    requires
        index < len,
        len <= usize::MAX,
    ensures
        code is Down ==> wrapped_index(index, len, code) == (if index + 1 == len {
            0
        } else {
            index + 1
        }),
        code is Up ==> wrapped_index(index, len, code) == (if index == 0 {
            len - 1
        } else {
            index - 1
        }),
        wrapped_index(wrapped_index(index, len, KeyCode::Down), len, KeyCode::Up) == index,
        wrapped_index(index, len, code) < len,
{
    if index + 1 < len {
        assert((index + 1) % (len as int) == index + 1) by (nonlinear_arith)
            requires
                0 <= index + 1 < len,
        ;
    } else {
        assert((index + 1) % (len as int) == 0) by (nonlinear_arith)
            requires
                index + 1 == len,
                len > 0,
        ;
    }
}

impl ServerSwitchPopup {
    /// The switcher for `servers`, with the cursor on the one in use (the
    /// first when none is, or it is not listed).
    pub fn open(servers: Vec<Server>, active: Option<String>) -> (r: ServerSwitchPopup)
        ensures
            r.servers == servers,
            r.active == active,
            r.index == (match active {
                Some(a) => match server_pos(servers@, a@) {
                    Some(i) => i as usize,
                    None => 0,
                },
                None => 0,
            }),
            r.mode == ServerPopupMode::List,
            r.message is None,
            switcher_wf(r),
    {
        let index = match &active {
            Some(a) => match find_server(&servers, a.as_str()) {
                Some(i) => i,
                None => 0,
            },
            None => 0,
        };
        ServerSwitchPopup { servers, active, index, mode: ServerPopupMode::List, message: None }
    }

    /// Up, Down, Left, Right or Enter in the switcher. In the list, Up and
    /// Down move round the servers and Enter picks the server under the
    /// cursor (switching only to another server than the one in use); when
    /// asked to confirm a deletion, Enter removes the server; in the form,
    /// Up and Down move between fields, Left and Right flip the kind on the
    /// kind field, and Enter submits the form.
    pub fn list_key(&mut self, code: KeyCode) -> (r: ServerPopupOutcome)
        requires
            switcher_wf(*old(self)),
        ensures
            switcher_wf(*final(self)),
            list_key_done(*old(self), *final(self), code, r),
    {
        match &mut self.mode {
            ServerPopupMode::List => {
                let len = self.servers.len();
                if len == 0 {
                    return ServerPopupOutcome::Stay;
                }
                match code {
                    KeyCode::Up => {
                        self.index = if self.index == 0 {
                            len - 1
                        } else {
                            self.index - 1
                        };
                        ServerPopupOutcome::Stay
                    },
                    KeyCode::Down => {
                        self.index = (self.index + 1) % len;
                        ServerPopupOutcome::Stay
                    },
                    KeyCode::Enter => {
                        let url = &self.servers[self.index].url;
                        let same = match &self.active {
                            Some(a) => str_eq(a.as_str(), url.as_str()),
                            None => false,
                        };
                        if same {
                            ServerPopupOutcome::Close
                        } else {
                            ServerPopupOutcome::SwitchTo(url.clone())
                        }
                    },
                    _ => ServerPopupOutcome::Stay,
                }
            },
            ServerPopupMode::ConfirmDelete => {
                if code == KeyCode::Enter {
                    ServerPopupOutcome::Remove(self.servers[self.index].url.clone())
                } else {
                    ServerPopupOutcome::Stay
                }
            },
            ServerPopupMode::Add(form) => match code {
                KeyCode::Down => {
                    form.field = form.field.next();
                    ServerPopupOutcome::Stay
                },
                KeyCode::Up => {
                    form.field = form.field.prev();
                    ServerPopupOutcome::Stay
                },
                KeyCode::Left | KeyCode::Right => {
                    if form.field == ServerFormField::Kind {
                        form.kind = flip_kind(form.kind);
                    }
                    ServerPopupOutcome::Stay
                },
                KeyCode::Enter => self.submit_form(),
                _ => ServerPopupOutcome::Stay,
            },
        }
    }

    /// Submits the form; see [`submitted`].
    fn submit_form(&mut self) -> (r: ServerPopupOutcome)
        requires
            old(self).mode is Add,
            switcher_wf(*old(self)),
        ensures
            submitted(*old(self), *final(self), r),
            switcher_wf(*final(self)),
    {
        let (url_text, secret_text, kind) = match &self.mode {
            ServerPopupMode::Add(form) => (trim(form.url.as_str()), trim(form.secret.as_str()), form.kind),
            _ => {
                return ServerPopupOutcome::Stay;
            },
        };
        let checked: Result<String, String> = match parse_url(url_text.as_str()) {
            Err(e) => Err(concat("Invalid URL: ", e.as_str())),
            Ok(u) => match find_server(&self.servers, u.as_str()) {
                Some(_) => {
                    let mut m = owned(u.as_str());
                    m.append(" is already configured");
                    Err(m)
                },
                None => Ok(u),
            },
        };
        match checked {
            Err(e) => {
                if let ServerPopupMode::Add(form) = &mut self.mode {
                    form.error = Some(e);
                    form.field = ServerFormField::Url;
                }
                ServerPopupOutcome::Stay
            },
            Ok(u) => {
                let secret = if secret_text.unicode_len() == 0 {
                    None
                } else {
                    Some(secret_text)
                };
                ServerPopupOutcome::SaveNew(Server { url: u, secret, kind })
            },
        }
    }
}

/// Submitting the form: a URL that does not check out (see
/// [`form_url_check`]) puts the error on the form and the cursor on the URL
/// field; a good one asks to save the server, with the secret as
/// [`form_secret`] reads it and the kind chosen.
pub open spec fn submitted(old: ServerSwitchPopup, new: ServerSwitchPopup, r: ServerPopupOutcome) -> bool {
    match old.mode {
        ServerPopupMode::Add(form) => match form_url_check(old.servers@, form.url@) {
            Err(e) => {
                &&& r == ServerPopupOutcome::Stay
                &&& new == (ServerSwitchPopup { mode: new.mode, ..old })
                &&& new.mode matches ServerPopupMode::Add(nf)
                &&& nf == (ServerForm { error: nf.error, field: ServerFormField::Url, ..form })
                &&& nf.error matches Some(m)
                &&& m@ == e
            },
            Ok(u) => {
                &&& new == old
                &&& r matches ServerPopupOutcome::SaveNew(s) && s.url@ == u && s.kind == form.kind
                    && match (s.secret, form_secret(form.secret@)) {
                    (Some(a), Some(b)) => a@ == b,
                    (None, None) => true,
                    _ => false,
                }
            },
        },
        _ => false,
    }
}

/// The text a key types into the form field `field`: the URL or secret
/// field of `form`, with `code` applied; the kind field takes no text.
pub open spec fn typed(form: ServerForm, field_text: Seq<char>, mods: u8, code: KeyCode) -> Seq<char> {
    match code {
        KeyCode::Char(c) => if mods == 2 && c == 'u' {
            Seq::empty()
        } else if mods == 0 || mods == 1 {
            field_text.push(c)
        } else {
            field_text
        },
        KeyCode::Backspace => if field_text.len() > 0 {
            field_text.drop_last()
        } else {
            field_text
        },
        _ => field_text,
    }
}

impl ServerSwitchPopup {
    /// Any other key in the switcher. In the list, `a` opens an empty form
    /// and `d` asks to confirm the deletion of the server under the cursor,
    /// unless it is the one in use, which is refused with a message. In the
    /// form, Tab moves to the next field, space on the kind field flips the
    /// kind, and on the URL and secret fields characters are typed,
    /// Backspace deletes one and control-u empties the field.
    pub fn char_key(&mut self, event: KeyEvent)
        requires
            switcher_wf(*old(self)),
        ensures
            switcher_wf(*final(self)),
            match old(self).mode {
                ServerPopupMode::List => match event.code {
                    KeyCode::Char('a') => {
                        &&& *final(self) == (ServerSwitchPopup { message: None, mode: final(self).mode, ..*old(self) })
                        &&& final(self).mode matches ServerPopupMode::Add(f)
                        &&& f.url@.len() == 0 && f.secret@.len() == 0
                        &&& f.kind == ControllerKind::Mihomo
                        &&& f.field == ServerFormField::Url && f.error is None
                    },
                    KeyCode::Char('d') => if old(self).servers@.len() == 0 {
                        *final(self) == *old(self)
                    } else if old(self).active matches Some(a) && a@ == old(self).servers@[old(self).index as int].url@ {
                        &&& *final(self) == (ServerSwitchPopup { message: final(self).message, ..*old(self) })
                        &&& final(self).message matches Some(m)
                        &&& m@ == "Cannot delete the active server, switch away first"@
                    } else {
                        *final(self) == (ServerSwitchPopup { message: None, mode: ServerPopupMode::ConfirmDelete, ..*old(self) })
                    },
                    _ => *final(self) == *old(self),
                },
                ServerPopupMode::ConfirmDelete => *final(self) == *old(self),
                ServerPopupMode::Add(form) => {
                    &&& *final(self) == (ServerSwitchPopup { mode: final(self).mode, ..*old(self) })
                    &&& final(self).mode matches ServerPopupMode::Add(nf)
                    &&& if event.code is Tab {
                        nf == (ServerForm { field: next_field(form.field), ..form })
                    } else if form.field == ServerFormField::Kind {
                        if event.code == KeyCode::Char(' ') {
                            nf == (ServerForm { kind: other_kind(form.kind), ..form })
                        } else {
                            nf == form
                        }
                    } else if form.field == ServerFormField::Url {
                        nf.url@ == typed(form, form.url@, event.modifiers.bits, event.code)
                            && nf == (ServerForm { url: nf.url, ..form })
                    } else {
                        nf.secret@ == typed(form, form.secret@, event.modifiers.bits, event.code)
                            && nf == (ServerForm { secret: nf.secret, ..form })
                    }
                },
            },
    {
        match &mut self.mode {
            ServerPopupMode::List => match event.code {
                KeyCode::Char('a') => {
                    self.message = None;
                    self.mode = ServerPopupMode::Add(ServerForm::new());
                },
                KeyCode::Char('d') => {
                    if self.servers.len() == 0 {
                        return ;
                    }
                    let same = match &self.active {
                        Some(a) => str_eq(a.as_str(), self.servers[self.index].url.as_str()),
                        None => false,
                    };
                    if same {
                        self.message = Some(owned("Cannot delete the active server, switch away first"));
                    } else {
                        self.message = None;
                        self.mode = ServerPopupMode::ConfirmDelete;
                    }
                },
                _ => {},
            },
            ServerPopupMode::ConfirmDelete => {},
            ServerPopupMode::Add(form) => {
                let m = event.modifiers.bits;
                if event.code == KeyCode::Tab {
                    form.field = form.field.next();
                } else if form.field == ServerFormField::Kind {
                    if event.code == KeyCode::Char(' ') {
                        form.kind = flip_kind(form.kind);
                    }
                } else {
                    let input = if form.field == ServerFormField::Url {
                        &mut form.url
                    } else {
                        &mut form.secret
                    };
                    match event.code {
                        KeyCode::Char(c) => {
                            if m == 2 && c == 'u' {
                                *input = String::new();
                            } else if m == 0 || m == 1 {
                                push_char(input, c);
                            }
                        },
                        KeyCode::Backspace => {
                            let _ = pop_char(input);
                        },
                        _ => {},
                    }
                }
            },
        }
    }

    /// After a new server was saved, or failed to be: on success it is
    /// listed last, the list is shown and says `Added <url>`; on failure the
    /// form shows the error.
    pub fn finish_add(&mut self, server: Server, result: Result<(), String>)
        requires
            switcher_wf(*old(self)),
            old(self).mode is Add,
        ensures
            switcher_wf(*final(self)),
            added(*old(self), *final(self), server, result),
    {
        match result {
            Ok(()) => {
                self.message = Some(concat("Added ", server.url.as_str()));
                self.servers.push(server);
                self.mode = ServerPopupMode::List;
            },
            Err(e) => {
                if let ServerPopupMode::Add(form) = &mut self.mode {
                    form.error = Some(e);
                }
            },
        }
    }

    /// After the server under the cursor was removed from the configuration,
    /// or failed to be: on success it leaves the list, the cursor stays on
    /// the same row or the last one, and the list says `Removed <url>`; on
    /// failure the list shows the error.
    pub fn finish_delete(&mut self, url: &str, result: Result<(), String>)
        requires
            switcher_wf(*old(self)),
            old(self).servers@.len() > 0,
        ensures
            switcher_wf(*final(self)),
            deleted(*old(self), *final(self), url@, result),
    {
        match result {
            Err(e) => {
                self.message = Some(e);
                self.mode = ServerPopupMode::List;
            },
            Ok(()) => {
                let _ = self.servers.remove(self.index);
                if self.index >= self.servers.len() {
                    self.index = if self.servers.len() > 0 {
                        self.servers.len() - 1
                    } else {
                        0
                    };
                }
                self.message = Some(concat("Removed ", url));
                self.mode = ServerPopupMode::List;
            },
        }
    }
}

/// The row of a server in the switcher: an arrow before the server in use,
/// its kind in a column of 8 and its address.
pub open spec fn server_row(s: Server, active: Option<String>) -> Seq<char> {
    let in_use = match active {
        Some(a) => a@ == s.url@,
        None => false,
    };
    (if in_use {
        "\u{2192} "@
    } else {
        "  "@
    }) + pad_end(kind_name(s.kind), 8) + s.url@
}

/// The keys the server list answers to.
pub open spec fn list_help() -> Seq<char> {
    "\u{2191}/\u{2193} select | Enter switch | a add | d delete | Esc close"@
}

/// The keys the server form answers to.
pub open spec fn form_help() -> Seq<char> {
    "Tab/\u{2191}/\u{2193} switch field | \u{25c0}/\u{25b6} toggle kind | Enter save | Esc back"@
}

/// The block cursor after the field being edited.
pub open spec fn cursor_mark(form: ServerForm, f: ServerFormField) -> Seq<char> {
    if form.field == f {
        "\u{2588}"@
    } else {
        ""@
    }
}

/// The lines of the server form: the address, the secret as one `*` for
/// each of its characters, the kind between arrows, an empty line, the
/// error if any, and the keys.
pub open spec fn form_lines(form: ServerForm) -> Seq<Seq<char>> {
    let head = seq![
        "URL:    "@ + form.url@ + cursor_mark(form, ServerFormField::Url),
        "Secret: "@ + repeated('*', form.secret@.len()) + cursor_mark(form, ServerFormField::Secret),
        "Kind:   \u{25c0} "@ + kind_name(form.kind) + " \u{25b6}"@,
        Seq::<char>::empty(),
    ];
    (match form.error {
        Some(e) => head.push(e@),
        None => head,
    }).push(form_help())
}

/// The lines of the server switcher: the form while a server is added;
/// otherwise a row for each server (a note when there is none), an empty
/// line, and either the question whether to delete the server under the
/// cursor or the last message and the keys.
pub open spec fn switcher_lines(p: ServerSwitchPopup) -> Seq<Seq<char>> {
    let rows = Seq::new(p.servers@.len(), |i: int| server_row(p.servers@[i], p.active));
    let listed = (if p.servers@.len() == 0 {
        rows.push("No servers configured"@)
    } else {
        rows
    }).push(Seq::<char>::empty());
    match p.mode {
        ServerPopupMode::Add(form) => form_lines(form),
        ServerPopupMode::ConfirmDelete => listed.push("Delete "@ + p.servers@[p.index as int].url@ + " ?"@).push(
            "Enter confirm | Esc cancel"@,
        ),
        ServerPopupMode::List => (match p.message {
            Some(m) => listed.push(m@),
            None => listed,
        }).push(list_help()),
    }
}

/// The text of each line.
pub open spec fn line_views(lines: Seq<String>) -> Seq<Seq<char>> {
    lines.map_values(|l: String| l@)
}

/// A vector of lines with one more line at the end.
fn push_line(lines: &mut Vec<String>, line: String)
    ensures
        line_views(final(lines)@) == line_views(old(lines)@).push(line@),
{
    lines.push(line);
    assert(line_views(lines@) =~= line_views(old(lines)@).push(line@));
}

/// The row of a server; see [`server_row`].
fn server_row_text(s: &Server, active: &Option<String>) -> (r: String)
    ensures
        r@ == server_row(*s, *active),
{
    let in_use = match active {
        Some(a) => str_eq(a.as_str(), s.url.as_str()),
        None => false,
    };
    let mut r = if in_use {
        "\u{2192} ".to_owned()
    } else {
        "  ".to_owned()
    };
    r.append(pad_right(s.kind.as_str(), 8).as_str());
    r.append(s.url.as_str());
    r
}

impl ServerForm {
    /// The lines of the form; see [`form_lines`].
    pub fn lines(&self) -> (r: Vec<String>)
        ensures
            line_views(r@) == form_lines(*self),
    {
        let mut lines: Vec<String> = Vec::new();
        let mut url = concat("URL:    ", self.url.as_str());
        if self.field == ServerFormField::Url {
            url.append("\u{2588}");
        }
        push_line(&mut lines, url);
        let mut secret = "Secret: ".to_owned();
        let mut i: usize = 0;
        let n = self.secret.unicode_len();
        while i < n
            invariant
                i <= n,
                n == self.secret@.len(),
                secret@ == "Secret: "@ + repeated('*', i as nat),
            decreases n - i,
        {
            push_char(&mut secret, '*');
            assert(secret@ =~= "Secret: "@ + repeated('*', (i + 1) as nat));
            i = i + 1;
        }
        if self.field == ServerFormField::Secret {
            secret.append("\u{2588}");
        }
        push_line(&mut lines, secret);
        let mut kind = concat("Kind:   \u{25c0} ", self.kind.as_str());
        kind.append(" \u{25b6}");
        push_line(&mut lines, kind);
        push_line(&mut lines, String::new());
        if let Some(e) = &self.error {
            push_line(&mut lines, e.clone());
        }
        push_line(&mut lines, "Tab/\u{2191}/\u{2193} switch field | \u{25c0}/\u{25b6} toggle kind | Enter save | Esc back".to_owned());
        proof {
            reveal_strlit("");
            assert(""@ =~= Seq::<char>::empty());
            let head = seq![
                "URL:    "@ + self.url@ + cursor_mark(*self, ServerFormField::Url),
                "Secret: "@ + repeated('*', self.secret@.len()) + cursor_mark(*self, ServerFormField::Secret),
                "Kind:   \u{25c0} "@ + kind_name(self.kind) + " \u{25b6}"@,
                Seq::<char>::empty(),
            ];
            assert(line_views(lines@) =~= (match self.error {
                Some(e) => head.push(e@),
                None => head,
            }).push(form_help()));
        }
        lines
    }
}

impl ServerSwitchPopup {
    /// The lines of the switcher; see [`switcher_lines`].
    pub fn lines(&self) -> (r: Vec<String>)
        requires
            switcher_wf(*self),
        ensures
            line_views(r@) == switcher_lines(*self),
    {
        if let ServerPopupMode::Add(form) = &self.mode {
            return form.lines();
        }
        let mut lines: Vec<String> = Vec::new();
        let mut i: usize = 0;
        while i < self.servers.len()
            invariant
                i <= self.servers@.len(),
                line_views(lines@) == Seq::new(i as nat, |k: int| server_row(self.servers@[k], self.active)),
            decreases self.servers@.len() - i,
        {
            let row = server_row_text(&self.servers[i], &self.active);
            push_line(&mut lines, row);
            assert(line_views(lines@) =~= Seq::new((i + 1) as nat, |k: int| server_row(self.servers@[k], self.active)));
            i = i + 1;
        }
        if self.servers.len() == 0 {
            push_line(&mut lines, "No servers configured".to_owned());
        }
        push_line(&mut lines, String::new());
        match &self.mode {
            ServerPopupMode::ConfirmDelete => {
                let mut q = concat("Delete ", self.servers[self.index].url.as_str());
                q.append(" ?");
                push_line(&mut lines, q);
                push_line(&mut lines, "Enter confirm | Esc cancel".to_owned());
            },
            _ => {
                if let Some(m) = &self.message {
                    push_line(&mut lines, m.clone());
                }
                push_line(&mut lines, "\u{2191}/\u{2193} select | Enter switch | a add | d delete | Esc close".to_owned());
            },
        }
        lines
    }
}

/// The form never shows the secret: two forms that differ only in their
/// secret, with secrets of the same length, show the same lines.
pub proof fn form_hides_the_secret(a: ServerForm, b: ServerForm)
    requires
        a.url@ == b.url@,
        a.kind == b.kind,
        a.field == b.field,
        a.error == b.error,
        a.secret@.len() == b.secret@.len(),
    ensures
        form_lines(a) == form_lines(b),
{
    assert(form_lines(a) =~= form_lines(b));
}

} // verus!
