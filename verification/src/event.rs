//! Keys, list events and the actions the interface asks the worker for.

use vstd::prelude::*;

use crate::api::{ApiOperation, ApiParams};
use crate::model::Mode;

verus! {

/// The key of a key press, as far as the interface tells keys apart.
#[derive(Debug, Clone, Copy, PartialEq, Eq, Structural)]
pub enum KeyCode {
    Left,
    Right,
    Up,
    Down,
    Enter,
    Esc,
    Tab,
    Backspace,
    Char(char),
    /// Any other key.
    Other,
}

/// The modifier keys held during a key press, as the bits of a terminal key
/// event: shift `1`, control `2`, alt `4`, and higher bits for the rest.
#[derive(Debug, Clone, Copy, PartialEq, Eq, Structural)]
pub struct KeyModifiers {
    pub bits: u8,
}

impl KeyModifiers {
    pub fn none() -> (r: KeyModifiers)
        ensures
            r.bits == 0,
    {
        KeyModifiers { bits: 0 }
    }

    pub fn shift() -> (r: KeyModifiers)
        ensures
            r.bits == 1,
    {
        KeyModifiers { bits: 1 }
    }

    pub fn control() -> (r: KeyModifiers)
        ensures
            r.bits == 2,
    {
        KeyModifiers { bits: 2 }
    }

    pub fn alt() -> (r: KeyModifiers)
        ensures
            r.bits == 4,
    {
        KeyModifiers { bits: 4 }
    }
}

/// A key press.
#[derive(Debug, Clone, Copy, PartialEq, Eq, Structural)]
pub struct KeyEvent {
    pub code: KeyCode,
    pub modifiers: KeyModifiers,
}

/// A movement key sent to the focused list; `fast` when control or shift was
/// held.
#[derive(Debug, Clone, Copy, PartialEq, Eq, Structural)]
pub struct ListEvent {
    pub fast: bool,
    pub code: KeyCode,
}

/// A key press, read as a request of the user.
#[derive(Debug, Clone, Copy, PartialEq, Eq, Structural)]
pub enum InputEvent {
    Esc,
    TabGoto(u8),
    ToggleDebug,
    ToggleHold,
    List(ListEvent),
    TestLatency,
    TestLatencyAll,
    NextSort,
    PrevSort,
    Other(KeyEvent),
}

/// A key press read as an event of the interface: leave, or an input.
#[derive(Debug, Clone, Copy, PartialEq, Eq, Structural)]
pub enum KeyInput {
    Quit,
    Input(InputEvent),
}

/// How a key press is read: control-c leaves, control-d toggles the debug
/// page, Esc is Esc whatever is held, arrows and Enter move the focused list
/// (fast when exactly control or exactly shift is held), alt-s goes to the
/// previous sort, and every other key is passed on as it is.
pub open spec fn key_input(key: KeyEvent) -> KeyInput {
    let m = key.modifiers.bits;
    if m == 2 && key.code == KeyCode::Char('c') {
        KeyInput::Quit
    } else if m == 2 && key.code == KeyCode::Char('d') {
        KeyInput::Input(InputEvent::ToggleDebug)
    } else if key.code == KeyCode::Esc {
        KeyInput::Input(InputEvent::Esc)
    } else if key.code is Left || key.code is Right || key.code is Up || key.code is Down
        || key.code is Enter {
        KeyInput::Input(InputEvent::List(ListEvent { fast: m == 2 || m == 1, code: key.code }))
    } else if m == 4 && key.code == KeyCode::Char('s') {
        KeyInput::Input(InputEvent::PrevSort)
    } else {
        KeyInput::Input(InputEvent::Other(key))
    }
}

/// Reads a key press; see [`key_input`].
pub fn key_input_of(key: KeyEvent) -> (r: KeyInput)
    ensures
        r == key_input(key),
{
    let m = key.modifiers.bits;
    match key.code {
        KeyCode::Char('c') if m == 2 => KeyInput::Quit,
        KeyCode::Char('d') if m == 2 => KeyInput::Input(InputEvent::ToggleDebug),
        KeyCode::Esc => KeyInput::Input(InputEvent::Esc),
        KeyCode::Left | KeyCode::Right | KeyCode::Up | KeyCode::Down | KeyCode::Enter => {
            KeyInput::Input(InputEvent::List(ListEvent { fast: m == 2 || m == 1, code: key.code }))
        },
        KeyCode::Char('s') if m == 4 => KeyInput::Input(InputEvent::PrevSort),
        _ => KeyInput::Input(InputEvent::Other(key)),
    }
}

/// The value of an ASCII digit character.
pub open spec fn digit_value(c: char) -> u8 {
    ((c as u32) - ('0' as u32)) as u8
}

/// How a bare key code is read where only a few keys mean something: `q` and
/// `x` leave, `t` tests latency, Esc is Esc, space holds the list, and a digit
/// goes to that tab; other keys mean nothing.
pub open spec fn key_code_input(code: KeyCode) -> Option<KeyInput> {
    match code {
        KeyCode::Char(c) => if c == 'q' || c == 'x' {
            Some(KeyInput::Quit)
        } else if c == 't' {
            Some(KeyInput::Input(InputEvent::TestLatency))
        } else if c == ' ' {
            Some(KeyInput::Input(InputEvent::ToggleHold))
        } else if '0' <= c && c <= '9' {
            Some(KeyInput::Input(InputEvent::TabGoto(digit_value(c))))
        } else {
            None
        },
        KeyCode::Esc => Some(KeyInput::Input(InputEvent::Esc)),
        _ => None,
    }
}

/// Reads a bare key code; see [`key_code_input`].
pub fn key_code_input_of(code: KeyCode) -> (r: Option<KeyInput>)
    ensures
        r == key_code_input(code),
{
    match code {
        KeyCode::Char(c) => {
            if c == 'q' || c == 'x' {
                Some(KeyInput::Quit)
            } else if c == 't' {
                Some(KeyInput::Input(InputEvent::TestLatency))
            } else if c == ' ' {
                Some(KeyInput::Input(InputEvent::ToggleHold))
            } else if '0' <= c && c <= '9' {
                let d: u8 = (c as u8) - 48u8;
                Some(KeyInput::Input(InputEvent::TabGoto(d)))
            } else {
                None
            }
        },
        KeyCode::Esc => Some(KeyInput::Input(InputEvent::Esc)),
        _ => None,
    }
}

/// What the interface asks the background worker to do.
#[derive(Debug, PartialEq, Eq)]
pub enum Action {
    TestLatency { proxies: Vec<String> },
    ApplySelection { group: String, proxy: String },
    SetMode { mode: Mode },
    FetchConfigs,
    ReloadConfigs,
    UpdateGeo,
    CloseConnection { id: String },
    CloseAllConnections,
    InvokeApi { operation: ApiOperation, params: ApiParams },
}

/// Two actions are the same: of the same kind with the same values, the
/// proxies to test being the same in the same order.
pub open spec fn same_action(a: Action, b: Action) -> bool {
    match (a, b) {
        (Action::TestLatency { proxies: p }, Action::TestLatency { proxies: q }) => p@ == q@,
        _ => a == b,
    }
}

impl Action {
    /// A copy of the action.
    pub fn duplicate(&self) -> (r: Action)
        ensures
            same_action(r, *self),
    {
        match self {
            Action::TestLatency { proxies } => {
                let mut copy: Vec<String> = Vec::new();
                let mut i: usize = 0;
                while i < proxies.len()
                    invariant
                        i <= proxies@.len(),
                        copy@ == proxies@.take(i as int),
                    decreases proxies@.len() - i,
                {
                    copy.push(proxies[i].clone());
                    assert(copy@ =~= proxies@.take(i + 1));
                    i = i + 1;
                }
                assert(copy@ =~= proxies@);
                Action::TestLatency { proxies: copy }
            },
            Action::ApplySelection { group, proxy } => Action::ApplySelection {
                group: group.clone(),
                proxy: proxy.clone(),
            },
            Action::SetMode { mode } => Action::SetMode { mode: *mode },
            Action::FetchConfigs => Action::FetchConfigs,
            Action::ReloadConfigs => Action::ReloadConfigs,
            Action::UpdateGeo => Action::UpdateGeo,
            Action::CloseConnection { id } => Action::CloseConnection { id: id.clone() },
            Action::CloseAllConnections => Action::CloseAllConnections,
            Action::InvokeApi { operation, params } => Action::InvokeApi {
                operation: *operation,
                params: params.copy(),
            },
        }
    }
}

} // verus!
