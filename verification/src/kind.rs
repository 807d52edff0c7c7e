//! Which controller a server runs: plain Clash or Mihomo.

use vstd::prelude::*;

use crate::json::{json_get, parse_json_text, parsed, JsonValue};
use crate::text::{ascii_lower, contains_spec, str_contains, str_eq, to_ascii_lowercase};

verus! {

/// The kind of external controller a server runs.
#[derive(Debug, Clone, Copy, PartialEq, Eq, Structural)]
pub enum ControllerKind {
    Clash,
    Mihomo,
}

/// The name a kind is stored and shown under.
pub open spec fn kind_name(kind: ControllerKind) -> Seq<char> {
    match kind {
        ControllerKind::Clash => "clash"@,
        ControllerKind::Mihomo => "mihomo"@,
    }
}

/// What the `/version` answer `body` says about the controller kind: an
/// object that mentions "mihomo" in any letter case, or whose `meta` member is
/// `true`, comes from Mihomo; any other object with a `version` member comes
/// from Clash; anything else tells nothing.
pub open spec fn detected_kind(body: Seq<char>) -> Option<ControllerKind> {
    match parsed(body) {
        Some(value) => if value is Object {
            if contains_spec(ascii_lower(body), "mihomo"@) || json_get(value, "meta"@) == Some(
                JsonValue::Bool(true),
            ) {
                Some(ControllerKind::Mihomo)
            } else if json_get(value, "version"@) is Some {
                Some(ControllerKind::Clash)
            } else {
                None
            }
        } else {
            None
        },
        None => None,
    }
}

impl ControllerKind {
    /// Reads the controller kind from the body of a `/version` answer.
    pub fn detect_from_version_body(body: &str) -> (r: Option<ControllerKind>)
        ensures
            r == detected_kind(body@),
    {
        let value = match parse_json_text(body) {
            Ok(value) => value,
            Err(_) => return None,
        };
        if !value.is_object() {
            return None;
        }
        let lower = to_ascii_lowercase(body);
        let meta = match value.get("meta") {
            Some(m) => match m.as_bool() {
                Some(b) => b,
                None => false,
            },
            None => false,
        };
        if str_contains(lower.as_str(), "mihomo") || meta {
            return Some(ControllerKind::Mihomo);
        }
        match value.get("version") {
            Some(_) => Some(ControllerKind::Clash),
            None => None,
        }
    }

    /// The name of the kind, as stored in the configuration.
    pub fn as_str(self) -> (r: &'static str)
        ensures
            r@ == kind_name(self),
    {
        match self {
            ControllerKind::Clash => "clash",
            ControllerKind::Mihomo => "mihomo",
        }
    }
}

impl Default for ControllerKind {
    /// Servers stored without a kind are Mihomo servers.
    fn default() -> (r: Self)
        ensures
            r == ControllerKind::Mihomo,
    {
        ControllerKind::Mihomo
    }
}

/// The kinds offered when a server is added, in the order shown.
pub fn controller_kind_choices() -> (r: [&'static str; 2])
    ensures
        r@[0]@ == "mihomo"@,
        r@[1]@ == "clash"@,
{
    [ControllerKind::Mihomo.as_str(), ControllerKind::Clash.as_str()]
}

/// Position in [`controller_kind_choices`] that is preselected: the detected
/// kind, or Mihomo when nothing was detected.
pub fn controller_kind_default_index(detected: Option<ControllerKind>) -> (r: usize)
    ensures
        r == choice_index(detected),
{
    let kind = match detected {
        Some(kind) => kind,
        None => ControllerKind::Mihomo,
    };
    match kind {
        ControllerKind::Mihomo => 0,
        ControllerKind::Clash => 1,
    }
}

/// The kind a chosen entry stands for: "clash" is Clash, anything else Mihomo.
pub fn controller_kind_from_choice(choice: &str) -> (r: ControllerKind)
    ensures
        r == kind_of_choice(choice@),
{
    if str_eq(choice, "clash") {
        ControllerKind::Clash
    } else {
        ControllerKind::Mihomo
    }
}

/// The subcommands that manage the stored servers.
#[derive(Debug, Clone, Copy, PartialEq, Eq, Structural)]
pub enum ServerSubcommand {
    /// Add a new server.
    Add,
    /// Select the active server.
    Use,
    /// Show the stored servers and the active one.
    List,
    /// Remove servers.
    Del,
}

/// Position of `kind` among the choices "mihomo", "clash".
pub open spec fn choice_index(detected: Option<ControllerKind>) -> int {
    match detected {
        Some(ControllerKind::Clash) => 1,
        _ => 0,
    }
}

/// The kind a chosen name stands for.
pub open spec fn kind_of_choice(choice: Seq<char>) -> ControllerKind {
    if choice == "clash"@ {
        ControllerKind::Clash
    } else {
        ControllerKind::Mihomo
    }
}

/// The preselected choice reads back as the detected kind, and as Mihomo
/// when nothing was detected.
pub proof fn default_choice_reads_back(detected: Option<ControllerKind>)
    ensures
        kind_of_choice(seq!["mihomo"@, "clash"@][choice_index(detected)]) == (match detected {
            Some(k) => k,
            None => ControllerKind::Mihomo,
        }),
{
    reveal_strlit("clash");
    reveal_strlit("mihomo");
    assert("clash"@.len() != "mihomo"@.len());
}

/// Every kind's stored name reads back as that kind.
pub proof fn kind_name_reads_back(kind: ControllerKind)
    ensures
        kind_of_choice(kind_name(kind)) == kind,
{
    reveal_strlit("clash");
    reveal_strlit("mihomo");
    assert("clash"@.len() != "mihomo"@.len());
}

} // verus!
