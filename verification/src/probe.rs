use vstd::prelude::*;
use vstd::utf8::{decode_utf8, valid_utf8};

use crate::text::str_eq;

verus! {

/// Why a status probe failed. Every failure is terminal for the current
/// request: there is no retry.
#[derive(Clone, Copy, Debug, PartialEq, Eq, Structural)]
pub enum ProbeError {
    /// The status subcommand could not be spawned.
    Spawn,
    /// The subcommand's output was not valid UTF-8.
    Decode,
    /// The output was not a conforming status document.
    Parse,
}

/// The health state the mesh-network client reports for its backend.
#[derive(Debug)]
pub enum BackendState {
    Running,
    Starting,
    Stopped,
    /// Any state string other than the three known ones, kept verbatim.
    Other(String),
}

/// Whether a backend state is the one the given state string denotes.
pub open spec fn state_matches(b: BackendState, t: Seq<char>) -> bool {
    match b {
        BackendState::Running => t == "Running"@,
        BackendState::Starting => t == "Starting"@,
        BackendState::Stopped => t == "Stopped"@,
        BackendState::Other(s) => s@ == t && t != "Running"@ && t != "Starting"@ && t != "Stopped"@,
    }
}

/// The state string a backend state denotes.
pub open spec fn state_text_spec(b: BackendState) -> Seq<char> {
    match b {
        BackendState::Running => "Running"@,
        BackendState::Starting => "Starting"@,
        BackendState::Stopped => "Stopped"@,
        BackendState::Other(s) => s@,
    }
}

/// The backend state denoted by a state string. Unknown strings are kept
/// verbatim, and turning the state back into text recovers them exactly.
pub fn parse_backend_state(t: &str) -> (b: BackendState)
    ensures
        state_matches(b, t@),
        state_text_spec(b) == t@,
{
    if str_eq(t, "Running") {
        BackendState::Running
    } else if str_eq(t, "Starting") {
        BackendState::Starting
    } else if str_eq(t, "Stopped") {
        BackendState::Stopped
    } else {
        BackendState::Other(t.to_owned())
    }
}

/// The connectivity snapshot one status probe yields: the backend's health
/// state and the addresses assigned to this host, first address first.
pub struct NetworkSnapshot {
    pub backend_state: BackendState,
    pub assigned_addresses: Vec<String>,
}

/// The "BackendState" entry of the given JSON text: the string under that
/// top-level key, when the text is a JSON document that carries one.
pub uninterp spec fn json_backend_state_of(text: Seq<char>) -> Option<Seq<char>>;

/// The "TailscaleIPs" entries of the given JSON text: the strings in the
/// array under that top-level key, when the text is a JSON document that
/// carries an array of strings there.
pub uninterp spec fn json_addresses_of(text: Seq<char>) -> Option<Seq<Seq<char>>>;

/// Relies on serde_json::from_str and serde_json::Value::{get, as_str}:
/// which string a JSON document carries under its top-level "BackendState"
/// key depends on the text alone.
#[verifier::external_body]
fn json_backend_state(text: &str) -> (r: Option<String>)
    ensures
        (match r {
            Some(b) => json_backend_state_of(text@) == Some(b@),
            None => json_backend_state_of(text@) is None,
        }),
{
    let v: serde_json::Value = serde_json::from_str(text).ok()?;
    Some(v.get("BackendState")?.as_str()?.to_owned())
}

/// Relies on serde_json::from_str and serde_json::Value::{get, as_array,
/// as_str}: which strings a JSON document carries in the array under its
/// top-level "TailscaleIPs" key depends on the text alone.
#[verifier::external_body]
fn json_addresses(text: &str) -> (r: Option<Vec<String>>)
    ensures
        (match r {
            Some(a) => json_addresses_of(text@) == Some(a.deep_view()),
            None => json_addresses_of(text@) is None,
        }),
{
    let v: serde_json::Value = serde_json::from_str(text).ok()?;
    let items = v.get("TailscaleIPs")?.as_array()?;
    items.iter().map(|x| x.as_str().map(str::to_owned)).collect()
}

/// Relies on String::from_utf8: it succeeds exactly on valid UTF-8 and
/// returns the text those bytes encode.
#[verifier::external_body]
fn utf8_to_text(bytes: Vec<u8>) -> (r: Option<String>)
    ensures
        (match r {
            Some(s) => valid_utf8(bytes@) && s@ == decode_utf8(bytes@),
            None => !valid_utf8(bytes@),
        }),
{
    String::from_utf8(bytes).ok()
}

/// Whether a status document parses: both required fields are present and of
/// the required shape. An empty address array still parses; emptiness is a
/// rendering failure, not a parse failure.
pub open spec fn snapshot_parses(text: Seq<char>) -> bool {
    json_backend_state_of(text) is Some && json_addresses_of(text) is Some
}

/// Whether a snapshot is the one the given status document describes.
pub open spec fn snapshot_matches(snap: NetworkSnapshot, text: Seq<char>) -> bool {
    &&& (json_backend_state_of(text) matches Some(b) && state_matches(snap.backend_state, b))
    &&& (json_addresses_of(text) matches Some(a) && snap.assigned_addresses.deep_view() == a)
}

/// Parse a status document into a snapshot. Exactly the documents that carry
/// a top-level "BackendState" string and a top-level "TailscaleIPs" array of
/// strings parse; every other text is a parse error.
pub fn parse_snapshot(text: &str) -> (r: Result<NetworkSnapshot, ProbeError>)
    ensures
        (match r {
            Ok(snap) => snapshot_parses(text@) && snapshot_matches(snap, text@),
            Err(e) => e == ProbeError::Parse && !snapshot_parses(text@),
        }),
{
    let state_str = match json_backend_state(text) {
        Some(b) => b,
        None => {
            return Err(ProbeError::Parse);
        },
    };
    let addresses = match json_addresses(text) {
        Some(a) => a,
        None => {
            return Err(ProbeError::Parse);
        },
    };
    Ok(
        NetworkSnapshot {
            backend_state: parse_backend_state(state_str.as_str()),
            assigned_addresses: addresses,
        },
    )
}

/// Decode a probe's raw standard output and parse it: non-UTF-8 bytes are a
/// decode error, and a UTF-8 text that is no conforming status document is a
/// parse error.
pub fn snapshot_from_bytes(bytes: Vec<u8>) -> (r: Result<NetworkSnapshot, ProbeError>)
    ensures
        (match r {
            Ok(snap) => valid_utf8(bytes@) && snapshot_parses(decode_utf8(bytes@))
                && snapshot_matches(snap, decode_utf8(bytes@)),
            Err(ProbeError::Decode) => !valid_utf8(bytes@),
            Err(ProbeError::Parse) => valid_utf8(bytes@) && !snapshot_parses(decode_utf8(bytes@)),
            Err(ProbeError::Spawn) => false,
        }),
{
    let text = match utf8_to_text(bytes) {
        Some(s) => s,
        None => {
            return Err(ProbeError::Decode);
        },
    };
    parse_snapshot(text.as_str())
}

} // verus!
