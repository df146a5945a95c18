use vstd::prelude::*;
use vstd::string::StringExecFns;

use crate::probe::{state_text_spec, BackendState, NetworkSnapshot};
use crate::profile::RenderError;
use crate::text::{escape_seq, xml_escape};

verus! {

/// The colour token the status summary shows for a backend state: green for
/// a running backend, yellow while it starts, red for a stopped backend and
/// for any state the summary does not know.
pub open spec fn color_spec(b: BackendState) -> Seq<char> {
    match b {
        BackendState::Running => "green"@,
        BackendState::Starting => "yellow"@,
        BackendState::Stopped => "red"@,
        BackendState::Other(_) => "red"@,
    }
}

/// The colour token the status summary shows for a backend state.
pub fn status_color(b: &BackendState) -> (r: &'static str)
    ensures
        r@ == color_spec(*b),
{
    match b {
        BackendState::Running => "green",
        BackendState::Starting => "yellow",
        BackendState::Stopped => "red",
        BackendState::Other(_) => "red",
    }
}

/// The state string a backend state denotes, as an owned string.
pub fn state_text(b: &BackendState) -> (r: String)
    ensures
        r@ == state_text_spec(*b),
{
    match b {
        BackendState::Running => "Running".to_owned(),
        BackendState::Starting => "Starting".to_owned(),
        BackendState::Stopped => "Stopped".to_owned(),
        BackendState::Other(s) => s.clone(),
    }
}

/// The status summary up to the colour token in its style rule.
pub const PAGE_HEAD: &'static str = "<style>\n.status { color: ";

/// The status summary between the colour token and the state string.
pub const PAGE_AFTER_COLOR: &'static str =
    "; }\n</style>\n<h1>dorsum</h1>\n<h3>tailscale</h3>\n<a href='/'>go back</a><br />\n<span>status - <span class='status'>";

/// The status summary between the state string and the address.
pub const PAGE_AFTER_STATE: &'static str = "</span></span><br />\n<span>ipv4 - ";

/// The end of the status summary, after the address.
pub const PAGE_TAIL: &'static str = "</span><br />\n";

/// The status-summary page for a backend state and a first address: the
/// page's fixed text around the colour token, the escaped state string and
/// the escaped address.
pub open spec fn status_page_spec(b: BackendState, addr: Seq<char>) -> Seq<char> {
    PAGE_HEAD@ + color_spec(b) + PAGE_AFTER_COLOR@ + escape_seq(state_text_spec(b))
        + PAGE_AFTER_STATE@ + escape_seq(addr) + PAGE_TAIL@
}

/// Render the status-summary page from a snapshot. Succeeds exactly when the
/// snapshot has an address.
pub fn status_page(snapshot: &NetworkSnapshot) -> (r: Result<String, RenderError>)
    ensures
        (match r {
            Ok(page) => snapshot.assigned_addresses@.len() > 0 && page@ == status_page_spec(
                snapshot.backend_state,
                snapshot.assigned_addresses@[0]@,
            ),
            Err(e) => e == RenderError::MissingAddress && snapshot.assigned_addresses@.len() == 0,
        }),
{
    if snapshot.assigned_addresses.len() == 0 {
        return Err(RenderError::MissingAddress);
    }
    let escaped_addr = xml_escape(snapshot.assigned_addresses[0].as_str());
    let state = state_text(&snapshot.backend_state);
    let escaped_state = xml_escape(state.as_str());
    let mut page = String::new();
    page.append(PAGE_HEAD);
    page.append(status_color(&snapshot.backend_state));
    page.append(PAGE_AFTER_COLOR);
    page.append(escaped_state.as_str());
    page.append(PAGE_AFTER_STATE);
    page.append(escaped_addr.as_str());
    page.append(PAGE_TAIL);
    proof {
        assert(page@ =~= status_page_spec(
            snapshot.backend_state,
            snapshot.assigned_addresses@[0]@,
        ));
    }
    Ok(page)
}

} // verus!
