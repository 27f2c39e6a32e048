//! Resolution of the current session and client out of host-pushed snapshots.
//!
//! The host pushes two kinds of snapshot: every known session, each flagged
//! whether it is the current one, and every known client, flagged the same
//! way. The resolver extracts the flagged identifier, or nothing when no
//! entry is flagged; when several are flagged it takes the last one.
use vstd::prelude::*;

verus! {

/// One session in a host snapshot: its name and whether it is the session
/// the plugin runs under.
#[derive(Debug, PartialEq, Eq)]
pub struct SessionDescriptor {
    pub name: String,
    pub is_current: bool,
}

/// One client in a host snapshot: its identifier and whether it is the
/// client the plugin runs under.
#[derive(Debug, Clone, Copy, PartialEq, Eq)]
pub struct ClientDescriptor {
    pub client_id: u16,
    pub is_current: bool,
}

/// The name of the last session flagged current, or `None` when no entry is
/// flagged.
pub open spec fn current_session_of(sessions: Seq<SessionDescriptor>) -> Option<String>
    decreases sessions.len(),
{
    if sessions.len() == 0 {
        None::<String>
    } else if sessions.last().is_current {
        Some(sessions.last().name)
    } else {
        current_session_of(sessions.drop_last())
    }
}

/// The identifier of the last client flagged current, or `None` when no
/// entry is flagged.
pub open spec fn current_client_of(clients: Seq<ClientDescriptor>) -> Option<u16>
    decreases clients.len(),
{
    if clients.len() == 0 {
        None::<u16>
    } else if clients.last().is_current {
        Some(clients.last().client_id)
    } else {
        current_client_of(clients.drop_last())
    }
}

/// Extract the current session's name from a snapshot, or nothing when no
/// session is flagged current.
pub fn resolve_session(sessions: Vec<SessionDescriptor>) -> (r: Option<String>)
    ensures
        r == current_session_of(sessions@),
{
    let mut rest = sessions;
    while rest.len() > 0
        invariant
            current_session_of(rest@) == current_session_of(sessions@),
        decreases rest@.len(),
    {
        let descriptor = rest.pop().unwrap();
        if descriptor.is_current {
            return Some(descriptor.name);
        }
    }
    None
}

/// Extract the current client's identifier from a snapshot, or nothing when
/// no client is flagged current.
pub fn resolve_client(clients: Vec<ClientDescriptor>) -> (r: Option<u16>)
    ensures
        r == current_client_of(clients@),
{
    let mut rest = clients;
    while rest.len() > 0
        invariant
            current_client_of(rest@) == current_client_of(clients@),
        decreases rest@.len(),
    {
        let descriptor = rest.pop().unwrap();
        if descriptor.is_current {
            return Some(descriptor.client_id);
        }
    }
    None
}

} // verus!
