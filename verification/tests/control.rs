use zestty::control::Command;
use zestty::control::ControlMachine;
use zestty::control::ControlState;
use zestty::control::Effect;
use zestty::control::Event;
use zestty::control::SwitchArgs;
use zestty::control::SwitchRequest;
use zestty::control::execute_command;
use zestty::environment::ClientDescriptor;
use zestty::environment::SessionDescriptor;
use zestty::environment::resolve_client;
use zestty::environment::resolve_session;
use zestty::history::SessionHistory;

fn session(name: &str, is_current: bool) -> SessionDescriptor {
    SessionDescriptor { name: name.to_owned(), is_current }
}

fn client(client_id: u16, is_current: bool) -> ClientDescriptor {
    ClientDescriptor { client_id, is_current }
}

fn session_snapshot(current: &str) -> Event {
    Event::SessionsUpdated(vec![session("other", false), session(current, true)])
}

fn client_snapshot(current: u16) -> Event {
    Event::ClientsUpdated(vec![client(9, false), client(current, true)])
}

#[test]
fn resolver_takes_the_flagged_session() {
    let found = resolve_session(vec![session("a", false), session("b", true), session("c", false)]);
    assert_eq!(found, Some("b".to_owned()));
}

#[test]
fn resolver_returns_nothing_when_no_session_is_flagged() {
    assert_eq!(resolve_session(vec![session("a", false), session("b", false)]), None);
    assert_eq!(resolve_session(Vec::new()), None);
}

#[test]
fn resolver_takes_the_last_flagged_session() {
    let found = resolve_session(vec![session("a", true), session("b", true)]);
    assert_eq!(found, Some("b".to_owned()));
}

#[test]
fn resolver_takes_the_flagged_client() {
    assert_eq!(resolve_client(vec![client(1, false), client(7, true)]), Some(7));
    assert_eq!(resolve_client(vec![client(1, false)]), None);
    assert_eq!(resolve_client(vec![client(1, true), client(2, true)]), Some(2));
}

#[test]
fn events_are_buffered_until_the_permission_decision() {
    let mut m = ControlMachine::new();
    assert_eq!(m.on_event(session_snapshot("alpha")), Vec::new());
    assert_eq!(m.on_event(client_snapshot(7)), Vec::new());
    assert_eq!(m.state, ControlState::AwaitingPermission);
    assert_eq!(m.buffered_events.len(), 2);
    assert_eq!(m.session_name, None);
    assert_eq!(m.client_id, None);
}

#[test]
fn grant_hides_the_surface_and_replays_buffered_events_in_order() {
    let mut m = ControlMachine::new();
    m.on_event(session_snapshot("alpha"));
    m.on_event(client_snapshot(7));
    let effects = m.on_event(Event::PermissionGranted);
    assert_eq!(effects, vec![Effect::HideSurface, Effect::RequestClientList]);
    assert_eq!(m.state, ControlState::Ready);
    assert_eq!(m.buffered_events.len(), 0);
    assert_eq!(m.session_name, Some("alpha".to_owned()));
    assert_eq!(m.client_id, Some(7));
}

#[test]
fn denial_discards_buffered_events_and_requests_closure_once() {
    let mut m = ControlMachine::new();
    m.on_event(session_snapshot("alpha"));
    m.on_event(client_snapshot(7));
    m.on_event(Event::Other);
    assert_eq!(m.buffered_events.len(), 3);
    let effects = m.on_event(Event::PermissionDenied);
    assert_eq!(effects, vec![Effect::CloseSurface]);
    assert_eq!(m.state, ControlState::Denied);
    assert_eq!(m.buffered_events.len(), 0);
    // None of the buffered events was handled: nothing was resolved and no
    // client list was requested.
    assert_eq!(m.session_name, None);
    assert_eq!(m.client_id, None);
    // Later events are discarded without any further effect.
    assert_eq!(m.on_event(session_snapshot("alpha")), Vec::new());
    assert_eq!(m.on_event(Event::PermissionGranted), Vec::new());
    assert_eq!(m.state, ControlState::Denied);
}

#[test]
fn denial_after_grant_is_still_honored() {
    let mut m = ControlMachine::new();
    m.on_event(Event::PermissionGranted);
    assert_eq!(m.state, ControlState::Ready);
    let effects = m.on_event(Event::PermissionDenied);
    assert_eq!(effects, vec![Effect::CloseSurface]);
    assert_eq!(m.state, ControlState::Denied);
}

#[test]
fn command_waits_until_both_identities_are_resolved() {
    let mut m = ControlMachine::new();
    assert_eq!(m.on_event(Event::PermissionGranted), vec![Effect::HideSurface]);
    assert_eq!(m.on_command(Command::PreviousSession), Vec::new());
    assert!(m.pending_command.is_some());
    // The session snapshot resolves the name and asks for clients; still no
    // dispatch, since the client is unknown.
    let effects = m.on_event(session_snapshot("alpha"));
    assert_eq!(effects, vec![Effect::RequestClientList]);
    assert!(m.pending_command.is_some());
    // The client snapshot completes the preconditions: the command goes out.
    let effects = m.on_event(client_snapshot(7));
    assert_eq!(
        effects,
        vec![Effect::Dispatch {
            command: Command::PreviousSession,
            session: "alpha".to_owned(),
            client: 7,
        }],
    );
    assert_eq!(m.pending_command, None);
}

#[test]
fn identities_may_resolve_in_either_order_with_the_same_dispatch() {
    let mut m = ControlMachine::new();
    m.on_event(Event::PermissionGranted);
    m.on_command(Command::NextSession);
    // Clients resolve first; a later session snapshot invalidates the client
    // identifier again, so the dispatch waits for the refreshed list.
    assert_eq!(m.on_event(client_snapshot(3)), Vec::new());
    assert_eq!(m.on_event(session_snapshot("beta")), vec![Effect::RequestClientList]);
    assert_eq!(m.client_id, None);
    assert!(m.pending_command.is_some());
    let effects = m.on_event(client_snapshot(3));
    assert_eq!(
        effects,
        vec![Effect::Dispatch {
            command: Command::NextSession,
            session: "beta".to_owned(),
            client: 3,
        }],
    );
    assert_eq!(m.pending_command, None);
}

#[test]
fn a_newer_command_overwrites_the_pending_one() {
    let mut m = ControlMachine::new();
    m.on_event(Event::PermissionGranted);
    m.on_command(Command::PreviousSession);
    m.on_command(Command::NextSession);
    m.on_event(session_snapshot("alpha"));
    let effects = m.on_event(client_snapshot(1));
    assert_eq!(
        effects,
        vec![Effect::Dispatch {
            command: Command::NextSession,
            session: "alpha".to_owned(),
            client: 1,
        }],
    );
}

#[test]
fn command_dispatches_at_once_when_already_resolved() {
    let mut m = ControlMachine::new();
    m.on_event(Event::PermissionGranted);
    m.on_event(session_snapshot("alpha"));
    m.on_event(client_snapshot(7));
    let effects = m.on_command(Command::PreviousSession);
    assert_eq!(
        effects,
        vec![Effect::Dispatch {
            command: Command::PreviousSession,
            session: "alpha".to_owned(),
            client: 7,
        }],
    );
}

#[test]
fn buffered_events_can_complete_a_pending_command_on_grant() {
    let mut m = ControlMachine::new();
    m.on_command(Command::PreviousSession);
    m.on_event(session_snapshot("alpha"));
    m.on_event(client_snapshot(7));
    let effects = m.on_event(Event::PermissionGranted);
    assert_eq!(
        effects,
        vec![
            Effect::HideSurface,
            Effect::RequestClientList,
            Effect::Dispatch {
                command: Command::PreviousSession,
                session: "alpha".to_owned(),
                client: 7,
            },
        ],
    );
}

#[test]
fn switch_command_resets_then_records_the_session_being_left() {
    // Entries ["A", "B", "C"] with the cursor on "B", as after one backward
    // step from "C".
    let mut h = SessionHistory::new();
    h.push("A".to_owned());
    h.push("B".to_owned());
    assert_eq!(h.prev("C".to_owned()), Some("B".to_owned()));
    let request = execute_command(
        Command::Switch(SwitchArgs { name: Some("D".to_owned()), path: None, layout: None }),
        "B".to_owned(),
        &mut h,
    );
    let (entries, cursor) = h.parts();
    assert_eq!(entries, vec!["A".to_owned(), "B".to_owned()]);
    assert_eq!(cursor, None);
    assert_eq!(
        request,
        Some(SwitchRequest::WithLayout {
            name: Some("D".to_owned()),
            layout: "default".to_owned(),
            cwd: None,
        }),
    );
}

#[test]
fn switch_command_passes_layout_and_path_through() {
    let mut h = SessionHistory::new();
    let request = execute_command(
        Command::Switch(SwitchArgs {
            name: None,
            path: Some("/work".to_owned()),
            layout: Some("compact".to_owned()),
        }),
        "home".to_owned(),
        &mut h,
    );
    assert_eq!(h.parts().0, vec!["home".to_owned()]);
    assert_eq!(
        request,
        Some(SwitchRequest::WithLayout {
            name: None,
            layout: "compact".to_owned(),
            cwd: Some("/work".to_owned()),
        }),
    );
}

#[test]
fn previous_session_command_switches_to_the_entry_behind() {
    let mut h = SessionHistory::new();
    h.push("A".to_owned());
    let request = execute_command(Command::PreviousSession, "B".to_owned(), &mut h);
    assert_eq!(request, Some(SwitchRequest::ByName { name: "A".to_owned() }));
    let (entries, cursor) = h.parts();
    assert_eq!(entries, vec!["A".to_owned(), "B".to_owned()]);
    assert_eq!(cursor, Some(0));
}

#[test]
fn previous_session_command_with_empty_history_asks_for_nothing() {
    let mut h = SessionHistory::new();
    let request = execute_command(Command::PreviousSession, "B".to_owned(), &mut h);
    assert_eq!(request, None);
    assert_eq!(h.parts().0, Vec::<String>::new());
}

#[test]
fn next_session_command_switches_to_the_entry_ahead() {
    let mut h = SessionHistory::new();
    h.push("A".to_owned());
    assert_eq!(h.prev("B".to_owned()), Some("A".to_owned()));
    let request = execute_command(Command::NextSession, "A".to_owned(), &mut h);
    assert_eq!(request, Some(SwitchRequest::ByName { name: "B".to_owned() }));
    assert_eq!(h.parts().1, Some(1));
}

#[test]
fn next_session_command_without_navigation_asks_for_nothing() {
    let mut h = SessionHistory::new();
    h.push("A".to_owned());
    let request = execute_command(Command::NextSession, "B".to_owned(), &mut h);
    assert_eq!(request, None);
    let (entries, cursor) = h.parts();
    assert_eq!(entries, vec!["A".to_owned()]);
    assert_eq!(cursor, None);
}

#[test]
fn snapshot_without_a_flagged_entry_keeps_the_old_identity() {
    let mut m = ControlMachine::new();
    m.on_event(Event::PermissionGranted);
    m.on_event(session_snapshot("alpha"));
    m.on_event(client_snapshot(7));
    // A snapshot in which nothing is flagged leaves the resolved name alone.
    let effects = m.on_event(Event::SessionsUpdated(vec![session("alpha", false)]));
    assert_eq!(effects, vec![Effect::RequestClientList]);
    assert_eq!(m.session_name, Some("alpha".to_owned()));
    // But a session snapshot always invalidates the client identifier.
    assert_eq!(m.client_id, None);
    let effects = m.on_event(Event::ClientsUpdated(vec![client(9, false)]));
    assert_eq!(effects, Vec::new());
    assert_eq!(m.client_id, None);
}
