//! The control state machine around command dispatch.
//!
//! Host events arrive one at a time. Until the permission decision is known
//! they are buffered; a grant replays them in arrival order, a denial is
//! terminal and discards everything. A command is held (at most one, last
//! write wins) until both the current session name and the current client
//! identifier are resolved; the dispatch itself, and every other outward
//! action, is handed to the caller as an [`Effect`] value, so the machine
//! stays a pure transformation of in-memory state.
use vstd::prelude::*;

use crate::environment::ClientDescriptor;
use crate::environment::SessionDescriptor;
use crate::environment::current_client_of;
use crate::environment::current_session_of;
use crate::environment::resolve_client;
use crate::environment::resolve_session;
use crate::history::SessionHistory;
use crate::history::next_step;
use crate::history::prev_step;
use crate::history::truncate_step;

verus! {

/// Arguments of a switch command: all optional, the target session's name,
/// its working directory, and a layout reference.
#[derive(Debug, PartialEq, Eq)]
pub struct SwitchArgs {
    pub name: Option<String>,
    pub path: Option<String>,
    pub layout: Option<String>,
}

/// A command arriving over the control pipe.
#[derive(Debug, PartialEq, Eq)]
pub enum Command {
    /// Switch to a named session, recording the one being left.
    Switch(SwitchArgs),
    /// Navigate backward through the session history.
    PreviousSession,
    /// Navigate forward through the session history.
    NextSession,
}

/// A host event, reduced to what the machine reads of it.
#[derive(Debug, PartialEq, Eq)]
pub enum Event {
    /// The host granted the requested permissions.
    PermissionGranted,
    /// The host denied the requested permissions.
    PermissionDenied,
    /// A fresh snapshot of every known session.
    SessionsUpdated(Vec<SessionDescriptor>),
    /// A fresh snapshot of every known client.
    ClientsUpdated(Vec<ClientDescriptor>),
    /// Any event the machine does not read.
    Other,
}

/// The permission gate: starts awaiting, then ready or denied.
#[derive(Debug, Clone, Copy, PartialEq, Eq)]
pub enum ControlState {
    /// No permission decision has arrived yet; events are buffered.
    AwaitingPermission,
    /// Permission was granted; events are handled as they arrive.
    Ready,
    /// Permission was denied; terminal, everything is discarded.
    Denied,
}

/// An outward action the caller must perform on the machine's behalf.
#[derive(Debug, PartialEq, Eq)]
pub enum Effect {
    /// Hide the interaction surface and make it unselectable.
    HideSurface,
    /// Ask the host for a fresh client list.
    RequestClientList,
    /// Close the interaction surface.
    CloseSurface,
    /// Run `command` under the resolved session and client: load the history
    /// stored under `client`, execute the command against it, save it back,
    /// and close the surface.
    Dispatch { command: Command, session: String, client: u16 },
}

/// The switch a dispatched command asks for, if any.
#[derive(Debug, PartialEq, Eq)]
pub enum SwitchRequest {
    /// A full switch: optional target name and working directory, and the
    /// layout to apply.
    WithLayout { name: Option<String>, layout: String, cwd: Option<String> },
    /// A plain switch to a session navigated to by name.
    ByName { name: String },
}

/// One dispatch attempt: exactly when the session name, the client
/// identifier and a pending command are all present, the command is released
/// as a `Dispatch` effect and is no longer pending; otherwise nothing
/// happens.
pub open spec fn dispatch_step(
    session: Option<String>,
    client: Option<u16>,
    pending: Option<Command>,
) -> (Option<Command>, Seq<Effect>) {
    if session is Some && client is Some && pending is Some {
        (
            None::<Command>,
            seq![
                Effect::Dispatch { command: pending->0, session: session->0, client: client->0 },
            ],
        )
    } else {
        (pending, Seq::<Effect>::empty())
    }
}

/// How one event is handled once permission is granted, over the resolved
/// session, the resolved client and the pending command. A session snapshot
/// re-resolves the session name, invalidates the client identifier and asks
/// for a fresh client list; a client snapshot re-resolves the client
/// identifier; a resolver that finds nothing leaves the old value. After any
/// event a dispatch is attempted.
pub open spec fn ready_event_step(
    session: Option<String>,
    client: Option<u16>,
    pending: Option<Command>,
    event: Event,
) -> (Option<String>, Option<u16>, Option<Command>, Seq<Effect>) {
    match event {
        Event::SessionsUpdated(sessions) => {
            let session1 = match current_session_of(sessions@) {
                Some(name) => Some(name),
                None => session,
            };
            let (pending1, effects) = dispatch_step(session1, None::<u16>, pending);
            (session1, None::<u16>, pending1, seq![Effect::RequestClientList] + effects)
        },
        Event::ClientsUpdated(clients) => {
            let client1 = match current_client_of(clients@) {
                Some(id) => Some(id),
                None => client,
            };
            let (pending1, effects) = dispatch_step(session, client1, pending);
            (session, client1, pending1, effects)
        },
        _ => {
            let (pending1, effects) = dispatch_step(session, client, pending);
            (session, client, pending1, effects)
        },
    }
}

/// The events buffered while the permission decision was pending, replayed
/// in arrival order through `ready_event_step`, with the emitted effects in
/// the same order.
pub open spec fn replay_steps(
    session: Option<String>,
    client: Option<u16>,
    pending: Option<Command>,
    events: Seq<Event>,
) -> (Option<String>, Option<u16>, Option<Command>, Seq<Effect>)
    decreases events.len(),
{
    if events.len() == 0 {
        (session, client, pending, Seq::<Effect>::empty())
    } else {
        let (s1, c1, p1, first_effects) = ready_event_step(session, client, pending, events.first());
        let (s2, c2, p2, rest_effects) = replay_steps(s1, c1, p1, events.drop_first());
        (s2, c2, p2, first_effects + rest_effects)
    }
}

/// The control state machine: the permission gate, the events buffered while
/// it was open, the at-most-one pending command, and the two identities a
/// dispatch waits for.
#[derive(Debug)]
pub struct ControlMachine {
    /// Where the permission gate stands.
    pub state: ControlState,
    /// Events received before the permission decision, in arrival order.
    pub buffered_events: Vec<Event>,
    /// The command awaiting dispatch, if any; a newer one overwrites it.
    pub pending_command: Option<Command>,
    /// The current session's name, once a snapshot resolved it.
    pub session_name: Option<String>,
    /// The current client's identifier, once a snapshot resolved it.
    pub client_id: Option<u16>,
}

impl ControlMachine {
    /// The initial state: awaiting the permission decision, nothing
    /// buffered, nothing resolved.
    pub fn new() -> (r: ControlMachine)
        ensures
            r.state is AwaitingPermission,
            r.buffered_events@ == Seq::<Event>::empty(),
            r.pending_command is None,
            r.session_name is None,
            r.client_id is None,
    {
        ControlMachine {
            state: ControlState::AwaitingPermission,
            buffered_events: Vec::new(),
            pending_command: None,
            session_name: None,
            client_id: None,
        }
    }

    /// A denial, honored from any state: the machine becomes terminal, every
    /// buffered event, pending command and resolved identity is discarded,
    /// and closure of the surface is requested.
    fn deny(&mut self) -> (effects: Vec<Effect>)
        ensures
            final(self).state is Denied,
            final(self).buffered_events@ == Seq::<Event>::empty(),
            final(self).pending_command is None,
            final(self).session_name is None,
            final(self).client_id is None,
            effects@ == seq![Effect::CloseSurface],
    {
        self.state = ControlState::Denied;
        self.buffered_events = Vec::new();
        self.pending_command = None;
        self.session_name = None;
        self.client_id = None;
        let mut effects: Vec<Effect> = Vec::new();
        effects.push(Effect::CloseSurface);
        effects
    }

    /// Release the pending command as a `Dispatch` effect if both identities
    /// are resolved, exactly as `dispatch_step` states it.
    fn attempt_dispatch(&mut self) -> (effects: Vec<Effect>)
        ensures
            final(self).state == old(self).state,
            final(self).buffered_events@ == old(self).buffered_events@,
            final(self).session_name == old(self).session_name,
            final(self).client_id == old(self).client_id,
            ({
                let (pending1, effs) = dispatch_step(
                    old(self).session_name,
                    old(self).client_id,
                    old(self).pending_command,
                );
                final(self).pending_command == pending1 && effects@ == effs
            }),
    {
        let mut effects: Vec<Effect> = Vec::new();
        if self.session_name.is_some() && self.client_id.is_some()
            && self.pending_command.is_some() {
            let command = self.pending_command.take().unwrap();
            let session = self.session_name.as_ref().unwrap().clone();
            let client = self.client_id.unwrap();
            effects.push(Effect::Dispatch { command, session, client });
        }
        effects
    }

    /// Handle one event while the machine is ready: `ready_event_step` gives
    /// the new state and the effects; `state` and `buffered_events` stay put.
    fn handle_ready_event(&mut self, event: Event) -> (effects: Vec<Effect>)
        ensures
            final(self).state == old(self).state,
            final(self).buffered_events@ == old(self).buffered_events@,
            ({
                let (s1, c1, p1, effs) = ready_event_step(
                    old(self).session_name,
                    old(self).client_id,
                    old(self).pending_command,
                    event,
                );
                &&& final(self).session_name == s1
                &&& final(self).client_id == c1
                &&& final(self).pending_command == p1
                &&& effects@ == effs
            }),
    {
        let mut effects: Vec<Effect> = Vec::new();
        match event {
            Event::SessionsUpdated(sessions) => {
                if let Some(name) = resolve_session(sessions) {
                    self.session_name = Some(name);
                }
                self.client_id = None;
                effects.push(Effect::RequestClientList);
            },
            Event::ClientsUpdated(clients) => {
                if let Some(id) = resolve_client(clients) {
                    self.client_id = Some(id);
                }
            },
            _ => {},
        }
        let mut more = self.attempt_dispatch();
        effects.append(&mut more);
        effects
    }

    /// Feed one host event through the machine and collect the outward
    /// actions it asks for, in order.
    ///
    /// A denial is honored from any state and is terminal. A grant while
    /// awaiting hides the surface and replays the buffered events in arrival
    /// order, draining them exactly once. Any other event is buffered while
    /// awaiting, handled at once when ready, and discarded when denied.
    pub fn on_event(&mut self, event: Event) -> (effects: Vec<Effect>)
        ensures
            event is PermissionDenied ==> final(self).state is Denied
                && final(self).buffered_events@ == Seq::<Event>::empty()
                && final(self).pending_command is None
                && final(self).session_name is None
                && final(self).client_id is None
                && effects@ == seq![Effect::CloseSurface],
            old(self).state is AwaitingPermission && event is PermissionGranted ==> ({
                let (s, c, p, replayed) = replay_steps(
                    old(self).session_name,
                    old(self).client_id,
                    old(self).pending_command,
                    old(self).buffered_events@,
                );
                &&& final(self).state is Ready
                &&& final(self).buffered_events@ == Seq::<Event>::empty()
                &&& final(self).session_name == s
                &&& final(self).client_id == c
                &&& final(self).pending_command == p
                &&& effects@ == seq![Effect::HideSurface] + replayed
            }),
            old(self).state is AwaitingPermission && !(event is PermissionGranted) && !(event
                is PermissionDenied) ==> final(self).state == old(self).state
                && final(self).buffered_events@ == old(self).buffered_events@.push(event)
                && final(self).pending_command == old(self).pending_command
                && final(self).session_name == old(self).session_name
                && final(self).client_id == old(self).client_id
                && effects@ == Seq::<Effect>::empty(),
            old(self).state is Ready && !(event is PermissionDenied) ==> ({
                let (s1, c1, p1, effs) = ready_event_step(
                    old(self).session_name,
                    old(self).client_id,
                    old(self).pending_command,
                    event,
                );
                &&& final(self).state is Ready
                &&& final(self).buffered_events@ == old(self).buffered_events@
                &&& final(self).session_name == s1
                &&& final(self).client_id == c1
                &&& final(self).pending_command == p1
                &&& effects@ == effs
            }),
            old(self).state is Denied && !(event is PermissionDenied) ==> *final(self) == *old(
                self,
            ) && effects@ == Seq::<Effect>::empty(),
    {
        match self.state {
            ControlState::AwaitingPermission => {
                match event {
                    Event::PermissionDenied => self.deny(),
                    Event::PermissionGranted => {
                        self.state = ControlState::Ready;
                        let mut effects: Vec<Effect> = Vec::new();
                        effects.push(Effect::HideSurface);
                        while self.buffered_events.len() > 0
                            invariant
                                self.state is Ready,
                                ({
                                    let (s1, c1, p1, remaining_effects) = replay_steps(
                                        self.session_name,
                                        self.client_id,
                                        self.pending_command,
                                        self.buffered_events@,
                                    );
                                    let (s0, c0, p0, all_effects) = replay_steps(
                                        old(self).session_name,
                                        old(self).client_id,
                                        old(self).pending_command,
                                        old(self).buffered_events@,
                                    );
                                    &&& s1 == s0
                                    &&& c1 == c0
                                    &&& p1 == p0
                                    &&& effects@ + remaining_effects == seq![Effect::HideSurface]
                                        + all_effects
                                }),
                            decreases self.buffered_events@.len(),
                        {
                            let ghost remaining = self.buffered_events@;
                            let buffered = self.buffered_events.remove(0);
                            proof {
                                assert(remaining.remove(0) =~= remaining.drop_first());
                            }
                            let mut more = self.handle_ready_event(buffered);
                            effects.append(&mut more);
                        }
                        proof {
                            assert(effects@ + Seq::<Effect>::empty() =~= effects@);
                        }
                        effects
                    },
                    _ => {
                        self.buffered_events.push(event);
                        Vec::new()
                    },
                }
            },
            ControlState::Ready => {
                match event {
                    Event::PermissionDenied => self.deny(),
                    _ => self.handle_ready_event(event),
                }
            },
            ControlState::Denied => {
                match event {
                    Event::PermissionDenied => self.deny(),
                    _ => Vec::new(),
                }
            },
        }
    }

    /// Take in a command arriving over the control pipe: it replaces any
    /// command still pending (last write wins) and a dispatch is attempted
    /// at once, exactly as `dispatch_step` states it.
    pub fn on_command(&mut self, command: Command) -> (effects: Vec<Effect>)
        ensures
            final(self).state == old(self).state,
            final(self).buffered_events@ == old(self).buffered_events@,
            final(self).session_name == old(self).session_name,
            final(self).client_id == old(self).client_id,
            ({
                let (pending1, effs) = dispatch_step(
                    old(self).session_name,
                    old(self).client_id,
                    Some(command),
                );
                final(self).pending_command == pending1 && effects@ == effs
            }),
    {
        self.pending_command = Some(command);
        self.attempt_dispatch()
    }
}

/// Run a dispatched command against the history loaded for the client: a
/// switch first discards the forward part of the history and records the
/// session being left, then asks for the switch with the given layout or the
/// default one; the two navigation commands move through the history and ask
/// for a plain switch when there is somewhere to go.
pub fn execute_command(command: Command, current_session: String, history: &mut SessionHistory)
    -> (r: Option<SwitchRequest>)
    requires
        old(history).wf(),
    ensures
        final(history).wf(),
        command matches Command::Switch(args) ==> ({
            let (stack1, head1) = truncate_step(old(history).entries(), old(history).cursor());
            &&& final(history).entries() == stack1.push(current_session)
            &&& final(history).cursor() == head1
            &&& final(history).cursor() is None
            &&& r matches Some(req) && (req matches SwitchRequest::WithLayout {
                name,
                layout,
                cwd,
            } && name == args.name && cwd == args.path && (args.layout matches Some(l) ==> layout
                == l) && (args.layout is None ==> layout@ == "default"@))
        }),
        command is PreviousSession ==> ({
            let (stack1, head1, target) = prev_step(
                old(history).entries(),
                old(history).cursor(),
                current_session,
            );
            &&& final(history).entries() == stack1
            &&& final(history).cursor() == head1
            &&& r == match target {
                Some(name) => Some((SwitchRequest::ByName { name })),
                None => None::<SwitchRequest>,
            }
        }),
        command is NextSession ==> ({
            let (stack1, head1, target) = next_step(
                old(history).entries(),
                old(history).cursor(),
            );
            &&& final(history).entries() == stack1
            &&& final(history).cursor() == head1
            &&& r == match target {
                Some(name) => Some((SwitchRequest::ByName { name })),
                None => None::<SwitchRequest>,
            }
        }),
{
    match command {
        Command::Switch(args) => {
            history.truncate();
            history.push(current_session);
            let layout = match args.layout {
                Some(l) => l,
                None => "default".to_owned(),
            };
            Some(SwitchRequest::WithLayout { name: args.name, layout, cwd: args.path })
        },
        Command::PreviousSession => {
            match history.prev(current_session) {
                Some(name) => Some(SwitchRequest::ByName { name }),
                None => None,
            }
        },
        Command::NextSession => {
            match history.next() {
                Some(name) => Some(SwitchRequest::ByName { name }),
                None => None,
            }
        },
    }
}

/// Law: a dispatch happens exactly when a command is pending and both the
/// session name and the client identifier are resolved; the dispatch carries
/// exactly that command and those identities, and the command is then no
/// longer pending. Short of that, nothing is emitted and the command stays
/// pending.
pub proof fn lemma_dispatch_gated_on_resolution(
    session: Option<String>,
    client: Option<u16>,
    pending: Option<Command>,
)
    ensures
        ({
            let (pending1, effs) = dispatch_step(session, client, pending);
            &&& (effs.len() > 0 <==> session is Some && client is Some && pending is Some)
            &&& (effs.len() > 0 ==> effs == seq![
                (Effect::Dispatch { command: pending->0, session: session->0, client: client->0 }),
            ] && pending1 is None)
            &&& (effs.len() == 0 ==> pending1 == pending)
        }),
{
}

/// Law: the two identities may resolve in either order; no command is
/// dispatched before both are known, and the dispatch that then happens is
/// the same either way: one `RequestClientList`, then one `Dispatch` with
/// the pending command, the snapshot's current session and the snapshot's
/// current client.
pub proof fn lemma_dispatch_order_independent(
    command: Command,
    sessions: Vec<SessionDescriptor>,
    clients: Vec<ClientDescriptor>,
)
    requires
        current_session_of(sessions@) is Some,
        current_client_of(clients@) is Some,
    ensures
        ({
            let session_first = replay_steps(
                None::<String>,
                None::<u16>,
                Some(command),
                seq![Event::SessionsUpdated(sessions), Event::ClientsUpdated(clients)],
            );
            let client_first = replay_steps(
                None::<String>,
                None::<u16>,
                Some(command),
                seq![
                    Event::ClientsUpdated(clients),
                    Event::SessionsUpdated(sessions),
                    Event::ClientsUpdated(clients),
                ],
            );
            let dispatched = seq![
                Effect::RequestClientList,
                (Effect::Dispatch {
                    command,
                    session: current_session_of(sessions@)->0,
                    client: current_client_of(clients@)->0,
                }),
            ];
            &&& session_first.3 == dispatched
            &&& client_first.3 == dispatched
            &&& session_first.2 is None
            &&& client_first.2 is None
        }),
{
    let events2 = seq![Event::SessionsUpdated(sessions), Event::ClientsUpdated(clients)];
    let events3 = seq![
        Event::ClientsUpdated(clients),
        Event::SessionsUpdated(sessions),
        Event::ClientsUpdated(clients),
    ];
    let dispatched = seq![
        Effect::RequestClientList,
        (Effect::Dispatch {
            command,
            session: current_session_of(sessions@)->0,
            client: current_client_of(clients@)->0,
        }),
    ];
    reveal_with_fuel(replay_steps, 4);
    assert(events2.drop_first() =~= seq![Event::ClientsUpdated(clients)]);
    assert(seq![Event::ClientsUpdated(clients)].drop_first() =~= Seq::<Event>::empty());
    assert(events3.drop_first() =~= events2);
    assert(replay_steps(None::<String>, None::<u16>, Some(command), events2).3 =~= dispatched);
    assert(replay_steps(None::<String>, None::<u16>, Some(command), events3).3 =~= dispatched);
}

} // verus!
