//! Decisions of the connection supervisor: finding the controller by name,
//! connecting with retry, and restarting the session after a failure. The
//! radio stack and the waits are driven by the caller, which performs each
//! action and reports what came of it as the next event.

use vstd::prelude::*;

verus! {

/// The name under which the controller advertises itself.
pub const WIIMOTE_NAME: &'static str = "Nintendo RVL-CNT-01";

/// Wait between two connection attempts, and around a session, in milliseconds.
pub const RETRY_MS: u64 = 1000;

/// Whether `name` is the controller's advertised name.
pub fn is_wiimote_name(name: &String) -> (r: bool)
    ensures
        r == (name@ == WIIMOTE_NAME@),
{
    let wanted = String::from_str(WIIMOTE_NAME);
    *name == wanted
}

/// Whether the known device of that name (if it has one) is the controller.
pub open spec fn names_wiimote(name: Option<String>) -> bool {
    name matches Some(n) && n@ == WIIMOTE_NAME@
}

/// The index of the first device, among those the radio stack already knows,
/// whose name is the controller's.
pub fn find_wiimote(names: &Vec<Option<String>>) -> (r: Option<usize>)
    ensures
        r matches Some(i) ==> i < names@.len() && names_wiimote(names@[i as int]) && forall|j: int|
            0 <= j < i ==> !names_wiimote(#[trigger] names@[j]),
        r is None ==> forall|j: int| 0 <= j < names@.len() ==> !names_wiimote(#[trigger] names@[j]),
{
    let mut i: usize = 0;
    while i < names.len()
        invariant
            i <= names@.len(),
            forall|j: int| 0 <= j < i ==> !names_wiimote(#[trigger] names@[j]),
        decreases names@.len() - i,
    {
        match &names[i] {
            Some(n) => {
                if is_wiimote_name(n) {
                    return Some(i);
                }
            },
            None => {},
        }
        i = i + 1;
    }
    None
}

/// Where the supervisor stands.
#[derive(Clone, Copy, Debug, PartialEq, Eq, Structural)]
pub enum Phase {
    /// The controller's identity is not known yet; the known devices are being listed.
    Unresolved,
    /// Live discovery runs until the controller shows up.
    Discovering,
    /// The identity is known; the link state is being asked for.
    Resolved,
    /// A connection attempt is under way.
    Connecting,
    /// A connection attempt failed; waiting before the next.
    RetryWait,
    /// The link is up; waiting before the session starts.
    Connected,
    /// The blocking session with the device runs.
    Running,
    /// The session failed; waiting before reconnecting.
    Disconnected,
    /// The session completed; nothing more to do.
    Done,
    /// Discovery ended without finding the controller; this is fatal.
    Exhausted,
}

/// What the caller reports back.
#[derive(Clone, Copy, Debug, PartialEq, Eq, Structural)]
pub enum Event {
    /// The known devices were listed; `found` if one bears the controller's name.
    KnownListed { found: bool },
    /// Discovery surfaced a device; `matches` if it bears the controller's name.
    Discovered { matches: bool },
    /// The discovery event stream ended.
    StreamEnded,
    /// The link state of the controller, as the radio stack reports it.
    LinkState { connected: bool },
    /// A connection attempt failed.
    ConnectFailed,
    /// A connection attempt succeeded.
    ConnectSucceeded,
    /// A requested wait is over.
    Waited,
    /// The session returned; `completed` if it ended without error.
    SessionEnded { completed: bool },
}

/// What the caller is to do next.
#[derive(Clone, Copy, Debug, PartialEq, Eq, Structural)]
pub enum Action {
    /// List the devices the radio stack already knows.
    ListKnown,
    /// Start discovery and report the next discovery event.
    StartDiscovery,
    /// Report the next discovery event.
    NextEvent,
    /// Ask for the controller's link state, stopping discovery first if asked.
    QueryLink { stop_discovery: bool },
    /// Try to connect.
    Connect,
    /// Wait this many milliseconds.
    Wait { ms: u64 },
    /// Open the device and run the session until it returns.
    RunSession,
    /// Stop: the session completed.
    Finish,
    /// Stop: the controller could not be found.
    Abort,
    /// The event does not belong to this phase; nothing to do.
    Ignore,
}

/// The supervisor's rule: the phase it moves to and the action it asks for.
pub open spec fn transition(p: Phase, e: Event) -> (Phase, Action) {
    match (p, e) {
        (Phase::Unresolved, Event::KnownListed { found }) => if found {
            (Phase::Resolved, Action::QueryLink { stop_discovery: false })
        } else {
            (Phase::Discovering, Action::StartDiscovery)
        },
        (Phase::Discovering, Event::Discovered { matches }) => if matches {
            (Phase::Resolved, Action::QueryLink { stop_discovery: true })
        } else {
            (Phase::Discovering, Action::NextEvent)
        },
        (Phase::Discovering, Event::StreamEnded) => (Phase::Exhausted, Action::Abort),
        (Phase::Resolved, Event::LinkState { connected }) => if connected {
            (Phase::Connected, Action::Wait { ms: RETRY_MS })
        } else {
            (Phase::Connecting, Action::Connect)
        },
        (Phase::Connecting, Event::ConnectSucceeded) => (Phase::Connected, Action::Wait { ms: RETRY_MS }),
        (Phase::Connecting, Event::ConnectFailed) => (Phase::RetryWait, Action::Wait { ms: RETRY_MS }),
        (Phase::RetryWait, Event::Waited) => (Phase::Connecting, Action::Connect),
        (Phase::Connected, Event::Waited) => (Phase::Running, Action::RunSession),
        (Phase::Running, Event::SessionEnded { completed }) => if completed {
            (Phase::Done, Action::Finish)
        } else {
            (Phase::Disconnected, Action::Wait { ms: RETRY_MS })
        },
        (Phase::Disconnected, Event::Waited) => (Phase::Resolved, Action::QueryLink { stop_discovery: false }),
        _ => (p, Action::Ignore),
    }
}

/// The phase the supervisor starts in, and its first action.
pub fn start() -> (r: (Phase, Action))
    ensures
        r == (Phase::Unresolved, Action::ListKnown),
{
    (Phase::Unresolved, Action::ListKnown)
}

/// One step of the supervisor.
pub fn step(p: Phase, e: Event) -> (r: (Phase, Action))
    ensures
        r == transition(p, e),
{
    match (p, e) {
        (Phase::Unresolved, Event::KnownListed { found }) => if found {
            (Phase::Resolved, Action::QueryLink { stop_discovery: false })
        } else {
            (Phase::Discovering, Action::StartDiscovery)
        },
        (Phase::Discovering, Event::Discovered { matches }) => if matches {
            (Phase::Resolved, Action::QueryLink { stop_discovery: true })
        } else {
            (Phase::Discovering, Action::NextEvent)
        },
        (Phase::Discovering, Event::StreamEnded) => (Phase::Exhausted, Action::Abort),
        (Phase::Resolved, Event::LinkState { connected }) => if connected {
            (Phase::Connected, Action::Wait { ms: RETRY_MS })
        } else {
            (Phase::Connecting, Action::Connect)
        },
        (Phase::Connecting, Event::ConnectSucceeded) => (Phase::Connected, Action::Wait { ms: RETRY_MS }),
        (Phase::Connecting, Event::ConnectFailed) => (Phase::RetryWait, Action::Wait { ms: RETRY_MS }),
        (Phase::RetryWait, Event::Waited) => (Phase::Connecting, Action::Connect),
        (Phase::Connected, Event::Waited) => (Phase::Running, Action::RunSession),
        (Phase::Running, Event::SessionEnded { completed }) => if completed {
            (Phase::Done, Action::Finish)
        } else {
            (Phase::Disconnected, Action::Wait { ms: RETRY_MS })
        },
        (Phase::Disconnected, Event::Waited) => (Phase::Resolved, Action::QueryLink { stop_discovery: false }),
        _ => (p, Action::Ignore),
    }
}

/// The supervisor stops only in two ways: the session completed, or discovery
/// ended without finding the controller. No failed connection or session stops it.
pub proof fn lemma_stops_only_on_completion_or_exhaustion(p: Phase, e: Event)
    ensures
        ({
            let (q, a) = transition(p, e);
            &&& (a == Action::Finish) ==> p == Phase::Running && e == (Event::SessionEnded { completed: true })
            &&& (a == Action::Abort) ==> p == Phase::Discovering && e == Event::StreamEnded
        }),
{
}

} // verus!
