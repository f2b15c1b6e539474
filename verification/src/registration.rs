//! Registration of this engine as a forwarding sink of the source store.
//!
//! At startup whatever sink an earlier run left under the engine's identity is
//! removed, then a fresh one is registered; at shutdown the sink is removed
//! again. The module decides which call comes next and what its outcome
//! means; the calls themselves are made by the caller.

use vstd::prelude::*;
use vstd::string::*;

verus! {

/// One call on the source store's registry of sinks.
#[derive(Clone, Debug, PartialEq, Eq)]
pub enum SinkCall {
    /// Remove the sink registered as `id`.
    Deregister { id: String },
    /// Register a sink as `id` that forwards to `address`.
    Register { id: String, address: String },
}

/// A sink call as contracts see it.
pub enum SinkCallView {
    Deregister { id: Seq<char> },
    Register { id: Seq<char>, address: Seq<char> },
}

impl View for SinkCall {
    type V = SinkCallView;

    open spec fn view(&self) -> SinkCallView {
        match self {
            SinkCall::Deregister { id } => SinkCallView::Deregister { id: id@ },
            SinkCall::Register { id, address } => SinkCallView::Register {
                id: id@,
                address: address@,
            },
        }
    }
}

/// How a sink call ended.
#[derive(Clone, Copy, Debug, PartialEq, Eq, Structural)]
pub enum CallOutcome {
    /// The store did what was asked.
    Done,
    /// The store knows no sink of that identity.
    NotFound,
    /// The call failed for any other reason.
    Failed,
}

/// What the registration is told.
#[derive(Clone, Copy, Debug, PartialEq, Eq, Structural)]
pub enum Signal {
    /// The engine starts.
    Start,
    /// The call that was asked for last has ended.
    Replied(CallOutcome),
    /// The process was told to terminate.
    Terminate,
}

/// What the caller is to do.
#[derive(Clone, Debug, PartialEq, Eq)]
pub enum Directive {
    /// Make this call and report how it ended.
    Call(SinkCall),
    /// Startup is complete: start the workers.
    Serve,
    /// Startup failed: end the process with a failure status.
    Abort,
    /// Shutdown is complete: end the process.
    Exit,
}

/// A directive as contracts see it.
pub enum DirectiveView {
    Call(SinkCallView),
    Serve,
    Abort,
    Exit,
}

impl View for Directive {
    type V = DirectiveView;

    open spec fn view(&self) -> DirectiveView {
        match self {
            Directive::Call(call) => DirectiveView::Call(call@),
            Directive::Serve => DirectiveView::Serve,
            Directive::Abort => DirectiveView::Abort,
            Directive::Exit => DirectiveView::Exit,
        }
    }
}

impl DeepView for Directive {
    type V = DirectiveView;

    open spec fn deep_view(&self) -> DirectiveView {
        self@
    }
}

/// Where the registration stands.
#[derive(Clone, Copy, Debug, PartialEq, Eq, Structural)]
pub enum Phase {
    /// Nothing has happened yet.
    Idle,
    /// The removal of an earlier sink is under way.
    Clearing,
    /// The registration of the fresh sink is under way.
    Registering,
    /// The sink is registered and the engine runs.
    Serving,
    /// The removal of the sink at shutdown is under way.
    Leaving,
    /// The engine has shut down.
    Stopped,
    /// Startup failed.
    Failed,
}

/// The registration of one engine: its identity, the address that the source
/// store is to connect back to, and where the registration stands.
pub struct Registration {
    id: String,
    address: String,
    phase: Phase,
}

/// A registration as contracts see it.
pub struct RegistrationView {
    pub id: Seq<char>,
    pub address: Seq<char>,
    pub phase: Phase,
}

impl View for Registration {
    type V = RegistrationView;

    closed spec fn view(&self) -> RegistrationView {
        RegistrationView { id: self.id@, address: self.address@, phase: self.phase }
    }
}

/// The phase that follows `phase` on `signal`. A signal that means nothing
/// in a phase leaves the phase as it is.
pub open spec fn phase_after(phase: Phase, signal: Signal) -> Phase {
    match (phase, signal) {
        (Phase::Idle, Signal::Start) => Phase::Clearing,
        (Phase::Clearing, Signal::Replied(_)) => Phase::Registering,
        (Phase::Registering, Signal::Replied(CallOutcome::Done)) => Phase::Serving,
        (Phase::Registering, Signal::Replied(_)) => Phase::Failed,
        (Phase::Serving, Signal::Terminate) => Phase::Leaving,
        (Phase::Leaving, Signal::Replied(_)) => Phase::Stopped,
        (Phase::Idle, Signal::Terminate) => Phase::Stopped,
        (Phase::Clearing, Signal::Terminate) => Phase::Stopped,
        (Phase::Registering, Signal::Terminate) => Phase::Stopped,
        _ => phase,
    }
}

/// What the caller is to do when `signal` arrives in `phase`, for the
/// identity `id` and the callback address `address`.
///
/// Startup removes the earlier sink first, and goes on to register whatever
/// came of that: a sink that was not there is no error. A registration that
/// does not end well is fatal. A termination while the engine serves removes
/// the sink and then ends the process, however the removal ended; before the
/// engine serves there is no sink to remove.
pub open spec fn directive_on(
    phase: Phase,
    signal: Signal,
    id: Seq<char>,
    address: Seq<char>,
) -> Option<DirectiveView> {
    match (phase, signal) {
        (Phase::Idle, Signal::Start) => Some(
            DirectiveView::Call(SinkCallView::Deregister { id }),
        ),
        (Phase::Clearing, Signal::Replied(_)) => Some(
            DirectiveView::Call(SinkCallView::Register { id, address }),
        ),
        (Phase::Registering, Signal::Replied(CallOutcome::Done)) => Some(DirectiveView::Serve),
        (Phase::Registering, Signal::Replied(_)) => Some(DirectiveView::Abort),
        (Phase::Serving, Signal::Terminate) => Some(
            DirectiveView::Call(SinkCallView::Deregister { id }),
        ),
        (Phase::Leaving, Signal::Replied(_)) => Some(DirectiveView::Exit),
        (Phase::Idle, Signal::Terminate) => Some(DirectiveView::Exit),
        (Phase::Clearing, Signal::Terminate) => Some(DirectiveView::Exit),
        (Phase::Registering, Signal::Terminate) => Some(DirectiveView::Exit),
        _ => None,
    }
}

impl Registration {
    /// A registration on which nothing has happened yet.
    pub fn new(id: &str, address: &str) -> (registration: Registration)
        ensures
            registration@ == (RegistrationView { id: id@, address: address@, phase: Phase::Idle }),
    {
        Registration {
            id: String::from_str(id),
            address: String::from_str(address),
            phase: Phase::Idle,
        }
    }

    /// Where the registration stands.
    pub fn phase(&self) -> (phase: Phase)
        ensures
            phase == self@.phase,
    {
        self.phase
    }

    /// Takes in a signal, moves to the phase that follows, and says what the
    /// caller is to do. `None` means that the signal calls for nothing.
    pub fn handle(&mut self, signal: Signal) -> (r: Option<Directive>)
        ensures
            final(self)@ == (RegistrationView {
                phase: phase_after(old(self)@.phase, signal),
                ..old(self)@
            }),
            r.deep_view() == directive_on(
                old(self)@.phase,
                signal,
                old(self)@.id,
                old(self)@.address,
            ),
    {
        match (self.phase, signal) {
            (Phase::Idle, Signal::Start) => {
                self.phase = Phase::Clearing;
                Some(Directive::Call(SinkCall::Deregister { id: self.id.clone() }))
            },
            (Phase::Clearing, Signal::Replied(_)) => {
                self.phase = Phase::Registering;
                Some(
                    Directive::Call(
                        SinkCall::Register { id: self.id.clone(), address: self.address.clone() },
                    ),
                )
            },
            (Phase::Registering, Signal::Replied(CallOutcome::Done)) => {
                self.phase = Phase::Serving;
                Some(Directive::Serve)
            },
            (Phase::Registering, Signal::Replied(_)) => {
                self.phase = Phase::Failed;
                Some(Directive::Abort)
            },
            (Phase::Serving, Signal::Terminate) => {
                self.phase = Phase::Leaving;
                Some(Directive::Call(SinkCall::Deregister { id: self.id.clone() }))
            },
            (Phase::Leaving, Signal::Replied(_)) => {
                self.phase = Phase::Stopped;
                Some(Directive::Exit)
            },
            (Phase::Idle, Signal::Terminate) => {
                self.phase = Phase::Stopped;
                Some(Directive::Exit)
            },
            (Phase::Clearing, Signal::Terminate) => {
                self.phase = Phase::Stopped;
                Some(Directive::Exit)
            },
            (Phase::Registering, Signal::Terminate) => {
                self.phase = Phase::Stopped;
                Some(Directive::Exit)
            },
            _ => None,
        }
    }
}

/// The source store's registry of sinks as the laws see it: for each
/// identity, the addresses of the sinks registered under it, oldest first.
/// The store itself does not keep an identity from being registered twice.
pub type Registry = Map<Seq<char>, Seq<Seq<char>>>;

/// The sinks registered under `id`.
pub open spec fn sinks_under(registry: Registry, id: Seq<char>) -> Seq<Seq<char>> {
    if registry.contains_key(id) {
        registry[id]
    } else {
        Seq::empty()
    }
}

/// Whether a sink is registered under `id`: what an existence check answers.
pub open spec fn sink_exists(registry: Registry, id: Seq<char>) -> bool {
    sinks_under(registry, id).len() > 0
}

/// How the store answers a call.
pub open spec fn outcome_in(registry: Registry, call: SinkCallView) -> CallOutcome {
    match call {
        SinkCallView::Deregister { id } => if sink_exists(registry, id) {
            CallOutcome::Done
        } else {
            CallOutcome::NotFound
        },
        SinkCallView::Register { .. } => CallOutcome::Done,
    }
}

/// The registry after a call.
pub open spec fn registry_after(registry: Registry, call: SinkCallView) -> Registry {
    match call {
        SinkCallView::Deregister { id } => registry.remove(id),
        SinkCallView::Register { id, address } => registry.insert(
            id,
            sinks_under(registry, id).push(address),
        ),
    }
}

/// The registry after a startup of the engine `id` at `address`: the two
/// calls that `directive_on` asks for between `Start` and `Serve`.
pub open spec fn registry_after_startup(
    registry: Registry,
    id: Seq<char>,
    address: Seq<char>,
) -> Registry {
    registry_after(
        registry_after(registry, SinkCallView::Deregister { id }),
        SinkCallView::Register { id, address },
    )
}

/// Startup makes the same two calls whatever the store answers to the first:
/// the removal of a sink that is not there is taken as done, and the
/// registration follows.
pub proof fn absent_sink_is_no_error(id: Seq<char>, address: Seq<char>, outcome: CallOutcome)
    ensures
        directive_on(Phase::Idle, Signal::Start, id, address) == Some(
            DirectiveView::Call(SinkCallView::Deregister { id }),
        ),
        phase_after(Phase::Idle, Signal::Start) == Phase::Clearing,
        directive_on(Phase::Clearing, Signal::Replied(outcome), id, address) == Some(
            DirectiveView::Call(SinkCallView::Register { id, address }),
        ),
        phase_after(Phase::Clearing, Signal::Replied(outcome)) == Phase::Registering,
{
}

/// Removing a sink that is not there leaves every identity's sinks as they
/// were.
pub proof fn deregister_absent_changes_nothing(registry: Registry, id: Seq<char>, other: Seq<char>)
    requires
        !sink_exists(registry, id),
    ensures
        outcome_in(registry, SinkCallView::Deregister { id }) == CallOutcome::NotFound,
        sinks_under(registry_after(registry, SinkCallView::Deregister { id }), other)
            == sinks_under(registry, other),
{
}

/// After a startup exactly one sink stands under the engine's identity,
/// whatever stood there before; it points at the engine's address, an
/// existence check finds it, and no other identity is touched.
pub proof fn startup_leaves_one_sink(
    registry: Registry,
    id: Seq<char>,
    address: Seq<char>,
    other: Seq<char>,
)
    ensures
        sinks_under(registry_after_startup(registry, id, address), id) == seq![address],
        sink_exists(registry_after_startup(registry, id, address), id),
        other != id ==> sinks_under(registry_after_startup(registry, id, address), other)
            == sinks_under(registry, other),
{
    let cleared = registry_after(registry, SinkCallView::Deregister { id });
    assert(sinks_under(cleared, id) =~= Seq::<Seq<char>>::empty());
    assert(sinks_under(cleared, id).push(address) =~= seq![address]);
}

/// A restart, that is two startups in a row, still leaves exactly one sink
/// under the engine's identity.
pub proof fn restart_leaves_one_sink(
    registry: Registry,
    id: Seq<char>,
    first: Seq<char>,
    second: Seq<char>,
)
    ensures
        sinks_under(
            registry_after_startup(registry_after_startup(registry, id, first), id, second),
            id,
        ).len() == 1,
        sink_exists(
            registry_after_startup(registry_after_startup(registry, id, first), id, second),
            id,
        ),
{
    startup_leaves_one_sink(registry_after_startup(registry, id, first), id, second, id);
}

} // verus!
