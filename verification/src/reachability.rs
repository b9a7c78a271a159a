//! The reachability decision: how a peer can reach this node.
//!
//! The coordinator first checks for a direct way in: it resolves the local
//! address, probes the desired port, resolves the public address and, where
//! the port is free and a public address was found, asks for a probe from
//! outside. A node that passes all of this is reachable directly. Otherwise
//! the coordinator opens a tunnel session to the relay, if one is configured,
//! and the node is reachable through the tunnel once the relay accepts it. A
//! node with neither is unreachable, which is an answer and not a failure.
//!
//! Like the tunnel session it owns, the coordinator does no input or output:
//! it is told what happened and answers what to do next.

use crate::address::Address;
use crate::error::Error;
use crate::tunnel;
use crate::tunnel::{Awaited, RetryPolicy, SessionView, State, Token, TunnelSession};
use vstd::prelude::*;

verus! {

/// How a peer can reach this node.
#[derive(Clone, Copy, Debug, PartialEq, Eq)]
pub enum Reachability {
    /// At this public address and port.
    Direct(Address, u16),
    /// Through the relay, in the session that the token stands for.
    Tunneled(Token),
    /// Not at all.
    Unreachable,
}

/// What the checks for a direct way in found.
#[derive(Clone, Copy, Debug, PartialEq, Eq)]
pub struct AddressRecord {
    pub local: Address,
    pub public: Option<Address>,
    pub port: u16,
    pub port_available: bool,
    /// When the port was probed, in seconds.
    pub probed_at: u64,
}

/// How far the coordinator has come.
#[derive(Clone, Copy, Debug, PartialEq, Eq, Structural)]
pub enum Stage {
    Idle,
    ResolvingLocal,
    ProbingPort,
    ResolvingPublic,
    ConfirmingInbound,
    Tunnelling,
    Done,
}

/// What happened.
#[derive(Clone, Copy, Debug, PartialEq, Eq)]
pub enum Event {
    /// The caller asks for the decision.
    Start,
    /// The local address was resolved, or there is no route.
    Local(Result<Address, Error>),
    /// The port was probed at the given time.
    Port(Result<bool, Error>, u64),
    /// The public address was resolved, or no service answered.
    Public(Result<Address, Error>),
    /// The probe from outside came in, or did not.
    Inbound(bool),
    /// Something happened to the tunnel session.
    Tunnel(tunnel::Event),
}

/// What to do next.
#[derive(Clone, Copy, Debug, PartialEq, Eq)]
pub enum Action {
    /// Nothing.
    Stay,
    /// Resolve the local address.
    ResolveLocal,
    /// Probe the port on the local address.
    ProbePort(Address, u16),
    /// Resolve the public address.
    ResolvePublic,
    /// Ask for a probe from outside to the public address and port.
    ConfirmInbound(Address, u16),
    /// Do what the tunnel session asks.
    Tunnel(tunnel::Action),
}

/// What a coordinator is waiting to be told.
#[derive(Clone, Copy, Debug, PartialEq, Eq)]
pub enum Need {
    /// To be started.
    Start,
    /// The local address.
    Local,
    /// What a probe of the port on the local address gives.
    Port(Address, u16),
    /// The public address.
    Public,
    /// Whether a probe from outside to the public address and port comes in.
    Inbound(Address, u16),
    /// What the tunnel session is waiting for.
    Tunnel(Awaited),
    /// Nothing: the decision is made.
    Nothing,
}

/// What a coordinator holds.
pub struct CoordinatorView {
    pub port: u16,
    pub stage: Stage,
    pub local: Option<Address>,
    pub port_available: bool,
    pub probed_at: u64,
    pub public: Option<Address>,
    /// The tunnel session, where a relay is configured.
    pub session: Option<SessionView>,
    pub outcome: Option<Reachability>,
}

/// What a tunnel session settles the decision to, once it has come to rest:
/// tunneled where the relay accepted it, unreachable where it gave up.
pub open spec fn settled(session: SessionView) -> Option<Reachability> {
    match (session.state, session.token) {
        (State::Connected, Some(token)) => Some(Reachability::Tunneled(token)),
        (State::Closed, _) => Some(Reachability::Unreachable),
        _ => None,
    }
}

impl CoordinatorView {
    /// There is an outcome exactly when the coordinator is done. A probe of
    /// the port is asked for only where the local address is known, and a
    /// probe from outside only where the port is free and the public address
    /// known. A tunnel is under way only where there is a session; the
    /// session is well-formed, idle until the tunnel is tried, and waiting
    /// for something while the decision waits for it.
    pub open spec fn wf(self) -> bool {
        &&& self.outcome is Some <==> self.stage == Stage::Done
        &&& self.stage == Stage::Tunnelling ==> self.session is Some
        &&& self.stage == Stage::ConfirmingInbound ==> self.public is Some && self.port_available
        &&& self.stage == Stage::ProbingPort ==> self.local is Some
        &&& self.session matches Some(session) ==> {
            &&& session.wf()
            &&& self.stage != Stage::Tunnelling && self.stage != Stage::Done ==> session.state
                == State::Idle
            &&& self.stage == Stage::Tunnelling ==> session.awaits() != Awaited::Nothing
        }
    }

    /// What the coordinator is waiting to be told, by how far it has come. A
    /// coordinator that is done waits for nothing, and so does one that
    /// lacks what its stage goes by.
    pub open spec fn needs(self) -> Need {
        match self.stage {
            Stage::Idle => Need::Start,
            Stage::ResolvingLocal => Need::Local,
            Stage::ProbingPort => match self.local {
                Some(local) => Need::Port(local, self.port),
                None => Need::Nothing,
            },
            Stage::ResolvingPublic => Need::Public,
            Stage::ConfirmingInbound => match self.public {
                Some(public) => Need::Inbound(public, self.port),
                None => Need::Nothing,
            },
            Stage::Tunnelling => match self.session {
                Some(session) => Need::Tunnel(session.awaits()),
                None => Need::Nothing,
            },
            Stage::Done => Need::Nothing,
        }
    }

    /// The decision as it stands: the outcome, and unreachable while there
    /// is none.
    pub open spec fn decision(self) -> Reachability {
        match self.outcome {
            Some(outcome) => outcome,
            None => Reachability::Unreachable,
        }
    }

    /// The coordinator done, with its outcome.
    pub open spec fn done(self, outcome: Reachability) -> CoordinatorView {
        CoordinatorView { stage: Stage::Done, outcome: Some(outcome), ..self }
    }

    /// The coordinator with its session after a step of the session, while
    /// the decision waits for the tunnel: done once the session has come to
    /// rest, waiting on otherwise.
    pub open spec fn with_session(self, session: SessionView) -> CoordinatorView {
        let held = CoordinatorView { session: Some(session), ..self };
        match settled(session) {
            Some(outcome) => held.done(outcome),
            None => CoordinatorView { stage: Stage::Tunnelling, ..held },
        }
    }

    /// No direct way in: the tunnel session is opened, or, without a relay,
    /// the node is unreachable.
    pub open spec fn fall_back(self) -> (CoordinatorView, Action) {
        match self.session {
            Some(session) => {
                let (next, action) = session.step(tunnel::Event::Open);
                (self.with_session(next), Action::Tunnel(action))
            },
            None => (self.done(Reachability::Unreachable), Action::Stay),
        }
    }

    /// The coordinator after an event, and what to do.
    pub open spec fn step(self, event: Event) -> (CoordinatorView, Action) {
        match event {
            Event::Start => if self.stage == Stage::Idle {
                (CoordinatorView { stage: Stage::ResolvingLocal, ..self }, Action::ResolveLocal)
            } else {
                (self, Action::Stay)
            },
            Event::Local(found) => if self.stage == Stage::ResolvingLocal {
                match found {
                    Ok(address) => (
                        CoordinatorView {
                            stage: Stage::ProbingPort,
                            local: Some(address),
                            ..self
                        },
                        Action::ProbePort(address, self.port),
                    ),
                    Err(_) => self.fall_back(),
                }
            } else {
                (self, Action::Stay)
            },
            Event::Port(probed, at) => if self.stage == Stage::ProbingPort {
                (
                    CoordinatorView {
                        stage: Stage::ResolvingPublic,
                        port_available: probed == Ok::<bool, Error>(true),
                        probed_at: at,
                        ..self
                    },
                    Action::ResolvePublic,
                )
            } else {
                (self, Action::Stay)
            },
            Event::Public(found) => if self.stage == Stage::ResolvingPublic {
                match found {
                    Ok(address) => {
                        let known = CoordinatorView { public: Some(address), ..self };
                        if self.port_available {
                            (
                                CoordinatorView { stage: Stage::ConfirmingInbound, ..known },
                                Action::ConfirmInbound(address, self.port),
                            )
                        } else {
                            known.fall_back()
                        }
                    },
                    Err(_) => self.fall_back(),
                }
            } else {
                (self, Action::Stay)
            },
            Event::Inbound(confirmed) => if self.stage == Stage::ConfirmingInbound {
                match self.public {
                    Some(address) if confirmed => (
                        self.done(Reachability::Direct(address, self.port)),
                        Action::Stay,
                    ),
                    _ => self.fall_back(),
                }
            } else {
                (self, Action::Stay)
            },
            Event::Tunnel(happened) => match self.session {
                Some(session) if self.stage == Stage::Tunnelling => {
                    let (next, action) = session.step(happened);
                    (self.with_session(next), Action::Tunnel(action))
                },
                Some(session) if self.stage == Stage::Done => {
                    let (next, action) = session.step(happened);
                    (CoordinatorView { session: Some(next), ..self }, Action::Tunnel(action))
                },
                _ => (self, Action::Stay),
            },
        }
    }
}

/// The coordinator of one reachability decision. It owns the tunnel session.
pub struct Coordinator {
    port: u16,
    stage: Stage,
    local: Option<Address>,
    port_available: bool,
    probed_at: u64,
    public: Option<Address>,
    session: Option<TunnelSession>,
    outcome: Option<Reachability>,
}

impl View for Coordinator {
    type V = CoordinatorView;

    closed spec fn view(&self) -> CoordinatorView {
        CoordinatorView {
            port: self.port,
            stage: self.stage,
            local: self.local,
            port_available: self.port_available,
            probed_at: self.probed_at,
            public: self.public,
            session: match self.session {
                Some(session) => Some(session@),
                None => None,
            },
            outcome: self.outcome,
        }
    }
}

impl Coordinator {
    /// A coordinator for `port`, with a tunnel session to `relay` where one
    /// is given.
    pub fn new(port: u16, relay: Option<String>, policy: RetryPolicy) -> (coordinator: Coordinator)
        ensures
            coordinator@.wf(),
            coordinator@ == (CoordinatorView {
                port,
                stage: Stage::Idle,
                local: None,
                port_available: false,
                probed_at: 0,
                public: None,
                session: match relay {
                    Some(endpoint) => Some(
                        SessionView {
                            relay: endpoint@,
                            state: State::Idle,
                            phase: tunnel::Phase::Resting,
                            failures: 0,
                            token: None,
                            last_error: None,
                            policy: policy.normal(),
                        },
                    ),
                    None => None,
                },
                outcome: None,
            }),
    {
        let session = match relay {
            Some(endpoint) => Some(TunnelSession::new(endpoint, policy)),
            None => None,
        };
        Coordinator {
            port,
            stage: Stage::Idle,
            local: None,
            port_available: false,
            probed_at: 0,
            public: None,
            session,
            outcome: None,
        }
    }

    /// How far the coordinator has come.
    pub fn stage(&self) -> (stage: Stage)
        ensures
            stage == self@.stage,
    {
        self.stage
    }

    /// The decision, once the coordinator is done.
    pub fn outcome(&self) -> (outcome: Option<Reachability>)
        ensures
            outcome == self@.outcome,
    {
        self.outcome
    }

    /// What the coordinator is waiting to be told.
    pub fn needs(&self) -> (need: Need)
        ensures
            need == self@.needs(),
    {
        match self.stage {
            Stage::Idle => Need::Start,
            Stage::ResolvingLocal => Need::Local,
            Stage::ProbingPort => match self.local {
                Some(local) => Need::Port(local, self.port),
                None => Need::Nothing,
            },
            Stage::ResolvingPublic => Need::Public,
            Stage::ConfirmingInbound => match self.public {
                Some(public) => Need::Inbound(public, self.port),
                None => Need::Nothing,
            },
            Stage::Tunnelling => match &self.session {
                Some(session) => Need::Tunnel(session.awaits()),
                None => Need::Nothing,
            },
            Stage::Done => Need::Nothing,
        }
    }

    /// The decision as it stands: the outcome, and unreachable while there
    /// is none.
    pub fn decision(&self) -> (decision: Reachability)
        ensures
            decision == self@.decision(),
    {
        match self.outcome {
            Some(outcome) => outcome,
            None => Reachability::Unreachable,
        }
    }

    /// What the checks for a direct way in found, once the local address is
    /// known.
    pub fn record(&self) -> (record: Option<AddressRecord>)
        ensures
            record == match self@.local {
                Some(local) => Some(
                    AddressRecord {
                        local,
                        public: self@.public,
                        port: self@.port,
                        port_available: self@.port_available,
                        probed_at: self@.probed_at,
                    },
                ),
                None => None,
            },
    {
        match self.local {
            Some(local) => Some(
                AddressRecord {
                    local,
                    public: self.public,
                    port: self.port,
                    port_available: self.port_available,
                    probed_at: self.probed_at,
                },
            ),
            None => None,
        }
    }

    /// The tunnel session, where a relay is configured.
    pub fn session(&self) -> (session: Option<&TunnelSession>)
        ensures
            match session {
                Some(held) => self@.session == Some(held@),
                None => self@.session is None,
            },
    {
        self.session.as_ref()
    }

    fn settle(&mut self)
        requires
            old(self).session is Some,
        ensures
            final(self)@ == old(self)@.with_session(old(self)@.session->Some_0),
    {
        let settled = match &self.session {
            Some(session) => match (session.state(), session.token()) {
                (State::Connected, Some(token)) => Some(Reachability::Tunneled(token)),
                (State::Closed, _) => Some(Reachability::Unreachable),
                _ => None,
            },
            None => None,
        };
        match settled {
            Some(outcome) => {
                self.stage = Stage::Done;
                self.outcome = Some(outcome);
            },
            None => {
                self.stage = Stage::Tunnelling;
            },
        }
    }

    fn fall_back(&mut self) -> (action: Action)
        ensures
            (final(self)@, action) == old(self)@.fall_back(),
    {
        match &mut self.session {
            Some(session) => {
                let action = session.step(tunnel::Event::Open);
                self.settle();
                Action::Tunnel(action)
            },
            None => {
                self.stage = Stage::Done;
                self.outcome = Some(Reachability::Unreachable);
                Action::Stay
            },
        }
    }

    /// Takes in an event and says what to do.
    pub fn step(&mut self, event: Event) -> (action: Action)
        ensures
            (final(self)@, action) == old(self)@.step(event),
            old(self)@.wf() ==> final(self)@.wf(),
    {
        proof {
            if old(self)@.wf() {
                step_preserves_wf(old(self)@, event);
            }
        }
        match event {
            Event::Start => {
                if self.stage == Stage::Idle {
                    self.stage = Stage::ResolvingLocal;
                    Action::ResolveLocal
                } else {
                    Action::Stay
                }
            },
            Event::Local(found) => {
                if self.stage == Stage::ResolvingLocal {
                    match found {
                        Ok(address) => {
                            self.stage = Stage::ProbingPort;
                            self.local = Some(address);
                            Action::ProbePort(address, self.port)
                        },
                        Err(_) => self.fall_back(),
                    }
                } else {
                    Action::Stay
                }
            },
            Event::Port(probed, at) => {
                if self.stage == Stage::ProbingPort {
                    self.stage = Stage::ResolvingPublic;
                    self.port_available = match probed {
                        Ok(free) => free,
                        Err(_) => false,
                    };
                    self.probed_at = at;
                    Action::ResolvePublic
                } else {
                    Action::Stay
                }
            },
            Event::Public(found) => {
                if self.stage == Stage::ResolvingPublic {
                    match found {
                        Ok(address) => {
                            self.public = Some(address);
                            if self.port_available {
                                self.stage = Stage::ConfirmingInbound;
                                Action::ConfirmInbound(address, self.port)
                            } else {
                                self.fall_back()
                            }
                        },
                        Err(_) => self.fall_back(),
                    }
                } else {
                    Action::Stay
                }
            },
            Event::Inbound(confirmed) => {
                if self.stage == Stage::ConfirmingInbound {
                    match self.public {
                        Some(address) if confirmed => {
                            self.stage = Stage::Done;
                            self.outcome = Some(Reachability::Direct(address, self.port));
                            Action::Stay
                        },
                        _ => self.fall_back(),
                    }
                } else {
                    Action::Stay
                }
            },
            Event::Tunnel(happened) => {
                let stage = self.stage;
                if stage == Stage::Tunnelling || stage == Stage::Done {
                    match &mut self.session {
                        Some(session) => {
                            let action = session.step(happened);
                            if stage == Stage::Tunnelling {
                                self.settle();
                            }
                            Action::Tunnel(action)
                        },
                        None => Action::Stay,
                    }
                } else {
                    Action::Stay
                }
            },
        }
    }
}

/// Every step leaves a well-formed coordinator well-formed, for the same
/// port.
pub proof fn step_preserves_wf(coordinator: CoordinatorView, event: Event)
    requires
        coordinator.wf(),
    ensures
        coordinator.step(event).0.wf(),
        coordinator.step(event).0.port == coordinator.port,
        coordinator.session is None ==> coordinator.step(event).0.session is None,
{
    if let Some(session) = coordinator.session {
        tunnel::step_preserves_wf(session, tunnel::Event::Open);
        tunnel::waits_for_what_it_asked(session, tunnel::Event::Open);
        if let Event::Tunnel(happened) = event {
            tunnel::step_preserves_wf(session, happened);
            tunnel::waits_for_what_it_asked(session, happened);
        }
    }
}

/// A decision, once made, stands: no later event changes the outcome.
pub proof fn outcome_is_final(coordinator: CoordinatorView, event: Event)
    requires
        coordinator.wf(),
        coordinator.outcome is Some,
    ensures
        coordinator.step(event).0.outcome == coordinator.outcome,
        coordinator.step(event).0.stage == Stage::Done,
{
}

/// The node is reachable directly where every check passes: the local
/// address resolves, the port is free, the public address resolves and the
/// probe from outside comes in. The answer is the public address and the
/// desired port.
pub proof fn direct_when_every_check_passes(
    start: CoordinatorView,
    local: Address,
    at: u64,
    public: Address,
)
    requires
        start.wf(),
        start.stage == Stage::Idle,
    ensures
        ({
            let resolving = start.step(Event::Start).0;
            let probing = resolving.step(Event::Local(Ok(local))).0;
            let asking = probing.step(Event::Port(Ok(true), at)).0;
            let confirming = asking.step(Event::Public(Ok(public))).0;
            let done = confirming.step(Event::Inbound(true)).0;
            done.outcome == Some(Reachability::Direct(public, start.port))
        }),
{
}

/// The node is reachable directly only where every check has passed: a step
/// decides for a direct way in only on a probe from outside that came in,
/// for a free port and the public address that was resolved.
pub proof fn direct_only_when_confirmed(coordinator: CoordinatorView, event: Event)
    requires
        coordinator.wf(),
        coordinator.outcome is None,
        coordinator.step(event).0.outcome matches Some(Reachability::Direct(_, _)),
    ensures
        event == Event::Inbound(true),
        coordinator.port_available,
        coordinator.public matches Some(address) && coordinator.step(event).0.outcome == Some(
            Reachability::Direct(address, coordinator.port),
        ),
{
    if let Some(session) = coordinator.session {
        tunnel::step_preserves_wf(session, tunnel::Event::Open);
        tunnel::waits_for_what_it_asked(session, tunnel::Event::Open);
        if let Event::Tunnel(happened) = event {
            tunnel::step_preserves_wf(session, happened);
            tunnel::waits_for_what_it_asked(session, happened);
        }
    }
}

/// Where a direct check fails, the coordinator falls back on the tunnel:
/// with a relay configured it opens the session, and without one the node
/// is unreachable at once.
pub proof fn failed_check_falls_back(coordinator: CoordinatorView, event: Event)
    requires
        coordinator.wf(),
        match event {
            Event::Local(found) => coordinator.stage == Stage::ResolvingLocal && found is Err,
            Event::Public(found) => coordinator.stage == Stage::ResolvingPublic && (found is Err
                || !coordinator.port_available),
            Event::Inbound(confirmed) => coordinator.stage == Stage::ConfirmingInbound
                && !confirmed,
            _ => false,
        },
    ensures
        ({
            let (next, action) = coordinator.step(event);
            match coordinator.session {
                Some(session) => {
                    &&& action == Action::Tunnel(session.step(tunnel::Event::Open).1)
                    &&& next.session == Some(session.step(tunnel::Event::Open).0)
                    &&& next.outcome == settled(session.step(tunnel::Event::Open).0)
                },
                None => next.outcome == Some(Reachability::Unreachable) && action == Action::Stay,
            }
        }),
{
}

/// Without a relay there is no tunnel: a node that no relay is configured
/// for is never decided to be tunneled.
pub proof fn no_relay_no_tunnel(coordinator: CoordinatorView, event: Event)
    requires
        coordinator.wf(),
        coordinator.session is None,
        coordinator.outcome is None,
    ensures
        !(coordinator.step(event).0.outcome matches Some(Reachability::Tunneled(_))),
{
}

/// While the decision waits for the tunnel, the session settles it: the node
/// is tunneled as soon as the relay has accepted the session, unreachable as
/// soon as the session has given up, and undecided until then.
pub proof fn tunnel_settles_the_decision(coordinator: CoordinatorView, happened: tunnel::Event)
    requires
        coordinator.wf(),
        coordinator.stage == Stage::Tunnelling,
    ensures
        ({
            let session = coordinator.session->Some_0;
            let next = coordinator.step(Event::Tunnel(happened)).0;
            &&& next.session == Some(session.step(happened).0)
            &&& next.outcome == settled(session.step(happened).0)
            &&& happened matches tunnel::Event::Accepted(token) ==> (session.phase
                == tunnel::Phase::Proving || session.phase == tunnel::Phase::Resuming
                ==> next.outcome == Some(Reachability::Tunneled(token)))
        }),
{
}

/// The decision always comes to an end: a well-formed coordinator waits for
/// nothing exactly when it is done, and then the decision is its outcome.
/// Until then it always says what it waits for.
pub proof fn waits_until_done(coordinator: CoordinatorView)
    requires
        coordinator.wf(),
    ensures
        coordinator.needs() == Need::Nothing <==> coordinator.stage == Stage::Done,
        coordinator.stage == Stage::Done ==> coordinator.outcome == Some(coordinator.decision()),
        coordinator.needs() matches Need::Tunnel(awaited) ==> awaited != Awaited::Nothing,
{
}

} // verus!
