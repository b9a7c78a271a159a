//! The reverse-tunnel session: a state machine from events to actions.
//!
//! A session starts idle. Opening it dials the relay; the relay answers with
//! a challenge, the answer to which is a signature, and then accepts or
//! refuses. An attempt that fails, because the transport broke or because the
//! relay refused at any point of it, is tried again after a wait that doubles
//! each time, up to a bounded number of attempts; after the last one the
//! session is closed for good, with the reason. A connected session whose
//! transport breaks reconnects, presenting its token, and authenticates anew
//! only if the relay asks.
//!
//! The machine does no input or output. Whoever runs it performs each action
//! and reports what happened as the next event. At most one connection
//! attempt is outstanding at a time.

use crate::error::{Error, TunnelFailure};
use vstd::arithmetic::power2::{lemma_pow2_pos, lemma_pow2_unfold, pow2};
use vstd::prelude::*;

verus! {

/// Where a session stands.
#[derive(Clone, Copy, Debug, PartialEq, Eq, Structural)]
pub enum State {
    Idle,
    Connecting,
    Connected,
    Reconnecting,
    /// The end: a closed session stays closed.
    Closed,
}

/// What a session that is connecting or reconnecting is waiting for.
#[derive(Clone, Copy, Debug, PartialEq, Eq, Structural)]
pub enum Phase {
    /// Nothing: the session is idle, connected or closed.
    Resting,
    /// The relay's first word on a fresh connection.
    Dialing,
    /// The relay's word on a connection that presented the token.
    Resuming,
    /// The relay's verdict on the answer to its challenge.
    Proving,
    /// The end of the wait before the next attempt.
    Waiting,
}

/// How often and how patiently a session tries.
#[derive(Clone, Copy, Debug, PartialEq, Eq, Structural)]
pub struct RetryPolicy {
    /// The number of attempts in a row that may fail, at least one.
    pub max_attempts: u32,
    /// The wait after the first failure, in milliseconds.
    pub base_delay: u64,
    /// The longest wait, in milliseconds.
    pub max_delay: u64,
}

/// The relay's challenge.
pub type Nonce = [u8; 32];

/// What the relay gives an authenticated session to come back with.
pub type Token = [u8; 32];

/// What happened.
#[derive(Clone, Copy, Debug, PartialEq, Eq)]
pub enum Event {
    /// The caller asks for the session to be opened.
    Open,
    /// The relay sent a challenge.
    Challenge(Nonce),
    /// The relay accepted the session and gave a token.
    Accepted(Token),
    /// The relay refused what it was shown.
    Refused,
    /// The transport failed: no connection, a reset, or a missed heartbeat.
    Broken,
    /// The wait before the next attempt is over.
    TimerFired,
    /// The caller asks for the session to be closed.
    Close,
}

/// What to do next.
#[derive(Clone, Copy, Debug, PartialEq, Eq)]
pub enum Action {
    /// Nothing.
    Stay,
    /// Connect to the relay.
    Dial,
    /// Connect to the relay and present the token.
    Resume(Token),
    /// Answer the challenge with a signature.
    Prove(Nonce),
    /// Wait this many milliseconds, then report that the timer fired.
    Wait(u64),
    /// Start forwarding what the relay sends to the local service.
    Forward,
    /// Drop the connection and report the failure: the session is closed.
    GiveUp(TunnelFailure),
    /// Drop the connection: the session is closed.
    Shutdown,
}

/// What a session is waiting for.
#[derive(Clone, Copy, Debug, PartialEq, Eq, Structural)]
pub enum Awaited {
    /// The relay's next word. Its silence is a broken transport.
    Relay,
    /// The end of the wait before the next attempt.
    Timer,
    /// Nothing: the session is idle or closed.
    Nothing,
}

/// The smaller of two numbers.
pub open spec fn smaller(a: int, b: int) -> int {
    if a <= b {
        a
    } else {
        b
    }
}

impl RetryPolicy {
    /// The wait after `failures` failures in a row: the base delay, doubled
    /// for each failure after the first, and never more than the longest wait.
    /// Without a failure there is nothing to wait for.
    pub open spec fn backoff(self, failures: u32) -> u64 {
        if failures == 0 {
            0
        } else {
            smaller(self.base_delay * pow2((failures - 1) as nat), self.max_delay as int) as u64
        }
    }

    /// The policy with at least one attempt: a session that is opened gets
    /// to try.
    pub open spec fn normal(self) -> RetryPolicy {
        RetryPolicy {
            max_attempts: if self.max_attempts == 0 {
                1
            } else {
                self.max_attempts
            },
            ..self
        }
    }

    /// Computes the policy with at least one attempt.
    pub fn normalized(self) -> (policy: RetryPolicy)
        ensures
            policy == self.normal(),
    {
        RetryPolicy {
            max_attempts: if self.max_attempts == 0 {
                1
            } else {
                self.max_attempts
            },
            base_delay: self.base_delay,
            max_delay: self.max_delay,
        }
    }

    /// Computes the wait after `failures` failures in a row.
    pub fn wait_after(&self, failures: u32) -> (delay: u64)
        ensures
            delay == self.backoff(failures),
            delay <= self.max_delay,
    {
        if failures == 0 {
            return 0;
        }
        let cap = self.max_delay;
        let mut delay = if self.base_delay < cap {
            self.base_delay
        } else {
            cap
        };
        let mut doubled: u32 = 0;
        proof {
            assert(pow2(0) == 1) by {
                vstd::arithmetic::power2::lemma2_to64();
            }
        }
        while doubled < failures - 1 && delay < cap
            invariant
                failures >= 1,
                doubled <= failures - 1,
                cap == self.max_delay,
                delay == smaller(self.base_delay * pow2(doubled as nat), cap as int),
            decreases failures - 1 - doubled,
        {
            proof {
                lemma_pow2_unfold((doubled + 1) as nat);
                assert(self.base_delay * (2 * pow2(doubled as nat)) == 2 * (self.base_delay * pow2(
                    doubled as nat,
                ))) by (nonlinear_arith);
            }
            delay = if delay >= cap - delay {
                cap
            } else {
                delay + delay
            };
            doubled = doubled + 1;
        }
        proof {
            if doubled < failures - 1 {
                lemma_backoff_stays_capped(self.base_delay, cap, doubled as nat, (failures - 1) as nat);
            }
        }
        delay
    }
}

/// Once the doubled delay has reached the cap, it stays there.
proof fn lemma_backoff_stays_capped(base: u64, cap: u64, reached: nat, later: nat)
    requires
        reached <= later,
        base * pow2(reached) >= cap,
    ensures
        base * pow2(later) >= cap,
    decreases later - reached,
{
    if reached < later {
        lemma_backoff_stays_capped(base, cap, reached, (later - 1) as nat);
        lemma_pow2_unfold(later);
        lemma_pow2_pos((later - 1) as nat);
        assert(base * (2 * pow2((later - 1) as nat)) == 2 * (base * pow2((later - 1) as nat)))
            by (nonlinear_arith);
    }
}

/// What a session holds.
pub struct SessionView {
    pub relay: Seq<char>,
    pub state: State,
    pub phase: Phase,
    /// The attempts that have failed in a row.
    pub failures: u32,
    pub token: Option<Token>,
    pub last_error: Option<TunnelFailure>,
    pub policy: RetryPolicy,
}

impl SessionView {
    /// A session rests exactly when it is idle, connected or closed; it has
    /// attempts left unless it is closed; it presents a token only if it has
    /// one; and a connected session has one.
    pub open spec fn wf(self) -> bool {
        &&& self.policy.max_attempts >= 1
        &&& self.failures <= self.policy.max_attempts
        &&& self.state != State::Closed ==> self.failures < self.policy.max_attempts
        &&& (self.state == State::Connecting || self.state == State::Reconnecting) <==> self.phase
            != Phase::Resting
        &&& self.phase == Phase::Resuming ==> self.state == State::Reconnecting && self.token is Some
        &&& self.state == State::Connected ==> self.token is Some
    }

    /// The error that the session reports: the failure of its last attempt,
    /// once it has given up.
    pub open spec fn error(self) -> Option<Error> {
        match self.last_error {
            Some(failure) if self.state == State::Closed && self.failures
                >= self.policy.max_attempts => Some(Error::Tunnel(failure)),
            _ => None,
        }
    }

    /// Whether a connection attempt is under way.
    pub open spec fn attempt_outstanding(self) -> bool {
        self.phase == Phase::Dialing || self.phase == Phase::Resuming || self.phase
            == Phase::Proving
    }

    /// What the session is waiting for: the relay while an attempt is under
    /// way or the session is connected, the timer between attempts, and
    /// nothing otherwise.
    pub open spec fn awaits(self) -> Awaited {
        if self.attempt_outstanding() || self.state == State::Connected {
            Awaited::Relay
        } else if self.phase == Phase::Waiting {
            Awaited::Timer
        } else {
            Awaited::Nothing
        }
    }

    /// The session closed, with nothing to do.
    pub open spec fn closed(self) -> SessionView {
        SessionView { state: State::Closed, phase: Phase::Resting, ..self }
    }

    /// The start of an attempt: with the token where a reconnecting session
    /// has one, fresh otherwise.
    pub open spec fn attempt(self) -> (SessionView, Action) {
        match self.token {
            Some(token) if self.state == State::Reconnecting => (
                SessionView { phase: Phase::Resuming, ..self },
                Action::Resume(token),
            ),
            _ => (SessionView { phase: Phase::Dialing, ..self }, Action::Dial),
        }
    }

    /// A failed attempt: the session waits and tries again, or gives up after
    /// the last attempt it was allowed.
    pub open spec fn failed(self, failure: TunnelFailure) -> (SessionView, Action) {
        let failures = if self.failures == u32::MAX {
            u32::MAX
        } else {
            (self.failures + 1) as u32
        };
        if failures >= self.policy.max_attempts {
            (
                SessionView { failures, last_error: Some(failure), ..self.closed() },
                Action::GiveUp(failure),
            )
        } else {
            (
                SessionView { failures, last_error: Some(failure), phase: Phase::Waiting, ..self },
                Action::Wait(self.policy.backoff(failures)),
            )
        }
    }

    /// The session after an event, and what to do.
    pub open spec fn step(self, event: Event) -> (SessionView, Action) {
        match event {
            Event::Open => if self.state == State::Idle {
                SessionView { state: State::Connecting, failures: 0, ..self }.attempt()
            } else {
                (self, Action::Stay)
            },
            Event::Challenge(nonce) => if self.phase == Phase::Dialing || self.phase
                == Phase::Resuming {
                (SessionView { phase: Phase::Proving, token: None, ..self }, Action::Prove(nonce))
            } else {
                (self, Action::Stay)
            },
            Event::Accepted(token) => if self.phase == Phase::Resuming || self.phase
                == Phase::Proving {
                (
                    SessionView {
                        state: State::Connected,
                        phase: Phase::Resting,
                        failures: 0,
                        token: Some(token),
                        ..self
                    },
                    Action::Forward,
                )
            } else {
                (self, Action::Stay)
            },
            Event::Refused => if self.attempt_outstanding() {
                SessionView { token: None, ..self }.failed(TunnelFailure::Rejected)
            } else {
                (self, Action::Stay)
            },
            Event::Broken => if self.state == State::Connected {
                SessionView { state: State::Reconnecting, failures: 0, ..self }.attempt()
            } else if self.attempt_outstanding() {
                self.failed(TunnelFailure::Transport)
            } else {
                (self, Action::Stay)
            },
            Event::TimerFired => if self.phase == Phase::Waiting {
                self.attempt()
            } else {
                (self, Action::Stay)
            },
            Event::Close => if self.state == State::Closed {
                (self, Action::Stay)
            } else {
                (self.closed(), Action::Shutdown)
            },
        }
    }
}

/// A tunnel session to one relay.
pub struct TunnelSession {
    relay: String,
    state: State,
    phase: Phase,
    failures: u32,
    token: Option<Token>,
    last_error: Option<TunnelFailure>,
    policy: RetryPolicy,
}

impl View for TunnelSession {
    type V = SessionView;

    closed spec fn view(&self) -> SessionView {
        SessionView {
            relay: self.relay@,
            state: self.state,
            phase: self.phase,
            failures: self.failures,
            token: self.token,
            last_error: self.last_error,
            policy: self.policy,
        }
    }
}

impl TunnelSession {
    /// An idle session to `relay`.
    pub fn new(relay: String, policy: RetryPolicy) -> (session: TunnelSession)
        ensures
            session@.wf(),
            session@ == (SessionView {
                relay: relay@,
                state: State::Idle,
                phase: Phase::Resting,
                failures: 0,
                token: None,
                last_error: None,
                policy: policy.normal(),
            }),
    {
        TunnelSession {
            relay,
            state: State::Idle,
            phase: Phase::Resting,
            failures: 0,
            token: None,
            last_error: None,
            policy: policy.normalized(),
        }
    }

    /// Where the session stands.
    pub fn state(&self) -> (state: State)
        ensures
            state == self@.state,
    {
        self.state
    }

    /// The relay's endpoint.
    pub fn relay(&self) -> (relay: &String)
        ensures
            relay@ == self@.relay,
    {
        &self.relay
    }

    /// The token, if the relay gave one that still holds.
    pub fn token(&self) -> (token: Option<Token>)
        ensures
            token == self@.token,
    {
        self.token
    }

    /// Why the last attempt failed, if one did.
    pub fn last_error(&self) -> (failure: Option<TunnelFailure>)
        ensures
            failure == self@.last_error,
    {
        self.last_error
    }

    /// What the session is waiting for.
    pub fn awaits(&self) -> (awaited: Awaited)
        ensures
            awaited == self@.awaits(),
    {
        if self.phase == Phase::Dialing || self.phase == Phase::Resuming || self.phase
            == Phase::Proving || self.state == State::Connected {
            Awaited::Relay
        } else if self.phase == Phase::Waiting {
            Awaited::Timer
        } else {
            Awaited::Nothing
        }
    }

    /// The error to report, once the session has given up. A session that
    /// was closed on request reports none.
    pub fn error(&self) -> (error: Option<Error>)
        ensures
            error == self@.error(),
    {
        match self.last_error {
            Some(failure) if self.state == State::Closed && self.failures
                >= self.policy.max_attempts => Some(Error::Tunnel(failure)),
            _ => None,
        }
    }

    fn attempt(&mut self) -> (action: Action)
        ensures
            (final(self)@, action) == old(self)@.attempt(),
    {
        match self.token {
            Some(token) if self.state == State::Reconnecting => {
                self.phase = Phase::Resuming;
                Action::Resume(token)
            },
            _ => {
                self.phase = Phase::Dialing;
                Action::Dial
            },
        }
    }

    fn failed(&mut self, failure: TunnelFailure) -> (action: Action)
        ensures
            (final(self)@, action) == old(self)@.failed(failure),
    {
        self.failures = self.failures.saturating_add(1);
        self.last_error = Some(failure);
        if self.failures >= self.policy.max_attempts {
            self.state = State::Closed;
            self.phase = Phase::Resting;
            Action::GiveUp(failure)
        } else {
            self.phase = Phase::Waiting;
            Action::Wait(self.policy.wait_after(self.failures))
        }
    }

    /// Takes in an event and says what to do.
    pub fn step(&mut self, event: Event) -> (action: Action)
        ensures
            (final(self)@, action) == old(self)@.step(event),
            old(self)@.wf() ==> final(self)@.wf(),
    {
        match event {
            Event::Open => {
                if self.state == State::Idle {
                    self.state = State::Connecting;
                    self.failures = 0;
                    self.attempt()
                } else {
                    Action::Stay
                }
            },
            Event::Challenge(nonce) => {
                if self.phase == Phase::Dialing || self.phase == Phase::Resuming {
                    self.phase = Phase::Proving;
                    self.token = None;
                    Action::Prove(nonce)
                } else {
                    Action::Stay
                }
            },
            Event::Accepted(token) => {
                if self.phase == Phase::Resuming || self.phase == Phase::Proving {
                    self.state = State::Connected;
                    self.phase = Phase::Resting;
                    self.failures = 0;
                    self.token = Some(token);
                    Action::Forward
                } else {
                    Action::Stay
                }
            },
            Event::Refused => {
                if self.phase == Phase::Dialing || self.phase == Phase::Resuming || self.phase
                    == Phase::Proving {
                    self.token = None;
                    self.failed(TunnelFailure::Rejected)
                } else {
                    Action::Stay
                }
            },
            Event::Broken => {
                if self.state == State::Connected {
                    self.state = State::Reconnecting;
                    self.failures = 0;
                    self.attempt()
                } else if self.phase == Phase::Dialing || self.phase == Phase::Resuming
                    || self.phase == Phase::Proving {
                    self.failed(TunnelFailure::Transport)
                } else {
                    Action::Stay
                }
            },
            Event::TimerFired => {
                if self.phase == Phase::Waiting {
                    self.attempt()
                } else {
                    Action::Stay
                }
            },
            Event::Close => {
                if self.state == State::Closed {
                    Action::Stay
                } else {
                    self.state = State::Closed;
                    self.phase = Phase::Resting;
                    Action::Shutdown
                }
            },
        }
    }

    /// Asks for the session to be opened. Only an idle session starts to
    /// connect; on any other the request does nothing.
    pub fn open(&mut self) -> (action: Action)
        ensures
            (final(self)@, action) == old(self)@.step(Event::Open),
            old(self)@.state != State::Idle ==> action == Action::Stay && final(self)@ == old(self)@,
            old(self)@.state == State::Idle ==> action == Action::Dial && final(self)@.state
                == State::Connecting,
    {
        self.step(Event::Open)
    }

    /// Closes the session. Whatever it was doing, it is closed afterwards.
    pub fn close(&mut self) -> (action: Action)
        ensures
            (final(self)@, action) == old(self)@.step(Event::Close),
            final(self)@.state == State::Closed,
    {
        self.step(Event::Close)
    }
}

/// Every step leaves a well-formed session well-formed, under the same
/// policy and to the same relay.
pub proof fn step_preserves_wf(session: SessionView, event: Event)
    requires
        session.wf(),
    ensures
        session.step(event).0.wf(),
        session.step(event).0.policy == session.policy,
        session.step(event).0.relay == session.relay,
{
}

/// A closed session stays closed: no event changes it or asks for anything.
pub proof fn closed_is_terminal(session: SessionView, event: Event)
    requires
        session.wf(),
        session.state == State::Closed,
    ensures
        session.step(event) == (session, Action::Stay),
{
}

/// Closing always ends in the closed state, and closing again does nothing.
pub proof fn close_is_idempotent(session: SessionView)
    ensures
        session.step(Event::Close).0.state == State::Closed,
        session.step(Event::Close).0.step(Event::Close) == (
            session.step(Event::Close).0,
            Action::Stay,
        ),
{
}

/// Two requests to open give one connection attempt: the first dials only if
/// the session was idle, and the second does nothing at all.
pub proof fn open_twice_dials_once(session: SessionView)
    requires
        session.wf(),
    ensures
        ({
            let (once, first) = session.step(Event::Open);
            let (twice, second) = once.step(Event::Open);
            &&& second == Action::Stay
            &&& twice == once
            &&& first == if session.state == State::Idle {
                Action::Dial
            } else {
                Action::Stay
            }
            &&& session.state != State::Idle ==> once == session
        }),
{
}

/// At most one connection attempt is outstanding: the machine asks for a
/// connection only when none is under way, and then one is.
pub proof fn one_attempt_at_a_time(session: SessionView, event: Event)
    requires
        session.wf(),
    ensures
        ({
            let (next, action) = session.step(event);
            (action is Dial || action is Resume) ==> !session.attempt_outstanding()
                && next.attempt_outstanding()
        }),
{
}

/// Each failed attempt uses up one of the attempts allowed, and the session
/// gives up exactly when none is left. So a session that keeps failing is
/// closed after at most `max_attempts` attempts.
pub proof fn failure_uses_up_an_attempt(session: SessionView, event: Event)
    requires
        session.wf(),
        session.attempt_outstanding(),
        event == Event::Broken || event == Event::Refused,
    ensures
        ({
            let (next, action) = session.step(event);
            &&& next.failures == session.failures + 1
            &&& next.last_error is Some
            &&& if next.failures == session.policy.max_attempts {
                next.state == State::Closed && action == Action::GiveUp(next.last_error->Some_0)
            } else {
                next.state == session.state && action == Action::Wait(
                    session.policy.backoff(next.failures),
                )
            }
        }),
{
}

/// No wait is longer than the longest wait of the policy, and a later wait
/// is never shorter than an earlier one.
pub proof fn backoff_grows_to_the_cap(policy: RetryPolicy, earlier: u32, later: u32)
    requires
        1 <= earlier <= later,
    ensures
        policy.backoff(earlier) <= policy.backoff(later) <= policy.max_delay,
    decreases later - earlier,
{
    lemma_pow2_pos((later - 1) as nat);
    lemma_pow2_pos((earlier - 1) as nat);
    assert(policy.base_delay * pow2((later - 1) as nat) >= 0) by (nonlinear_arith)
        requires
            pow2((later - 1) as nat) > 0,
    ;
    assert(policy.base_delay * pow2((earlier - 1) as nat) >= 0) by (nonlinear_arith)
        requires
            pow2((earlier - 1) as nat) > 0,
    ;
    if earlier < later {
        backoff_grows_to_the_cap(policy, earlier, (later - 1) as u32);
        lemma_pow2_unfold((later - 1) as nat);
        lemma_pow2_pos((later - 2) as nat);
        assert(policy.base_delay * (2 * pow2((later - 2) as nat)) >= policy.base_delay * pow2(
            (later - 2) as nat,
        )) by (nonlinear_arith)
            requires
                pow2((later - 2) as nat) > 0,
        ;
    }
}

/// A session always knows what comes next: a well-formed session waits for
/// nothing only when it is idle or closed, what it asks for leaves it
/// waiting for just that, and no session becomes idle again.
pub proof fn waits_for_what_it_asked(session: SessionView, event: Event)
    requires
        session.wf(),
    ensures
        ({
            let (next, action) = session.step(event);
            &&& next.awaits() == Awaited::Nothing <==> next.state == State::Idle || next.state
                == State::Closed
            &&& (action is Dial || action is Resume || action is Prove || action is Forward)
                ==> next.awaits() == Awaited::Relay
            &&& action is Wait ==> next.awaits() == Awaited::Timer
            &&& (action is GiveUp || action is Shutdown) ==> next.awaits() == Awaited::Nothing
            &&& next.state == State::Idle ==> session.state == State::Idle
        }),
{
}

} // verus!
