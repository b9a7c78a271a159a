use simpleai::address::Address;
use simpleai::error::{Error, TunnelFailure};
use simpleai::reachability::{
    Action, AddressRecord, Coordinator, Event, Need, Reachability, Stage,
};
use simpleai::tunnel;
use simpleai::tunnel::{Awaited, Phase, RetryPolicy, State, TunnelSession};

fn policy() -> RetryPolicy {
    RetryPolicy { max_attempts: 3, base_delay: 100, max_delay: 1000 }
}

fn session() -> TunnelSession {
    TunnelSession::new("relay.example:7000".to_string(), policy())
}

fn connected() -> TunnelSession {
    let mut session = session();
    session.open();
    session.step(tunnel::Event::Challenge([1u8; 32]));
    session.step(tunnel::Event::Accepted([2u8; 32]));
    session
}

#[test]
fn new_session_is_idle() {
    let session = session();
    assert_eq!(session.state(), State::Idle);
    assert_eq!(session.relay(), "relay.example:7000");
    assert_eq!(session.token(), None);
    assert_eq!(session.last_error(), None);
}

#[test]
fn open_dials_the_relay() {
    let mut session = session();
    assert_eq!(session.open(), tunnel::Action::Dial);
    assert_eq!(session.state(), State::Connecting);
}

#[test]
fn open_twice_while_connecting_dials_once() {
    let mut session = session();
    assert_eq!(session.open(), tunnel::Action::Dial);
    assert_eq!(session.open(), tunnel::Action::Stay);
    assert_eq!(session.step(tunnel::Event::Open), tunnel::Action::Stay);
    assert_eq!(session.state(), State::Connecting);
}

#[test]
fn open_on_a_connected_session_does_nothing() {
    let mut session = connected();
    assert_eq!(session.open(), tunnel::Action::Stay);
    assert_eq!(session.state(), State::Connected);
    assert_eq!(session.token(), Some([2u8; 32]));
}

#[test]
fn handshake_leads_to_connected() {
    let mut session = session();
    session.open();
    assert_eq!(
        session.step(tunnel::Event::Challenge([1u8; 32])),
        tunnel::Action::Prove([1u8; 32])
    );
    assert_eq!(session.state(), State::Connecting);
    assert_eq!(session.step(tunnel::Event::Accepted([2u8; 32])), tunnel::Action::Forward);
    assert_eq!(session.state(), State::Connected);
    assert_eq!(session.token(), Some([2u8; 32]));
}

#[test]
fn acceptance_without_proof_is_ignored() {
    let mut session = session();
    session.open();
    assert_eq!(session.step(tunnel::Event::Accepted([2u8; 32])), tunnel::Action::Stay);
    assert_eq!(session.state(), State::Connecting);
    assert_eq!(session.token(), None);
}

#[test]
fn failures_back_off_exponentially_then_give_up() {
    let mut session = TunnelSession::new(
        "relay".to_string(),
        RetryPolicy { max_attempts: 5, base_delay: 100, max_delay: 350 },
    );
    session.open();
    assert_eq!(session.step(tunnel::Event::Broken), tunnel::Action::Wait(100));
    assert_eq!(session.last_error(), Some(TunnelFailure::Transport));
    assert_eq!(session.step(tunnel::Event::TimerFired), tunnel::Action::Dial);
    assert_eq!(session.step(tunnel::Event::Broken), tunnel::Action::Wait(200));
    assert_eq!(session.step(tunnel::Event::TimerFired), tunnel::Action::Dial);
    assert_eq!(session.step(tunnel::Event::Broken), tunnel::Action::Wait(350));
    assert_eq!(session.step(tunnel::Event::TimerFired), tunnel::Action::Dial);
    assert_eq!(session.step(tunnel::Event::Broken), tunnel::Action::Wait(350));
    assert_eq!(session.state(), State::Connecting);
    assert_eq!(session.step(tunnel::Event::TimerFired), tunnel::Action::Dial);
    assert_eq!(
        session.step(tunnel::Event::Broken),
        tunnel::Action::GiveUp(TunnelFailure::Transport)
    );
    assert_eq!(session.state(), State::Closed);
    assert_eq!(session.last_error(), Some(TunnelFailure::Transport));
}

#[test]
fn a_session_that_gave_up_reports_a_tunnel_error() {
    let mut session = TunnelSession::new(
        "relay".to_string(),
        RetryPolicy { max_attempts: 1, base_delay: 1, max_delay: 1 },
    );
    assert_eq!(session.error(), None);
    session.open();
    session.step(tunnel::Event::Challenge([1u8; 32]));
    assert_eq!(session.error(), None);
    session.step(tunnel::Event::Refused);
    assert_eq!(session.state(), State::Closed);
    assert_eq!(session.error(), Some(Error::Tunnel(TunnelFailure::Rejected)));
}

#[test]
fn a_session_closed_on_request_reports_no_error() {
    let mut session = session();
    session.open();
    session.step(tunnel::Event::Broken);
    session.close();
    assert_eq!(session.last_error(), Some(TunnelFailure::Transport));
    assert_eq!(session.error(), None);
}

#[test]
fn wait_after_doubles_up_to_the_cap() {
    let policy = RetryPolicy { max_attempts: 10, base_delay: 3, max_delay: 20 };
    assert_eq!(policy.wait_after(0), 0);
    assert_eq!(policy.wait_after(1), 3);
    assert_eq!(policy.wait_after(2), 6);
    assert_eq!(policy.wait_after(3), 12);
    assert_eq!(policy.wait_after(4), 20);
    assert_eq!(policy.wait_after(5), 20);
    assert_eq!(policy.wait_after(u32::MAX), 20);
    let large = RetryPolicy { max_attempts: 10, base_delay: u64::MAX, max_delay: u64::MAX };
    assert_eq!(large.wait_after(7), u64::MAX);
    let low_cap = RetryPolicy { max_attempts: 10, base_delay: 50, max_delay: 10 };
    assert_eq!(low_cap.wait_after(1), 10);
    let none = RetryPolicy { max_attempts: 10, base_delay: 0, max_delay: 10 };
    assert_eq!(none.wait_after(9), 0);
}

#[test]
fn refusal_counts_as_a_failed_attempt() {
    let mut session = session();
    session.open();
    session.step(tunnel::Event::Challenge([1u8; 32]));
    assert_eq!(session.step(tunnel::Event::Refused), tunnel::Action::Wait(100));
    assert_eq!(session.last_error(), Some(TunnelFailure::Rejected));
    assert_eq!(session.state(), State::Connecting);
}

#[test]
fn refusal_before_any_challenge_is_retried_too() {
    let mut session = session();
    session.open();
    assert_eq!(session.step(tunnel::Event::Refused), tunnel::Action::Wait(100));
    assert_eq!(session.state(), State::Connecting);
    assert_eq!(session.last_error(), Some(TunnelFailure::Rejected));
    assert_eq!(session.step(tunnel::Event::TimerFired), tunnel::Action::Dial);
    assert_eq!(session.step(tunnel::Event::Refused), tunnel::Action::Wait(200));
    assert_eq!(session.step(tunnel::Event::TimerFired), tunnel::Action::Dial);
    assert_eq!(
        session.step(tunnel::Event::Refused),
        tunnel::Action::GiveUp(TunnelFailure::Rejected)
    );
    assert_eq!(session.error(), Some(Error::Tunnel(TunnelFailure::Rejected)));
}

#[test]
fn refusal_is_ignored_where_nothing_was_asked() {
    let mut idle = session();
    assert_eq!(idle.step(tunnel::Event::Refused), tunnel::Action::Stay);
    let mut up = connected();
    assert_eq!(up.step(tunnel::Event::Refused), tunnel::Action::Stay);
    assert_eq!(up.state(), State::Connected);
    let mut waiting = session();
    waiting.open();
    waiting.step(tunnel::Event::Broken);
    assert_eq!(waiting.step(tunnel::Event::Refused), tunnel::Action::Stay);
}

#[test]
fn a_session_says_what_it_waits_for() {
    let mut session = session();
    assert_eq!(session.awaits(), Awaited::Nothing);
    session.open();
    assert_eq!(session.awaits(), Awaited::Relay);
    session.step(tunnel::Event::Broken);
    assert_eq!(session.awaits(), Awaited::Timer);
    session.step(tunnel::Event::TimerFired);
    assert_eq!(session.awaits(), Awaited::Relay);
    session.step(tunnel::Event::Challenge([1u8; 32]));
    assert_eq!(session.awaits(), Awaited::Relay);
    session.step(tunnel::Event::Accepted([2u8; 32]));
    assert_eq!(session.awaits(), Awaited::Relay);
    session.step(tunnel::Event::Broken);
    assert_eq!(session.awaits(), Awaited::Relay);
    session.close();
    assert_eq!(session.awaits(), Awaited::Nothing);
}

#[test]
fn timer_is_ignored_while_an_attempt_is_outstanding() {
    let mut session = session();
    session.open();
    assert_eq!(session.step(tunnel::Event::TimerFired), tunnel::Action::Stay);
}

#[test]
fn a_single_attempt_policy_gives_up_on_the_first_failure() {
    let mut session = TunnelSession::new(
        "relay".to_string(),
        RetryPolicy { max_attempts: 0, base_delay: 100, max_delay: 1000 },
    );
    assert_eq!(session.open(), tunnel::Action::Dial);
    assert_eq!(
        session.step(tunnel::Event::Broken),
        tunnel::Action::GiveUp(TunnelFailure::Transport)
    );
    assert_eq!(session.state(), State::Closed);
}

#[test]
fn policy_is_normalized_to_one_attempt() {
    let zero = RetryPolicy { max_attempts: 0, base_delay: 1, max_delay: 2 };
    assert_eq!(zero.normalized(), RetryPolicy { max_attempts: 1, base_delay: 1, max_delay: 2 });
    assert_eq!(policy().normalized(), policy());
}

#[test]
fn broken_transport_reconnects_with_the_token() {
    let mut session = connected();
    assert_eq!(session.step(tunnel::Event::Broken), tunnel::Action::Resume([2u8; 32]));
    assert_eq!(session.state(), State::Reconnecting);
    assert_eq!(session.step(tunnel::Event::Accepted([2u8; 32])), tunnel::Action::Forward);
    assert_eq!(session.state(), State::Connected);
}

#[test]
fn stale_token_leads_to_fresh_authentication() {
    let mut session = connected();
    session.step(tunnel::Event::Broken);
    assert_eq!(
        session.step(tunnel::Event::Challenge([5u8; 32])),
        tunnel::Action::Prove([5u8; 32])
    );
    assert_eq!(session.token(), None);
    assert_eq!(session.step(tunnel::Event::Accepted([6u8; 32])), tunnel::Action::Forward);
    assert_eq!(session.token(), Some([6u8; 32]));
    assert_eq!(session.state(), State::Connected);
}

#[test]
fn reconnect_retries_with_the_token_after_a_wait() {
    let mut session = connected();
    session.step(tunnel::Event::Broken);
    assert_eq!(session.step(tunnel::Event::Broken), tunnel::Action::Wait(100));
    assert_eq!(session.step(tunnel::Event::TimerFired), tunnel::Action::Resume([2u8; 32]));
    assert_eq!(session.state(), State::Reconnecting);
}

#[test]
fn reconnect_starts_counting_failures_anew() {
    let mut session = session();
    session.open();
    session.step(tunnel::Event::Broken);
    session.step(tunnel::Event::TimerFired);
    session.step(tunnel::Event::Broken);
    session.step(tunnel::Event::TimerFired);
    session.step(tunnel::Event::Challenge([1u8; 32]));
    session.step(tunnel::Event::Accepted([2u8; 32]));
    session.step(tunnel::Event::Broken);
    assert_eq!(session.step(tunnel::Event::Broken), tunnel::Action::Wait(100));
}

#[test]
fn close_reaches_closed_from_every_state() {
    let mut idle = session();
    assert_eq!(idle.close(), tunnel::Action::Shutdown);
    assert_eq!(idle.state(), State::Closed);

    let mut connecting = session();
    connecting.open();
    assert_eq!(connecting.close(), tunnel::Action::Shutdown);
    assert_eq!(connecting.state(), State::Closed);

    let mut up = connected();
    assert_eq!(up.close(), tunnel::Action::Shutdown);
    assert_eq!(up.state(), State::Closed);

    let mut reconnecting = connected();
    reconnecting.step(tunnel::Event::Broken);
    assert_eq!(reconnecting.close(), tunnel::Action::Shutdown);
    assert_eq!(reconnecting.state(), State::Closed);
}

#[test]
fn close_is_idempotent() {
    let mut session = connected();
    assert_eq!(session.close(), tunnel::Action::Shutdown);
    assert_eq!(session.close(), tunnel::Action::Stay);
    assert_eq!(session.state(), State::Closed);
}

#[test]
fn closed_is_terminal() {
    let mut session = session();
    session.close();
    for event in [
        tunnel::Event::Open,
        tunnel::Event::Challenge([1u8; 32]),
        tunnel::Event::Accepted([2u8; 32]),
        tunnel::Event::Refused,
        tunnel::Event::Broken,
        tunnel::Event::TimerFired,
        tunnel::Event::Close,
    ] {
        assert_eq!(session.step(event), tunnel::Action::Stay);
        assert_eq!(session.state(), State::Closed);
    }
}

#[test]
fn phases_are_distinct() {
    assert_ne!(Phase::Resting, Phase::Dialing);
    assert_ne!(Phase::Resuming, Phase::Proving);
    assert_ne!(Phase::Waiting, Phase::Resting);
}

fn local() -> Address {
    Address::new(192, 168, 1, 20)
}

fn public() -> Address {
    Address::new(203, 0, 113, 9)
}

#[test]
fn direct_when_public_address_and_port_probe_succeed() {
    let mut coordinator = Coordinator::new(8080, Some("relay".to_string()), policy());
    assert_eq!(coordinator.stage(), Stage::Idle);
    assert_eq!(coordinator.step(Event::Start), Action::ResolveLocal);
    assert_eq!(coordinator.step(Event::Local(Ok(local()))), Action::ProbePort(local(), 8080));
    assert_eq!(coordinator.step(Event::Port(Ok(true), 1700)), Action::ResolvePublic);
    assert_eq!(
        coordinator.step(Event::Public(Ok(public()))),
        Action::ConfirmInbound(public(), 8080)
    );
    assert_eq!(coordinator.outcome(), None);
    assert_eq!(coordinator.step(Event::Inbound(true)), Action::Stay);
    assert_eq!(coordinator.outcome(), Some(Reachability::Direct(public(), 8080)));
    assert_eq!(coordinator.stage(), Stage::Done);
    assert_eq!(
        coordinator.record(),
        Some(AddressRecord {
            local: local(),
            public: Some(public()),
            port: 8080,
            port_available: true,
            probed_at: 1700,
        })
    );
}

#[test]
fn tunneled_when_direct_checks_fail_and_the_relay_accepts() {
    let mut coordinator = Coordinator::new(8080, Some("relay".to_string()), policy());
    coordinator.step(Event::Start);
    coordinator.step(Event::Local(Ok(local())));
    coordinator.step(Event::Port(Ok(false), 1700));
    assert_eq!(
        coordinator.step(Event::Public(Ok(public()))),
        Action::Tunnel(tunnel::Action::Dial)
    );
    assert_eq!(coordinator.stage(), Stage::Tunnelling);
    assert_eq!(
        coordinator.step(Event::Tunnel(tunnel::Event::Challenge([1u8; 32]))),
        Action::Tunnel(tunnel::Action::Prove([1u8; 32]))
    );
    assert_eq!(coordinator.outcome(), None);
    assert_eq!(
        coordinator.step(Event::Tunnel(tunnel::Event::Accepted([2u8; 32]))),
        Action::Tunnel(tunnel::Action::Forward)
    );
    assert_eq!(coordinator.outcome(), Some(Reachability::Tunneled([2u8; 32])));
    assert_eq!(coordinator.session().map(|session| session.state()), Some(State::Connected));
    assert_eq!(coordinator.record().map(|record| record.port_available), Some(false));
}

#[test]
fn tunneled_when_the_probe_from_outside_does_not_come_in() {
    let mut coordinator = Coordinator::new(8080, Some("relay".to_string()), policy());
    coordinator.step(Event::Start);
    coordinator.step(Event::Local(Ok(local())));
    coordinator.step(Event::Port(Ok(true), 1700));
    coordinator.step(Event::Public(Ok(public())));
    assert_eq!(coordinator.step(Event::Inbound(false)), Action::Tunnel(tunnel::Action::Dial));
    coordinator.step(Event::Tunnel(tunnel::Event::Challenge([1u8; 32])));
    coordinator.step(Event::Tunnel(tunnel::Event::Accepted([4u8; 32])));
    assert_eq!(coordinator.outcome(), Some(Reachability::Tunneled([4u8; 32])));
}

#[test]
fn unreachable_when_the_tunnel_gives_up() {
    let mut coordinator = Coordinator::new(
        8080,
        Some("relay".to_string()),
        RetryPolicy { max_attempts: 2, base_delay: 10, max_delay: 100 },
    );
    coordinator.step(Event::Start);
    assert_eq!(
        coordinator.step(Event::Local(Err(Error::NoRoute))),
        Action::Tunnel(tunnel::Action::Dial)
    );
    assert_eq!(
        coordinator.step(Event::Tunnel(tunnel::Event::Broken)),
        Action::Tunnel(tunnel::Action::Wait(10))
    );
    assert_eq!(
        coordinator.step(Event::Tunnel(tunnel::Event::TimerFired)),
        Action::Tunnel(tunnel::Action::Dial)
    );
    assert_eq!(coordinator.outcome(), None);
    assert_eq!(
        coordinator.step(Event::Tunnel(tunnel::Event::Broken)),
        Action::Tunnel(tunnel::Action::GiveUp(TunnelFailure::Transport))
    );
    assert_eq!(coordinator.outcome(), Some(Reachability::Unreachable));
    assert_eq!(coordinator.record(), None);
}

#[test]
fn unreachable_without_public_exposure_and_without_relay() {
    // A node labelled "node-A" behind a router: the port is free, but no
    // service reports a public address, and no relay is configured.
    let mut coordinator = Coordinator::new(8080, None, policy());
    coordinator.step(Event::Start);
    coordinator.step(Event::Local(Ok(local())));
    coordinator.step(Event::Port(Ok(true), 1700));
    assert_eq!(coordinator.step(Event::Public(Err(Error::Unreachable))), Action::Stay);
    assert_eq!(coordinator.outcome(), Some(Reachability::Unreachable));
    assert!(coordinator.session().is_none());
}

#[test]
fn a_failed_probe_counts_as_a_port_that_is_not_free() {
    let mut coordinator = Coordinator::new(8080, None, policy());
    coordinator.step(Event::Start);
    coordinator.step(Event::Local(Ok(local())));
    assert_eq!(coordinator.step(Event::Port(Err(Error::Probe), 5)), Action::ResolvePublic);
    assert_eq!(coordinator.step(Event::Public(Ok(public()))), Action::Stay);
    assert_eq!(coordinator.outcome(), Some(Reachability::Unreachable));
}

#[test]
fn events_out_of_turn_are_ignored() {
    let mut coordinator = Coordinator::new(8080, Some("relay".to_string()), policy());
    assert_eq!(coordinator.step(Event::Inbound(true)), Action::Stay);
    assert_eq!(coordinator.step(Event::Public(Ok(public()))), Action::Stay);
    assert_eq!(coordinator.step(Event::Tunnel(tunnel::Event::Open)), Action::Stay);
    assert_eq!(coordinator.stage(), Stage::Idle);
    assert_eq!(coordinator.step(Event::Start), Action::ResolveLocal);
    assert_eq!(coordinator.step(Event::Start), Action::Stay);
}

#[test]
fn the_decision_stands_while_the_session_lives_on() {
    let mut coordinator = Coordinator::new(8080, Some("relay".to_string()), policy());
    coordinator.step(Event::Start);
    coordinator.step(Event::Local(Err(Error::NoRoute)));
    coordinator.step(Event::Tunnel(tunnel::Event::Challenge([1u8; 32])));
    coordinator.step(Event::Tunnel(tunnel::Event::Accepted([2u8; 32])));
    assert_eq!(
        coordinator.step(Event::Tunnel(tunnel::Event::Broken)),
        Action::Tunnel(tunnel::Action::Resume([2u8; 32]))
    );
    assert_eq!(coordinator.outcome(), Some(Reachability::Tunneled([2u8; 32])));
    assert_eq!(
        coordinator.step(Event::Tunnel(tunnel::Event::Close)),
        Action::Tunnel(tunnel::Action::Shutdown)
    );
    assert_eq!(coordinator.outcome(), Some(Reachability::Tunneled([2u8; 32])));
    assert_eq!(coordinator.session().map(|session| session.state()), Some(State::Closed));
}

#[test]
fn a_coordinator_says_what_it_waits_for() {
    let mut coordinator = Coordinator::new(8080, Some("relay".to_string()), policy());
    assert_eq!(coordinator.needs(), Need::Start);
    assert_eq!(coordinator.decision(), Reachability::Unreachable);
    coordinator.step(Event::Start);
    assert_eq!(coordinator.needs(), Need::Local);
    coordinator.step(Event::Local(Ok(local())));
    assert_eq!(coordinator.needs(), Need::Port(local(), 8080));
    coordinator.step(Event::Port(Ok(true), 1700));
    assert_eq!(coordinator.needs(), Need::Public);
    coordinator.step(Event::Public(Ok(public())));
    assert_eq!(coordinator.needs(), Need::Inbound(public(), 8080));
    coordinator.step(Event::Inbound(false));
    assert_eq!(coordinator.needs(), Need::Tunnel(Awaited::Relay));
    coordinator.step(Event::Tunnel(tunnel::Event::Refused));
    assert_eq!(coordinator.needs(), Need::Tunnel(Awaited::Timer));
    coordinator.step(Event::Tunnel(tunnel::Event::TimerFired));
    assert_eq!(coordinator.needs(), Need::Tunnel(Awaited::Relay));
    coordinator.step(Event::Tunnel(tunnel::Event::Challenge([1u8; 32])));
    coordinator.step(Event::Tunnel(tunnel::Event::Accepted([2u8; 32])));
    assert_eq!(coordinator.needs(), Need::Nothing);
    assert_eq!(coordinator.decision(), Reachability::Tunneled([2u8; 32]));
}

#[test]
fn a_relay_that_refuses_at_once_is_tried_again_before_giving_up() {
    let mut coordinator = Coordinator::new(
        8080,
        Some("relay".to_string()),
        RetryPolicy { max_attempts: 2, base_delay: 10, max_delay: 100 },
    );
    coordinator.step(Event::Start);
    coordinator.step(Event::Local(Err(Error::NoRoute)));
    assert_eq!(
        coordinator.step(Event::Tunnel(tunnel::Event::Refused)),
        Action::Tunnel(tunnel::Action::Wait(10))
    );
    assert_eq!(coordinator.outcome(), None);
    coordinator.step(Event::Tunnel(tunnel::Event::TimerFired));
    assert_eq!(
        coordinator.step(Event::Tunnel(tunnel::Event::Refused)),
        Action::Tunnel(tunnel::Action::GiveUp(TunnelFailure::Rejected))
    );
    assert_eq!(coordinator.decision(), Reachability::Unreachable);
    assert_eq!(coordinator.needs(), Need::Nothing);
}
