//! Decisions of address discovery: which answer of the reflection services
//! counts, what a bind probe says of a port, and what is handed to a caller
//! who wants text.
//!
//! The services are asked at the same time and the first one to give an
//! address wins. A lookup fails only when every service has failed or timed
//! out. Whoever does the asking records each outcome as it arrives in a
//! [`PublicLookup`] and stops when the lookup is settled.
//!
//! Every address here is an IPv4 address, so a lookup has no family to
//! prefer: a service that answers with an IPv6 address has given no address.

use crate::address::{dotted, Address};
use crate::error::Error;
use vstd::prelude::*;

verus! {

/// What binding a listening socket to a port came to.
#[derive(Clone, Copy, Debug, PartialEq, Eq, Structural)]
pub enum BindOutcome {
    /// The socket was bound, and released again.
    Bound,
    /// The operating system said that the address is in use.
    AddressInUse,
    /// The operating system gave another error.
    Refused,
}

/// Whether a port is free, by what binding it came to. A port in use is an
/// answer; any other refusal of the operating system is a failed probe.
pub fn port_available(outcome: BindOutcome) -> (available: Result<bool, Error>)
    ensures
        available == match outcome {
            BindOutcome::Bound => Ok::<bool, Error>(true),
            BindOutcome::AddressInUse => Ok::<bool, Error>(false),
            BindOutcome::Refused => Err::<bool, Error>(Error::Probe),
        },
{
    match outcome {
        BindOutcome::Bound => Ok(true),
        BindOutcome::AddressInUse => Ok(false),
        BindOutcome::Refused => Err(Error::Probe),
    }
}

/// The text of a discovered address: dotted decimal, or the empty text where
/// discovery failed.
pub open spec fn address_text_of(found: Result<Address, Error>) -> Seq<char> {
    match found {
        Ok(address) => dotted(address@),
        Err(_) => Seq::empty(),
    }
}

/// The text handed to a caller who asked for an address. Failure is not
/// passed on: it is the empty text, which is the text of no address.
pub fn address_text(found: Result<Address, Error>) -> (text: String)
    ensures
        text@ == address_text_of(found),
{
    match found {
        Ok(address) => address.to_text(),
        Err(_) => String::new(),
    }
}

/// How far a lookup of the public address has come.
#[derive(Clone, Copy, Debug, PartialEq, Eq)]
pub enum LookupStatus {
    /// No service has given an address yet, and some have not answered.
    Pending,
    /// A service gave this address.
    Resolved(Address),
    /// Every service failed or timed out.
    Failed,
}

/// A lookup of the public address among a number of reflection services.
#[derive(Clone, Copy, Debug)]
pub struct PublicLookup {
    services: usize,
    failed: usize,
    winner: Option<Address>,
}

/// What a lookup holds: how many services were asked, how many of them have
/// failed, and the first address that any of them gave.
pub struct LookupView {
    pub services: nat,
    pub failed: nat,
    pub winner: Option<Address>,
}

impl LookupView {
    /// The status that follows from what the lookup holds.
    pub open spec fn status(self) -> LookupStatus {
        match self.winner {
            Some(address) => LookupStatus::Resolved(address),
            None => if self.failed >= self.services {
                LookupStatus::Failed
            } else {
                LookupStatus::Pending
            },
        }
    }

    /// The lookup after one more outcome has arrived. While the lookup is
    /// pending, an address settles it and a failure is counted. Once it is
    /// settled, what arrives later changes nothing.
    pub open spec fn record(self, outcome: Option<Address>) -> LookupView {
        if self.status() != LookupStatus::Pending {
            self
        } else {
            match outcome {
                Some(address) => LookupView { winner: Some(address), ..self },
                None => LookupView { failed: self.failed + 1, ..self },
            }
        }
    }
}

impl View for PublicLookup {
    type V = LookupView;

    closed spec fn view(&self) -> LookupView {
        LookupView {
            services: self.services as nat,
            failed: self.failed as nat,
            winner: self.winner,
        }
    }
}

impl PublicLookup {
    /// A lookup among `services` services, none of which has answered.
    pub fn new(services: usize) -> (lookup: PublicLookup)
        ensures
            lookup@ == (LookupView { services: services as nat, failed: 0, winner: None }),
    {
        PublicLookup { services, failed: 0, winner: None }
    }

    /// Records the outcome of one service: the address it gave, or nothing
    /// where it failed or timed out.
    pub fn record(&mut self, outcome: Option<Address>)
        ensures
            final(self)@ == old(self)@.record(outcome),
    {
        if self.winner.is_none() && self.failed < self.services {
            match outcome {
                Some(address) => {
                    self.winner = Some(address);
                },
                None => {
                    self.failed = self.failed + 1;
                },
            }
        }
    }

    /// How far the lookup has come.
    pub fn status(&self) -> (status: LookupStatus)
        ensures
            status == self@.status(),
    {
        match self.winner {
            Some(address) => LookupStatus::Resolved(address),
            None => if self.failed >= self.services {
                LookupStatus::Failed
            } else {
                LookupStatus::Pending
            },
        }
    }

    /// The result of the lookup once it is settled: the address, or the
    /// failure of every service.
    pub fn result(&self) -> (result: Option<Result<Address, Error>>)
        ensures
            result == match self@.status() {
                LookupStatus::Pending => None::<Result<Address, Error>>,
                LookupStatus::Resolved(address) => Some(Ok::<Address, Error>(address)),
                LookupStatus::Failed => Some(Err::<Address, Error>(Error::Unreachable)),
            },
    {
        match self.status() {
            LookupStatus::Pending => None,
            LookupStatus::Resolved(address) => Some(Ok(address)),
            LookupStatus::Failed => Some(Err(Error::Unreachable)),
        }
    }
}

/// The lookup after a sequence of outcomes, in the order of their arrival.
pub open spec fn after(lookup: LookupView, outcomes: Seq<Option<Address>>) -> LookupView
    decreases outcomes.len(),
{
    if outcomes.len() == 0 {
        lookup
    } else {
        after(lookup, outcomes.drop_last()).record(outcomes.last())
    }
}

/// The first address to arrive wins: once a lookup is resolved, it stays
/// resolved to the same address whatever arrives later.
pub proof fn first_success_wins(lookup: LookupView, later: Seq<Option<Address>>)
    requires
        lookup.status() is Resolved,
    ensures
        after(lookup, later) == lookup,
    decreases later.len(),
{
    if later.len() > 0 {
        first_success_wins(lookup, later.drop_last());
    }
}

/// A lookup fails only when every service has failed: a fresh lookup among
/// `services` services is failed after some outcomes exactly if there are at
/// least that many of them and none of the first `services` is an address.
pub proof fn fails_only_when_all_fail(services: nat, outcomes: Seq<Option<Address>>)
    ensures
        after(fresh(services), outcomes).status() is Failed <==> outcomes.len() >= services
            && all_failed(outcomes, services),
{
    lemma_outcomes_counted(services, outcomes);
}

/// A lookup among `services` services, none of which has answered.
pub open spec fn fresh(services: nat) -> LookupView {
    LookupView { services, failed: 0, winner: None }
}

/// Whether none of the first `count` outcomes is an address.
pub open spec fn all_failed(outcomes: Seq<Option<Address>>, count: nat) -> bool {
    forall|i: int| 0 <= i < outcomes.len() && i < count ==> outcomes[i] is None
}

/// A fresh lookup has no winner exactly while every outcome that counted was
/// a failure, and then it has counted them all.
proof fn lemma_outcomes_counted(services: nat, outcomes: Seq<Option<Address>>)
    ensures
        after(fresh(services), outcomes).services == services,
        after(fresh(services), outcomes).winner is None <==> all_failed(outcomes, services),
        after(fresh(services), outcomes).winner is None ==> after(fresh(services), outcomes).failed
            == if outcomes.len() < services {
            outcomes.len()
        } else {
            services
        },
    decreases outcomes.len(),
{
    if outcomes.len() > 0 {
        let before = outcomes.drop_last();
        lemma_outcomes_counted(services, before);
        assert(forall|i: int| 0 <= i < before.len() ==> before[i] == outcomes[i]);
    }
}

} // verus!
