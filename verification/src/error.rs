//! The failures that the library reports.

use vstd::prelude::*;

verus! {

/// Why a tunnel session gave up.
#[derive(Clone, Copy, Debug, PartialEq, Eq, Structural)]
pub enum TunnelFailure {
    /// The relay could not be reached, or the connection broke, on every
    /// attempt that the session was allowed.
    Transport,
    /// The relay turned the identity down on every attempt.
    Rejected,
}

/// A failure, by the part of the library that met it.
#[derive(Clone, Copy, Debug, PartialEq, Eq, Structural)]
pub enum Error {
    /// A local file or socket could not be read.
    Io,
    /// No local interface has a route to the outside.
    NoRoute,
    /// Every address-reflection service failed or timed out.
    Unreachable,
    /// A port probe met an operating-system error other than "address in use".
    Probe,
    /// Key generation or signing failed.
    Signing,
    /// A tunnel session ran out of attempts.
    Tunnel(TunnelFailure),
}

impl Error {
    /// What `message` says of each failure.
    pub open spec fn message_text(self) -> Seq<char> {
        match self {
            Error::Io => "input/output error"@,
            Error::NoRoute => "no route to the outside"@,
            Error::Unreachable => "no reflection service answered"@,
            Error::Probe => "port probe failed"@,
            Error::Signing => "signing failed"@,
            Error::Tunnel(TunnelFailure::Transport) => "tunnel transport failed"@,
            Error::Tunnel(TunnelFailure::Rejected) => "relay rejected the identity"@,
        }
    }

    /// A short description for people.
    pub fn message(&self) -> (text: &'static str)
        ensures
            text@ == self.message_text(),
    {
        match self {
            Error::Io => "input/output error",
            Error::NoRoute => "no route to the outside",
            Error::Unreachable => "no reflection service answered",
            Error::Probe => "port probe failed",
            Error::Signing => "signing failed",
            Error::Tunnel(TunnelFailure::Transport) => "tunnel transport failed",
            Error::Tunnel(TunnelFailure::Rejected) => "relay rejected the identity",
        }
    }
}

} // verus!
