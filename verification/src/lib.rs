//! Self-sovereign node identity and reachability.
//!
//! The crate has two halves. The identity half derives a stable identifier
//! from generated key material, hashes content, and issues and checks signed
//! claims. The reachability half decides how a peer can reach this node:
//! directly, through a reverse tunnel to a relay, or not at all.
//!
//! The library opens no socket, reads no file and asks no clock: those belong
//! to the caller, who feeds what it observed into the state machines and
//! carries out the actions they answer with. The one thing the library takes
//! from the operating system itself is randomness, for the key material of a
//! new identity.
//!
//! Addresses are IPv4 addresses. IPv6 is not served: no address of that
//! family is read, written or decided upon.

pub mod address;
pub mod base64url;
pub mod bytes;
pub mod claim;
pub mod digest;
pub mod ed25519;
pub mod entropy;
pub mod error;
pub mod handshake;
pub mod identity;
pub mod reachability;
pub mod reflection;
pub mod resolver;
pub mod sha256;
pub mod text;
pub mod tunnel;
pub mod wire;
