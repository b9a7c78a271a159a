//! The messages of the relay's control channel and their bytes.
//!
//! A message is one byte that says which message it is, followed by its
//! fields, each of a fixed length. So the first byte tells how many more
//! belong to the message, and every message has exactly one encoding.
//!
//! The module also says what carrying out an action of a session comes to on
//! the channel, and what the relay's word, or its silence, means to the
//! session. Whoever runs a session connects, sends, sleeps and listens as
//! told here, and decides nothing.

use crate::digest::sha256;
use crate::ed25519;
use crate::error::Error;
use crate::handshake::{answer_challenge, challenge_message, Answer};
use crate::identity::Identity;
use crate::tunnel;
use crate::tunnel::{Awaited, Nonce, Token};
use vstd::prelude::*;

verus! {

/// A message between a node and a relay.
#[derive(Clone, Copy, Debug, PartialEq, Eq)]
pub enum Message {
    /// The node asks for a new session.
    Hello,
    /// The node asks for its session back.
    Resume(Token),
    /// The relay challenges the node.
    Challenge(Nonce),
    /// The node answers the challenge with its public key and a signature.
    Answer([u8; 32], [u8; 64]),
    /// The relay accepts the session.
    Accepted(Token),
    /// The relay refuses what the node sent.
    Refused,
    /// Either side says that it is still there.
    Heartbeat,
}

impl Message {
    /// The byte that says which message this is.
    pub open spec fn tag(self) -> u8 {
        match self {
            Message::Hello => 1,
            Message::Resume(_) => 2,
            Message::Challenge(_) => 3,
            Message::Answer(_, _) => 4,
            Message::Accepted(_) => 5,
            Message::Refused => 6,
            Message::Heartbeat => 7,
        }
    }

    /// The fields of the message, one after the other.
    pub open spec fn body(self) -> Seq<u8> {
        match self {
            Message::Resume(token) => token@,
            Message::Challenge(nonce) => nonce@,
            Message::Answer(public_key, signature) => public_key@ + signature@,
            Message::Accepted(token) => token@,
            _ => Seq::empty(),
        }
    }

    /// The bytes of the message.
    pub open spec fn encoding(self) -> Seq<u8> {
        seq![self.tag()] + self.body()
    }
}

/// The number of bytes that follow a first byte, where it starts a message.
pub open spec fn body_len_of(tag: u8) -> Option<usize> {
    if tag == 1 || tag == 6 || tag == 7 {
        Some(0)
    } else if tag == 2 || tag == 3 || tag == 5 {
        Some(32)
    } else if tag == 4 {
        Some(96)
    } else {
        None
    }
}

/// How many bytes to read after the first byte of a message.
pub fn body_len(tag: u8) -> (len: Option<usize>)
    ensures
        len == body_len_of(tag),
{
    if tag == 1 || tag == 6 || tag == 7 {
        Some(0)
    } else if tag == 2 || tag == 3 || tag == 5 {
        Some(32)
    } else if tag == 4 {
        Some(96)
    } else {
        None
    }
}

/// The body of every message is as long as its first byte says.
pub proof fn body_is_as_long_as_announced(message: Message)
    ensures
        body_len_of(message.tag()) == Some(message.body().len() as usize),
{
}

fn take32(bytes: &[u8], at: usize) -> (out: [u8; 32])
    requires
        at + 32 <= bytes@.len(),
    ensures
        out@ == bytes@.subrange(at as int, at + 32),
{
    let mut out = [0u8; 32];
    let len = bytes.len();
    let mut i: usize = 0;
    while i < 32
        invariant
            i <= 32,
            len == bytes@.len(),
            at + 32 <= len,
            forall|j: int| 0 <= j < i ==> out@[j] == bytes@[at + j],
        decreases 32 - i,
    {
        out[i] = bytes[at + i];
        i += 1;
    }
    assert(out@ =~= bytes@.subrange(at as int, at + 32));
    out
}

fn take64(bytes: &[u8], at: usize) -> (out: [u8; 64])
    requires
        at + 64 <= bytes@.len(),
    ensures
        out@ == bytes@.subrange(at as int, at + 64),
{
    let mut out = [0u8; 64];
    let len = bytes.len();
    let mut i: usize = 0;
    while i < 64
        invariant
            i <= 64,
            len == bytes@.len(),
            at + 64 <= len,
            forall|j: int| 0 <= j < i ==> out@[j] == bytes@[at + j],
        decreases 64 - i,
    {
        out[i] = bytes[at + i];
        i += 1;
    }
    assert(out@ =~= bytes@.subrange(at as int, at + 64));
    out
}

/// Writes a message out.
pub fn encode(message: &Message) -> (bytes: Vec<u8>)
    ensures
        bytes@ == message.encoding(),
{
    let mut bytes: Vec<u8> = Vec::new();
    match message {
        Message::Hello => {
            bytes.push(1);
        },
        Message::Resume(token) => {
            bytes.push(2);
            bytes.extend_from_slice(token.as_slice());
        },
        Message::Challenge(nonce) => {
            bytes.push(3);
            bytes.extend_from_slice(nonce.as_slice());
        },
        Message::Answer(public_key, signature) => {
            bytes.push(4);
            bytes.extend_from_slice(public_key.as_slice());
            bytes.extend_from_slice(signature.as_slice());
        },
        Message::Accepted(token) => {
            bytes.push(5);
            bytes.extend_from_slice(token.as_slice());
        },
        Message::Refused => {
            bytes.push(6);
        },
        Message::Heartbeat => {
            bytes.push(7);
        },
    }
    assert(bytes@ =~= message.encoding());
    bytes
}

/// Reads a message. Bytes are accepted exactly if they are the encoding of
/// some message, which is then the answer.
pub fn decode(bytes: &[u8]) -> (decoded: Option<Message>)
    ensures
        decoded matches Some(message) ==> message.encoding() == bytes@,
        decoded is None ==> forall|message: Message| #[trigger] message.encoding() != bytes@,
{
    if bytes.len() == 0 {
        assert forall|message: Message| #[trigger] message.encoding() != bytes@ by {
            assert(message.encoding().len() > 0);
        }
        return None;
    }
    let tag = bytes[0];
    let expected = match body_len(tag) {
        Some(len) => len,
        None => {
            assert forall|message: Message| #[trigger] message.encoding() != bytes@ by {
                assert(message.encoding()[0] == message.tag());
            }
            return None;
        },
    };
    if bytes.len() - 1 != expected {
        assert forall|message: Message| #[trigger] message.encoding() != bytes@ by {
            assert(message.encoding()[0] == message.tag());
            body_is_as_long_as_announced(message);
        }
        return None;
    }
    let message = if tag == 1 {
        Message::Hello
    } else if tag == 2 {
        Message::Resume(take32(bytes, 1))
    } else if tag == 3 {
        Message::Challenge(take32(bytes, 1))
    } else if tag == 4 {
        Message::Answer(take32(bytes, 1), take64(bytes, 33))
    } else if tag == 5 {
        Message::Accepted(take32(bytes, 1))
    } else if tag == 6 {
        Message::Refused
    } else {
        Message::Heartbeat
    };
    assert(message.encoding() =~= bytes@);
    Some(message)
}

/// Different messages have different bytes.
pub proof fn encoding_is_injective(first: Message, second: Message)
    requires
        first.encoding() == second.encoding(),
    ensures
        first == second,
{
    let a = first.encoding();
    let b = second.encoding();
    assert(a[0] == first.tag() && b[0] == second.tag());
    assert(first.body() =~= a.subrange(1, a.len() as int));
    assert(second.body() =~= b.subrange(1, b.len() as int));
    match (first, second) {
        (Message::Resume(x), Message::Resume(y)) => {
            assert(x =~= y);
        },
        (Message::Challenge(x), Message::Challenge(y)) => {
            assert(x =~= y);
        },
        (Message::Accepted(x), Message::Accepted(y)) => {
            assert(x =~= y);
        },
        (Message::Answer(key_x, sig_x), Message::Answer(key_y, sig_y)) => {
            let body_x = first.body();
            let body_y = second.body();
            assert(key_x@ =~= body_x.subrange(0, 32));
            assert(key_y@ =~= body_y.subrange(0, 32));
            assert(sig_x@ =~= body_x.subrange(32, 96));
            assert(sig_y@ =~= body_y.subrange(32, 96));
            assert(key_x =~= key_y);
            assert(sig_x =~= sig_y);
        },
        _ => {},
    }
}

/// The message that carries an answer to the relay.
pub fn answer_message(answer: &Answer) -> (message: Message)
    ensures
        message.encoding() == seq![4u8] + answer@.public_key + answer@.signature,
{
    let message = Message::Answer(answer.public_key(), answer.signature());
    assert(message.encoding() =~= seq![4u8] + answer@.public_key + answer@.signature);
    message
}

/// The answer that a message carries, as the relay takes it: the identifier
/// is the one that belongs to the public key.
pub fn answer_of(message: &Message) -> (answer: Option<Answer>)
    ensures
        match *message {
            Message::Answer(public_key, signature) => answer matches Some(carried) && carried@ == (
            crate::handshake::AnswerView {
                identifier: crate::identity::identifier_of(public_key@),
                public_key: public_key@,
                signature: signature@,
            }),
            _ => answer is None,
        },
{
    match message {
        Message::Answer(public_key, signature) => Some(
            Answer::from_parts(sha256(public_key.as_slice()), *public_key, *signature),
        ),
        _ => None,
    }
}

/// What carrying out an action of a session comes to.
#[derive(Clone, Copy, Debug, PartialEq, Eq)]
pub enum Errand {
    /// Connect to the relay and send the message.
    Connect(Message),
    /// Send the message on the connection that is open.
    Send(Message),
    /// Sleep this many milliseconds.
    Sleep(u64),
    /// Drop the connection.
    HangUp,
    /// Nothing.
    Nothing,
}

/// What carrying out `action` comes to for `identity`: a fresh attempt
/// connects and greets, a challenge is answered with the identity's
/// signature, a wait is slept, and a session that ends hangs up.
pub fn errand(action: &tunnel::Action, identity: &Identity) -> (made: Result<Errand, Error>)
    ensures
        made matches Ok(errand) && match *action {
            tunnel::Action::Dial => errand == Errand::Connect(Message::Hello),
            tunnel::Action::Resume(token) => errand == Errand::Connect(Message::Resume(token)),
            tunnel::Action::Prove(nonce) => {
                &&& errand matches Errand::Send(Message::Answer(public_key, signature))
                &&& public_key@ == identity@.public_key
                &&& signature@ == ed25519::signature_of(
                    identity@.seed,
                    challenge_message(identity@.identifier, nonce@),
                )
            },
            tunnel::Action::Wait(milliseconds) => errand == Errand::Sleep(milliseconds),
            tunnel::Action::GiveUp(_) => errand == Errand::HangUp,
            tunnel::Action::Shutdown => errand == Errand::HangUp,
            tunnel::Action::Forward => errand == Errand::Nothing,
            tunnel::Action::Stay => errand == Errand::Nothing,
        },
{
    match action {
        tunnel::Action::Dial => Ok(Errand::Connect(Message::Hello)),
        tunnel::Action::Resume(token) => Ok(Errand::Connect(Message::Resume(*token))),
        tunnel::Action::Prove(nonce) => match answer_challenge(identity, nonce) {
            Ok(answer) => Ok(Errand::Send(Message::Answer(answer.public_key(), answer.signature()))),
            Err(error) => Err(error),
        },
        tunnel::Action::Wait(milliseconds) => Ok(Errand::Sleep(*milliseconds)),
        tunnel::Action::GiveUp(_) => Ok(Errand::HangUp),
        tunnel::Action::Shutdown => Ok(Errand::HangUp),
        tunnel::Action::Forward => Ok(Errand::Nothing),
        tunnel::Action::Stay => Ok(Errand::Nothing),
    }
}

/// What comes after listening or waiting.
#[derive(Clone, Copy, Debug, PartialEq, Eq)]
pub enum Next {
    /// This happened to the session.
    Event(tunnel::Event),
    /// Nothing that concerns the session: listen on.
    Listen,
    /// Nothing is waited for.
    Rest,
}

/// What the relay's word, or its silence, means to a session that listens:
/// silence or a broken connection is a broken transport, a heartbeat means
/// nothing, a challenge, an acceptance and a refusal are events, and a
/// message that only a node sends is a broken transport too.
pub open spec fn heard(received: Option<Message>) -> Next {
    match received {
        None => Next::Event(tunnel::Event::Broken),
        Some(Message::Heartbeat) => Next::Listen,
        Some(Message::Challenge(nonce)) => Next::Event(tunnel::Event::Challenge(nonce)),
        Some(Message::Accepted(token)) => Next::Event(tunnel::Event::Accepted(token)),
        Some(Message::Refused) => Next::Event(tunnel::Event::Refused),
        Some(_) => Next::Event(tunnel::Event::Broken),
    }
}

/// What comes next for a session that waits for `awaited`, where `received`
/// is what came from the relay, if it was listened to.
pub open spec fn next_of(awaited: Awaited, received: Option<Message>) -> Next {
    match awaited {
        Awaited::Relay => heard(received),
        Awaited::Timer => Next::Event(tunnel::Event::TimerFired),
        Awaited::Nothing => Next::Rest,
    }
}

/// Says what comes next for a session that waits for `awaited`.
pub fn next_event(awaited: Awaited, received: Option<Message>) -> (next: Next)
    ensures
        next == next_of(awaited, received),
{
    match awaited {
        Awaited::Relay => match received {
            None => Next::Event(tunnel::Event::Broken),
            Some(Message::Heartbeat) => Next::Listen,
            Some(Message::Challenge(nonce)) => Next::Event(tunnel::Event::Challenge(nonce)),
            Some(Message::Accepted(token)) => Next::Event(tunnel::Event::Accepted(token)),
            Some(Message::Refused) => Next::Event(tunnel::Event::Refused),
            Some(_) => Next::Event(tunnel::Event::Broken),
        },
        Awaited::Timer => Next::Event(tunnel::Event::TimerFired),
        Awaited::Nothing => Next::Rest,
    }
}

} // verus!
