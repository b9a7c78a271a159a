//! Reading the answer of an address-reflection service.
//!
//! A reflection service is asked over HTTP and answers with the address it
//! saw the request come from, as plain text. This module takes the whole
//! response as bytes: it wants a status of 200, takes what follows the empty
//! line as the body, sets aside the white space around it, and reads the
//! address. Anything else is no answer, and so is an IPv6 address: only
//! dotted decimal is read.

use crate::address::{dotted, Address};
use crate::text::push_char;
use vstd::prelude::*;

verus! {

/// Whether a byte is a space, a tab, a line feed or a carriage return.
pub open spec fn is_space(byte: u8) -> bool {
    byte == 32 || byte == 9 || byte == 10 || byte == 13
}

/// Whether a response begins with `HTTP/1.0 200` or `HTTP/1.1 200`.
pub open spec fn status_is_ok(response: Seq<u8>) -> bool {
    &&& response.len() >= 12
    &&& response[0] == 72
    &&& response[1] == 84
    &&& response[2] == 84
    &&& response[3] == 80
    &&& response[4] == 47
    &&& response[5] == 49
    &&& response[6] == 46
    &&& (response[7] == 48 || response[7] == 49)
    &&& response[8] == 32
    &&& response[9] == 50
    &&& response[10] == 48
    &&& response[11] == 48
}

/// Whether the empty line that ends the head stands at position `at`.
pub open spec fn empty_line_at(response: Seq<u8>, at: int) -> bool {
    &&& 0 <= at
    &&& at + 4 <= response.len()
    &&& response[at] == 13
    &&& response[at + 1] == 10
    &&& response[at + 2] == 13
    &&& response[at + 3] == 10
}

/// Where the body begins: after the first empty line at or after `from`.
pub open spec fn body_start(response: Seq<u8>, from: int) -> Option<int>
    decreases response.len() - from,
{
    if from < 0 || from + 4 > response.len() {
        None
    } else if empty_line_at(response, from) {
        Some(from + 4)
    } else {
        body_start(response, from + 1)
    }
}

/// The bytes without the white space in front.
pub open spec fn trim_start(bytes: Seq<u8>) -> Seq<u8>
    decreases bytes.len(),
{
    if bytes.len() > 0 && is_space(bytes[0]) {
        trim_start(bytes.skip(1))
    } else {
        bytes
    }
}

/// The bytes without the white space at the end.
pub open spec fn trim_end(bytes: Seq<u8>) -> Seq<u8>
    decreases bytes.len(),
{
    if bytes.len() > 0 && is_space(bytes.last()) {
        trim_end(bytes.drop_last())
    } else {
        bytes
    }
}

/// Bytes as characters, each byte the character of its number.
pub open spec fn as_chars(bytes: Seq<u8>) -> Seq<char> {
    Seq::new(bytes.len(), |i: int| bytes[i] as char)
}

/// The text that a response answers with: the body of a response with status
/// 200, without the white space around it.
pub open spec fn answer_text(response: Seq<u8>) -> Option<Seq<char>> {
    if !status_is_ok(response) {
        None
    } else {
        match body_start(response, 0) {
            Some(start) => Some(as_chars(trim_end(trim_start(response.skip(start))))),
            None => None,
        }
    }
}

fn check_status(response: &[u8]) -> (ok: bool)
    ensures
        ok == status_is_ok(response@),
{
    response.len() >= 12 && response[0] == 72 && response[1] == 84 && response[2] == 84
        && response[3] == 80 && response[4] == 47 && response[5] == 49 && response[6] == 46 && (
    response[7] == 48 || response[7] == 49) && response[8] == 32 && response[9] == 50
        && response[10] == 48 && response[11] == 48
}

fn find_body(response: &[u8]) -> (start: Option<usize>)
    ensures
        match start {
            Some(at) => body_start(response@, 0) == Some(at as int) && at <= response@.len(),
            None => body_start(response@, 0) is None,
        },
{
    let len = response.len();
    if len < 4 {
        return None;
    }
    let mut at: usize = 0;
    while at <= len - 4
        invariant
            len == response@.len(),
            len >= 4,
            at <= len - 3,
            body_start(response@, 0) == body_start(response@, at as int),
        decreases len - at,
    {
        if response[at] == 13 && response[at + 1] == 10 && response[at + 2] == 13 && response[at
            + 3] == 10 {
            return Some(at + 4);
        }
        at += 1;
    }
    None
}

fn is_space_byte(byte: u8) -> (space: bool)
    ensures
        space == is_space(byte),
{
    byte == 32 || byte == 9 || byte == 10 || byte == 13
}

/// Finds the bounds of what is left of `bytes[start..]` without the white
/// space around it.
fn trim(bytes: &[u8], start: usize) -> (bounds: (usize, usize))
    requires
        start <= bytes@.len(),
    ensures
        start <= bounds.0 <= bounds.1 <= bytes@.len(),
        bytes@.subrange(bounds.0 as int, bounds.1 as int) == trim_end(
            trim_start(bytes@.skip(start as int)),
        ),
{
    let len = bytes.len();
    let mut from = start;
    while from < len && is_space_byte(bytes[from])
        invariant
            len == bytes@.len(),
            start <= from <= len,
            trim_start(bytes@.skip(start as int)) == trim_start(bytes@.skip(from as int)),
        decreases len - from,
    {
        assert(bytes@.skip(from as int).skip(1) =~= bytes@.skip(from + 1));
        from += 1;
    }
    let mut to = len;
    assert(bytes@.skip(from as int) =~= bytes@.subrange(from as int, to as int));
    while to > from && is_space_byte(bytes[to - 1])
        invariant
            len == bytes@.len(),
            from <= to <= len,
            trim_end(bytes@.skip(from as int)) == trim_end(bytes@.subrange(from as int, to as int)),
        decreases to - from,
    {
        assert(bytes@.subrange(from as int, to as int).drop_last() =~= bytes@.subrange(
            from as int,
            to - 1,
        ));
        to -= 1;
    }
    (from, to)
}

/// No address is written with more than fifteen characters.
proof fn lemma_dotted_is_short(octets: Seq<u8>)
    ensures
        7 <= dotted(octets).len() <= 15,
{
}

/// The address that a reflection service answered with, if its response is
/// one with status 200 whose body is the text of an address.
pub fn reflected_address(response: &[u8]) -> (found: Option<Address>)
    ensures
        match answer_text(response@) {
            Some(text) => {
                &&& found matches Some(address) ==> dotted(address@) == text
                &&& found is None ==> forall|octets: Seq<u8>|
                    octets.len() == 4 ==> #[trigger] dotted(octets) != text
            },
            None => found is None,
        },
{
    if !check_status(response) {
        return None;
    }
    let start = match find_body(response) {
        Some(at) => at,
        None => { return None; },
    };
    let (from, to) = trim(response, start);
    let ghost body = response@.subrange(from as int, to as int);
    if to - from > 15 {
        assert forall|octets: Seq<u8>| octets.len() == 4 implies #[trigger] dotted(octets)
            != as_chars(body) by {
            lemma_dotted_is_short(octets);
        }
        return None;
    }
    let mut text = String::new();
    let mut at = from;
    while at < to
        invariant
            from <= at <= to <= response@.len(),
            text@ == as_chars(response@.subrange(from as int, at as int)),
        decreases to - at,
    {
        push_char(&mut text, response[at] as char);
        assert(text@ =~= as_chars(response@.subrange(from as int, at + 1)));
        at += 1;
    }
    Address::parse(text.as_str())
}

} // verus!
