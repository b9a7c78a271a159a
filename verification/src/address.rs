//! Network addresses and their text form.
//!
//! Only IPv4 is served. A text in any other form, an IPv6 address among
//! them, is the text of no address here.
//!
//! An address is four octets, written as four decimal numbers with dots
//! between them. Each number is written without leading zeros, so every
//! address has exactly one text, and [`Address::parse`] is the inverse of
//! [`Address::to_text`]: it accepts the texts that `to_text` writes and no
//! others.

use crate::text::push_char;
use vstd::prelude::*;

verus! {

/// An IPv4 address.
#[derive(Clone, Copy, Debug, PartialEq, Eq)]
pub struct Address {
    octets: [u8; 4],
}

impl View for Address {
    type V = Seq<u8>;

    closed spec fn view(&self) -> Seq<u8> {
        self.octets@
    }
}

/// The character for a digit from 0 to 9.
pub open spec fn digit(value: u8) -> char {
    (value + 48) as char
}

/// Whether a character is one of `0` to `9`.
pub open spec fn is_digit(c: char) -> bool {
    48 <= c as u32 <= 57
}

/// The number that a digit stands for.
pub open spec fn digit_value(c: char) -> int {
    c as u32 - 48
}

/// An octet in decimal, without leading zeros.
pub open spec fn decimal(n: u8) -> Seq<char> {
    if n < 10 {
        seq![digit(n)]
    } else if n < 100 {
        seq![digit(n / 10), digit(n % 10)]
    } else {
        seq![digit(n / 100), digit(n / 10 % 10), digit(n % 10)]
    }
}

/// Four octets in dotted decimal.
pub open spec fn dotted(octets: Seq<u8>) -> Seq<char> {
    decimal(octets[0]) + seq!['.'] + decimal(octets[1]) + seq!['.'] + decimal(octets[2]) + seq![
        '.',
    ] + decimal(octets[3])
}

/// Whether there is a digit at position `at` of `text`.
pub open spec fn digit_at(text: Seq<char>, at: int) -> bool {
    0 <= at < text.len() && is_digit(text[at])
}

/// The number of digits in a row from position `at`, counted up to four.
pub open spec fn run_length(text: Seq<char>, at: int) -> int {
    if !digit_at(text, at) {
        0
    } else if !digit_at(text, at + 1) {
        1
    } else if !digit_at(text, at + 2) {
        2
    } else if !digit_at(text, at + 3) {
        3
    } else {
        4
    }
}

/// The number written by the `count` digits from position `at`.
pub open spec fn run_value(text: Seq<char>, at: int, count: int) -> int {
    if count == 1 {
        digit_value(text[at])
    } else if count == 2 {
        10 * digit_value(text[at]) + digit_value(text[at + 1])
    } else {
        100 * digit_value(text[at]) + 10 * digit_value(text[at + 1]) + digit_value(text[at + 2])
    }
}

/// The octet written at position `at` and the position after it: one to three
/// digits, with no zero in front of another digit, that make at most 255.
pub open spec fn read_octet(text: Seq<char>, at: int) -> Option<(u8, int)> {
    let count = run_length(text, at);
    if count == 0 || count == 4 {
        None
    } else if count > 1 && text[at] == '0' {
        None
    } else if run_value(text, at, count) > 255 {
        None
    } else {
        Some((run_value(text, at, count) as u8, at + count))
    }
}

/// The octet at position `at` and the position after the dot that follows it.
pub open spec fn read_octet_and_dot(text: Seq<char>, at: int) -> Option<(u8, int)> {
    match read_octet(text, at) {
        Some((octet, end)) => if end < text.len() && text[end] == '.' {
            Some((octet, end + 1))
        } else {
            None
        },
        None => None,
    }
}

/// The octets that `text` writes in dotted decimal, if it does.
pub open spec fn read_dotted(text: Seq<char>) -> Option<Seq<u8>> {
    match read_octet_and_dot(text, 0) {
        Some((a, after_a)) => match read_octet_and_dot(text, after_a) {
            Some((b, after_b)) => match read_octet_and_dot(text, after_b) {
                Some((c, after_c)) => match read_octet(text, after_c) {
                    Some((d, end)) => if end == text.len() {
                        Some(seq![a, b, c, d])
                    } else {
                        None
                    },
                    None => None,
                },
                None => None,
            },
            None => None,
        },
        None => None,
    }
}

/// A digit's character stands for the digit.
proof fn lemma_digit_round_trip(value: u8)
    requires
        0 <= value <= 9,
    ensures
        is_digit(digit(value)),
        digit_value(digit(value)) == value,
        digit(value) != '.',
{
}

/// A digit is the character of its value.
proof fn lemma_digit_of_value(c: char)
    requires
        is_digit(c),
    ensures
        digit(digit_value(c) as u8) == c,
        0 <= digit_value(c) <= 9,
        (c == '0') == (digit_value(c) == 0),
{
}

/// What `read_octet` reads is the decimal form of the octet it gives.
proof fn lemma_read_octet_sound(text: Seq<char>, at: int)
    requires
        read_octet(text, at) is Some,
    ensures
        ({
            let (octet, end) = read_octet(text, at)->Some_0;
            &&& 0 <= at < end <= text.len()
            &&& text.subrange(at, end) == decimal(octet)
            &&& !digit_at(text, end)
        }),
{
    let count = run_length(text, at);
    let (octet, end) = read_octet(text, at)->Some_0;
    lemma_digit_of_value(text[at]);
    if count >= 2 {
        lemma_digit_of_value(text[at + 1]);
    }
    if count >= 3 {
        lemma_digit_of_value(text[at + 2]);
    }
    assert(text.subrange(at, end) =~= decimal(octet));
}

/// Where the decimal form of an octet stands at `at` and no digit follows it,
/// `read_octet` reads that octet.
proof fn lemma_read_octet_complete(text: Seq<char>, at: int, octet: u8)
    requires
        0 <= at,
        at + decimal(octet).len() <= text.len(),
        text.subrange(at, at + decimal(octet).len()) == decimal(octet),
        !digit_at(text, at + decimal(octet).len()),
    ensures
        read_octet(text, at) == Some((octet, at + decimal(octet).len())),
{
    let form = decimal(octet);
    let part = text.subrange(at, at + form.len());
    assert(forall|k: int| 0 <= k < form.len() ==> text[at + k] == #[trigger] part[k]);
    if octet < 10 {
        lemma_digit_round_trip(octet);
        assert(text[at] == part[0]);
    } else if octet < 100 {
        lemma_digit_round_trip(octet / 10);
        lemma_digit_round_trip(octet % 10);
        assert(text[at] == part[0]);
        assert(text[at + 1] == part[1]);
    } else {
        lemma_digit_round_trip(octet / 100);
        lemma_digit_round_trip(octet / 10 % 10);
        lemma_digit_round_trip(octet % 10);
        assert(text[at] == part[0]);
        assert(text[at + 1] == part[1]);
        assert(text[at + 2] == part[2]);
    }
}

/// Reading the dotted form of four octets gives the octets back.
pub proof fn lemma_read_dotted_of_dotted(octets: Seq<u8>)
    requires
        octets.len() == 4,
    ensures
        read_dotted(dotted(octets)) == Some(octets),
{
    let text = dotted(octets);
    let a = decimal(octets[0]);
    let b = decimal(octets[1]);
    let c = decimal(octets[2]);
    let d = decimal(octets[3]);
    let at_b = (a.len() + 1) as int;
    let at_c = at_b + b.len() + 1;
    let at_d = at_c + c.len() + 1;
    assert(text.len() == at_d + d.len());
    assert(text.subrange(0, a.len() as int) =~= a);
    assert(text[a.len() as int] == '.');
    lemma_read_octet_complete(text, 0, octets[0]);
    assert(text.subrange(at_b, at_b + b.len()) =~= b);
    assert(text[at_b + b.len()] == '.');
    lemma_read_octet_complete(text, at_b, octets[1]);
    assert(text.subrange(at_c, at_c + c.len()) =~= c);
    assert(text[at_c + c.len()] == '.');
    lemma_read_octet_complete(text, at_c, octets[2]);
    assert(text.subrange(at_d, at_d + d.len()) =~= d);
    lemma_read_octet_complete(text, at_d, octets[3]);
    assert(seq![octets[0], octets[1], octets[2], octets[3]] =~= octets);
}

/// A text with dots at three places is its four parts with dots between.
proof fn lemma_four_parts(text: Seq<char>, first: int, second: int, third: int)
    requires
        0 <= first < second < third < text.len(),
        text[first] == '.',
        text[second] == '.',
        text[third] == '.',
    ensures
        text == text.subrange(0, first) + seq!['.'] + text.subrange(first + 1, second) + seq!['.']
            + text.subrange(second + 1, third) + seq!['.'] + text.subrange(
            third + 1,
            text.len() as int,
        ),
{
    assert(text =~= text.subrange(0, first) + seq!['.'] + text.subrange(first + 1, second) + seq![
        '.',
    ] + text.subrange(second + 1, third) + seq!['.'] + text.subrange(
        third + 1,
        text.len() as int,
    ));
}

/// A text that reads as four octets is the dotted form of those octets.
pub proof fn lemma_dotted_of_read_dotted(text: Seq<char>)
    requires
        read_dotted(text) is Some,
    ensures
        read_dotted(text)->Some_0.len() == 4,
        dotted(read_dotted(text)->Some_0) == text,
{
    let (a, after_a) = read_octet_and_dot(text, 0)->Some_0;
    let (b, after_b) = read_octet_and_dot(text, after_a)->Some_0;
    let (c, after_c) = read_octet_and_dot(text, after_b)->Some_0;
    let (d, end) = read_octet(text, after_c)->Some_0;
    lemma_read_octet_sound(text, 0);
    lemma_read_octet_sound(text, after_a);
    lemma_read_octet_sound(text, after_b);
    lemma_read_octet_sound(text, after_c);
    lemma_four_parts(text, after_a - 1, after_b - 1, after_c - 1);
}

/// The value of the digit at position `at`, if one is there.
fn digit_value_at(text: &str, len: usize, at: usize) -> (found: Option<u8>)
    requires
        len == text@.len(),
    ensures
        match found {
            Some(value) => digit_at(text@, at as int) && value == digit_value(text@[at as int]),
            None => !digit_at(text@, at as int),
        },
{
    if at < len {
        let code = text.get_char(at) as u32;
        if 48 <= code && code <= 57 {
            Some((code - 48) as u8)
        } else {
            None
        }
    } else {
        None
    }
}

/// Reads an octet at position `at`.
fn scan_octet(text: &str, len: usize, at: usize) -> (found: Option<(u8, usize)>)
    requires
        len == text@.len(),
        at <= 16,
    ensures
        match found {
            Some((octet, end)) => read_octet(text@, at as int) == Some((octet, end as int)),
            None => read_octet(text@, at as int) is None,
        },
{
    let first = match digit_value_at(text, len, at) {
        Some(value) => value,
        None => { return None; },
    };
    let second = match digit_value_at(text, len, at + 1) {
        Some(value) => value,
        None => { return Some((first, at + 1)); },
    };
    proof {
        lemma_digit_of_value(text@[at as int]);
    }
    if first == 0 {
        return None;
    }
    let third = match digit_value_at(text, len, at + 2) {
        Some(value) => value,
        None => { return Some((10 * first + second, at + 2)); },
    };
    if digit_value_at(text, len, at + 3).is_some() {
        return None;
    }
    let value: u16 = 100 * (first as u16) + 10 * (second as u16) + (third as u16);
    if value > 255 {
        None
    } else {
        Some((value as u8, at + 3))
    }
}

/// Reads an octet at position `at` and the dot after it.
fn scan_octet_and_dot(text: &str, len: usize, at: usize) -> (found: Option<(u8, usize)>)
    requires
        len == text@.len(),
        at <= 16,
    ensures
        match found {
            Some((octet, end)) => read_octet_and_dot(text@, at as int) == Some((octet, end as int)),
            None => read_octet_and_dot(text@, at as int) is None,
        },
{
    match scan_octet(text, len, at) {
        Some((octet, end)) => {
            if end < len && text.get_char(end) == '.' {
                Some((octet, end + 1))
            } else {
                None
            }
        },
        None => None,
    }
}

/// Appends an octet in decimal.
fn push_decimal(text: &mut String, octet: u8)
    ensures
        final(text)@ == old(text)@ + decimal(octet),
{
    if octet >= 100 {
        push_char(text, (octet / 100 + 48) as char);
    }
    if octet >= 10 {
        push_char(text, (octet / 10 % 10 + 48) as char);
    }
    push_char(text, (octet % 10 + 48) as char);
    assert(text@ =~= old(text)@ + decimal(octet));
}

impl Address {
    /// The address with the given octets.
    pub fn new(a: u8, b: u8, c: u8, d: u8) -> (address: Address)
        ensures
            address@ == seq![a, b, c, d],
    {
        let address = Address { octets: [a, b, c, d] };
        assert(address@ =~= seq![a, b, c, d]);
        address
    }

    /// The four octets.
    pub fn octets(&self) -> (octets: [u8; 4])
        ensures
            octets@ == self@,
    {
        self.octets
    }

    /// The address in dotted decimal.
    pub fn to_text(&self) -> (text: String)
        ensures
            text@ == dotted(self@),
    {
        let mut text = String::new();
        push_decimal(&mut text, self.octets[0]);
        push_char(&mut text, '.');
        push_decimal(&mut text, self.octets[1]);
        push_char(&mut text, '.');
        push_decimal(&mut text, self.octets[2]);
        push_char(&mut text, '.');
        push_decimal(&mut text, self.octets[3]);
        assert(text@ =~= dotted(self@));
        text
    }

    /// The address that `text` writes in dotted decimal. A text is accepted
    /// exactly if it is the text of some address, which is then the answer.
    pub fn parse(text: &str) -> (parsed: Option<Address>)
        ensures
            parsed matches Some(address) ==> dotted(address@) == text@,
            parsed is None ==> forall|octets: Seq<u8>|
                octets.len() == 4 ==> #[trigger] dotted(octets) != text@,
    {
        let len = text.unicode_len();
        if len > 15 {
            return None;
        }
        let found = Address::scan(text, len);
        proof {
            if found is Some {
                lemma_dotted_of_read_dotted(text@);
            } else {
                assert forall|octets: Seq<u8>| octets.len() == 4 implies #[trigger] dotted(octets)
                    != text@ by {
                    lemma_read_dotted_of_dotted(octets);
                }
            }
        }
        found
    }

    /// Reads the four octets of a text of at most fifteen characters.
    fn scan(text: &str, len: usize) -> (found: Option<Address>)
        requires
            len == text@.len(),
            len <= 15,
        ensures
            match found {
                Some(address) => read_dotted(text@) == Some(address@),
                None => read_dotted(text@) is None,
            },
    {
        let (a, after_a) = match scan_octet_and_dot(text, len, 0) {
            Some(found) => found,
            None => { return None; },
        };
        let (b, after_b) = match scan_octet_and_dot(text, len, after_a) {
            Some(found) => found,
            None => { return None; },
        };
        let (c, after_c) = match scan_octet_and_dot(text, len, after_b) {
            Some(found) => found,
            None => { return None; },
        };
        let (d, end) = match scan_octet(text, len, after_c) {
            Some(found) => found,
            None => { return None; },
        };
        if end == len {
            Some(Address::new(a, b, c, d))
        } else {
            None
        }
    }
}

} // verus!
