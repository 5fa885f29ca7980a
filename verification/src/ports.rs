//! The port range as the user writes it: two decimal port numbers with a
//! hyphen between them, as in `20-1024`.

use vstd::prelude::*;
use crate::text::{find_part_end, number_of_text, parse_number, part_end};

verus! {

/// The hyphen that separates the two ports.
pub const HYPHEN: u8 = 0x2D;

/// The plus sign that may stand in front of a port.
pub const PLUS: u8 = 0x2B;

/// Why a port range cannot be read. The first port is looked at first, then
/// the separator, then the second port.
#[derive(Clone, Copy, Debug, PartialEq, Eq, Structural)]
pub enum PortRangeError {
    /// What stands before the first hyphen is not a port number.
    InvalidStartPort,
    /// There is no hyphen.
    MissingSeparator,
    /// What stands behind the first hyphen is not a port number.
    InvalidEndPort,
}

/// `text` without the plus sign that may lead it.
pub open spec fn without_sign(text: Seq<u8>) -> Seq<u8> {
    if text.len() > 0 && text[0] == PLUS {
        text.skip(1)
    } else {
        text
    }
}

/// The port that `text` denotes: an optional plus sign, then one or more
/// decimal digits and nothing else, with a value of at most 65535. Leading
/// zeros are allowed.
pub open spec fn port_of_text(text: Seq<u8>) -> Option<u16> {
    match number_of_text(without_sign(text), u16::MAX as nat) {
        Some(value) => Some(value as u16),
        None => None,
    }
}

/// The two ports that `text` denotes. The text is cut at every hyphen; the
/// first part must be a port, there must be a second part, and it must be a
/// port too. Further parts are not looked at.
pub open spec fn port_range_of_text(text: Seq<u8>) -> Result<(u16, u16), PortRangeError> {
    let first_end = part_end(text, 0, HYPHEN);
    match port_of_text(text.subrange(0, first_end)) {
        None => Err(PortRangeError::InvalidStartPort),
        Some(start_port) => if first_end >= text.len() {
            Err(PortRangeError::MissingSeparator)
        } else {
            let second_end = part_end(text, first_end + 1, HYPHEN);
            match port_of_text(text.subrange(first_end + 1, second_end)) {
                None => Err(PortRangeError::InvalidEndPort),
                Some(end_port) => Ok((start_port, end_port)),
            }
        }
    }
}

/// Reads the port that `text[start..end]` denotes.
fn parse_port(text: &[u8], start: usize, end: usize) -> (port: Option<u16>)
    requires
        start <= end <= text@.len(),
    ensures
        port == port_of_text(text@.subrange(start as int, end as int)),
{
    let first_digit: usize = if start < end && text[start] == PLUS {
        start + 1
    } else {
        start
    };
    assert(text@.subrange(first_digit as int, end as int) =~= without_sign(
        text@.subrange(start as int, end as int),
    ));
    match parse_number(text, first_digit, end, 0xFFFF) {
        Some(value) => Some(value as u16),
        None => None,
    }
}

/// Reads a port range such as `20-1024`.
pub fn parse_port_range(text: &[u8]) -> (range: Result<(u16, u16), PortRangeError>)
    ensures
        range == port_range_of_text(text@),
{
    let first_end: usize = find_part_end(text, 0, HYPHEN);
    match parse_port(text, 0, first_end) {
        None => Err(PortRangeError::InvalidStartPort),
        Some(start_port) => {
            if first_end >= text.len() {
                Err(PortRangeError::MissingSeparator)
            } else {
                let second_end: usize = find_part_end(text, first_end + 1, HYPHEN);
                match parse_port(text, first_end + 1, second_end) {
                    None => Err(PortRangeError::InvalidEndPort),
                    Some(end_port) => Ok((start_port, end_port)),
                }
            }
        },
    }
}

} // verus!
