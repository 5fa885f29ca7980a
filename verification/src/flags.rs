//! The control bits of a TCP header, as they stand in the flags byte.

use vstd::prelude::*;

verus! {

/// FIN: the sender has no more data.
pub const FIN: u8 = 0x01;

/// SYN: synchronise sequence numbers; set on the first segment of a handshake.
pub const SYN: u8 = 0x02;

/// RST: reset the connection.
pub const RST: u8 = 0x04;

/// PSH: push buffered data to the receiving application.
pub const PSH: u8 = 0x08;

/// ACK: the acknowledgement number is significant.
pub const ACK: u8 = 0x10;

/// URG: the urgent pointer is significant.
pub const URG: u8 = 0x20;

/// Whether any bit of `flag` is set in `flags`.
pub open spec fn has_flag(flags: u8, flag: u8) -> bool {
    flags & flag != 0
}

/// Tests whether any bit of `flag` is set in `flags`.
pub fn is_set(flags: u8, flag: u8) -> (set: bool)
    ensures
        set == has_flag(flags, flag),
{
    flags & flag != 0
}

} // verus!
