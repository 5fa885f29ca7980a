//! IPv4 addresses as plain octets, and the choice of the local source address.

use vstd::prelude::*;
use crate::text::{find_part_end, number_of_text, parse_number, part_end, DIGIT_ZERO};

verus! {

/// An IPv4 address: its four octets in network order.
#[derive(Clone, Copy, Debug, PartialEq, Eq, Structural)]
pub struct Ipv4Address {
    pub a: u8,
    pub b: u8,
    pub c: u8,
    pub d: u8,
}

impl Ipv4Address {
    /// The address `a.b.c.d`.
    pub fn new(a: u8, b: u8, c: u8, d: u8) -> (address: Ipv4Address)
        ensures
            address == (Ipv4Address { a, b, c, d }),
    {
        Ipv4Address { a, b, c, d }
    }

    /// The four octets in network order.
    pub open spec fn octets_spec(self) -> Seq<u8> {
        seq![self.a, self.b, self.c, self.d]
    }

    /// The four octets in network order.
    pub fn octets(&self) -> (octets: [u8; 4])
        ensures
            octets@ == self.octets_spec(),
    {
        [self.a, self.b, self.c, self.d]
    }

    /// Whether the address lies in the loopback block 127.0.0.0/8.
    pub open spec fn is_loopback_spec(self) -> bool {
        self.a == 127
    }

    /// Tests whether the address lies in the loopback block 127.0.0.0/8.
    pub fn is_loopback(&self) -> (loopback: bool)
        ensures
            loopback == self.is_loopback_spec(),
    {
        self.a == 127
    }

    /// Whether the address is 0.0.0.0, which stands for "pick one for me".
    pub open spec fn is_unspecified_spec(self) -> bool {
        self.a == 0 && self.b == 0 && self.c == 0 && self.d == 0
    }

    /// Tests whether the address is 0.0.0.0.
    pub fn is_unspecified(&self) -> (unspecified: bool)
        ensures
            unspecified == self.is_unspecified_spec(),
    {
        self.a == 0 && self.b == 0 && self.c == 0 && self.d == 0
    }
}

/// The dot that separates the octets of an address in text.
pub const DOT: u8 = 0x2E;

/// The octet that `text` denotes: one to three decimal digits and nothing
/// else, with a value of at most 255 and without a leading zero, unless the
/// text is the single digit `0`.
pub open spec fn octet_of_text(text: Seq<u8>) -> Option<u8> {
    if 1 <= text.len() <= 3 && (text.len() == 1 || text[0] != DIGIT_ZERO) {
        match number_of_text(text, u8::MAX as nat) {
            Some(value) => Some(value as u8),
            None => None,
        }
    } else {
        None
    }
}

/// The address that `text` denotes in dot-decimal notation: exactly four
/// octets with a dot between each two, and nothing else.
pub open spec fn address_of_text(text: Seq<u8>) -> Option<Ipv4Address> {
    let first_end = part_end(text, 0, DOT);
    let second_end = part_end(text, first_end + 1, DOT);
    let third_end = part_end(text, second_end + 1, DOT);
    let fourth_end = part_end(text, third_end + 1, DOT);
    if first_end < text.len() && second_end < text.len() && third_end < text.len() && fourth_end
        == text.len() {
        match (
            octet_of_text(text.subrange(0, first_end)),
            octet_of_text(text.subrange(first_end + 1, second_end)),
            octet_of_text(text.subrange(second_end + 1, third_end)),
            octet_of_text(text.subrange(third_end + 1, fourth_end)),
        ) {
            (Some(a), Some(b), Some(c), Some(d)) => Some(Ipv4Address { a, b, c, d }),
            _ => None,
        }
    } else {
        None
    }
}

/// Reads the octet that `text[start..end]` denotes.
fn parse_octet(text: &[u8], start: usize, end: usize) -> (octet: Option<u8>)
    requires
        start <= end <= text@.len(),
    ensures
        octet == octet_of_text(text@.subrange(start as int, end as int)),
{
    let length: usize = end - start;
    if length < 1 || length > 3 {
        return None;
    }
    assert(text@.subrange(start as int, end as int)[0] == text@[start as int]);
    if length > 1 && text[start] == DIGIT_ZERO {
        return None;
    }
    match parse_number(text, start, end, 255) {
        Some(value) => Some(value as u8),
        None => None,
    }
}

impl Ipv4Address {
    /// Reads an address in dot-decimal notation, such as `203.0.113.5`.
    pub fn parse(text: &[u8]) -> (address: Option<Ipv4Address>)
        ensures
            address == address_of_text(text@),
    {
        let length: usize = text.len();
        let first_end: usize = find_part_end(text, 0, DOT);
        if first_end >= length {
            return None;
        }
        let second_end: usize = find_part_end(text, first_end + 1, DOT);
        if second_end >= length {
            return None;
        }
        let third_end: usize = find_part_end(text, second_end + 1, DOT);
        if third_end >= length {
            return None;
        }
        let fourth_end: usize = find_part_end(text, third_end + 1, DOT);
        if fourth_end != length {
            return None;
        }
        match (
            parse_octet(text, 0, first_end),
            parse_octet(text, first_end + 1, second_end),
            parse_octet(text, second_end + 1, third_end),
            parse_octet(text, third_end + 1, fourth_end),
        ) {
            (Some(a), Some(b), Some(c), Some(d)) => Some(Ipv4Address { a, b, c, d }),
            _ => None,
        }
    }
}

/// One address bound to a network interface, as far as the scanner reads it.
#[derive(Clone, Copy, Debug, PartialEq, Eq, Structural)]
pub enum InterfaceAddress {
    /// An IPv4 address.
    V4(Ipv4Address),
    /// An IPv6 address; the scanner never uses one.
    V6,
}

/// Whether `address` can serve as the source of a probe: IPv4, not loopback.
pub open spec fn is_usable_source(address: InterfaceAddress) -> bool {
    match address {
        InterfaceAddress::V4(ip) => !ip.is_loopback_spec(),
        InterfaceAddress::V6 => false,
    }
}

/// A network interface of the local machine, as far as the scanner reads it:
/// the addresses bound to it, in the order in which the system lists them.
#[derive(Debug)]
pub struct NetworkInterface {
    pub addresses: Vec<InterfaceAddress>,
}

/// Whether address `j` of interface `i` exists.
pub open spec fn is_listed(interfaces: Seq<NetworkInterface>, i: int, j: int) -> bool {
    0 <= i < interfaces.len() && 0 <= j < interfaces[i].addresses@.len()
}

/// Address `j` of interface `i`.
pub open spec fn address_at(interfaces: Seq<NetworkInterface>, i: int, j: int) -> InterfaceAddress {
    interfaces[i].addresses@[j]
}

/// Whether address `l` of interface `k` is listed before address `j` of
/// interface `i`: on an earlier interface, or earlier on the same one.
pub open spec fn is_listed_before(k: int, l: int, i: int, j: int) -> bool {
    k < i || (k == i && l < j)
}

/// Whether address `j` of interface `i` is the first usable source address
/// of the listing: it is usable, and nothing listed before it is.
pub open spec fn is_first_usable(interfaces: Seq<NetworkInterface>, i: int, j: int) -> bool {
    &&& is_listed(interfaces, i, j)
    &&& is_usable_source(address_at(interfaces, i, j))
    &&& forall|k: int, l: int|
        is_listed(interfaces, k, l) && is_listed_before(k, l, i, j) ==> !is_usable_source(
            #[trigger] address_at(interfaces, k, l),
        )
}

/// Whether `choice` is the local source address that `interfaces` give: the
/// first address in listing order that is IPv4 and not loopback, or none if
/// the listing holds no such address.
pub open spec fn is_local_choice(
    interfaces: Seq<NetworkInterface>,
    choice: Option<Ipv4Address>,
) -> bool {
    match choice {
        Some(ip) => exists|i: int, j: int|
            is_first_usable(interfaces, i, j) && #[trigger] address_at(interfaces, i, j)
                == InterfaceAddress::V4(ip),
        None => forall|i: int, j: int|
            is_listed(interfaces, i, j) ==> !is_usable_source(
                #[trigger] address_at(interfaces, i, j),
            ),
    }
}

/// A listing gives exactly one local source address, or exactly none.
pub proof fn lemma_local_choice_is_unique(
    interfaces: Seq<NetworkInterface>,
    first: Option<Ipv4Address>,
    second: Option<Ipv4Address>,
)
    requires
        is_local_choice(interfaces, first),
        is_local_choice(interfaces, second),
    ensures
        first == second,
{
    if first is Some && second is Some {
        let (i, j) = choose|i: int, j: int|
            is_first_usable(interfaces, i, j) && #[trigger] address_at(interfaces, i, j)
                == InterfaceAddress::V4(first->0);
        let (k, l) = choose|k: int, l: int|
            is_first_usable(interfaces, k, l) && #[trigger] address_at(interfaces, k, l)
                == InterfaceAddress::V4(second->0);
        assert(!is_listed_before(k, l, i, j)) by {
            if is_listed_before(k, l, i, j) {
                assert(!is_usable_source(address_at(interfaces, k, l)));
            }
        }
        assert(!is_listed_before(i, j, k, l)) by {
            if is_listed_before(i, j, k, l) {
                assert(!is_usable_source(address_at(interfaces, i, j)));
            }
        }
        assert(i == k && j == l);
    } else if first is Some {
        let (i, j) = choose|i: int, j: int|
            is_first_usable(interfaces, i, j) && #[trigger] address_at(interfaces, i, j)
                == InterfaceAddress::V4(first->0);
        assert(!is_usable_source(address_at(interfaces, i, j)));
    } else if second is Some {
        let (k, l) = choose|k: int, l: int|
            is_first_usable(interfaces, k, l) && #[trigger] address_at(interfaces, k, l)
                == InterfaceAddress::V4(second->0);
        assert(!is_usable_source(address_at(interfaces, k, l)));
    }
}

/// Picks the local source address from the interfaces of the machine: the
/// first address, in listing order, that is IPv4 and not loopback.
pub fn get_local_ipv4(interfaces: &Vec<NetworkInterface>) -> (choice: Option<Ipv4Address>)
    ensures
        is_local_choice(interfaces@, choice),
{
    let mut i: usize = 0;
    while i < interfaces.len()
        invariant
            i <= interfaces@.len(),
            forall|k: int, l: int|
                is_listed(interfaces@, k, l) && k < i ==> !is_usable_source(
                    #[trigger] address_at(interfaces@, k, l),
                ),
        decreases interfaces@.len() - i,
    {
        let addresses: &Vec<InterfaceAddress> = &interfaces[i].addresses;
        let mut j: usize = 0;
        while j < addresses.len()
            invariant
                i < interfaces@.len(),
                addresses@ == interfaces@[i as int].addresses@,
                j <= addresses@.len(),
                forall|k: int, l: int|
                    is_listed(interfaces@, k, l) && is_listed_before(k, l, i as int, j as int)
                        ==> !is_usable_source(#[trigger] address_at(interfaces@, k, l)),
            decreases addresses@.len() - j,
        {
            match addresses[j] {
                InterfaceAddress::V4(ip) => {
                    if !ip.is_loopback() {
                        assert(is_first_usable(interfaces@, i as int, j as int));
                        assert(address_at(interfaces@, i as int, j as int)
                            == InterfaceAddress::V4(ip));
                        return Some(ip);
                    }
                },
                InterfaceAddress::V6 => {},
            }
            assert(!is_usable_source(address_at(interfaces@, i as int, j as int)));
            j = j + 1;
        }
        i = i + 1;
    }
    None
}

/// Settles the source address of a scan. An address other than 0.0.0.0 is
/// taken as it is; 0.0.0.0 asks for the local source address that
/// `interfaces` give, and there may be none.
pub fn resolve_source(requested: Ipv4Address, interfaces: &Vec<NetworkInterface>) -> (source:
    Option<Ipv4Address>)
    ensures
        !requested.is_unspecified_spec() ==> source == Some(requested),
        requested.is_unspecified_spec() ==> is_local_choice(interfaces@, source),
{
    if requested.is_unspecified() {
        get_local_ipv4(interfaces)
    } else {
        Some(requested)
    }
}

} // verus!
