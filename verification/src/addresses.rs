//! Network addresses and the identities of machines, interfaces and segments.
use vstd::arithmetic::power::pow;
use vstd::prelude::*;

use crate::ordered::Ordered;
use crate::outside::{
    format_mac, format_uuid, mac_parsed, parse_mac, parse_uuid, uuid_parsed,
};

verus! {

/// A MAC address: six octets, the first one first.
#[derive(Clone, Copy, Debug, PartialEq, Eq, Structural)]
pub struct MacAddress(pub u8, pub u8, pub u8, pub u8, pub u8, pub u8);

/// The upper-case hexadecimal digit of a value below sixteen.
pub open spec fn upper_hex_digit(n: int) -> char {
    "0123456789ABCDEF"@[n]
}

/// The lower-case hexadecimal digit of a value below sixteen.
pub open spec fn lower_hex_digit(n: int) -> char {
    "0123456789abcdef"@[n]
}

/// Six octets as upper-case hexadecimal pairs with colons between them.
pub open spec fn mac_text(octets: Seq<u8>) -> Seq<char> {
    Seq::new(
        17,
        |i: int|
            if i % 3 == 2 {
                ':'
            } else if i % 3 == 0 {
                upper_hex_digit(octets[i / 3] as int / 16)
            } else {
                upper_hex_digit(octets[i / 3] as int % 16)
            },
    )
}

impl MacAddress {
    /// The six octets in order.
    pub open spec fn octets(self) -> Seq<u8> {
        seq![self.0, self.1, self.2, self.3, self.4, self.5]
    }

    /// The address with these octets.
    pub fn new(bytes: [u8; 6]) -> (r: Self)
        ensures
            r.octets() == bytes@,
            r == MacAddress(bytes@[0], bytes@[1], bytes@[2], bytes@[3], bytes@[4], bytes@[5]),
    {
        MacAddress(bytes[0], bytes[1], bytes[2], bytes[3], bytes[4], bytes[5])
    }

    /// Parses the textual forms that the `mac_address` crate reads.
    pub fn parse(text: &str) -> (r: Option<Self>)
        ensures
            match r {
                Some(mac) => mac_parsed(text@) == Some(mac.octets()),
                None => mac_parsed(text@) is None,
            },
    {
        parse_mac(text)
    }

    /// The address as upper-case hexadecimal pairs with colons between them.
    pub fn to_text(self) -> (r: String)
        ensures
            r@ == mac_text(self.octets()),
            mac_parsed(r@) == Some(self.octets()),
    {
        format_mac(self)
    }
}

/// Addresses with the same octets are the same.
pub proof fn mac_is_its_octets(a: MacAddress, b: MacAddress)
    requires
        a.octets() == b.octets(),
    ensures
        a == b,
{
    assert(a.octets()[0] == b.octets()[0]);
    assert(a.octets()[1] == b.octets()[1]);
    assert(a.octets()[2] == b.octets()[2]);
    assert(a.octets()[3] == b.octets()[3]);
    assert(a.octets()[4] == b.octets()[4]);
    assert(a.octets()[5] == b.octets()[5]);
}

impl Ordered for MacAddress {
    open spec fn rank(self) -> int {
        self.0 * 0x100_0000_0000 + self.1 * 0x1_0000_0000 + self.2 * 0x100_0000 + self.3 * 0x1_0000
            + self.4 * 0x100 + self.5
    }

    proof fn rank_tells_apart(a: Self, b: Self) {
        let a3 = a.3 * 0x1_0000 + a.4 * 0x100 + a.5;
        let b3 = b.3 * 0x1_0000 + b.4 * 0x100 + b.5;
        assert(0 <= a3 < 0x100_0000 && 0 <= b3 < 0x100_0000);
        let a0 = a.0 * 0x1_0000 + a.1 * 0x100 + a.2;
        let b0 = b.0 * 0x1_0000 + b.1 * 0x100 + b.2;
        assert(a.rank() == a0 * 0x100_0000 + a3);
        assert(b.rank() == b0 * 0x100_0000 + b3);
        assert(a0 == b0 && a3 == b3);
        assert(a.0 == b.0 && a.1 == b.1 && a.2 == b.2);
        assert(a.3 == b.3 && a.4 == b.4 && a.5 == b.5);
    }

    fn before(self, other: Self) -> (r: bool) {
        if self.0 != other.0 {
            self.0 < other.0
        } else if self.1 != other.1 {
            self.1 < other.1
        } else if self.2 != other.2 {
            self.2 < other.2
        } else if self.3 != other.3 {
            self.3 < other.3
        } else if self.4 != other.4 {
            self.4 < other.4
        } else {
            self.5 < other.5
        }
    }
}

/// An IP address by its number. IPv4 addresses come before IPv6 addresses.
#[derive(Clone, Copy, Debug, PartialEq, Eq, Structural)]
pub enum IpAddr {
    V4(u32),
    V6(u128),
}

impl Ordered for IpAddr {
    open spec fn rank(self) -> int {
        match self {
            IpAddr::V4(n) => n as int,
            IpAddr::V6(n) => n + 0x1_0000_0000,
        }
    }

    proof fn rank_tells_apart(a: Self, b: Self) {
    }

    fn before(self, other: Self) -> (r: bool) {
        match (self, other) {
            (IpAddr::V4(a), IpAddr::V4(b)) => a < b,
            (IpAddr::V4(_), IpAddr::V6(_)) => true,
            (IpAddr::V6(_), IpAddr::V4(_)) => false,
            (IpAddr::V6(a), IpAddr::V6(b)) => a < b,
        }
    }
}

/// An IP address together with its textual form.
#[derive(Debug)]
pub struct Address {
    pub ip: IpAddr,
    pub text: String,
}

impl Clone for Address {
    fn clone(&self) -> (r: Self)
        ensures
            r == *self,
    {
        Address { ip: self.ip, text: self.text.clone() }
    }
}

/// A UUID by its number.
#[derive(Clone, Copy, Debug, PartialEq, Eq, Structural)]
pub struct Uuid {
    pub value: u128,
}

/// The position, among the thirty-two hexadecimal digits of a UUID, of the digit at place
/// `i` of its hyphenated text.
pub open spec fn uuid_digit_position(i: int) -> int {
    if i < 8 {
        i
    } else if i < 13 {
        i - 1
    } else if i < 18 {
        i - 2
    } else if i < 23 {
        i - 3
    } else {
        i - 4
    }
}

/// The hyphenated lower-case hexadecimal text of a UUID.
pub open spec fn uuid_text(value: u128) -> Seq<char> {
    Seq::new(
        36,
        |i: int|
            if i == 8 || i == 13 || i == 18 || i == 23 {
                '-'
            } else {
                lower_hex_digit((value as int / pow(16, (31 - uuid_digit_position(i)) as nat)) % 16)
            },
    )
}

impl Uuid {
    /// Parses the textual forms that the `uuid` crate reads.
    pub fn parse(text: &str) -> (r: Option<Self>)
        ensures
            match r {
                Some(uuid) => uuid_parsed(text@) == Some(uuid.value),
                None => uuid_parsed(text@) is None,
            },
    {
        parse_uuid(text)
    }

    /// The hyphenated lower-case hexadecimal text.
    pub fn to_text(self) -> (r: String)
        ensures
            r@ == uuid_text(self.value),
            uuid_parsed(r@) == Some(self.value),
    {
        format_uuid(self)
    }
}

/// The identity of a network segment.
#[derive(Clone, Copy, Debug, PartialEq, Eq, Structural)]
pub struct NetworkSegmentId(pub u128);

impl Ordered for NetworkSegmentId {
    open spec fn rank(self) -> int {
        self.0 as int
    }

    proof fn rank_tells_apart(a: Self, b: Self) {
    }

    fn before(self, other: Self) -> (r: bool) {
        self.0 < other.0
    }
}

/// An address that is held fixed in a segment.
#[derive(Clone, Copy, Debug, PartialEq, Eq, Structural)]
pub struct FixedAllocation {
    pub segment_id: NetworkSegmentId,
    pub address: IpAddr,
}

impl Ordered for FixedAllocation {
    /// Ordered by segment, then by address.
    open spec fn rank(self) -> int {
        self.segment_id.rank() * 0x1_0000_0000_0000_0000_0000_0001_0000_0000
            + self.address.rank()
    }

    proof fn rank_tells_apart(a: Self, b: Self) {
        assert(0 <= a.address.rank() < 0x1_0000_0000_0000_0000_0000_0001_0000_0000);
        assert(0 <= b.address.rank() < 0x1_0000_0000_0000_0000_0000_0001_0000_0000);
        assert(a.segment_id.rank() == b.segment_id.rank());
        NetworkSegmentId::rank_tells_apart(a.segment_id, b.segment_id);
        IpAddr::rank_tells_apart(a.address, b.address);
    }

    fn before(self, other: Self) -> (r: bool) {
        proof {
            assert(0 <= self.address.rank() < 0x1_0000_0000_0000_0000_0000_0001_0000_0000);
            assert(0 <= other.address.rank() < 0x1_0000_0000_0000_0000_0000_0001_0000_0000);
        }
        if self.segment_id.before(other.segment_id) {
            true
        } else if other.segment_id.before(self.segment_id) {
            false
        } else {
            self.address.before(other.address)
        }
    }
}

/// The identity of a machine interface.
#[derive(Clone, Copy, Debug, PartialEq, Eq, Structural)]
pub struct MachineInterfaceId(pub u128);

/// The identity of a machine, by its text.
#[derive(Debug)]
pub struct MachineId {
    pub text: String,
}

impl Clone for MachineId {
    fn clone(&self) -> (r: Self)
        ensures
            r == *self,
    {
        MachineId { text: self.text.clone() }
    }
}

impl MachineId {
    /// Whether both name the same machine.
    pub open spec fn same_as(self, other: Self) -> bool {
        self.text@ == other.text@
    }

    /// Whether both name the same machine.
    pub fn same(&self, other: &Self) -> (r: bool)
        ensures
            r == self.same_as(*other),
    {
        self.text == other.text
    }
}

} // verus!
