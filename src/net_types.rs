//! Network value types shared by the network services: ports, Ethernet and
//! IPv4 addresses, with their textual forms.
use vstd::prelude::*;
use vstd::string::StringExecFns;

verus! {

/// The digits `0`-`9` then `A`-`F`.
pub open spec fn hex_digits() -> Seq<char> {
    seq!['0', '1', '2', '3', '4', '5', '6', '7', '8', '9', 'A', 'B', 'C', 'D', 'E', 'F']
}

/// The character of digit `d` (below 16).
pub open spec fn digit_char(d: nat) -> char {
    hex_digits()[d as int]
}

/// `n` in decimal, without leading zeros.
pub open spec fn decimal(n: nat) -> Seq<char>
    decreases n,
{
    if n < 10 {
        seq![digit_char(n)]
    } else {
        decimal(n / 10).push(digit_char(n % 10))
    }
}

/// `b` as two upper-case hexadecimal digits.
pub open spec fn hex_byte(b: u8) -> Seq<char> {
    seq![digit_char((b / 16) as nat), digit_char((b % 16) as nat)]
}

/// Relies on `Display` for `u16`: decimal digits, no sign, no leading zeros.
#[verifier::external_body]
fn format_decimal(n: u16) -> (r: String)
    ensures
        r@ == decimal(n as nat),
{
    format!("{}", n)
}

/// Relies on `UpperHex` for `u8` with `{:02X}`: two upper-case digits, zero-padded.
#[verifier::external_body]
fn format_hex_byte(b: u8) -> (r: String)
    ensures
        r@ == hex_byte(b),
{
    format!("{:02X}", b)
}

/// A UDP or TCP port.
#[derive(Debug, Hash, PartialEq, Eq, PartialOrd, Ord, Clone, Copy, Default, Structural)]
pub struct Port(pub u16);

impl From<u16> for Port {
    fn from(port: u16) -> (r: Port)
        ensures
            r.0 == port,
    {
        Port(port)
    }
}

impl vstd::std_specs::convert::FromSpecImpl<u16> for Port {
    open spec fn obeys_from_spec() -> bool {
        true
    }

    open spec fn from_spec(port: u16) -> Port {
        Port(port)
    }
}

impl From<Port> for u16 {
    fn from(port: Port) -> (r: u16)
        ensures
            r == port.0,
    {
        port.0
    }
}

impl vstd::std_specs::convert::FromSpecImpl<Port> for u16 {
    open spec fn obeys_from_spec() -> bool {
        true
    }

    open spec fn from_spec(port: Port) -> u16 {
        port.0
    }
}

impl Port {
    /// The port number in decimal.
    pub fn to_string(&self) -> (r: String)
        ensures
            r@ == decimal(self.0 as nat),
    {
        format_decimal(self.0)
    }
}

/// A 48-bit Ethernet (MAC) address.
#[derive(Debug, Hash, PartialEq, Eq, PartialOrd, Ord, Clone, Copy, Default)]
pub struct EthernetAddress(pub [u8; 6]);

impl From<[u8; 6]> for EthernetAddress {
    fn from(octets: [u8; 6]) -> (r: EthernetAddress)
        ensures
            r.0 == octets,
    {
        EthernetAddress(octets)
    }
}

impl vstd::std_specs::convert::FromSpecImpl<[u8; 6]> for EthernetAddress {
    open spec fn obeys_from_spec() -> bool {
        true
    }

    open spec fn from_spec(octets: [u8; 6]) -> EthernetAddress {
        EthernetAddress(octets)
    }
}

impl From<EthernetAddress> for [u8; 6] {
    fn from(addr: EthernetAddress) -> (r: [u8; 6])
        ensures
            r == addr.0,
    {
        addr.0
    }
}

impl vstd::std_specs::convert::FromSpecImpl<EthernetAddress> for [u8; 6] {
    open spec fn obeys_from_spec() -> bool {
        true
    }

    open spec fn from_spec(addr: EthernetAddress) -> [u8; 6] {
        addr.0
    }
}

/// Six octets as upper-case hexadecimal pairs joined by `:`.
pub open spec fn mac_text(o: Seq<u8>) -> Seq<char> {
    hex_byte(o[0]) + seq![':'] + hex_byte(o[1]) + seq![':'] + hex_byte(o[2]) + seq![':']
        + hex_byte(o[3]) + seq![':'] + hex_byte(o[4]) + seq![':'] + hex_byte(o[5])
}

impl EthernetAddress {
    /// The address as `XX:XX:XX:XX:XX:XX`.
    pub fn to_string(&self) -> (r: String)
        ensures
            r@ == mac_text(self.0@),
    {
        proof {
            reveal_strlit(":");
        }
        let o = self.0;
        let mut s = format_hex_byte(o[0]);
        s.append(":");
        let pair1 = format_hex_byte(o[1]);
        s.append(pair1.as_str());
        s.append(":");
        let pair2 = format_hex_byte(o[2]);
        s.append(pair2.as_str());
        s.append(":");
        let pair3 = format_hex_byte(o[3]);
        s.append(pair3.as_str());
        s.append(":");
        let pair4 = format_hex_byte(o[4]);
        s.append(pair4.as_str());
        s.append(":");
        let pair5 = format_hex_byte(o[5]);
        s.append(pair5.as_str());
        s
    }
}

/// An IPv4 address.
#[derive(Debug, Hash, PartialEq, Eq, PartialOrd, Ord, Clone, Copy, Default)]
pub struct Ipv4Address(pub [u8; 4]);

impl From<[u8; 4]> for Ipv4Address {
    fn from(octets: [u8; 4]) -> (r: Ipv4Address)
        ensures
            r.0 == octets,
    {
        Ipv4Address(octets)
    }
}

impl vstd::std_specs::convert::FromSpecImpl<[u8; 4]> for Ipv4Address {
    open spec fn obeys_from_spec() -> bool {
        true
    }

    open spec fn from_spec(octets: [u8; 4]) -> Ipv4Address {
        Ipv4Address(octets)
    }
}

impl From<Ipv4Address> for [u8; 4] {
    fn from(addr: Ipv4Address) -> (r: [u8; 4])
        ensures
            r == addr.0,
    {
        addr.0
    }
}

impl vstd::std_specs::convert::FromSpecImpl<Ipv4Address> for [u8; 4] {
    open spec fn obeys_from_spec() -> bool {
        true
    }

    open spec fn from_spec(addr: Ipv4Address) -> [u8; 4] {
        addr.0
    }
}

/// Four octets in decimal joined by `.`.
pub open spec fn dotted_quad(o: Seq<u8>) -> Seq<char> {
    decimal(o[0] as nat) + seq!['.'] + decimal(o[1] as nat) + seq!['.'] + decimal(o[2] as nat)
        + seq!['.'] + decimal(o[3] as nat)
}

impl Ipv4Address {
    /// The address in dotted-decimal form, as `10.0.0.1`.
    pub fn to_string(&self) -> (r: String)
        ensures
            r@ == dotted_quad(self.0@),
    {
        proof {
            reveal_strlit(".");
        }
        let o = self.0;
        let mut s = format_decimal(o[0] as u16);
        s.append(".");
        let b = format_decimal(o[1] as u16);
        s.append(b.as_str());
        s.append(".");
        let c = format_decimal(o[2] as u16);
        s.append(c.as_str());
        s.append(".");
        let d = format_decimal(o[3] as u16);
        s.append(d.as_str());
        s
    }
}

} // verus!
