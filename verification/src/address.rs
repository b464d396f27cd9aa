//! IP addresses and CIDR networks as plain numbers.

use vstd::arithmetic::power2::pow2;
use vstd::prelude::*;

verus! {

broadcast use vstd::string::group_string_axioms;

/// An IP address, held as its numeric value with the first octet most
/// significant. The two families never compare equal.
#[derive(Clone, Copy, Debug, PartialEq, Eq, Hash, Structural)]
pub enum IpAddress {
    V4(u32),
    V6(u128),
}

/// The numeric value of the IPv4 address `a.b.c.d`.
pub open spec fn v4_value(a: u8, b: u8, c: u8, d: u8) -> int {
    a * 0x100_0000 + b * 0x1_0000 + c * 0x100 + d
}

impl IpAddress {
    /// Number of bits in an address of this family.
    pub open spec fn spec_bit_width(&self) -> u8 {
        match self {
            IpAddress::V4(_) => 32,
            IpAddress::V6(_) => 128,
        }
    }

    /// The IPv4 address `a.b.c.d`.
    pub fn v4(a: u8, b: u8, c: u8, d: u8) -> (r: IpAddress)
        ensures
            r == IpAddress::V4(v4_value(a, b, c, d) as u32),
            v4_value(a, b, c, d) <= u32::MAX,
    {
        let bits: u32 = (a as u32) * 0x100_0000 + (b as u32) * 0x1_0000 + (c as u32) * 0x100
            + (d as u32);
        IpAddress::V4(bits)
    }
}

/// A CIDR network: a base address and the number of leading bits that an
/// address must share with it to belong.
#[derive(Clone, Copy, Debug, PartialEq, Eq, Structural)]
pub struct Network {
    pub addr: IpAddress,
    pub prefix: u8,
}

impl Network {
    /// The number of trailing bits that an address is free in: what the
    /// prefix leaves of the address's width. A prefix as long as the address,
    /// or longer, leaves none.
    pub open spec fn spec_host_bits(&self) -> nat {
        if self.prefix >= self.addr.spec_bit_width() {
            0
        } else {
            (self.addr.spec_bit_width() - self.prefix) as nat
        }
    }

    /// Membership: same family, and the address agrees with the base on all
    /// bits but the trailing host bits.
    pub open spec fn spec_contains(&self, ip: IpAddress) -> bool {
        match (self.addr, ip) {
            (IpAddress::V4(base), IpAddress::V4(a)) => a as nat / pow2(self.spec_host_bits())
                == base as nat / pow2(self.spec_host_bits()),
            (IpAddress::V6(base), IpAddress::V6(a)) => a as nat / pow2(self.spec_host_bits())
                == base as nat / pow2(self.spec_host_bits()),
            _ => false,
        }
    }

    /// Whether the address lies in the network.
    pub fn contains(&self, ip: IpAddress) -> (r: bool)
        ensures
            r == self.spec_contains(ip),
    {
        match (self.addr, ip) {
            (IpAddress::V4(base), IpAddress::V4(a)) => {
                if self.prefix >= 32 {
                    proof {
                        lemma_div_by_pow2_0(a as nat);
                        lemma_div_by_pow2_0(base as nat);
                    }
                    a == base
                } else if self.prefix == 0 {
                    proof {
                        vstd::arithmetic::power2::lemma2_to64();
                        assert(a as nat / pow2(32) == 0);
                        assert(base as nat / pow2(32) == 0);
                    }
                    true
                } else {
                    let shift: u32 = 32 - self.prefix as u32;
                    proof {
                        vstd::bits::lemma_u32_shr_is_div(a, shift);
                        vstd::bits::lemma_u32_shr_is_div(base, shift);
                    }
                    (a >> shift) == (base >> shift)
                }
            },
            (IpAddress::V6(base), IpAddress::V6(a)) => {
                if self.prefix >= 128 {
                    proof {
                        lemma_div_by_pow2_0(a as nat);
                        lemma_div_by_pow2_0(base as nat);
                    }
                    a == base
                } else if self.prefix == 0 {
                    proof {
                        lemma_pow2_128();
                        assert(a as nat / pow2(128) == 0);
                        assert(base as nat / pow2(128) == 0);
                    }
                    true
                } else {
                    let shift: u128 = 128 - self.prefix as u128;
                    proof {
                        vstd::bits::lemma_u128_shr_is_div(a, shift);
                        vstd::bits::lemma_u128_shr_is_div(base, shift);
                    }
                    (a >> shift) == (base >> shift)
                }
            },
            _ => false,
        }
    }
}

proof fn lemma_div_by_pow2_0(x: nat)
    ensures
        x / pow2(0) == x,
{
    vstd::arithmetic::power2::lemma2_to64();
    assert(pow2(0) == 1);
}

/// 2^128 is one more than the largest `u128`.
proof fn lemma_pow2_128()
    ensures
        pow2(128) == 0x1_0000_0000_0000_0000_0000_0000_0000_0000,
{
    vstd::arithmetic::power2::lemma2_to64();
    vstd::arithmetic::power2::lemma_pow2_adds(64, 64);
}

/// A network whose prefix is as long as the address holds its own base
/// address and no other: a single address is matched by equality.
pub proof fn lemma_host_network_is_equality(net: Network, ip: IpAddress)
    requires
        net.prefix >= net.addr.spec_bit_width(),
    ensures
        net.spec_contains(ip) <==> ip == net.addr,
{
    match (net.addr, ip) {
        (IpAddress::V4(base), IpAddress::V4(a)) => {
            lemma_div_by_pow2_0(a as nat);
            lemma_div_by_pow2_0(base as nat);
        },
        (IpAddress::V6(base), IpAddress::V6(a)) => {
            lemma_div_by_pow2_0(a as nat);
            lemma_div_by_pow2_0(base as nat);
        },
        _ => {},
    }
}

/// The network of prefix zero holds every address of its family, and none of
/// the other.
pub proof fn lemma_zero_prefix_holds_family(addr: IpAddress, ip: IpAddress)
    ensures
        (Network { addr, prefix: 0 }).spec_contains(ip) <==> (ip is V4 <==> addr is V4),
{
    vstd::arithmetic::power2::lemma2_to64();
    lemma_pow2_128();
    match (addr, ip) {
        (IpAddress::V4(base), IpAddress::V4(a)) => {
            assert(a as nat / pow2(32) == 0);
            assert(base as nat / pow2(32) == 0);
        },
        (IpAddress::V6(base), IpAddress::V6(a)) => {
            assert(a as nat / pow2(128) == 0);
            assert(base as nat / pow2(128) == 0);
        },
        _ => {},
    }
}

/// A network holds its own base address.
pub proof fn lemma_network_holds_its_base(net: Network)
    ensures
        net.spec_contains(net.addr),
{
}

/// What the `ipnetwork` crate's parser makes of a specifier: the network it
/// denotes, or nothing where it rejects the text. A specifier is an address,
/// alone or followed by a slash and a prefix length (or, for IPv4, a netmask).
pub uninterp spec fn parsed_network(text: Seq<char>) -> Option<Network>;

/// Parses a specifier with `ipnetwork::IpNetwork::from_str`.
///
/// Not proved: that the result is `parsed_network` of the text, that is, that
/// the parser's answer depends on the text alone.
#[verifier::external_body]
pub(crate) fn parse_network(text: &str) -> (r: Option<Network>)
    ensures
        r == parsed_network(text@),
{
    match text.parse::<ipnetwork::IpNetwork>() {
        Ok(ipnetwork::IpNetwork::V4(net)) => Some(
            Network { addr: IpAddress::V4(net.ip().into()), prefix: net.prefix() },
        ),
        Ok(ipnetwork::IpNetwork::V6(net)) => Some(
            Network { addr: IpAddress::V6(net.ip().into()), prefix: net.prefix() },
        ),
        Err(_) => None,
    }
}

/// The single address that a text denotes: what a specifier without a prefix
/// part stands for. A text with a slash denotes a network, not an address.
pub open spec fn host_address(text: Seq<char>) -> Option<IpAddress> {
    if text.contains('/') {
        None
    } else {
        match parsed_network(text) {
            Some(net) => Some(net.addr),
            None => None,
        }
    }
}

fn has_slash(text: &str) -> (r: bool)
    ensures
        r == text@.contains('/'),
{
    let mut found = false;
    for c in it: text.chars()
        invariant
            it.seq() == text@,
            found <==> exists|j: int| 0 <= j < it.index() && text@[j] == '/',
    {
        if c == '/' {
            found = true;
        }
    }
    found
}

impl IpAddress {
    /// Reads a single address in text; `None` where the text is not one.
    pub fn parse(text: &str) -> (r: Option<IpAddress>)
        ensures
            r == host_address(text@),
    {
        if has_slash(text) {
            return None;
        }
        match parse_network(text) {
            Some(net) => Some(net.addr),
            None => None,
        }
    }
}

} // verus!
