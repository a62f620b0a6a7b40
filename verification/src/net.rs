//! Network addressing data: the fixed IPv6 link-local identity, the
//! dual-stack configuration the device boots with, and the address
//! snapshot captured once both stacks are configured.

use vstd::prelude::*;

verus! {

/// Number of concurrent sockets the stack is provisioned for.
pub const SOCKET_CAPACITY: usize = 8;

/// Prefix length of the static IPv6 link-local assignment.
pub const IPV6_PREFIX_LEN: u8 = 64;

/// The device's static IPv6 link-local address, as eight 16-bit segments.
pub open spec fn spec_link_local_segments() -> Seq<u16> {
    seq![0xfe80u16, 0u16, 0u16, 0u16, 0x36b4u16, 0x72ffu16, 0xfe4cu16, 0x4410u16]
}

/// The IPv6 gateway, the bare link-local prefix.
pub open spec fn spec_gateway_segments() -> Seq<u16> {
    seq![0xfe80u16, 0u16, 0u16, 0u16, 0u16, 0u16, 0u16, 0u16]
}

/// An address is link-local when it lies in the fe80::/10 block, that is
/// when its first segment is between 0xfe80 and 0xfebf.
pub open spec fn is_link_local(segments: Seq<u16>) -> bool {
    &&& segments.len() == 8
    &&& 0xfe80 <= segments[0] <= 0xfebf
}

/// High byte of a 16-bit segment, as it appears first in network order.
pub open spec fn high_byte(x: u16) -> u8 {
    (x / 256) as u8
}

/// Low byte of a 16-bit segment, second in network order.
pub open spec fn low_byte(x: u16) -> u8 {
    (x % 256) as u8
}

/// The sixteen octets of an IPv6 address given as eight segments, in
/// network byte order.
pub open spec fn spec_octets_of(segments: Seq<u16>) -> Seq<u8> {
    Seq::new(16, |i: int| {
        if i % 2 == 0 {
            high_byte(segments[i / 2])
        } else {
            low_byte(segments[i / 2])
        }
    })
}

/// The device's static IPv6 link-local address.
pub fn link_local_address() -> (r: [u16; 8])
    ensures
        r@ == spec_link_local_segments(),
        is_link_local(r@),
{
    let r: [u16; 8] = [0xfe80, 0, 0, 0, 0x36b4, 0x72ff, 0xfe4c, 0x4410];
    proof {
        assert(r@ =~= spec_link_local_segments());
    }
    r
}

/// The IPv6 gateway address.
pub fn gateway_address() -> (r: [u16; 8])
    ensures
        r@ == spec_gateway_segments(),
        is_link_local(r@),
{
    let r: [u16; 8] = [0xfe80, 0, 0, 0, 0, 0, 0, 0];
    proof {
        assert(r@ =~= spec_gateway_segments());
    }
    r
}

/// Expand eight 16-bit segments into the sixteen octets of the address,
/// in network byte order.
pub fn segments_to_octets(segments: &[u16; 8]) -> (r: [u8; 16])
    ensures
        r@ == spec_octets_of(segments@),
{
    let r: [u8; 16] = [
        (segments[0] / 256) as u8,
        (segments[0] % 256) as u8,
        (segments[1] / 256) as u8,
        (segments[1] % 256) as u8,
        (segments[2] / 256) as u8,
        (segments[2] % 256) as u8,
        (segments[3] / 256) as u8,
        (segments[3] % 256) as u8,
        (segments[4] / 256) as u8,
        (segments[4] % 256) as u8,
        (segments[5] / 256) as u8,
        (segments[5] % 256) as u8,
        (segments[6] / 256) as u8,
        (segments[6] % 256) as u8,
        (segments[7] / 256) as u8,
        (segments[7] % 256) as u8,
    ];
    proof {
        assert(r@ =~= spec_octets_of(segments@));
    }
    r
}

/// The static IPv6 half of the boot configuration.
pub struct Ipv6StaticPlan {
    /// Address segments, fixed to the link-local identity above.
    pub address_segments: [u16; 8],
    /// Prefix length of the assignment.
    pub prefix_len: u8,
    /// Gateway segments, when a gateway is configured.
    pub gateway_segments: Option<[u16; 8]>,
    /// Configured DNS servers; the device boots with none.
    pub dns_servers: Vec<[u16; 8]>,
}

/// The dual-stack configuration handed to the IP stack at boot:
/// IPv4 over DHCP, IPv6 static link-local, a fixed socket pool and the
/// RNG seed drawn for this boot.
pub struct StackPlan {
    /// IPv4 is obtained via DHCP.
    pub dhcp_v4: bool,
    /// The static IPv6 configuration.
    pub v6: Ipv6StaticPlan,
    /// Size of the socket resource pool.
    pub socket_capacity: usize,
    /// 64-bit seed for the stack's RNG.
    pub seed: u64,
}

/// Build the boot-time stack configuration around the given seed.
pub fn stack_plan(seed: u64) -> (p: StackPlan)
    ensures
        p.dhcp_v4,
        p.v6.address_segments@ == spec_link_local_segments(),
        is_link_local(p.v6.address_segments@),
        p.v6.prefix_len == IPV6_PREFIX_LEN,
        p.v6.gateway_segments matches Some(g) && g@ == spec_gateway_segments(),
        p.v6.dns_servers@.len() == 0,
        p.socket_capacity == SOCKET_CAPACITY,
        p.seed == seed,
{
    StackPlan {
        dhcp_v4: true,
        v6: Ipv6StaticPlan {
            address_segments: link_local_address(),
            prefix_len: IPV6_PREFIX_LEN,
            gateway_segments: Some(gateway_address()),
            dns_servers: Vec::new(),
        },
        socket_capacity: SOCKET_CAPACITY,
        seed,
    }
}

/// The pair of addresses captured when the wait-for-address barrier
/// completes: the DHCP-assigned IPv4 address and the IPv6 link-local
/// address, both as octets. Immutable once taken.
pub struct AddressSnapshot {
    pub v4: [u8; 4],
    pub v6: [u8; 16],
}

} // verus!
