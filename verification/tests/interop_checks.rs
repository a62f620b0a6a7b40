//! Cross-checks of the library's address handling against smoltcp's wire
//! types, which the device's IP stack uses for the same values.

use onoff_light::net::{gateway_address, link_local_address, segments_to_octets};
use smoltcp::wire::{Ipv6Address, Ipv6Cidr};

#[test]
fn octet_expansion_matches_smoltcp() {
    let segs = link_local_address();
    let ours = segments_to_octets(&segs);
    let theirs = Ipv6Address::new(
        segs[0], segs[1], segs[2], segs[3], segs[4], segs[5], segs[6], segs[7],
    );
    assert_eq!(&ours[..], theirs.as_bytes());
}

#[test]
fn gateway_octets_match_smoltcp() {
    let segs = gateway_address();
    let ours = segments_to_octets(&segs);
    let theirs = Ipv6Address::new(
        segs[0], segs[1], segs[2], segs[3], segs[4], segs[5], segs[6], segs[7],
    );
    assert_eq!(&ours[..], theirs.as_bytes());
}

#[test]
fn smoltcp_agrees_address_is_link_local() {
    let a = Ipv6Address::new(0xfe80, 0, 0, 0, 0x36b4, 0x72ff, 0xfe4c, 0x4410);
    assert!(a.is_link_local());
    assert!(a.is_unicast());
    let gw = Ipv6Address::new(0xfe80, 0, 0, 0, 0, 0, 0, 0);
    assert!(gw.is_link_local());
}

#[test]
fn cidr_prefix_is_sixty_four() {
    let a = Ipv6Address::new(0xfe80, 0, 0, 0, 0x36b4, 0x72ff, 0xfe4c, 0x4410);
    let cidr = Ipv6Cidr::new(a, 64);
    assert_eq!(cidr.prefix_len(), 64);
    assert_eq!(cidr.address(), a);
}
