use onoff_light::eth::{ethernet_plan, RX_BUFFER_SLOTS, SPI_FREQUENCY_HZ, TX_BUFFER_SLOTS};
use onoff_light::info::{
    basic_info, commissioning_plan, countdown_schedule, logger_plan, mdns_plan, LogLevel,
    COMMISSIONING_DISCRIMINATOR, COMMISSIONING_PASSCODE, LOGGER_BUFFER_BYTES, MATTER_PORT,
};
use onoff_light::net::{
    gateway_address, link_local_address, segments_to_octets, stack_plan, AddressSnapshot,
    IPV6_PREFIX_LEN, SOCKET_CAPACITY,
};

#[test]
fn basic_info_fields() {
    let b = basic_info();
    assert_eq!(b.vid, 0xFFF1);
    assert_eq!(b.pid, 0x8000);
    assert_eq!(b.hw_ver, 2);
    assert_eq!(b.sw_ver, 1);
    assert_eq!(b.sw_ver_str, "1");
    assert_eq!(b.serial_no, "aabbccdd");
    assert_eq!(b.device_name, "OnOff Light");
}

#[test]
fn commissioning_parameters() {
    let c = commissioning_plan();
    assert_eq!(c.passcode, 123456);
    assert_eq!(c.discriminator, 250);
    assert_eq!(c.passcode, COMMISSIONING_PASSCODE);
    assert_eq!(c.discriminator, COMMISSIONING_DISCRIMINATOR);
    assert!(c.discriminator < 4096);
}

#[test]
fn mdns_plan_uses_snapshot() {
    let snapshot = AddressSnapshot {
        v4: [192, 168, 0, 9],
        v6: segments_to_octets(&link_local_address()),
    };
    let m = mdns_plan(&snapshot);
    assert_eq!(m.hostname, "matter-demo");
    assert_eq!(m.interface_index, 0);
    assert_eq!(m.port, MATTER_PORT);
    assert_eq!(m.port, 5540);
    assert_eq!(m.v4_octets, [192, 168, 0, 9]);
    let (v6, zone) = m.v6_octets.expect("v6 advertised");
    assert_eq!(v6, snapshot.v6);
    assert_eq!(zone, 0);
}

#[test]
fn stack_plan_is_dual_stack() {
    let p = stack_plan(0x1234_5678_9abc_def0);
    assert!(p.dhcp_v4);
    assert_eq!(p.seed, 0x1234_5678_9abc_def0);
    assert_eq!(p.socket_capacity, 8);
    assert_eq!(p.socket_capacity, SOCKET_CAPACITY);
    assert_eq!(p.v6.prefix_len, 64);
    assert_eq!(p.v6.prefix_len, IPV6_PREFIX_LEN);
    assert_eq!(
        p.v6.address_segments,
        [0xfe80, 0, 0, 0, 0x36b4, 0x72ff, 0xfe4c, 0x4410]
    );
    assert_eq!(p.v6.gateway_segments, Some([0xfe80, 0, 0, 0, 0, 0, 0, 0]));
    assert!(p.v6.dns_servers.is_empty());
}

#[test]
fn link_local_octets_are_network_order() {
    let octets = segments_to_octets(&link_local_address());
    assert_eq!(
        octets,
        [0xfe, 0x80, 0, 0, 0, 0, 0, 0, 0x36, 0xb4, 0x72, 0xff, 0xfe, 0x4c, 0x44, 0x10]
    );
    let gw = segments_to_octets(&gateway_address());
    assert_eq!(gw, [0xfe, 0x80, 0, 0, 0, 0, 0, 0, 0, 0, 0, 0, 0, 0, 0, 0]);
}

#[test]
fn ethernet_plan_wiring() {
    let p = ethernet_plan();
    assert_eq!(p.spi_frequency_hz, 50_000_000);
    assert_eq!(p.spi_frequency_hz, SPI_FREQUENCY_HZ);
    assert_eq!(p.miso_pin, 8);
    assert_eq!(p.mosi_pin, 11);
    assert_eq!(p.cs_pin, 9);
    assert_eq!(p.clk_pin, 10);
    assert_eq!(p.int_pin, 12);
    assert_eq!(p.rst_pin, 13);
    assert!(p.cs_initial_high);
    assert!(p.rst_initial_high);
    assert!(p.int_pull_up);
    assert_eq!(p.rx_slots, RX_BUFFER_SLOTS);
    assert_eq!(p.tx_slots, TX_BUFFER_SLOTS);
    assert_eq!(p.rx_slots, 8);
    assert_eq!(p.tx_slots, 8);
    assert_eq!(p.mac, [0x02, 0, 0, 0, 0, 0]);
    // Locally administered unicast: bit 1 of the first octet set, bit 0 clear.
    assert_eq!(p.mac[0] & 0x03, 0x02);
}

#[test]
fn logger_level_and_buffer() {
    let l = logger_plan();
    assert!(matches!(l.level, LogLevel::Info));
    assert_eq!(l.buffer_bytes, 1024);
    assert_eq!(l.buffer_bytes, LOGGER_BUFFER_BYTES);
}

#[test]
fn countdown_is_five_to_zero() {
    let c = countdown_schedule();
    assert_eq!(c, vec![5, 4, 3, 2, 1, 0]);
}
