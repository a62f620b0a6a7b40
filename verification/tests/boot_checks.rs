use onoff_light::barrier::StackPoll;
use onoff_light::heap::HeapCell;
use onoff_light::net::{link_local_address, segments_to_octets};
use onoff_light::sequencer::{boot, BootSequencer, Phase};

const V4: [u8; 4] = [192, 168, 1, 50];

fn v6_octets() -> [u8; 16] {
    segments_to_octets(&link_local_address())
}

#[test]
fn full_boot_reaches_running() {
    let polls = vec![
        StackPoll { v4: None, v6: None },
        StackPoll { v4: Some(V4), v6: None },
        StackPoll { v4: Some(V4), v6: Some(v6_octets()) },
    ];
    let rec = boot(7, &polls).expect("barrier completes, so boot must");
    assert!(matches!(rec.sequencer.phase, Phase::Running));
    // Every singleton was constructed exactly once.
    assert!(rec.sequencer.heap_initialized);
    assert_eq!(rec.sequencer.device_count, 1);
    assert_eq!(rec.sequencer.stack_count, 1);
    assert_eq!(rec.sequencer.basic_info_count, 1);
    assert_eq!(rec.sequencer.attestation_count, 1);
    assert_eq!(rec.sequencer.mdns_count, 1);
    assert_eq!(rec.sequencer.matter_count, 1);
    // The snapshot and the plans built from it.
    assert_eq!(rec.snapshot.v4, V4);
    assert_eq!(rec.snapshot.v6, v6_octets());
    assert_eq!(rec.mdns.v4_octets, V4);
    assert_eq!(rec.stack.seed, 7);
    assert_eq!(rec.commissioning.passcode, 123456);
    assert_eq!(rec.commissioning.discriminator, 250);
    assert_eq!(rec.basic.vid, 0xFFF1);
    assert_eq!(rec.basic.pid, 0x8000);
    assert!(rec.handler.handles(1, 0x0006));
}

#[test]
fn boot_stalls_without_both_addresses() {
    // v6 never arrives: the barrier cannot complete, so boot constructs
    // nothing and reports it.
    let mut polls = Vec::new();
    for _ in 0..20 {
        polls.push(StackPoll { v4: Some(V4), v6: None });
    }
    assert!(boot(7, &polls).is_none());
}

#[test]
fn boot_completes_after_long_stall() {
    // No DHCP answer for a long while (cable unplugged), then the lease
    // arrives: the boot sequence completes normally.
    let mut polls = Vec::new();
    for _ in 0..200 {
        polls.push(StackPoll { v4: None, v6: Some(v6_octets()) });
    }
    polls.push(StackPoll { v4: Some(V4), v6: None });
    polls.push(StackPoll { v4: Some(V4), v6: Some(v6_octets()) });
    let rec = boot(1, &polls).expect("late lease still completes boot");
    assert!(matches!(rec.sequencer.phase, Phase::Running));
    assert_eq!(rec.snapshot.v4, V4);
}

#[test]
fn sequencer_walk_orders_singletons() {
    let mut seq = BootSequencer::power_on();
    let mut heap = HeapCell::new();
    assert_eq!(seq.matter_count, 0);
    seq.spawn_logger();
    seq.init_heap(&mut heap);
    seq.build_ethernet();
    seq.build_stack();
    // Before the addresses are observed, Matter is not constructed.
    assert_eq!(seq.matter_count, 0);
    assert!(seq.addresses.is_none());
    seq.observe_addresses(onoff_light::net::AddressSnapshot { v4: V4, v6: v6_octets() });
    seq.build_basic_info();
    seq.build_attestation();
    seq.build_mdns();
    // The snapshot exists before the Matter constructor runs.
    assert!(seq.addresses.is_some());
    assert_eq!(seq.matter_count, 0);
    seq.build_matter();
    assert_eq!(seq.matter_count, 1);
    seq.spawn_mdns_task();
    seq.run_matter();
    assert!(matches!(seq.phase, Phase::Running));
}
