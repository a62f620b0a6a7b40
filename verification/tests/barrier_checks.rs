use onoff_light::barrier::{drive_barrier, snapshot, BarrierState, StackPoll};

const V4: [u8; 4] = [192, 168, 1, 50];
const V6: [u8; 16] = [
    0xfe, 0x80, 0, 0, 0, 0, 0, 0, 0x36, 0xb4, 0x72, 0xff, 0xfe, 0x4c, 0x44, 0x10,
];

fn poll(v4: Option<[u8; 4]>, v6: Option<[u8; 16]>) -> StackPoll {
    StackPoll { v4, v6 }
}

#[test]
fn barrier_completes_when_both_configs_arrive() {
    // v4 lands on the third poll, v6 on the fifth; the barrier completes.
    let polls = vec![
        poll(None, None),
        poll(None, None),
        poll(Some(V4), None),
        poll(Some(V4), None),
        poll(Some(V4), Some(V6)),
    ];
    let (state, yields) = drive_barrier(&polls);
    let snap = snapshot(&state).expect("barrier must be complete");
    assert_eq!(snap.v4, V4);
    assert_eq!(snap.v6, V6);
    // Two empty v4 polls and one empty v6 poll each yielded once.
    assert_eq!(yields, 3);
}

#[test]
fn barrier_completes_when_v6_lands_first() {
    // The stack publishes v6 before v4; the barrier still completes.
    let polls = vec![poll(None, Some(V6)), poll(Some(V4), Some(V6)), poll(Some(V4), Some(V6))];
    let (state, _) = drive_barrier(&polls);
    let snap = snapshot(&state).expect("barrier must be complete");
    assert_eq!(snap.v4, V4);
    assert_eq!(snap.v6, V6);
}

#[test]
fn barrier_waits_forever_without_v6() {
    // Only v4 ever arrives: the barrier never completes, however long
    // it polls, and every fruitless poll yields.
    let mut polls = vec![poll(None, None)];
    for _ in 0..50 {
        polls.push(poll(Some(V4), None));
    }
    let (state, yields) = drive_barrier(&polls);
    assert!(snapshot(&state).is_none());
    assert!(matches!(state, BarrierState::WaitingV6 { v4 } if v4 == V4));
    // All polls but the one that saw v4 arrive yielded.
    assert_eq!(yields, 50);
}

#[test]
fn barrier_waits_forever_without_v4() {
    // No DHCP server reachable: the barrier never leaves its first
    // state, even though v6 is long since configured.
    let mut polls = Vec::new();
    for _ in 0..50 {
        polls.push(poll(None, Some(V6)));
    }
    let (state, yields) = drive_barrier(&polls);
    assert!(snapshot(&state).is_none());
    assert!(matches!(state, BarrierState::WaitingV4));
    assert_eq!(yields, 50);
}

#[test]
fn snapshot_is_immutable_after_completion() {
    // Once complete, later polls with different addresses change nothing.
    let other_v4: [u8; 4] = [10, 0, 0, 7];
    let mut other_v6 = V6;
    other_v6[15] = 0x99;
    let polls = vec![
        poll(Some(V4), Some(V6)),
        poll(None, Some(V6)),
        poll(Some(other_v4), Some(other_v6)),
        poll(None, None),
    ];
    let (state, _) = drive_barrier(&polls);
    let snap = snapshot(&state).expect("barrier must be complete");
    assert_eq!(snap.v4, V4);
    assert_eq!(snap.v6, V6);
}
