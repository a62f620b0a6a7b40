//! The wait-for-address barrier.
//!
//! After the stack starts, boot blocks until both the DHCP IPv4
//! configuration and the static IPv6 configuration are published. The
//! stack publishes the two independently, in either order. Each polling
//! attempt that finds the awaited configuration absent yields
//! cooperatively before retrying, so peer tasks are never starved; there
//! is no timeout.
//!
//! The barrier is modelled as a state machine stepped once per poll of
//! the stack. The surrounding async loop performs the polls and the
//! yields; every decision is taken here and is verified.

use vstd::prelude::*;

use crate::net::AddressSnapshot;

verus! {

/// Progress of the barrier. The IPv4 configuration is awaited first;
/// once it is seen, its address is held while the IPv6 configuration is
/// awaited in turn.
pub enum BarrierState {
    /// Still waiting for the IPv4 configuration.
    WaitingV4,
    /// IPv4 seen; waiting for the IPv6 configuration.
    WaitingV6 { v4: [u8; 4] },
    /// Both configurations seen; the snapshot is complete.
    Ready { v4: [u8; 4], v6: [u8; 16] },
}

/// What the surrounding loop must do after a step.
pub enum BarrierAction {
    /// The awaited configuration was absent: yield to peer tasks, then
    /// poll again.
    Yield,
    /// The IPv4 configuration just arrived: poll the IPv6 configuration
    /// next, without yielding in between.
    Advance,
    /// Both configurations are in hand: return the snapshot.
    Complete,
}

/// One poll of the stack: what `config_v4` and `config_v6` returned.
pub struct StackPoll {
    pub v4: Option<[u8; 4]>,
    pub v6: Option<[u8; 16]>,
}

/// Rank of a barrier state; steps never decrease it.
pub open spec fn barrier_rank(s: BarrierState) -> int {
    match s {
        BarrierState::WaitingV4 => 0,
        BarrierState::WaitingV6 { .. } => 1,
        BarrierState::Ready { .. } => 2,
    }
}

/// The successor state after one poll. Only the configuration the
/// current state awaits is consulted; a `Ready` barrier never moves.
pub open spec fn spec_barrier_step(s: BarrierState, poll: StackPoll) -> BarrierState {
    match s {
        BarrierState::WaitingV4 => match poll.v4 {
            Some(a) => BarrierState::WaitingV6 { v4: a },
            None => BarrierState::WaitingV4,
        },
        BarrierState::WaitingV6 { v4 } => match poll.v6 {
            Some(b) => BarrierState::Ready { v4, v6: b },
            None => BarrierState::WaitingV6 { v4 },
        },
        BarrierState::Ready { v4, v6 } => BarrierState::Ready { v4, v6 },
    }
}

/// The action the loop takes after the same poll.
pub open spec fn spec_barrier_action(s: BarrierState, poll: StackPoll) -> BarrierAction {
    match s {
        BarrierState::WaitingV4 => match poll.v4 {
            Some(_) => BarrierAction::Advance,
            None => BarrierAction::Yield,
        },
        BarrierState::WaitingV6 { .. } => match poll.v6 {
            Some(_) => BarrierAction::Complete,
            None => BarrierAction::Yield,
        },
        BarrierState::Ready { .. } => BarrierAction::Complete,
    }
}

/// Step the barrier once with the outcome of one poll of the stack.
///
/// The action tells the loop what to do next, and says `Yield` exactly
/// when no progress was made, so the loop never spins without yielding.
pub fn barrier_step(s: BarrierState, poll: &StackPoll) -> (r: (BarrierState, BarrierAction))
    ensures
        r.0 == spec_barrier_step(s, *poll),
        r.1 == spec_barrier_action(s, *poll),
        r.1 is Yield <==> r.0 == s && s !is Ready,
        barrier_rank(r.0) >= barrier_rank(s),
        r.0 is Ready <==> (r.1 is Complete),
{
    match s {
        BarrierState::WaitingV4 => match poll.v4 {
            Some(a) => (BarrierState::WaitingV6 { v4: a }, BarrierAction::Advance),
            None => (BarrierState::WaitingV4, BarrierAction::Yield),
        },
        BarrierState::WaitingV6 { v4 } => match poll.v6 {
            Some(b) => (BarrierState::Ready { v4, v6: b }, BarrierAction::Complete),
            None => (BarrierState::WaitingV6 { v4 }, BarrierAction::Yield),
        },
        BarrierState::Ready { v4, v6 } => (BarrierState::Ready { v4, v6 }, BarrierAction::Complete),
    }
}

/// The barrier after a whole sequence of polls, started from `s`.
pub open spec fn spec_barrier_run(s: BarrierState, polls: Seq<StackPoll>) -> BarrierState
    decreases polls.len(),
{
    if polls.len() == 0 {
        s
    } else {
        spec_barrier_run(spec_barrier_step(s, polls[0]), polls.drop_first())
    }
}

/// The snapshot a completed barrier returns.
pub open spec fn spec_snapshot_of(s: BarrierState) -> AddressSnapshot
    recommends
        s is Ready,
{
    AddressSnapshot { v4: s->Ready_v4, v6: s->Ready_v6 }
}

/// A `Ready` barrier stays `Ready`, with the same snapshot, whatever is
/// polled afterwards: the snapshot is immutable once taken.
pub proof fn lemma_ready_is_final(s: BarrierState, polls: Seq<StackPoll>)
    requires
        s is Ready,
    ensures
        spec_barrier_run(s, polls) == s,
    decreases polls.len(),
{
    if polls.len() > 0 {
        lemma_ready_is_final(spec_barrier_step(s, polls[0]), polls.drop_first());
    }
}

/// Liveness of the barrier: if, from some poll on, the stack always
/// publishes the IPv4 configuration, and from some poll on always
/// publishes the IPv6 configuration, then two polls past the later of
/// the two points the barrier has completed.
pub proof fn lemma_barrier_completes(polls: Seq<StackPoll>, k4: int, k6: int)
    requires
        0 <= k4,
        0 <= k6,
        forall|t: int| k4 <= t < polls.len() ==> polls[t].v4 is Some,
        forall|t: int| k6 <= t < polls.len() ==> polls[t].v6 is Some,
        polls.len() >= k4 + 2,
        polls.len() >= k6 + 2,
    ensures
        spec_barrier_run(BarrierState::WaitingV4, polls) is Ready,
    decreases polls.len(),
{
    let rest = polls.drop_first();
    if k4 == 0 {
        let a = polls[0].v4->0;
        let k6r = if k6 <= 1 { 0 } else { k6 - 1 };
        assert(forall|t: int| k6r <= t < rest.len() ==> rest[t].v6 is Some);
        lemma_v6_wait_completes(BarrierState::WaitingV6 { v4: a }, rest, k6r);
    } else {
        let k6r = if k6 == 0 { 0 } else { k6 - 1 };
        assert(forall|t: int| k4 - 1 <= t < rest.len() ==> rest[t].v4 is Some);
        assert(forall|t: int| k6r <= t < rest.len() ==> rest[t].v6 is Some);
        match polls[0].v4 {
            Some(a) => {
                lemma_v6_wait_completes(BarrierState::WaitingV6 { v4: a }, rest, k6r);
            },
            None => {
                lemma_barrier_completes(rest, k4 - 1, k6r);
            },
        }
    }
}

/// Liveness of the second half: once the IPv4 address is held, the
/// barrier completes as soon as a poll past `k6` is reached, provided
/// the IPv6 configuration stays published from `k6` on.
pub proof fn lemma_v6_wait_completes(s: BarrierState, polls: Seq<StackPoll>, k6: int)
    requires
        s is WaitingV6,
        0 <= k6,
        forall|t: int| k6 <= t < polls.len() ==> polls[t].v6 is Some,
        polls.len() >= k6 + 1,
    ensures
        spec_barrier_run(s, polls) is Ready,
    decreases polls.len(),
{
    let rest = polls.drop_first();
    let next = spec_barrier_step(s, polls[0]);
    if k6 == 0 {
        lemma_ready_is_final(next, rest);
    } else {
        match polls[0].v6 {
            Some(_) => {
                lemma_ready_is_final(next, rest);
            },
            None => {
                assert(forall|t: int| k6 - 1 <= t < rest.len() ==> rest[t].v6 is Some);
                lemma_v6_wait_completes(next, rest, k6 - 1);
            },
        }
    }
}

/// If the stack never publishes an IPv6 configuration, the barrier never
/// completes, no matter how long it polls.
pub proof fn lemma_no_v6_never_completes(s: BarrierState, polls: Seq<StackPoll>)
    requires
        s !is Ready,
        forall|t: int| 0 <= t < polls.len() ==> polls[t].v6 is None,
    ensures
        spec_barrier_run(s, polls) !is Ready,
    decreases polls.len(),
{
    if polls.len() > 0 {
        lemma_no_v6_never_completes(spec_barrier_step(s, polls[0]), polls.drop_first());
    }
}

/// If the stack never publishes an IPv4 configuration, the barrier never
/// even begins waiting for IPv6: it stays in its first state.
pub proof fn lemma_no_v4_never_advances(polls: Seq<StackPoll>)
    requires
        forall|t: int| 0 <= t < polls.len() ==> polls[t].v4 is None,
    ensures
        spec_barrier_run(BarrierState::WaitingV4, polls) is WaitingV4,
    decreases polls.len(),
{
    if polls.len() > 0 {
        lemma_no_v4_never_advances(polls.drop_first());
    }
}

/// How many of the polls the barrier answers with a yield, started from
/// `s`: exactly those that find the awaited configuration absent.
pub open spec fn spec_yield_count(s: BarrierState, polls: Seq<StackPoll>) -> int
    decreases polls.len(),
{
    if polls.len() == 0 {
        0
    } else {
        (if spec_barrier_action(s, polls[0]) is Yield {
            1int
        } else {
            0int
        }) + spec_yield_count(spec_barrier_step(s, polls[0]), polls.drop_first())
    }
}

/// Drive the barrier over a finite sequence of polls, as the boot loop
/// does over the live stack. Returns the final state and how many times
/// the loop yielded: once per poll that made no progress and never
/// otherwise, so the loop neither spins without suspending nor suspends
/// needlessly.
pub fn drive_barrier(polls: &Vec<StackPoll>) -> (r: (BarrierState, usize))
    ensures
        r.0 == spec_barrier_run(BarrierState::WaitingV4, polls@),
        r.1 == spec_yield_count(BarrierState::WaitingV4, polls@),
        r.1 <= polls@.len(),
{
    let mut state = BarrierState::WaitingV4;
    let mut yields: usize = 0;
    let mut i: usize = 0;
    proof {
        assert(polls@.skip(0) =~= polls@);
    }
    while i < polls.len()
        invariant
            i <= polls@.len(),
            yields <= i,
            spec_barrier_run(BarrierState::WaitingV4, polls@) == spec_barrier_run(
                state,
                polls@.skip(i as int),
            ),
            spec_yield_count(BarrierState::WaitingV4, polls@) == yields + spec_yield_count(
                state,
                polls@.skip(i as int),
            ),
        decreases polls@.len() - i,
    {
        let poll = StackPoll { v4: polls[i].v4, v6: polls[i].v6 };
        let (next, action) = barrier_step(state, &poll);
        proof {
            assert(polls@.skip(i as int)[0] == poll);
            assert(polls@.skip(i as int).drop_first() =~= polls@.skip(i + 1));
        }
        if matches!(action, BarrierAction::Yield) {
            yields = yields + 1;
        }
        state = next;
        i = i + 1;
    }
    proof {
        assert(polls@.skip(polls@.len() as int) =~= Seq::<StackPoll>::empty());
    }
    (state, yields)
}

/// Extract the snapshot from a completed barrier.
pub fn snapshot(s: &BarrierState) -> (r: Option<AddressSnapshot>)
    ensures
        r is Some <==> s is Ready,
        s is Ready ==> (r matches Some(snap) && snap == spec_snapshot_of(*s)),
{
    match s {
        BarrierState::Ready { v4, v6 } => Some(AddressSnapshot { v4: *v4, v6: *v6 }),
        _ => None,
    }
}

} // verus!
