//! The boot sequencer: the ordered, failure-aware path from a cold board
//! to a running Matter stack.
//!
//! Boot proceeds through fixed stages: logger, heap, Ethernet device,
//! IP stack, the wait-for-address barrier, then the four singletons
//! (basic information, attestation provider, mDNS service, Matter
//! engine) in construction order, the mDNS task, and finally the Matter
//! run loop. Each stage consumes only stable outputs of earlier ones.
//! The sequencer records the stage and how often each singleton was
//! constructed; its well-formedness invariant pins the two together, so
//! ordering and exactly-once construction are facts of every reachable
//! state.

use vstd::prelude::*;

use crate::barrier::{spec_barrier_run, spec_snapshot_of, BarrierState, StackPoll};
use crate::barrier::{drive_barrier, snapshot};
use crate::eth::{ethernet_plan, EthernetPlan};
use crate::heap::HeapCell;
use crate::info::{basic_info, commissioning_plan, mdns_plan};
use crate::info::{BasicInfo, CommissioningPlan, MdnsPlan};
use crate::net::{stack_plan, AddressSnapshot, StackPlan};
use crate::node::{assemble_handler, node_metadata, HandlerChain, Node};

verus! {

/// The boot stages, in the order they are passed.
pub enum Phase {
    /// Cold start; nothing runs yet.
    PowerOn,
    /// The logger task is spawned.
    LoggerUp,
    /// The heap region has been handed to the allocator.
    HeapReady,
    /// The Ethernet device is built and its driver task spawned.
    EthernetUp,
    /// The IP stack is built and its poller task spawned.
    StackUp,
    /// Both addresses have been observed and snapshot.
    AddressesKnown,
    /// The basic-information singleton is built.
    BasicInfoBuilt,
    /// The attestation provider singleton is built.
    AttestationBuilt,
    /// The mDNS service singleton is built.
    MdnsBuilt,
    /// The Matter engine singleton is built.
    MatterBuilt,
    /// The mDNS responder task is spawned.
    MdnsTaskSpawned,
    /// The Matter run loop has been entered: the steady state.
    Running,
}

/// Position of a phase in the boot order.
pub open spec fn phase_index(p: Phase) -> int {
    match p {
        Phase::PowerOn => 0,
        Phase::LoggerUp => 1,
        Phase::HeapReady => 2,
        Phase::EthernetUp => 3,
        Phase::StackUp => 4,
        Phase::AddressesKnown => 5,
        Phase::BasicInfoBuilt => 6,
        Phase::AttestationBuilt => 7,
        Phase::MdnsBuilt => 8,
        Phase::MatterBuilt => 9,
        Phase::MdnsTaskSpawned => 10,
        Phase::Running => 11,
    }
}

/// The sequencer: the current stage, how often each long-lived singleton
/// has been constructed, and the address snapshot once taken.
pub struct BootSequencer {
    pub phase: Phase,
    pub heap_initialized: bool,
    pub device_count: u8,
    pub stack_count: u8,
    pub basic_info_count: u8,
    pub attestation_count: u8,
    pub mdns_count: u8,
    pub matter_count: u8,
    pub addresses: Option<AddressSnapshot>,
}

impl BootSequencer {
    /// Every reachable sequencer state satisfies this: each singleton's
    /// construction count is 1 from its stage on and 0 before, and the
    /// snapshot exists exactly from the barrier's completion on.
    pub open spec fn wf(self) -> bool {
        &&& self.heap_initialized <==> phase_index(self.phase) >= 2
        &&& self.device_count == (if phase_index(self.phase) >= 3 { 1int } else { 0int })
        &&& self.stack_count == (if phase_index(self.phase) >= 4 { 1int } else { 0int })
        &&& (self.addresses is Some <==> phase_index(self.phase) >= 5)
        &&& self.basic_info_count == (if phase_index(self.phase) >= 6 { 1int } else { 0int })
        &&& self.attestation_count == (if phase_index(self.phase) >= 7 { 1int } else { 0int })
        &&& self.mdns_count == (if phase_index(self.phase) >= 8 { 1int } else { 0int })
        &&& self.matter_count == (if phase_index(self.phase) >= 9 { 1int } else { 0int })
    }

    /// A cold board: nothing spawned, nothing built.
    pub fn power_on() -> (s: BootSequencer)
        ensures
            s.wf(),
            s.phase is PowerOn,
    {
        BootSequencer {
            phase: Phase::PowerOn,
            heap_initialized: false,
            device_count: 0,
            stack_count: 0,
            basic_info_count: 0,
            attestation_count: 0,
            mdns_count: 0,
            matter_count: 0,
            addresses: None,
        }
    }

    /// Spawn the logger task, first of all, so later stages can log.
    pub fn spawn_logger(&mut self)
        requires
            old(self).wf(),
            old(self).phase is PowerOn,
        ensures
            final(self).wf(),
            final(self).phase is LoggerUp,
            *final(self) == (BootSequencer { phase: Phase::LoggerUp, ..*old(self) }),
    {
        self.phase = Phase::LoggerUp;
    }

    /// Hand the reserved heap region to the allocator, exactly once and
    /// before any heap user runs.
    pub fn init_heap(&mut self, heap: &mut HeapCell)
        requires
            old(self).wf(),
            old(self).phase is LoggerUp,
            !old(heap).initialized,
        ensures
            final(self).wf(),
            final(self).phase is HeapReady,
            final(self).heap_initialized,
            final(heap).initialized,
            *final(self) == (BootSequencer { phase: Phase::HeapReady, heap_initialized: true, ..*old(self) }),
    {
        heap.init();
        self.phase = Phase::HeapReady;
        self.heap_initialized = true;
    }

    /// Build the Ethernet device and spawn its driver task.
    pub fn build_ethernet(&mut self)
        requires
            old(self).wf(),
            old(self).phase is HeapReady,
        ensures
            final(self).wf(),
            final(self).phase is EthernetUp,
            final(self).device_count == 1,
            *final(self) == (BootSequencer { phase: Phase::EthernetUp, device_count: 1u8, ..*old(self) }),
    {
        self.phase = Phase::EthernetUp;
        self.device_count = 1;
    }

    /// Build the IP stack around the device and spawn its poller task.
    pub fn build_stack(&mut self)
        requires
            old(self).wf(),
            old(self).phase is EthernetUp,
        ensures
            final(self).wf(),
            final(self).phase is StackUp,
            final(self).stack_count == 1,
            *final(self) == (BootSequencer { phase: Phase::StackUp, stack_count: 1u8, ..*old(self) }),
    {
        self.phase = Phase::StackUp;
        self.stack_count = 1;
    }

    /// Record the addresses the barrier returned. Only a completed
    /// barrier can pass this gate.
    pub fn observe_addresses(&mut self, snap: AddressSnapshot)
        requires
            old(self).wf(),
            old(self).phase is StackUp,
        ensures
            final(self).wf(),
            final(self).phase is AddressesKnown,
            final(self).addresses == Some(snap),
            *final(self) == (BootSequencer {
                phase: Phase::AddressesKnown,
                addresses: Some(snap),
                ..*old(self)
            }),
    {
        self.phase = Phase::AddressesKnown;
        self.addresses = Some(snap);
    }

    /// Construct the basic-information singleton, first of the four.
    pub fn build_basic_info(&mut self)
        requires
            old(self).wf(),
            old(self).phase is AddressesKnown,
        ensures
            final(self).wf(),
            final(self).phase is BasicInfoBuilt,
            final(self).basic_info_count == 1,
            *final(self) == (BootSequencer {
                phase: Phase::BasicInfoBuilt,
                basic_info_count: 1u8,
                ..*old(self)
            }),
    {
        self.phase = Phase::BasicInfoBuilt;
        self.basic_info_count = 1;
    }

    /// Construct the attestation provider singleton.
    pub fn build_attestation(&mut self)
        requires
            old(self).wf(),
            old(self).phase is BasicInfoBuilt,
        ensures
            final(self).wf(),
            final(self).phase is AttestationBuilt,
            final(self).attestation_count == 1,
            *final(self) == (BootSequencer {
                phase: Phase::AttestationBuilt,
                attestation_count: 1u8,
                ..*old(self)
            }),
    {
        self.phase = Phase::AttestationBuilt;
        self.attestation_count = 1;
    }

    /// Construct the mDNS service singleton from the snapshot.
    pub fn build_mdns(&mut self)
        requires
            old(self).wf(),
            old(self).phase is AttestationBuilt,
        ensures
            final(self).wf(),
            final(self).phase is MdnsBuilt,
            final(self).mdns_count == 1,
            *final(self) == (BootSequencer { phase: Phase::MdnsBuilt, mdns_count: 1u8, ..*old(self) }),
    {
        self.phase = Phase::MdnsBuilt;
        self.mdns_count = 1;
    }

    /// Construct the Matter engine singleton. It borrows every earlier
    /// singleton, so it comes last; its gate implies, for every
    /// reachable state, that both addresses were observed first.
    pub fn build_matter(&mut self)
        requires
            old(self).wf(),
            old(self).phase is MdnsBuilt,
        ensures
            final(self).wf(),
            final(self).phase is MatterBuilt,
            final(self).matter_count == 1,
            *final(self) == (BootSequencer { phase: Phase::MatterBuilt, matter_count: 1u8, ..*old(self) }),
    {
        self.phase = Phase::MatterBuilt;
        self.matter_count = 1;
    }

    /// Spawn the mDNS responder task; it must precede the Matter run.
    pub fn spawn_mdns_task(&mut self)
        requires
            old(self).wf(),
            old(self).phase is MatterBuilt,
        ensures
            final(self).wf(),
            final(self).phase is MdnsTaskSpawned,
            *final(self) == (BootSequencer { phase: Phase::MdnsTaskSpawned, ..*old(self) }),
    {
        self.phase = Phase::MdnsTaskSpawned;
    }

    /// Enter the Matter run loop: the program's steady state.
    pub fn run_matter(&mut self)
        requires
            old(self).wf(),
            old(self).phase is MdnsTaskSpawned,
        ensures
            final(self).wf(),
            final(self).phase is Running,
            *final(self) == (BootSequencer { phase: Phase::Running, ..*old(self) }),
    {
        self.phase = Phase::Running;
    }
}

/// Ordering: in every reachable state in which the Matter engine has
/// been constructed, the address snapshot had already been taken — the
/// constructor is never invoked before both addresses are observed.
pub proof fn lemma_matter_after_addresses(s: BootSequencer)
    requires
        s.wf(),
        s.matter_count >= 1,
    ensures
        s.addresses is Some,
        s.mdns_count == 1,
        s.attestation_count == 1,
        s.basic_info_count == 1,
{
}

/// Singleton uniqueness: no reachable state constructs any singleton
/// twice.
pub proof fn lemma_singletons_at_most_once(s: BootSequencer)
    requires
        s.wf(),
    ensures
        s.device_count <= 1,
        s.stack_count <= 1,
        s.basic_info_count <= 1,
        s.attestation_count <= 1,
        s.mdns_count <= 1,
        s.matter_count <= 1,
{
}

/// Once the run loop is entered, every singleton has been constructed
/// exactly once, and the heap exactly once before them all.
pub proof fn lemma_running_built_exactly_once(s: BootSequencer)
    requires
        s.wf(),
        s.phase is Running,
    ensures
        s.heap_initialized,
        s.device_count == 1,
        s.stack_count == 1,
        s.basic_info_count == 1,
        s.attestation_count == 1,
        s.mdns_count == 1,
        s.matter_count == 1,
        s.addresses is Some,
{
}

/// Everything boot produces, for the tasks that keep running.
pub struct BootRecord {
    pub sequencer: BootSequencer,
    pub heap: HeapCell,
    pub ethernet: EthernetPlan,
    pub stack: StackPlan,
    pub snapshot: AddressSnapshot,
    pub basic: BasicInfo,
    pub mdns: MdnsPlan,
    pub node: Node,
    pub handler: HandlerChain,
    pub commissioning: CommissioningPlan,
}

/// Run the whole boot sequence against a recorded sequence of stack
/// polls, as the simulator and the tests do. Returns the boot record
/// when the barrier completes within the polls, and nothing otherwise —
/// the barrier gates everything after the stack, so on a stall none of
/// the four singletons is constructed.
pub fn boot(seed: u64, polls: &Vec<StackPoll>) -> (r: Option<BootRecord>)
    ensures
        r is Some <==> spec_barrier_run(BarrierState::WaitingV4, polls@) is Ready,
        r matches Some(rec) ==> {
            &&& rec.sequencer.wf()
            &&& rec.sequencer.phase is Running
            &&& rec.heap.initialized
            &&& rec.ethernet.mac@ == crate::eth::spec_mac_address()
            &&& crate::eth::pins_distinct(rec.ethernet)
            &&& rec.stack.dhcp_v4
            &&& rec.stack.seed == seed
            &&& crate::net::is_link_local(rec.stack.v6.address_segments@)
            &&& rec.snapshot == spec_snapshot_of(
                spec_barrier_run(BarrierState::WaitingV4, polls@),
            )
            &&& rec.basic.vid == 0xFFF1
            &&& rec.basic.pid == 0x8000
            &&& rec.mdns.v4_octets@ == rec.snapshot.v4@
            &&& (rec.mdns.v6_octets matches Some(v6) && v6.0@ == rec.snapshot.v6@)
            &&& rec.mdns.port == crate::info::MATTER_PORT
            &&& rec.commissioning.passcode == crate::info::COMMISSIONING_PASSCODE
            &&& rec.commissioning.discriminator == crate::info::COMMISSIONING_DISCRIMINATOR
        },
{
    let mut seq = BootSequencer::power_on();
    let mut heap = HeapCell::new();
    seq.spawn_logger();
    seq.init_heap(&mut heap);
    seq.build_ethernet();
    let ethernet = ethernet_plan();
    seq.build_stack();
    let stack = stack_plan(seed);
    let (final_state, _yields) = drive_barrier(polls);
    let snap = match snapshot(&final_state) {
        Some(s) => s,
        None => {
            return None;
        },
    };
    seq.observe_addresses(AddressSnapshot { v4: snap.v4, v6: snap.v6 });
    seq.build_basic_info();
    let basic = basic_info();
    seq.build_attestation();
    seq.build_mdns();
    let mdns = mdns_plan(&snap);
    seq.build_matter();
    seq.spawn_mdns_task();
    seq.run_matter();
    let commissioning = commissioning_plan();
    let node = node_metadata();
    let handler = assemble_handler();
    Some(
        BootRecord {
            sequencer: seq,
            heap,
            ethernet,
            stack,
            snapshot: snap,
            basic,
            mdns,
            node,
            handler,
            commissioning,
        },
    )
}

} // verus!
