//! Boot and network-attach sequencing for a Matter "On/Off Light" device.
//!
//! The library models the ordered bring-up of such a device: heap
//! bootstrap, Ethernet device construction, dual-stack network
//! configuration, the wait-for-address barrier, descriptor assembly and
//! the Matter launch, together with the static configuration data each
//! stage consumes.

pub mod barrier;
pub mod eth;
pub mod heap;
pub mod info;
pub mod net;
pub mod node;
pub mod sequencer;
