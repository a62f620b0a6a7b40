//! The device's static identity and launch parameters: basic
//! information, mDNS advertisement, commissioning data, logging and the
//! boot countdown.

use vstd::prelude::*;

use crate::net::AddressSnapshot;

verus! {

/// UDP port the Matter service listens and advertises on.
pub const MATTER_PORT: u16 = 5540;

/// Passcode the PAKE verifier is derived from.
pub const COMMISSIONING_PASSCODE: u32 = 123456;

/// Discriminator advertised to commissioners; a 12-bit value.
pub const COMMISSIONING_DISCRIMINATOR: u16 = 250;

/// Size in bytes of the logger's transfer buffer.
pub const LOGGER_BUFFER_BYTES: usize = 1024;

/// The basic-information fields of the device, fixed for its lifetime.
pub struct BasicInfo {
    pub vid: u16,
    pub pid: u16,
    pub hw_ver: u16,
    pub sw_ver: u32,
    pub sw_ver_str: &'static str,
    pub serial_no: &'static str,
    pub device_name: &'static str,
}

/// The device's basic information: vendor 0xFFF1, product 0x8000,
/// hardware version 2, software version 1.
pub fn basic_info() -> (b: BasicInfo)
    ensures
        b.vid == 0xFFF1,
        b.pid == 0x8000,
        b.hw_ver == 2,
        b.sw_ver == 1,
        b.sw_ver_str@ == "1"@,
        b.serial_no@ == "aabbccdd"@,
        b.device_name@ == "OnOff Light"@,
{
    BasicInfo {
        vid: 0xFFF1,
        pid: 0x8000,
        hw_ver: 2,
        sw_ver: 1,
        sw_ver_str: "1",
        serial_no: "aabbccdd",
        device_name: "OnOff Light",
    }
}

/// Parameters of the mDNS advertisement, built from the address snapshot.
pub struct MdnsPlan {
    /// Interface the responder binds to.
    pub interface_index: u32,
    /// Advertised hostname.
    pub hostname: &'static str,
    /// The snapshot's IPv4 octets.
    pub v4_octets: [u8; 4],
    /// The snapshot's IPv6 octets with their zone index, when present.
    pub v6_octets: Option<([u8; 16], u32)>,
    /// Advertised port.
    pub port: u16,
}

/// Build the mDNS advertisement for the captured addresses: hostname
/// `matter-demo` on interface 0, the snapshot's v4 and v6 octets (zone
/// index 0), and the Matter port.
pub fn mdns_plan(snapshot: &AddressSnapshot) -> (m: MdnsPlan)
    ensures
        m.interface_index == 0,
        m.hostname@ == "matter-demo"@,
        m.v4_octets@ == snapshot.v4@,
        m.v6_octets matches Some(v6) && v6.0@ == snapshot.v6@ && v6.1 == 0,
        m.port == MATTER_PORT,
{
    MdnsPlan {
        interface_index: 0,
        hostname: "matter-demo",
        v4_octets: snapshot.v4,
        v6_octets: Some((snapshot.v6, 0)),
        port: MATTER_PORT,
    }
}

/// Commissioning data for the run: the passcode the verifier is derived
/// from and the advertised discriminator.
pub struct CommissioningPlan {
    pub passcode: u32,
    pub discriminator: u16,
}

/// The commissioning parameters: passcode 123456, discriminator 250.
/// The discriminator fits the 12 bits the advertisement carries.
pub fn commissioning_plan() -> (c: CommissioningPlan)
    ensures
        c.passcode == COMMISSIONING_PASSCODE,
        c.discriminator == COMMISSIONING_DISCRIMINATOR,
        c.discriminator < 4096,
{
    CommissioningPlan {
        passcode: COMMISSIONING_PASSCODE,
        discriminator: COMMISSIONING_DISCRIMINATOR,
    }
}

/// Log severities, most severe first.
pub enum LogLevel {
    Error,
    Warn,
    Info,
    Debug,
    Trace,
}

/// Parameters of the logger task.
pub struct LoggerPlan {
    /// Least severe level that is emitted.
    pub level: LogLevel,
    /// Transfer buffer size in bytes.
    pub buffer_bytes: usize,
}

/// The logger configuration: level Info with a 1 KiB buffer.
pub fn logger_plan() -> (l: LoggerPlan)
    ensures
        l.level is Info,
        l.buffer_bytes == LOGGER_BUFFER_BYTES,
{
    LoggerPlan { level: LogLevel::Info, buffer_bytes: LOGGER_BUFFER_BYTES }
}

/// The boot countdown the supervisor logs before heavy initialisation,
/// one announcement per second, counting down to zero.
pub open spec fn spec_countdown() -> Seq<u64> {
    seq![5u64, 4u64, 3u64, 2u64, 1u64, 0u64]
}

/// Seconds announced by the boot countdown, in the order they are
/// logged: a decrementing preamble that gives a USB host time to
/// enumerate before initialisation begins.
pub fn countdown_schedule() -> (r: Vec<u64>)
    ensures
        r@ == spec_countdown(),
        r@.len() == 6,
        forall|i: int| 0 <= i < 6 ==> r@[i] == 5 - i,
{
    let mut r: Vec<u64> = Vec::new();
    let mut next: u64 = 5;
    while next > 0
        invariant
            next <= 5,
            r@.len() == 5 - next,
            forall|i: int| 0 <= i < r@.len() ==> r@[i] == 5 - i,
        decreases next,
    {
        r.push(next);
        next = next - 1;
    }
    r.push(0);
    proof {
        assert(r@ =~= spec_countdown());
    }
    r
}

} // verus!
