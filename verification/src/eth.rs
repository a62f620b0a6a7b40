//! The Ethernet controller bring-up parameters: SPI wiring, pin roles
//! and initial levels, driver buffer sizing and the MAC address.

use vstd::prelude::*;

verus! {

/// SPI clock frequency the controller is driven at.
pub const SPI_FREQUENCY_HZ: u32 = 50_000_000;

/// Receive slots in the driver's state block.
pub const RX_BUFFER_SLOTS: usize = 8;

/// Transmit slots in the driver's state block.
pub const TX_BUFFER_SLOTS: usize = 8;

/// The device's MAC address: locally administered, unicast.
pub open spec fn spec_mac_address() -> Seq<u8> {
    seq![0x02u8, 0u8, 0u8, 0u8, 0u8, 0u8]
}

/// A MAC address is unicast when the least significant bit of its first
/// octet is clear.
pub open spec fn mac_is_unicast(mac: Seq<u8>) -> bool {
    &&& mac.len() == 6
    &&& mac[0] % 2 == 0
}

/// A MAC address is locally administered when the second least
/// significant bit of its first octet is set.
pub open spec fn mac_is_locally_administered(mac: Seq<u8>) -> bool {
    &&& mac.len() == 6
    &&& (mac[0] / 2) % 2 == 1
}

/// The wiring and sizing of the SPI-attached Ethernet controller.
pub struct EthernetPlan {
    /// SPI clock frequency in hertz.
    pub spi_frequency_hz: u32,
    /// Pin carrying SPI MISO.
    pub miso_pin: u8,
    /// Pin carrying SPI MOSI.
    pub mosi_pin: u8,
    /// Chip-select pin, driven high until a transfer begins.
    pub cs_pin: u8,
    /// SPI clock pin.
    pub clk_pin: u8,
    /// Controller interrupt pin, read with a pull-up.
    pub int_pin: u8,
    /// Controller reset pin, driven high to keep it out of reset.
    pub rst_pin: u8,
    /// Chip select starts high (inactive).
    pub cs_initial_high: bool,
    /// Reset starts high (not in reset).
    pub rst_initial_high: bool,
    /// Interrupt input uses the internal pull-up.
    pub int_pull_up: bool,
    /// Receive slots reserved in the driver state block.
    pub rx_slots: usize,
    /// Transmit slots reserved in the driver state block.
    pub tx_slots: usize,
    /// MAC address handed to the driver.
    pub mac: [u8; 6],
}

/// No two signals share a pin.
pub open spec fn pins_distinct(p: EthernetPlan) -> bool {
    &&& p.miso_pin != p.mosi_pin
    &&& p.miso_pin != p.cs_pin
    &&& p.miso_pin != p.clk_pin
    &&& p.miso_pin != p.int_pin
    &&& p.miso_pin != p.rst_pin
    &&& p.mosi_pin != p.cs_pin
    &&& p.mosi_pin != p.clk_pin
    &&& p.mosi_pin != p.int_pin
    &&& p.mosi_pin != p.rst_pin
    &&& p.cs_pin != p.clk_pin
    &&& p.cs_pin != p.int_pin
    &&& p.cs_pin != p.rst_pin
    &&& p.clk_pin != p.int_pin
    &&& p.clk_pin != p.rst_pin
    &&& p.int_pin != p.rst_pin
}

/// The fixed bring-up parameters of the Ethernet controller: SPI at
/// 50 MHz on pins 8/11/9/10, interrupt on 12, reset on 13; chip select
/// and reset released, interrupt pulled up; 8 receive and 8 transmit
/// slots; and a locally administered unicast MAC. Exclusive pin
/// ownership is reflected by the pins being pairwise distinct.
pub fn ethernet_plan() -> (p: EthernetPlan)
    ensures
        p.spi_frequency_hz == SPI_FREQUENCY_HZ,
        p.miso_pin == 8,
        p.mosi_pin == 11,
        p.cs_pin == 9,
        p.clk_pin == 10,
        p.int_pin == 12,
        p.rst_pin == 13,
        p.cs_initial_high,
        p.rst_initial_high,
        p.int_pull_up,
        p.rx_slots == RX_BUFFER_SLOTS,
        p.tx_slots == TX_BUFFER_SLOTS,
        p.mac@ == spec_mac_address(),
        mac_is_unicast(p.mac@),
        mac_is_locally_administered(p.mac@),
        pins_distinct(p),
{
    let mac: [u8; 6] = [0x02, 0, 0, 0, 0, 0];
    proof {
        assert(mac@ =~= spec_mac_address());
    }
    EthernetPlan {
        spi_frequency_hz: SPI_FREQUENCY_HZ,
        miso_pin: 8,
        mosi_pin: 11,
        cs_pin: 9,
        clk_pin: 10,
        int_pin: 12,
        rst_pin: 13,
        cs_initial_high: true,
        rst_initial_high: true,
        int_pull_up: true,
        rx_slots: RX_BUFFER_SLOTS,
        tx_slots: TX_BUFFER_SLOTS,
        mac,
    }
}

} // verus!
