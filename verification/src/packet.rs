//! The reading that one packet carries.

use vstd::prelude::*;

verus! {

/// Ticks of the transmitter's clock in one hour, times the thousand that
/// turns kilowatts into watts: the clock runs at 1024 ticks a second.
pub const TICKS_PER_HOUR_TIMES_1000: u64 = 3_686_400_000;

/// The fields of a packet, unmasked.
#[derive(Debug, Clone, Copy, PartialEq, Eq, Structural)]
pub struct SparsnasPacket {
    /// Sequence number of the packet. The transmitter counts it up by one
    /// with each packet that it sends.
    pub packet_seq: u16,
    /// Ticks between the two latest pulses; see [`SparsnasPacket::power`].
    pub time_between_pulses: u16,
    /// Pulses that the transmitter has seen since it was switched on.
    pub pulse_count: u32,
    /// What the transmitter reports to be left of its battery.
    pub battery_percentage: u8,
    /// Status flags, handed on as they come.
    pub status: u16,
    /// The last six decimal digits of the transmitter's serial number.
    pub serial: u32,
}

impl SparsnasPacket {
    /// Computes the power drawn when the packet was sent, in watts: the
    /// quotient, rounded down, of the ticks in an hour times a thousand by
    /// the ticks that one kilowatt-hour would take at the packet's pace.
    ///
    /// `pulses_per_kwh` is the number of pulses that the meter gives per
    /// kilowatt-hour, usually 1000. Neither it nor the packet's time between
    /// pulses may be zero: a packet whose time between pulses is zero (the
    /// counter was just reset) tells nothing of the power, and the caller
    /// sets it aside.
    pub fn power(&self, pulses_per_kwh: u32) -> (watts: u32)
        requires
            pulses_per_kwh * self.time_between_pulses != 0,
        ensures
            watts == 3_686_400_000int / (pulses_per_kwh * self.time_between_pulses),
    {
        let pace: u64 = self.time_between_pulses as u64;
        let rate: u64 = pulses_per_kwh as u64;
        assert(0 < rate * pace <= 0xFFFF_FFFF * 0xFFFF) by (nonlinear_arith)
            requires
                0 <= rate <= 0xFFFF_FFFF,
                0 <= pace <= 0xFFFF,
                rate * pace != 0,
        ;
        let ticks_per_kwh: u64 = rate * pace;
        let watts: u64 = TICKS_PER_HOUR_TIMES_1000 / ticks_per_kwh;
        assert(watts <= 3_686_400_000) by (nonlinear_arith)
            requires
                watts == 3_686_400_000int / (ticks_per_kwh as int),
                ticks_per_kwh > 0,
        ;
        watts as u32
    }
}

} // verus!
