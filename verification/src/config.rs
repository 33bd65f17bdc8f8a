//! Configuration values consumed by the initialization sequence.

use vstd::prelude::*;

verus! {

/// Highest baud rate the controller accepts for classical-CAN arbitration.
pub const MAX_BAUDRATE_CLASSICAL: u32 = 1_000_000;

/// Highest baud rate the controller accepts for the FD data phase.
pub const MAX_BAUDRATE_FD: u32 = 8_000_000;

/// Clock source selected for the CAN peripheral.
///
/// The clock selection is a fixed constant for this hardware revision: the
/// 24 MHz oscillator, undivided.
#[derive(Clone, Copy, PartialEq, Eq, Structural, Debug)]
pub enum ClockSpeed {
    Mhz24,
}

impl ClockSpeed {
    /// Frequency of this clock source in hertz.
    pub open spec fn spec_hz(self) -> u32 {
        match self {
            ClockSpeed::Mhz24 => 24_000_000,
        }
    }

    pub fn to_hz(&self) -> (hz: u32)
        ensures
            hz == self.spec_hz(),
            hz > 0,
    {
        match self {
            ClockSpeed::Mhz24 => 24_000_000,
        }
    }
}

/// Size in bytes of each message buffer in one of the controller's two
/// message-buffer RAM regions.
#[derive(Clone, Copy, PartialEq, Eq, Structural, Debug)]
pub enum MessageBufferSize {
    Bytes8,
    Bytes16,
    Bytes32,
    Bytes64,
}

impl MessageBufferSize {
    /// Encoding of this size for the MBDSR fields of the FD control register.
    pub open spec fn spec_mbdsr_n(self) -> u32 {
        match self {
            MessageBufferSize::Bytes8 => 0,
            MessageBufferSize::Bytes16 => 1,
            MessageBufferSize::Bytes32 => 2,
            MessageBufferSize::Bytes64 => 3,
        }
    }

    pub fn to_mbdsr_n(&self) -> (n: u32)
        ensures
            n == self.spec_mbdsr_n(),
            n <= 3,
    {
        match self {
            MessageBufferSize::Bytes8 => 0,
            MessageBufferSize::Bytes16 => 1,
            MessageBufferSize::Bytes32 => 2,
            MessageBufferSize::Bytes64 => 3,
        }
    }

    /// How many message buffers of this size fit in one RAM region.
    pub open spec fn spec_max_buffers(self) -> u32 {
        match self {
            MessageBufferSize::Bytes8 => 32,
            MessageBufferSize::Bytes16 => 21,
            MessageBufferSize::Bytes32 => 12,
            MessageBufferSize::Bytes64 => 7,
        }
    }

    pub fn max_buffers(&self) -> (n: u32)
        ensures
            n == self.spec_max_buffers(),
            7 <= n <= 32,
    {
        match self {
            MessageBufferSize::Bytes8 => 32,
            MessageBufferSize::Bytes16 => 21,
            MessageBufferSize::Bytes32 => 12,
            MessageBufferSize::Bytes64 => 7,
        }
    }
}

/// Bit-timing request for one phase (classical arbitration or FD data).
///
/// The segment fields count time quanta; `baudrate` is in bits per second.
#[derive(Clone, Copy, PartialEq, Eq, Structural, Debug)]
pub struct TimingSpec {
    pub baudrate: u32,
    pub jump_width: u8,
    pub phase_seg_1: u8,
    pub phase_seg_2: u8,
    pub prop_seg: u8,
}

/// Everything the initialization sequence needs to know, supplied wholesale
/// by the caller and immutable for the duration of `init`.
#[derive(Clone, Copy, PartialEq, Eq, Structural, Debug)]
pub struct Config {
    pub timing_classical: TimingSpec,
    pub timing_fd: TimingSpec,
    pub clock_speed: ClockSpeed,
    pub transceiver_compensation: bool,
    pub region_1_mb_size: MessageBufferSize,
    pub region_2_mb_size: MessageBufferSize,
}

} // verus!
