//! Pure bit-timing arithmetic: conversion of a baud-rate and segment request
//! into prescaler/segment register values, and the transceiver-delay
//! compensation offset for the FD data phase.

use vstd::prelude::*;
use vstd::math::max;
use vstd::math::min;

use crate::config::TimingSpec;
use crate::error::CANFDError;

verus! {

/// Register-level bit-timing values produced by [`compute`]: the prescaler
/// together with the segment fields passed through unchanged.
#[derive(Clone, Copy, PartialEq, Eq, Structural, Debug)]
pub struct TimingRegisters {
    pub prescaler: u32,
    pub jump_width: u8,
    pub phase_seg_1: u8,
    pub phase_seg_2: u8,
    pub prop_seg: u8,
}

/// Transceiver-delay compensation values produced by [`compute_tdc`].
#[derive(Clone, Copy, PartialEq, Eq, Structural, Debug)]
pub struct TdcFields {
    pub enabled: bool,
    pub offset: u32,
}

/// Number of time quanta in one bus bit: the fixed `4` accounts for the sync
/// segment plus the calculator's offset convention.
pub open spec fn quantum(t: TimingSpec) -> int {
    4 + t.phase_seg_1 + t.phase_seg_2 + t.prop_seg
}

/// The clock ticks one bit consumes before prescaling: `baudrate * quantum`.
pub open spec fn raw_divider(t: TimingSpec) -> int {
    t.baudrate * quantum(t)
}

/// The prescaler the calculator derives: the hardware divides by `N + 1`,
/// hence the `- 1`; the clamp to `255` is the 8-bit field width; the
/// `max(.., 1)` guards the division when `baudrate` is zero.
pub open spec fn prescaler(t: TimingSpec, clock_hz: u32) -> int {
    min(clock_hz as int / max(raw_divider(t), 1) - 1, 255)
}

/// The full register-value result of a successful [`compute`] call.
pub open spec fn timing_registers(t: TimingSpec, clock_hz: u32) -> TimingRegisters {
    TimingRegisters {
        prescaler: prescaler(t, clock_hz) as u32,
        jump_width: t.jump_width,
        phase_seg_1: t.phase_seg_1,
        phase_seg_2: t.phase_seg_2,
        prop_seg: t.prop_seg,
    }
}

/// Whenever the raw divider fits the clock, the computed prescaler lies in
/// the 8-bit field and every segment field passes through unchanged.
pub proof fn lemma_prescaler_in_range(t: TimingSpec, clock_hz: u32)
    requires
        clock_hz > 0 || t.baudrate > 0,
        raw_divider(t) <= clock_hz,
    ensures
        0 <= prescaler(t, clock_hz) <= 255,
        timing_registers(t, clock_hz).prescaler == prescaler(t, clock_hz),
        timing_registers(t, clock_hz).jump_width == t.jump_width,
        timing_registers(t, clock_hz).phase_seg_1 == t.phase_seg_1,
        timing_registers(t, clock_hz).phase_seg_2 == t.phase_seg_2,
        timing_registers(t, clock_hz).prop_seg == t.prop_seg,
{
    let d = max(raw_divider(t), 1);
    assert(d >= 1);
    assert(d <= clock_hz) by {
        if raw_divider(t) < 1 {
            assert(t.baudrate * quantum(t) < 1);
            assert(quantum(t) >= 4);
            assert(t.baudrate > 0 ==> t.baudrate * quantum(t) >= quantum(t))
                by (nonlinear_arith)
                requires quantum(t) >= 4;
            assert(t.baudrate == 0);
            assert(clock_hz >= 1);
        }
    }
    assert(clock_hz as int / d >= 1) by (nonlinear_arith)
        requires 1 <= d <= clock_hz;
}

/// Converts a bit-timing request into register values, validated against the
/// mode's baud-rate ceiling and the available clock.
///
/// Fails with `BaudrateTooHigh` exactly when the requested baud rate exceeds
/// `max_baud`; otherwise fails with `PrescalarTooHigh` exactly when the
/// requested bit rate at this quantum count cannot be derived from the clock
/// even with a prescaler of one; otherwise returns the prescaler (clamped to
/// the 8-bit field, without error) and the segment fields unchanged.
pub fn compute(timing: &TimingSpec, clock_hz: u32, max_baud: u32) -> (r: Result<
    TimingRegisters,
    CANFDError,
>)
    requires
        clock_hz > 0 || timing.baudrate > 0,
    ensures
        timing.baudrate > max_baud ==> r == Err::<TimingRegisters, CANFDError>(
            CANFDError::BaudrateTooHigh,
        ),
        timing.baudrate <= max_baud && raw_divider(*timing) > clock_hz ==> r == Err::<
            TimingRegisters,
            CANFDError,
        >(CANFDError::PrescalarTooHigh),
        timing.baudrate <= max_baud && raw_divider(*timing) <= clock_hz ==> {
            &&& r == Ok::<TimingRegisters, CANFDError>(timing_registers(*timing, clock_hz))
            &&& 0 <= prescaler(*timing, clock_hz) <= 255
        },
{
    if timing.baudrate > max_baud {
        return Err(CANFDError::BaudrateTooHigh);
    }
    let q: u32 = 4 + timing.phase_seg_1 as u32 + timing.phase_seg_2 as u32
        + timing.prop_seg as u32;
    assert(q == quantum(*timing));
    assert(timing.baudrate * q <= 0xffff_ffffu64 * 769) by (nonlinear_arith)
        requires timing.baudrate <= 0xffff_ffffu64, q <= 769;
    let raw: u64 = (timing.baudrate as u64) * (q as u64);
    assert(raw == raw_divider(*timing)) by (nonlinear_arith)
        requires
            raw == timing.baudrate * q,
            q == quantum(*timing),
            raw_divider(*timing) == timing.baudrate * quantum(*timing);

    if raw > clock_hz as u64 {
        return Err(CANFDError::PrescalarTooHigh);
    }
    proof {
        lemma_prescaler_in_range(*timing, clock_hz);
    }
    let divider: u32 = if raw < 1 {
        1
    } else {
        raw as u32
    };
    assert(divider == max(raw_divider(*timing), 1));
    let pre: u32 = clock_hz / divider - 1;
    let pre_div: u32 = if pre > 0xFF {
        0xFF
    } else {
        pre
    };
    assert(pre_div == prescaler(*timing, clock_hz));
    Ok(
        TimingRegisters {
            prescaler: pre_div,
            jump_width: timing.jump_width,
            phase_seg_1: timing.phase_seg_1,
            phase_seg_2: timing.phase_seg_2,
            prop_seg: timing.prop_seg,
        },
    )
}

/// The transceiver-delay compensation offset. The divisor is computed first
/// (`2 * fd_baudrate / 1000`), then the clock is divided by it: the order
/// decides the rounding and is part of the contract.
pub open spec fn tdc_offset(clock_hz: u32, fd_baudrate: u32) -> int {
    max(clock_hz as int / (2 * fd_baudrate / 1000), 1)
}

/// Computes the transceiver-delay compensation fields for the FD data phase.
///
/// Fails with `TransceiverDelayCompensationTooHigh` exactly when compensation
/// is enabled and the offset exceeds the 4-bit field range; the offset is
/// computed, and the bound checked, only against that range — when
/// compensation is disabled any offset is accepted and merely carried along.
pub fn compute_tdc(enabled: bool, clock_hz: u32, fd_baudrate: u32) -> (r: Result<
    TdcFields,
    CANFDError,
>)
    requires
        500 <= fd_baudrate <= 0x7fff_ffff,
    ensures
        enabled && tdc_offset(clock_hz, fd_baudrate) > 15 ==> r == Err::<TdcFields, CANFDError>(
            CANFDError::TransceiverDelayCompensationTooHigh,
        ),
        !(enabled && tdc_offset(clock_hz, fd_baudrate) > 15) ==> r == Ok::<TdcFields, CANFDError>(
            TdcFields { enabled, offset: tdc_offset(clock_hz, fd_baudrate) as u32 },
        ),
{
    let divisor: u32 = 2 * fd_baudrate / 1000;
    assert(divisor >= 1) by (nonlinear_arith)
        requires divisor == 2 * fd_baudrate / 1000, fd_baudrate >= 500;
    let raw_off: u32 = clock_hz / divisor;
    let offset: u32 = if raw_off < 1 {
        1
    } else {
        raw_off
    };
    assert(offset == tdc_offset(clock_hz, fd_baudrate));
    if enabled && offset > 0b1111 {
        return Err(CANFDError::TransceiverDelayCompensationTooHigh);
    }
    Ok(TdcFields { enabled, offset })
}

} // verus!
