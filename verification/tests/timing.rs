use canfd::config::TimingSpec;
use canfd::error::CANFDError;
use canfd::timing::compute;
use canfd::timing::compute_tdc;
use canfd::timing::TdcFields;
use canfd::timing::TimingRegisters;

fn classical_spec() -> TimingSpec {
    TimingSpec { baudrate: 500_000, jump_width: 1, phase_seg_1: 4, phase_seg_2: 3, prop_seg: 2 }
}

#[test]
fn compute_classical_scenario() {
    // quantum = 4 + 4 + 3 + 2 = 13, raw = 6_500_000 <= 24_000_000,
    // prescaler = 24_000_000 / 6_500_000 - 1 = 2 by integer division.
    let r = compute(&classical_spec(), 24_000_000, 1_000_000);
    assert_eq!(
        r,
        Ok(TimingRegisters {
            prescaler: 2,
            jump_width: 1,
            phase_seg_1: 4,
            phase_seg_2: 3,
            prop_seg: 2,
        })
    );
}

#[test]
fn compute_rejects_baudrate_over_ceiling() {
    let mut t = classical_spec();
    t.baudrate = 1_000_001;
    let r = compute(&t, 24_000_000, 1_000_000);
    assert_eq!(r, Err(CANFDError::BaudrateTooHigh));
}

#[test]
fn compute_baudrate_ceiling_wins_over_prescaler_check() {
    // Both violations at once: the baud-rate ceiling is checked first,
    // whatever the other fields hold.
    let t = TimingSpec {
        baudrate: 2_000_000,
        jump_width: 255,
        phase_seg_1: 255,
        phase_seg_2: 255,
        prop_seg: 255,
    };
    let r = compute(&t, 100, 1_000_000);
    assert_eq!(r, Err(CANFDError::BaudrateTooHigh));
}

#[test]
fn compute_rejects_unachievable_prescaler() {
    // quantum = 13, raw = 650_000 > 500_000: not achievable even with a
    // prescaler of one.
    let r = compute(&classical_spec(), 500_000, 1_000_000);
    assert_eq!(r, Err(CANFDError::PrescalarTooHigh));
}

#[test]
fn compute_prescaler_exact_boundary() {
    // raw == clock_hz exactly: prescaler 1 - 1 = 0.
    let r = compute(&classical_spec(), 6_500_000, 1_000_000);
    assert_eq!(
        r,
        Ok(TimingRegisters {
            prescaler: 0,
            jump_width: 1,
            phase_seg_1: 4,
            phase_seg_2: 3,
            prop_seg: 2,
        })
    );
}

#[test]
fn compute_clamps_prescaler_to_field_width() {
    // quantum = 5, raw = 50, 24_000_000 / 50 - 1 far exceeds 255: the
    // prescaler saturates silently, without an error.
    let t = TimingSpec { baudrate: 10, jump_width: 0, phase_seg_1: 1, phase_seg_2: 0, prop_seg: 0 };
    let r = compute(&t, 24_000_000, 1_000_000);
    assert_eq!(
        r,
        Ok(TimingRegisters {
            prescaler: 255,
            jump_width: 0,
            phase_seg_1: 1,
            phase_seg_2: 0,
            prop_seg: 0,
        })
    );
}

#[test]
fn compute_zero_baudrate_guards_division() {
    // baudrate 0 makes the raw divider 0; the max(.., 1) guard divides by
    // one and the clamp then saturates the prescaler.
    let t = TimingSpec { baudrate: 0, jump_width: 0, phase_seg_1: 0, phase_seg_2: 0, prop_seg: 0 };
    let r = compute(&t, 24_000_000, 1_000_000);
    assert_eq!(r.unwrap().prescaler, 255);
}

#[test]
fn tdc_offset_scenario_exceeds_field() {
    // offset = max(24_000_000 / (2 * 4_000_000 / 1000), 1)
    //        = max(24_000_000 / 8000, 1) = 3000, and 3000 > 15.
    let r = compute_tdc(true, 24_000_000, 4_000_000);
    assert_eq!(r, Err(CANFDError::TransceiverDelayCompensationTooHigh));
}

#[test]
fn tdc_offset_carried_along_when_disabled() {
    // The same offset is computed, but with compensation disabled it is
    // only carried along, never checked against the field width.
    let r = compute_tdc(false, 24_000_000, 4_000_000);
    assert_eq!(r, Ok(TdcFields { enabled: false, offset: 3000 }));
}

#[test]
fn tdc_offset_in_range_accepted_when_enabled() {
    // offset = max(100 / 8000, 1) = 1 fits the 4-bit field.
    let r = compute_tdc(true, 100, 4_000_000);
    assert_eq!(r, Ok(TdcFields { enabled: true, offset: 1 }));
}

#[test]
fn tdc_offset_division_order() {
    // The divisor is rounded down first: 2 * 1_499 / 1000 = 2, so the
    // offset is 24_000 / 2 = 12_000. Dividing by 1000 last instead would
    // give 24_000 * 1000 / 2_998 = 8005: the order of operations is part
    // of the contract.
    let r = compute_tdc(false, 24_000, 1_499);
    assert_eq!(r, Ok(TdcFields { enabled: false, offset: 12_000 }));
}
