use canfd::config::ClockSpeed;
use canfd::config::Config;
use canfd::config::MessageBufferSize;
use canfd::config::TimingSpec;
use canfd::error::CANFDError;
use canfd::init::CANFD;
use canfd::registers::CanRegisters;
use canfd::registers::CcmRegisters;
use canfd::registers::ControllerState;
use canfd::registers::IomuxcRegisters;
use canfd::timing::TimingRegisters;

fn base_config() -> Config {
    Config {
        timing_classical: TimingSpec {
            baudrate: 500_000,
            jump_width: 1,
            phase_seg_1: 4,
            phase_seg_2: 3,
            prop_seg: 2,
        },
        timing_fd: TimingSpec {
            baudrate: 2_000_000,
            jump_width: 1,
            phase_seg_1: 2,
            phase_seg_2: 1,
            prop_seg: 1,
        },
        clock_speed: ClockSpeed::Mhz24,
        transceiver_compensation: false,
        region_1_mb_size: MessageBufferSize::Bytes64,
        region_2_mb_size: MessageBufferSize::Bytes8,
    }
}

#[test]
fn init_success_programs_both_phases() {
    let mut c = CANFD::new(base_config());
    assert_eq!(c.init(), Ok(()));

    // Classical timing: quantum 13, prescaler 24_000_000 / 6_500_000 - 1 = 2.
    assert_eq!(c.regs.cbt.epresdiv, 2);
    assert_eq!(c.regs.cbt.erjw, 1);
    assert_eq!(c.regs.cbt.epseg1, 4);
    assert_eq!(c.regs.cbt.epseg2, 3);
    assert_eq!(c.regs.cbt.epropseg, 2);

    // FD timing: quantum 8, raw 16_000_000, prescaler 24_000_000 / 16_000_000 - 1 = 0.
    assert_eq!(c.regs.fdcbt.fpresdiv, 0);
    assert_eq!(c.regs.fdcbt.frjw, 1);
    assert_eq!(c.regs.fdcbt.fpseg1, 2);
    assert_eq!(c.regs.fdcbt.fpseg2, 1);
    assert_eq!(c.regs.fdcbt.fpropseg, 1);

    // Control policy: 7 + 32 buffers -> MAXMB 38; masking and abort on.
    assert_eq!(c.regs.mcr.maxmb, 38);
    assert!(c.regs.mcr.irmq);
    assert!(c.regs.mcr.aen);
    assert!(!c.regs.mcr.slfwak);
    assert!(!c.regs.mcr.waksrc);
    assert!(!c.regs.mcr.srxdis);
    assert!(!c.regs.mcr.doze);
    assert!(c.regs.mcr.fden);

    // CTRL1 bits cleared; FD control programmed from the configuration.
    assert!(!c.regs.ctrl1.lpb);
    assert!(!c.regs.ctrl1.lom);
    assert!(!c.regs.ctrl1.tsyn);
    assert!(c.regs.fdctrl.fdrate);
    assert!(!c.regs.fdctrl.tdcen);
    assert_eq!(c.regs.fdctrl.tdcoff, 6000); // max(24_000_000 / (2 * 2_000_000 / 1000), 1)
    assert_eq!(c.regs.fdctrl.mbdsr0, 3);
    assert_eq!(c.regs.fdctrl.mbdsr1, 0);

    // Terminal accepting state: normal operation.
    assert_eq!(c.regs.state, ControllerState::Normal);
}

#[test]
fn init_classical_ceiling_stops_fd_phase() {
    let mut config = base_config();
    config.timing_classical.baudrate = 1_000_001;
    let mut c = CANFD::new(config);
    assert_eq!(c.init(), Err(CANFDError::BaudrateTooHigh));

    // The FD phase never ran: FD enable and FD timing untouched.
    assert!(!c.regs.mcr.fden);
    assert_eq!(c.regs.fdcbt.fpresdiv, 0);
    assert_eq!(c.regs.fdcbt.frjw, 0);
    assert!(!c.regs.fdctrl.fdrate);
    // The classical timing register was never written either.
    assert_eq!(c.regs.cbt.erjw, 0);
    // The prelude did run: the controller is enabled, reset and policied.
    assert_eq!(c.regs.state, ControllerState::Normal);
    assert!(c.regs.mcr.irmq);
}

#[test]
fn init_classical_prescaler_check() {
    let mut config = base_config();
    // quantum = 4 + 255 * 3 = 769, raw = 769_000_000 > 24_000_000.
    config.timing_classical.phase_seg_1 = 255;
    config.timing_classical.phase_seg_2 = 255;
    config.timing_classical.prop_seg = 255;
    config.timing_classical.baudrate = 1_000_000;
    let mut c = CANFD::new(config);
    assert_eq!(c.init(), Err(CANFDError::PrescalarTooHigh));
    assert!(!c.regs.mcr.fden);
}

#[test]
fn init_fd_ceiling_reported_after_classical() {
    let mut config = base_config();
    config.timing_fd.baudrate = 8_000_001;
    let mut c = CANFD::new(config);
    assert_eq!(c.init(), Err(CANFDError::BaudrateTooHigh));

    // The classical phase completed before the FD check failed.
    assert_eq!(c.regs.cbt.epresdiv, 2);
    assert_eq!(c.regs.cbt.erjw, 1);
    // Nothing of the FD phase was written.
    assert!(!c.regs.mcr.fden);
    assert_eq!(c.regs.fdcbt.frjw, 0);
}

#[test]
fn init_tdc_offset_too_high() {
    let mut config = base_config();
    config.transceiver_compensation = true;
    let mut c = CANFD::new(config);
    // offset = max(24_000_000 / (2 * 2_000_000 / 1000), 1) = 6000 > 15.
    assert_eq!(c.init(), Err(CANFDError::TransceiverDelayCompensationTooHigh));
    // The check fails before the freeze bracket: no FD register written.
    assert!(!c.regs.mcr.fden);
    assert!(!c.regs.fdctrl.fdrate);
}

#[test]
fn init_fd_reports_hardware_tdc_failure() {
    let mut c = CANFD::new(base_config());
    assert_eq!(c.init_classical(), Ok(()));
    // The hardware asserts the diagnostic; it can only be observed after
    // the FD phase leaves freeze mode.
    c.regs.set_tdcfail(true);
    assert_eq!(c.init_fd(), Err(CANFDError::TransceiverDelayCompensationFail));
    // No rollback: the FD registers written inside the bracket stay.
    assert!(c.regs.mcr.fden);
    assert!(c.regs.fdctrl.fdrate);
    assert_eq!(c.regs.state, ControllerState::Normal);
}

#[test]
fn init_fd_succeeds_without_hardware_failure() {
    let mut c = CANFD::new(base_config());
    assert_eq!(c.init_classical(), Ok(()));
    assert_eq!(c.init_fd(), Ok(()));
    assert!(c.regs.mcr.fden);
}

#[test]
fn timing_write_rejected_outside_freeze() {
    let mut regs = CanRegisters::new();
    regs.enable(true);
    regs.reset();
    assert_eq!(regs.state, ControllerState::Normal);

    let t = TimingRegisters {
        prescaler: 2,
        jump_width: 1,
        phase_seg_1: 4,
        phase_seg_2: 3,
        prop_seg: 2,
    };
    let before = regs;
    // Not frozen: every timing-register write is rejected and the register
    // file keeps its values.
    assert!(!regs.write_cbt(&t));
    assert!(!regs.write_fdcbt(&t));
    assert!(!regs.set_fden(true));
    assert!(!regs.write_fdctrl(true, 3, true, 0, 0));
    assert_eq!(regs, before);

    // Frozen: the same writes are accepted.
    regs.enter_freeze();
    assert!(regs.write_cbt(&t));
    assert_eq!(regs.cbt.epresdiv, 2);
    assert!(regs.write_fdcbt(&t));
    assert!(regs.set_fden(true));
    assert!(regs.write_fdctrl(true, 3, true, 0, 0));
    regs.exit_freeze();
    assert_eq!(regs.state, ControllerState::Normal);
}

#[test]
fn controller_mode_transitions() {
    let mut regs = CanRegisters::new();
    assert_eq!(regs.state, ControllerState::Disabled);

    // Enabling an enabled controller is a no-op; disabling always disables.
    regs.enable(true);
    assert_eq!(regs.state, ControllerState::Enabled);
    regs.enable(true);
    assert_eq!(regs.state, ControllerState::Enabled);
    regs.enable(false);
    assert_eq!(regs.state, ControllerState::Disabled);

    // Reset settles into normal mode; freeze is reversible and idempotent.
    regs.enable(true);
    regs.reset();
    assert_eq!(regs.state, ControllerState::Normal);
    regs.enter_freeze();
    assert_eq!(regs.state, ControllerState::Frozen);
    regs.enter_freeze();
    assert_eq!(regs.state, ControllerState::Frozen);
    regs.exit_freeze();
    assert_eq!(regs.state, ControllerState::Normal);
    regs.exit_freeze();
    assert_eq!(regs.state, ControllerState::Normal);
}

#[test]
fn configure_clocks_idempotent() {
    let mut c = CANFD::new(base_config());
    let mut ccm = CcmRegisters::new();
    // State belonging to other peripherals in the same registers.
    ccm.cscmr2_rest = 0xAB;
    ccm.ccgr0_rest = 0xCD;
    ccm.ccgr7_rest = 0xEF;
    c.init_clocks(&mut ccm);
    let once = ccm;
    c.init_clocks(&mut ccm);
    assert_eq!(ccm, once);
    assert_eq!(ccm.can_clk_sel, 0b01);
    assert_eq!(ccm.can_clk_podf, 0b00);
    assert_eq!(ccm.ccgr0_cg6, 0b11);
    assert_eq!(ccm.ccgr7_cg4, 0b11);
    assert_eq!(ccm.ccgr7_cg3, 0b11);
    // The writes modified, they did not overwrite: the other peripherals'
    // fields survived both passes.
    assert_eq!(ccm.cscmr2_rest, 0xAB);
    assert_eq!(ccm.ccgr0_rest, 0xCD);
    assert_eq!(ccm.ccgr7_rest, 0xEF);
}

#[test]
fn configure_pins_idempotent() {
    let mut c = CANFD::new(base_config());
    let mut iomuxc = IomuxcRegisters::new();
    c.init_pins(&mut iomuxc);
    let once = iomuxc;
    c.init_pins(&mut iomuxc);
    assert_eq!(iomuxc, once);
    assert_eq!(iomuxc.tx_sion, 1);
    assert_eq!(iomuxc.tx_mux_mode, 0b1001);
    assert_eq!(iomuxc.tx_pad, 0x10B0);
    assert_eq!(iomuxc.rx_daisy, 0);
    assert_eq!(iomuxc.rx_sion, 1);
    assert_eq!(iomuxc.rx_mux_mode, 0b1001);
    assert_eq!(iomuxc.rx_pad, 0x10B0);
}

#[test]
fn max_message_buffers_from_region_sizes() {
    let mut config = base_config();
    config.region_1_mb_size = MessageBufferSize::Bytes8;
    config.region_2_mb_size = MessageBufferSize::Bytes8;
    let mut c = CANFD::new(config);
    assert_eq!(c.get_max_message_buffers(), 64);
    assert_eq!(c.init(), Ok(()));
    assert_eq!(c.regs.mcr.maxmb, 63);

    config.region_1_mb_size = MessageBufferSize::Bytes16;
    config.region_2_mb_size = MessageBufferSize::Bytes32;
    let c2 = CANFD::new(config);
    assert_eq!(c2.get_max_message_buffers(), 33);
}
