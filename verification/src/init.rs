//! The initialization orchestrator: clock and pin configuration, the
//! enable/reset sequence, and the programming of classical and FD bit timing
//! inside freeze brackets, surfacing the first error encountered.

use vstd::prelude::*;

use crate::config::Config;
use crate::config::MAX_BAUDRATE_CLASSICAL;
use crate::config::MAX_BAUDRATE_FD;
use crate::error::CANFDError;
use crate::registers::CanRegisters;
use crate::registers::CcmRegisters;
use crate::registers::ControllerState;
use crate::registers::Ctrl1;
use crate::registers::Fdctrl;
use crate::registers::IomuxcRegisters;
use crate::registers::Mcr;
use crate::registers::cbt_from;
use crate::registers::cbt_reset;
use crate::registers::fdcbt_from;
use crate::registers::fdcbt_reset;
use crate::registers::fdctrl_reset;
use crate::registers::power_on_registers;
use crate::timing::compute;
use crate::timing::compute_tdc;
use crate::timing::raw_divider;
use crate::timing::tdc_offset;
use crate::timing::timing_registers;

verus! {

/// The clock-controller fields after [`CANFD::init_clocks`]: the 24 MHz
/// oscillator selected undivided, the UART-class gate the hardware erratum
/// requires switched on, and the CAN peripheral's own gates switched on.
/// The writes modify their registers, so the fields belonging to other
/// peripherals keep their values.
pub open spec fn clocks_configured(s: CcmRegisters) -> CcmRegisters {
    CcmRegisters {
        can_clk_sel: 1,
        can_clk_podf: 0,
        ccgr0_cg6: 3,
        ccgr7_cg4: 3,
        ccgr7_cg3: 3,
        ..s
    }
}

/// The pin-multiplexer fields after [`CANFD::init_pins`]: both pads on the
/// CAN alternate function with the software-input-on bit set and the same
/// pad drive-strength profile, and the receive input routed from the
/// intended pad by the daisy selector. Every modelled field is written, so
/// the result does not depend on the prior state.
pub open spec fn pins_configured(s: IomuxcRegisters) -> IomuxcRegisters {
    IomuxcRegisters {
        tx_sion: 1,
        tx_mux_mode: 0b1001,
        tx_pad: 0x10B0,
        rx_daisy: 0,
        rx_sion: 1,
        rx_mux_mode: 0b1001,
        rx_pad: 0x10B0,
    }
}

/// Configuring the clocks twice yields the same final register state as
/// once.
pub proof fn lemma_init_clocks_idempotent(s: CcmRegisters)
    ensures
        clocks_configured(clocks_configured(s)) == clocks_configured(s),
{
}

/// Configuring the pins twice yields the same final register state as once.
pub proof fn lemma_init_pins_idempotent(s: IomuxcRegisters)
    ensures
        pins_configured(pins_configured(s)) == pins_configured(s),
{
}

/// Total number of message buffers the two RAM regions hold at the
/// configured buffer sizes.
pub open spec fn spec_max_message_buffers(config: Config) -> int {
    config.region_1_mb_size.spec_max_buffers() + config.region_2_mb_size.spec_max_buffers()
}

/// The MCR control policy `init_classical` programs: individual RX masking
/// and transmit abort on; self-wake, wake source, self-reception disable and
/// doze off; the maximum message-buffer index from the region sizes; the
/// FD-enable bit untouched (still clear right after reset).
pub open spec fn classical_mcr(config: Config) -> Mcr {
    Mcr {
        maxmb: (spec_max_message_buffers(config) - 1) as u32,
        slfwak: false,
        waksrc: false,
        irmq: true,
        srxdis: false,
        doze: false,
        aen: true,
        fden: false,
    }
}

/// The error `init_classical` reports for this configuration, if any.
pub open spec fn classical_error(config: Config) -> Option<CANFDError> {
    let t = config.timing_classical;
    if t.baudrate > MAX_BAUDRATE_CLASSICAL {
        Some(CANFDError::BaudrateTooHigh)
    } else if raw_divider(t) > config.clock_speed.spec_hz() {
        Some(CANFDError::PrescalarTooHigh)
    } else {
        None
    }
}

/// The registers after the unconditional prelude of `init_classical`:
/// enabled, reset, control bits cleared and the MCR policy programmed —
/// exactly the state left behind when a timing check then fails.
pub open spec fn classical_prelude_registers(config: Config) -> CanRegisters {
    CanRegisters {
        state: ControllerState::Normal,
        ctrl1: Ctrl1 { lpb: false, lom: false, tsyn: false },
        mcr: classical_mcr(config),
        cbt: cbt_reset(),
        fdcbt: fdcbt_reset(),
        fdctrl: fdctrl_reset(),
    }
}

/// The registers after a successful `init_classical`: the prelude plus the
/// computed classical bit timing, programmed inside the freeze bracket.
pub open spec fn classical_done_registers(config: Config) -> CanRegisters {
    CanRegisters {
        cbt: cbt_from(timing_registers(config.timing_classical, config.clock_speed.spec_hz())),
        ..classical_prelude_registers(config)
    }
}

/// The error `init_fd` reports before writing anything, if any.
pub open spec fn fd_error(config: Config) -> Option<CANFDError> {
    let t = config.timing_fd;
    let hz = config.clock_speed.spec_hz();
    if t.baudrate > MAX_BAUDRATE_FD {
        Some(CANFDError::BaudrateTooHigh)
    } else if raw_divider(t) > hz {
        Some(CANFDError::PrescalarTooHigh)
    } else if config.transceiver_compensation && tdc_offset(hz, t.baudrate) > 15 {
        Some(CANFDError::TransceiverDelayCompensationTooHigh)
    } else {
        None
    }
}

/// The transceiver-delay divisor `2 * baudrate / 1000` is evaluated whenever
/// both timing checks pass, and is zero below 500 bit/s — the hardware
/// formula is undefined there, so such configurations are excluded wherever
/// the FD phase runs.
pub open spec fn tdc_divisor_defined(config: Config) -> bool {
    let t = config.timing_fd;
    ||| t.baudrate > MAX_BAUDRATE_FD
    ||| raw_divider(t) > config.clock_speed.spec_hz()
    ||| t.baudrate >= 500
}

/// The registers after the FD phase has programmed its values into `r`:
/// FD timing and FD-enable written inside the freeze bracket, the FD control
/// fields set from the configuration, the hardware-owned failure diagnostic
/// untouched, and the controller back in normal mode.
pub open spec fn fd_applied_registers(r: CanRegisters, config: Config) -> CanRegisters {
    CanRegisters {
        state: ControllerState::Normal,
        ctrl1: r.ctrl1,
        mcr: Mcr { fden: true, ..r.mcr },
        cbt: r.cbt,
        fdcbt: fdcbt_from(timing_registers(config.timing_fd, config.clock_speed.spec_hz())),
        fdctrl: Fdctrl {
            fdrate: true,
            tdcoff: tdc_offset(config.clock_speed.spec_hz(), config.timing_fd.baudrate) as u32,
            tdcen: config.transceiver_compensation,
            mbdsr0: config.region_1_mb_size.spec_mbdsr_n(),
            mbdsr1: config.region_2_mb_size.spec_mbdsr_n(),
            tdcfail: r.fdctrl.tdcfail,
        },
    }
}

/// The registers after a fully successful `init`.
pub open spec fn init_done_registers(config: Config) -> CanRegisters {
    fd_applied_registers(classical_done_registers(config), config)
}

/// A CAN-FD controller instance: its configuration and its register file.
pub struct CANFD {
    pub config: Config,
    pub regs: CanRegisters,
}

impl CANFD {
    /// A controller at power-on-reset with the given configuration.
    pub fn new(config: Config) -> (c: CANFD)
        ensures
            c.config == config,
            c.regs == power_on_registers(),
    {
        CANFD { config, regs: CanRegisters::new() }
    }

    /// Selects the 24 MHz clock source for the CAN peripheral, switches on
    /// the UART-class clock gate a hardware erratum requires, and enables
    /// the CAN clock gates. No failure path; idempotent.
    pub fn init_clocks(&mut self, ccm: &mut CcmRegisters)
        ensures
            *final(self) == *old(self),
            *final(ccm) == clocks_configured(*old(ccm)),
    {
        ccm.can_clk_sel = 0b01;
        ccm.can_clk_podf = 0b00;
        ccm.ccgr0_cg6 = 0b11;
        ccm.ccgr7_cg4 = 0b11;
        ccm.ccgr7_cg3 = 0b11;
    }

    /// Puts the transmit and receive pads on the CAN alternate function with
    /// the pad drive-strength profile, and routes the receive input from the
    /// intended pad through the daisy selector. No failure path; idempotent.
    pub fn init_pins(&mut self, iomuxc: &mut IomuxcRegisters)
        ensures
            *final(self) == *old(self),
            *final(iomuxc) == pins_configured(*old(iomuxc)),
    {
        iomuxc.tx_sion = 0b1;
        iomuxc.tx_mux_mode = 0b1001;
        iomuxc.tx_pad = 0x10B0;
        iomuxc.rx_daisy = 0b00;
        iomuxc.rx_sion = 0b1;
        iomuxc.rx_mux_mode = 0b1001;
        iomuxc.rx_pad = 0x10B0;
    }

    /// Total number of message buffers available at the configured region
    /// sizes.
    pub fn get_max_message_buffers(&self) -> (n: u32)
        ensures
            n == spec_max_message_buffers(self.config),
            14 <= n <= 64,
    {
        self.config.region_1_mb_size.max_buffers() + self.config.region_2_mb_size.max_buffers()
    }

    /// Enables and resets the controller, programs the control policy, and
    /// computes and programs classical bit timing inside a freeze bracket.
    ///
    /// The enable/reset/policy prelude runs unconditionally; a failing
    /// timing check leaves exactly that prelude state behind (no rollback)
    /// and reports which check failed.
    pub fn init_classical(&mut self) -> (r: Result<(), CANFDError>)
        ensures
            final(self).config == old(self).config,
            classical_error(old(self).config) matches Some(e) ==> r == Err::<(), CANFDError>(e)
                && final(self).regs == classical_prelude_registers(old(self).config),
            classical_error(old(self).config) is None ==> r == Ok::<(), CANFDError>(())
                && final(self).regs == classical_done_registers(old(self).config),
    {
        self.regs.enable(true);
        self.regs.reset();

        // Disable loop back, listen only and timer sync.
        self.regs.write_ctrl1(false, false, false);

        let max_index: u32 = self.get_max_message_buffers() - 1;
        let maxmb_field: u32 = max_index & 0x7F;
        assert(max_index & 0x7F == max_index) by (bit_vector)
            requires max_index < 128u32;
        self.regs.write_mcr_control(maxmb_field, false, false, true, false, false, true);

        let timing = self.config.timing_classical;
        let clock_hz: u32 = self.config.clock_speed.to_hz();
        let computed = match compute(&timing, clock_hz, MAX_BAUDRATE_CLASSICAL) {
            Ok(t) => t,
            Err(e) => {
                return Err(e);
            },
        };

        self.regs.enter_freeze();
        let _accepted: bool = self.regs.write_cbt(&computed);
        self.regs.exit_freeze();

        Ok(())
    }

    /// Computes FD bit timing and the transceiver-delay compensation, then
    /// programs the FD timing, FD-enable and FD control fields inside a
    /// freeze bracket and reads back the hardware failure diagnostic.
    ///
    /// A failing check before the bracket leaves every register untouched;
    /// once the bracket has run, the written values stay even when the
    /// hardware diagnostic then reports a compensation failure.
    pub fn init_fd(&mut self) -> (r: Result<(), CANFDError>)
        requires
            old(self).regs.state !is Disabled,
            tdc_divisor_defined(old(self).config),
        ensures
            final(self).config == old(self).config,
            fd_error(old(self).config) matches Some(e) ==> r == Err::<(), CANFDError>(e)
                && *final(self) == *old(self),
            fd_error(old(self).config) is None ==> final(self).regs == fd_applied_registers(
                old(self).regs,
                old(self).config,
            ),
            fd_error(old(self).config) is None && old(self).regs.fdctrl.tdcfail ==> r == Err::<
                (),
                CANFDError,
            >(CANFDError::TransceiverDelayCompensationFail),
            fd_error(old(self).config) is None && !old(self).regs.fdctrl.tdcfail ==> r == Ok::<
                (),
                CANFDError,
            >(()),
    {
        let timing = self.config.timing_fd;
        let clock_hz: u32 = self.config.clock_speed.to_hz();
        let computed = match compute(&timing, clock_hz, MAX_BAUDRATE_FD) {
            Ok(t) => t,
            Err(e) => {
                return Err(e);
            },
        };
        let tdc = match compute_tdc(self.config.transceiver_compensation, clock_hz,
            timing.baudrate) {
            Ok(t) => t,
            Err(e) => {
                return Err(e);
            },
        };

        self.regs.enter_freeze();
        let _timing_accepted: bool = self.regs.write_fdcbt(&computed);
        let _fden_accepted: bool = self.regs.set_fden(true);
        let _ctrl_accepted: bool = self.regs.write_fdctrl(
            true,
            tdc.offset,
            tdc.enabled,
            self.config.region_1_mb_size.to_mbdsr_n(),
            self.config.region_2_mb_size.to_mbdsr_n(),
        );
        self.regs.exit_freeze();

        // The diagnostic the hardware computes while leaving freeze mode can
        // only be observed now, after the bracket.
        if self.regs.read_tdcfail() {
            return Err(CANFDError::TransceiverDelayCompensationFail);
        }

        Ok(())
    }

    /// Full initialization: classical phase first, FD phase second, first
    /// error wins; a failure in the classical phase prevents the FD phase
    /// from running at all.
    pub fn init(&mut self) -> (r: Result<(), CANFDError>)
        requires
            tdc_divisor_defined(old(self).config),
        ensures
            final(self).config == old(self).config,
            classical_error(old(self).config) matches Some(e) ==> r == Err::<(), CANFDError>(e)
                && final(self).regs == classical_prelude_registers(old(self).config),
            classical_error(old(self).config) is None ==> (fd_error(old(self).config)
                matches Some(e) ==> r == Err::<(), CANFDError>(e) && final(self).regs
                == classical_done_registers(old(self).config)),
            classical_error(old(self).config) is None && fd_error(old(self).config) is None ==> r
                == Ok::<(), CANFDError>(()) && final(self).regs == init_done_registers(
                old(self).config,
            ),
    {
        if let Err(err) = self.init_classical() {
            return Err(err);
        }
        if let Err(err) = self.init_fd() {
            return Err(err);
        }
        Ok(())
    }
}

} // verus!
