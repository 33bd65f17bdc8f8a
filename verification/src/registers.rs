//! An explicit model of the hardware registers the initialization sequence
//! touches.
//!
//! The model is the capability handed to the configurators: owning a value of
//! one of these types stands for exclusive, caller-scoped ownership of the
//! corresponding register region. The controller's implicit mode machine is
//! reified as [`ControllerState`], and the timing registers reject any write
//! attempted while the controller is not frozen, so the freeze-bracket
//! discipline is part of every operation's contract.

use vstd::prelude::*;

use crate::timing::TimingRegisters;

verus! {

/// The controller's mode: `Disabled` until the peripheral is enabled,
/// `Normal` once a module reset has completed, and `Frozen` while timing
/// registers are writable. Freeze is a reversible sub-state: the controller
/// always returns to `Normal` before the next operation proceeds.
#[derive(Clone, Copy, PartialEq, Eq, Structural, Debug)]
pub enum ControllerState {
    Disabled,
    Enabled,
    Normal,
    Frozen,
}

/// Control bits of CTRL1 the initialization sequence clears: loop-back,
/// listen-only and timer synchronization.
#[derive(Clone, Copy, PartialEq, Eq, Structural, Debug)]
pub struct Ctrl1 {
    pub lpb: bool,
    pub lom: bool,
    pub tsyn: bool,
}

/// Control fields of MCR: the maximum message-buffer index and the wake-up,
/// masking, self-reception, doze, abort and FD-enable policy bits.
#[derive(Clone, Copy, PartialEq, Eq, Structural, Debug)]
pub struct Mcr {
    pub maxmb: u32,
    pub slfwak: bool,
    pub waksrc: bool,
    pub irmq: bool,
    pub srxdis: bool,
    pub doze: bool,
    pub aen: bool,
    pub fden: bool,
}

/// Classical-CAN bit-timing fields of CBT.
#[derive(Clone, Copy, PartialEq, Eq, Structural, Debug)]
pub struct Cbt {
    pub epresdiv: u32,
    pub erjw: u32,
    pub epseg1: u32,
    pub epseg2: u32,
    pub epropseg: u32,
}

/// FD-phase bit-timing fields of FDCBT.
#[derive(Clone, Copy, PartialEq, Eq, Structural, Debug)]
pub struct Fdcbt {
    pub fpresdiv: u32,
    pub frjw: u32,
    pub fpseg1: u32,
    pub fpseg2: u32,
    pub fpropseg: u32,
}

/// FD control fields of FDCTRL. `tdcfail` is a hardware-computed diagnostic:
/// no write of this model's own methods sets it, only the hardware does
/// (modelled by [`CanRegisters::set_tdcfail`]).
#[derive(Clone, Copy, PartialEq, Eq, Structural, Debug)]
pub struct Fdctrl {
    pub fdrate: bool,
    pub tdcoff: u32,
    pub tdcen: bool,
    pub mbdsr0: u32,
    pub mbdsr1: u32,
    pub tdcfail: bool,
}

/// The controller's register file together with its mode.
#[derive(Clone, Copy, PartialEq, Eq, Structural, Debug)]
pub struct CanRegisters {
    pub state: ControllerState,
    pub ctrl1: Ctrl1,
    pub mcr: Mcr,
    pub cbt: Cbt,
    pub fdcbt: Fdcbt,
    pub fdctrl: Fdctrl,
}

pub open spec fn ctrl1_reset() -> Ctrl1 {
    Ctrl1 { lpb: false, lom: false, tsyn: false }
}

pub open spec fn mcr_reset() -> Mcr {
    Mcr {
        maxmb: 0,
        slfwak: false,
        waksrc: false,
        irmq: false,
        srxdis: false,
        doze: false,
        aen: false,
        fden: false,
    }
}

pub open spec fn cbt_reset() -> Cbt {
    Cbt { epresdiv: 0, erjw: 0, epseg1: 0, epseg2: 0, epropseg: 0 }
}

pub open spec fn fdcbt_reset() -> Fdcbt {
    Fdcbt { fpresdiv: 0, frjw: 0, fpseg1: 0, fpseg2: 0, fpropseg: 0 }
}

pub open spec fn fdctrl_reset() -> Fdctrl {
    Fdctrl { fdrate: false, tdcoff: 0, tdcen: false, mbdsr0: 0, mbdsr1: 0, tdcfail: false }
}

/// The register file at power-on: disabled, everything at its reset value.
pub open spec fn power_on_registers() -> CanRegisters {
    CanRegisters {
        state: ControllerState::Disabled,
        ctrl1: ctrl1_reset(),
        mcr: mcr_reset(),
        cbt: cbt_reset(),
        fdcbt: fdcbt_reset(),
        fdctrl: fdctrl_reset(),
    }
}

/// The register file right after a module reset: back at reset values, with
/// the controller settling into normal mode.
pub open spec fn reset_registers() -> CanRegisters {
    CanRegisters {
        state: ControllerState::Normal,
        ctrl1: ctrl1_reset(),
        mcr: mcr_reset(),
        cbt: cbt_reset(),
        fdcbt: fdcbt_reset(),
        fdctrl: fdctrl_reset(),
    }
}

/// The two register files hold the same values everywhere; only the mode may
/// differ.
pub open spec fn same_register_values(a: CanRegisters, b: CanRegisters) -> bool {
    &&& a.ctrl1 == b.ctrl1
    &&& a.mcr == b.mcr
    &&& a.cbt == b.cbt
    &&& a.fdcbt == b.fdcbt
    &&& a.fdctrl == b.fdctrl
}

/// The mode after `enable(on)`: enabling moves a disabled controller to
/// `Enabled` and leaves any other mode alone; disabling always yields
/// `Disabled`.
pub open spec fn enabled_state(s: ControllerState, on: bool) -> ControllerState {
    if !on {
        ControllerState::Disabled
    } else if s is Disabled {
        ControllerState::Enabled
    } else {
        s
    }
}

/// The mode after `exit_freeze`: a frozen controller returns to `Normal`;
/// exiting while not frozen is an idempotent no-op.
pub open spec fn unfrozen_state(s: ControllerState) -> ControllerState {
    if s is Frozen {
        ControllerState::Normal
    } else {
        s
    }
}

/// The CBT values a classical timing result programs.
pub open spec fn cbt_from(t: TimingRegisters) -> Cbt {
    Cbt {
        epresdiv: t.prescaler,
        erjw: t.jump_width as u32,
        epseg1: t.phase_seg_1 as u32,
        epseg2: t.phase_seg_2 as u32,
        epropseg: t.prop_seg as u32,
    }
}

/// The FDCBT values an FD timing result programs.
pub open spec fn fdcbt_from(t: TimingRegisters) -> Fdcbt {
    Fdcbt {
        fpresdiv: t.prescaler,
        frjw: t.jump_width as u32,
        fpseg1: t.phase_seg_1 as u32,
        fpseg2: t.phase_seg_2 as u32,
        fpropseg: t.prop_seg as u32,
    }
}

impl CanRegisters {
    /// The register file at power-on-reset.
    pub fn new() -> (r: CanRegisters)
        ensures
            r == power_on_registers(),
    {
        CanRegisters {
            state: ControllerState::Disabled,
            ctrl1: Ctrl1 { lpb: false, lom: false, tsyn: false },
            mcr: Mcr {
                maxmb: 0,
                slfwak: false,
                waksrc: false,
                irmq: false,
                srxdis: false,
                doze: false,
                aen: false,
                fden: false,
            },
            cbt: Cbt { epresdiv: 0, erjw: 0, epseg1: 0, epseg2: 0, epropseg: 0 },
            fdcbt: Fdcbt { fpresdiv: 0, frjw: 0, fpseg1: 0, fpseg2: 0, fpropseg: 0 },
            fdctrl: Fdctrl {
                fdrate: false,
                tdcoff: 0,
                tdcen: false,
                mbdsr0: 0,
                mbdsr1: 0,
                tdcfail: false,
            },
        }
    }

    /// Asserts or deasserts the peripheral enable control.
    pub fn enable(&mut self, on: bool)
        ensures
            same_register_values(*old(self), *final(self)),
            final(self).state == enabled_state(old(self).state, on),
    {
        if on {
            if self.state == ControllerState::Disabled {
                self.state = ControllerState::Enabled;
            }
        } else {
            self.state = ControllerState::Disabled;
        }
    }

    /// Issues a module reset. The caller must have enabled the controller
    /// first: a reset of a disabled controller is hardware-undefined, so the
    /// contract excludes it. Afterwards every modelled register is back at
    /// its reset value and the controller settles into normal mode.
    pub fn reset(&mut self)
        requires
            old(self).state !is Disabled,
        ensures
            *final(self) == reset_registers(),
    {
        self.state = ControllerState::Normal;
        self.ctrl1 = Ctrl1 { lpb: false, lom: false, tsyn: false };
        self.mcr = Mcr {
            maxmb: 0,
            slfwak: false,
            waksrc: false,
            irmq: false,
            srxdis: false,
            doze: false,
            aen: false,
            fden: false,
        };
        self.cbt = Cbt { epresdiv: 0, erjw: 0, epseg1: 0, epseg2: 0, epropseg: 0 };
        self.fdcbt = Fdcbt { fpresdiv: 0, frjw: 0, fpseg1: 0, fpseg2: 0, fpropseg: 0 };
        self.fdctrl = Fdctrl {
            fdrate: false,
            tdcoff: 0,
            tdcen: false,
            mbdsr0: 0,
            mbdsr1: 0,
            tdcfail: false,
        };
    }

    /// Enters freeze mode, the only mode in which timing registers accept
    /// writes. Idempotent when already frozen; undefined for a disabled
    /// controller, so the contract excludes that.
    pub fn enter_freeze(&mut self)
        requires
            old(self).state !is Disabled,
        ensures
            same_register_values(*old(self), *final(self)),
            final(self).state is Frozen,
    {
        self.state = ControllerState::Frozen;
    }

    /// Leaves freeze mode, returning the controller to normal operation.
    /// Idempotent when not frozen; undefined for a disabled controller, so
    /// the contract excludes that.
    pub fn exit_freeze(&mut self)
        requires
            old(self).state !is Disabled,
        ensures
            same_register_values(*old(self), *final(self)),
            final(self).state == unfrozen_state(old(self).state),
    {
        if self.state == ControllerState::Frozen {
            self.state = ControllerState::Normal;
        }
    }

    /// Writes the loop-back, listen-only and timer-sync control bits.
    pub fn write_ctrl1(&mut self, lpb: bool, lom: bool, tsyn: bool)
        requires
            old(self).state !is Disabled,
        ensures
            final(self).state == old(self).state,
            final(self).ctrl1 == (Ctrl1 { lpb, lom, tsyn }),
            final(self).mcr == old(self).mcr,
            final(self).cbt == old(self).cbt,
            final(self).fdcbt == old(self).fdcbt,
            final(self).fdctrl == old(self).fdctrl,
    {
        self.ctrl1 = Ctrl1 { lpb, lom, tsyn };
    }

    /// Writes the MCR control fields in one transaction, leaving the
    /// FD-enable bit as it was.
    pub fn write_mcr_control(
        &mut self,
        maxmb: u32,
        slfwak: bool,
        waksrc: bool,
        irmq: bool,
        srxdis: bool,
        doze: bool,
        aen: bool,
    )
        requires
            old(self).state !is Disabled,
        ensures
            final(self).state == old(self).state,
            final(self).ctrl1 == old(self).ctrl1,
            final(self).mcr == (Mcr { maxmb, slfwak, waksrc, irmq, srxdis, doze, aen,
                    fden: old(self).mcr.fden }),
            final(self).cbt == old(self).cbt,
            final(self).fdcbt == old(self).fdcbt,
            final(self).fdctrl == old(self).fdctrl,
    {
        self.mcr = Mcr { maxmb, slfwak, waksrc, irmq, srxdis, doze, aen, fden: self.mcr.fden };
    }

    /// Programs the classical bit-timing register. The write is accepted only
    /// in freeze mode; outside it the register keeps its value and the
    /// rejection is reported.
    pub fn write_cbt(&mut self, t: &TimingRegisters) -> (accepted: bool)
        ensures
            accepted == (old(self).state is Frozen),
            final(self).state == old(self).state,
            final(self).ctrl1 == old(self).ctrl1,
            final(self).mcr == old(self).mcr,
            final(self).fdcbt == old(self).fdcbt,
            final(self).fdctrl == old(self).fdctrl,
            accepted ==> final(self).cbt == cbt_from(*t),
            !accepted ==> final(self).cbt == old(self).cbt,
    {
        if self.state == ControllerState::Frozen {
            self.cbt = Cbt {
                epresdiv: t.prescaler,
                erjw: t.jump_width as u32,
                epseg1: t.phase_seg_1 as u32,
                epseg2: t.phase_seg_2 as u32,
                epropseg: t.prop_seg as u32,
            };
            true
        } else {
            false
        }
    }

    /// Programs the FD bit-timing register. The write is accepted only in
    /// freeze mode; outside it the register keeps its value and the rejection
    /// is reported.
    pub fn write_fdcbt(&mut self, t: &TimingRegisters) -> (accepted: bool)
        ensures
            accepted == (old(self).state is Frozen),
            final(self).state == old(self).state,
            final(self).ctrl1 == old(self).ctrl1,
            final(self).mcr == old(self).mcr,
            final(self).cbt == old(self).cbt,
            final(self).fdctrl == old(self).fdctrl,
            accepted ==> final(self).fdcbt == fdcbt_from(*t),
            !accepted ==> final(self).fdcbt == old(self).fdcbt,
    {
        if self.state == ControllerState::Frozen {
            self.fdcbt = Fdcbt {
                fpresdiv: t.prescaler,
                frjw: t.jump_width as u32,
                fpseg1: t.phase_seg_1 as u32,
                fpseg2: t.phase_seg_2 as u32,
                fpropseg: t.prop_seg as u32,
            };
            true
        } else {
            false
        }
    }

    /// Sets or clears the FD-enable bit of MCR. Accepted only in freeze mode;
    /// outside it the bit keeps its value and the rejection is reported.
    pub fn set_fden(&mut self, on: bool) -> (accepted: bool)
        ensures
            accepted == (old(self).state is Frozen),
            final(self).state == old(self).state,
            final(self).ctrl1 == old(self).ctrl1,
            final(self).cbt == old(self).cbt,
            final(self).fdcbt == old(self).fdcbt,
            final(self).fdctrl == old(self).fdctrl,
            accepted ==> final(self).mcr == (Mcr { fden: on, ..old(self).mcr }),
            !accepted ==> final(self).mcr == old(self).mcr,
    {
        if self.state == ControllerState::Frozen {
            self.mcr = Mcr { fden: on, ..self.mcr };
            true
        } else {
            false
        }
    }

    /// Programs the writable FD control fields in one transaction, leaving
    /// the hardware-owned failure diagnostic as it was. Accepted only in
    /// freeze mode; outside it the register keeps its value and the rejection
    /// is reported.
    pub fn write_fdctrl(
        &mut self,
        fdrate: bool,
        tdcoff: u32,
        tdcen: bool,
        mbdsr0: u32,
        mbdsr1: u32,
    ) -> (accepted: bool)
        ensures
            accepted == (old(self).state is Frozen),
            final(self).state == old(self).state,
            final(self).ctrl1 == old(self).ctrl1,
            final(self).mcr == old(self).mcr,
            final(self).cbt == old(self).cbt,
            final(self).fdcbt == old(self).fdcbt,
            accepted ==> final(self).fdctrl == (Fdctrl { fdrate, tdcoff, tdcen, mbdsr0, mbdsr1,
                    tdcfail: old(self).fdctrl.tdcfail }),
            !accepted ==> final(self).fdctrl == old(self).fdctrl,
    {
        if self.state == ControllerState::Frozen {
            self.fdctrl = Fdctrl {
                fdrate,
                tdcoff,
                tdcen,
                mbdsr0,
                mbdsr1,
                tdcfail: self.fdctrl.tdcfail,
            };
            true
        } else {
            false
        }
    }

    /// Reads the hardware-asserted transceiver-delay-compensation failure
    /// diagnostic.
    pub fn read_tdcfail(&self) -> (failed: bool)
        ensures
            failed == self.fdctrl.tdcfail,
    {
        self.fdctrl.tdcfail
    }

    /// Models the hardware asserting or clearing the failure diagnostic.
    /// Only the hardware — here, a test harness standing in for it — writes
    /// this bit; none of the model's own write operations touch it.
    pub fn set_tdcfail(&mut self, failed: bool)
        ensures
            final(self).state == old(self).state,
            final(self).ctrl1 == old(self).ctrl1,
            final(self).mcr == old(self).mcr,
            final(self).cbt == old(self).cbt,
            final(self).fdcbt == old(self).fdcbt,
            final(self).fdctrl == (Fdctrl { tdcfail: failed, ..old(self).fdctrl }),
    {
        self.fdctrl = Fdctrl { tdcfail: failed, ..self.fdctrl };
    }
}

/// Clock-controller fields the initialization touches: the CAN clock
/// selector and divider, the UART-class clock gate a hardware erratum
/// requires, and the CAN peripheral's own clock gates. The three registers
/// are shared with other peripherals, so each carries a `rest` field for
/// the state that belongs to them: configuration must leave it alone.
#[derive(Clone, Copy, PartialEq, Eq, Structural, Debug)]
pub struct CcmRegisters {
    pub can_clk_sel: u32,
    pub can_clk_podf: u32,
    pub cscmr2_rest: u32,
    pub ccgr0_cg6: u32,
    pub ccgr0_rest: u32,
    pub ccgr7_cg4: u32,
    pub ccgr7_cg3: u32,
    pub ccgr7_rest: u32,
}

impl CcmRegisters {
    /// The clock-controller fields before configuration.
    pub fn new() -> (r: CcmRegisters)
        ensures
            r == (CcmRegisters {
                can_clk_sel: 0,
                can_clk_podf: 0,
                cscmr2_rest: 0,
                ccgr0_cg6: 0,
                ccgr0_rest: 0,
                ccgr7_cg4: 0,
                ccgr7_cg3: 0,
                ccgr7_rest: 0,
            }),
    {
        CcmRegisters {
            can_clk_sel: 0,
            can_clk_podf: 0,
            cscmr2_rest: 0,
            ccgr0_cg6: 0,
            ccgr0_rest: 0,
            ccgr7_cg4: 0,
            ccgr7_cg3: 0,
            ccgr7_rest: 0,
        }
    }
}

/// Pin-multiplexer fields the initialization touches: mux mode, pad profile
/// and input-select ("daisy") fields for the transmit and receive pads.
#[derive(Clone, Copy, PartialEq, Eq, Structural, Debug)]
pub struct IomuxcRegisters {
    pub tx_sion: u32,
    pub tx_mux_mode: u32,
    pub tx_pad: u32,
    pub rx_daisy: u32,
    pub rx_sion: u32,
    pub rx_mux_mode: u32,
    pub rx_pad: u32,
}

impl IomuxcRegisters {
    /// The pin-multiplexer fields before configuration.
    pub fn new() -> (r: IomuxcRegisters)
        ensures
            r == (IomuxcRegisters {
                tx_sion: 0,
                tx_mux_mode: 0,
                tx_pad: 0,
                rx_daisy: 0,
                rx_sion: 0,
                rx_mux_mode: 0,
                rx_pad: 0,
            }),
    {
        IomuxcRegisters {
            tx_sion: 0,
            tx_mux_mode: 0,
            tx_pad: 0,
            rx_daisy: 0,
            rx_sion: 0,
            rx_mux_mode: 0,
            rx_pad: 0,
        }
    }
}

} // verus!
