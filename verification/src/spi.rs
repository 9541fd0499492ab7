//! Serial peripheral interface (SPI) bus driver.
//!
//! A [`Spi`] driver owns one controller's register block together with a
//! capability-checked pin set. Construction consults the capability registry
//! — the static relation saying which pin, in which alternate-function mode,
//! may serve which role on which controller instance — and derives the 3-bit
//! clock-divisor code from the live clock-tree snapshot; only then is the
//! block programmed. Transfer is non-blocking and one byte at a time, with
//! status faults surfaced verbatim in a fixed priority order.

use vstd::prelude::*;

use crate::divider::divisor_code;
use crate::divider::spec_divisor_code;
use crate::nonblocking::NbError;
use crate::rcc::ApbBus;
use crate::rcc::Clocks;
use crate::rcc::Rcc;
use crate::time::Hertz;

verus! {

/// A terminal fault reported by the controller's status register.
///
/// None of these are cleared by the transfer operations themselves.
#[derive(Clone, Copy, Debug, PartialEq, Eq, Structural)]
pub enum Error {
    /// Overrun occurred: the caller read too slowly and a byte was lost.
    Overrun,
    /// Mode fault occurred: an external electrical conflict on the bus.
    ModeFault,
    /// CRC error: the hardware-checked data integrity failed.
    Crc,
    /// Reserved so that further faults can be added.
    _Extensible,
}

/// Marks a complete pin set as electrically legal for controller `SPI`.
pub trait Pins<SPI> {

}

impl<SPI, SCK: PinSck<SPI>, MISO: PinMiso<SPI>, MOSI: PinMosi<SPI>> Pins<SPI> for (
    SCK,
    MISO,
    MOSI,
) {

}

/// Marks a pin type as a legal clock line for controller `SPI`.
pub trait PinSck<SPI> {

}

/// Marks a pin type as a legal data-in line for controller `SPI`.
pub trait PinMiso<SPI> {

}

/// Marks a pin type as a legal data-out line for controller `SPI`.
pub trait PinMosi<SPI> {

}

/// A filler type for when the SCK pin is unnecessary.
pub struct NoSck;

/// A filler type for when the Miso pin is unnecessary.
pub struct NoMiso;

/// A filler type for when the Mosi pin is unnecessary.
pub struct NoMosi;

impl<SPI> PinSck<SPI> for NoSck {

}

impl<SPI> PinMiso<SPI> for NoMiso {

}

impl<SPI> PinMosi<SPI> for NoMosi {

}

/// One independently addressable SPI controller of the family.
#[derive(Clone, Copy, Debug, PartialEq, Eq, Structural)]
pub enum SpiInstance {
    /// The first controller, on the high-speed bus.
    Spi1,
    /// The second controller, on the low-speed bus.
    Spi2,
    /// The third controller, on the low-speed bus.
    Spi3,
    /// The fourth controller, on the high-speed bus.
    Spi4,
    /// The fifth controller, on the high-speed bus.
    Spi5,
    /// The sixth controller, on the high-speed bus.
    Spi6,
}

/// The electrical function a pin plays for a controller.
#[derive(Clone, Copy, Debug, PartialEq, Eq, Structural)]
pub enum Role {
    /// The clock line (SCK).
    Clock,
    /// The data-in line (MISO).
    DataIn,
    /// The data-out line (MOSI).
    DataOut,
}

/// One GPIO port of the device.
#[derive(Clone, Copy, Debug, PartialEq, Eq, Structural)]
pub enum Port {
    /// Port A.
    A,
    /// Port B.
    B,
    /// Port C.
    C,
    /// Port D.
    D,
    /// Port E.
    E,
    /// Port F.
    F,
    /// Port G.
    G,
    /// Port H.
    H,
    /// Port I.
    I,
}

/// A physical pin together with the alternate-function code wiring it to an
/// internal peripheral signal.
#[derive(Clone, Copy, Debug, PartialEq, Eq, Structural)]
pub struct PinFunction {
    /// The GPIO port the pin belongs to.
    pub port: Port,
    /// The pin's index within its port.
    pub index: u8,
    /// The alternate-function code the pin is configured into.
    pub af: u8,
}

/// The pin assigned to one role: a concrete pin, or the explicit
/// "unused role" placeholder (the data-level face of [`NoSck`], [`NoMiso`]
/// and [`NoMosi`]).
#[derive(Clone, Copy, Debug, PartialEq, Eq, Structural)]
pub enum RolePin {
    /// The role is left unconnected.
    Unused,
    /// The role is served by this pin in this alternate-function mode.
    Pin(PinFunction),
}

/// Exactly one pin (or placeholder) per required role of one controller.
#[derive(Clone, Copy, Debug, PartialEq, Eq, Structural)]
pub struct PinSet {
    /// The clock line.
    pub sck: RolePin,
    /// The data-in line.
    pub miso: RolePin,
    /// The data-out line.
    pub mosi: RolePin,
}

/// The capability registry: whether `p` may serve role `role` on controller
/// `i`.
///
/// The relation is additive and instance-specific — a pin illegal for one
/// instance may be legal for another, several alternatives may exist for one
/// role, and absence means rejection, never a default. Only the tuples
/// enumerated here are legal.
pub open spec fn spec_capability(i: SpiInstance, role: Role, p: PinFunction) -> bool {
    match i {
        SpiInstance::Spi2 => match role {
            Role::Clock => p == (PinFunction { port: Port::A, index: 9, af: 5 }),
            Role::DataIn => p == (PinFunction { port: Port::A, index: 12, af: 5 }),
            Role::DataOut => p == (PinFunction { port: Port::A, index: 10, af: 5 }),
        },
        SpiInstance::Spi3 => match role {
            Role::Clock => p == (PinFunction { port: Port::B, index: 12, af: 7 }),
            Role::DataIn => false,
            Role::DataOut => false,
        },
        SpiInstance::Spi4 => match role {
            Role::Clock => p == (PinFunction { port: Port::B, index: 13, af: 6 }),
            Role::DataIn => p == (PinFunction { port: Port::A, index: 11, af: 6 }),
            Role::DataOut => p == (PinFunction { port: Port::A, index: 1, af: 5 }),
        },
        SpiInstance::Spi5 => match role {
            Role::Clock => p == (PinFunction { port: Port::E, index: 2, af: 6 })
                || p == (PinFunction { port: Port::E, index: 12, af: 6 }),
            Role::DataIn => p == (PinFunction { port: Port::E, index: 5, af: 6 })
                || p == (PinFunction { port: Port::E, index: 13, af: 6 }),
            Role::DataOut => p == (PinFunction { port: Port::E, index: 6, af: 6 })
                || p == (PinFunction { port: Port::E, index: 14, af: 6 }),
        },
        SpiInstance::Spi1 => false,
        SpiInstance::Spi6 => false,
    }
}

/// Answers whether `p` may serve role `role` on controller `i`.
pub fn capability_allows(i: SpiInstance, role: Role, p: PinFunction) -> (b: bool)
    ensures
        b == spec_capability(i, role, p),
{
    match i {
        SpiInstance::Spi2 => match role {
            Role::Clock => p == (PinFunction { port: Port::A, index: 9, af: 5 }),
            Role::DataIn => p == (PinFunction { port: Port::A, index: 12, af: 5 }),
            Role::DataOut => p == (PinFunction { port: Port::A, index: 10, af: 5 }),
        },
        SpiInstance::Spi3 => match role {
            Role::Clock => p == (PinFunction { port: Port::B, index: 12, af: 7 }),
            Role::DataIn => false,
            Role::DataOut => false,
        },
        SpiInstance::Spi4 => match role {
            Role::Clock => p == (PinFunction { port: Port::B, index: 13, af: 6 }),
            Role::DataIn => p == (PinFunction { port: Port::A, index: 11, af: 6 }),
            Role::DataOut => p == (PinFunction { port: Port::A, index: 1, af: 5 }),
        },
        SpiInstance::Spi5 => match role {
            Role::Clock => p == (PinFunction { port: Port::E, index: 2, af: 6 })
                || p == (PinFunction { port: Port::E, index: 12, af: 6 }),
            Role::DataIn => p == (PinFunction { port: Port::E, index: 5, af: 6 })
                || p == (PinFunction { port: Port::E, index: 13, af: 6 }),
            Role::DataOut => p == (PinFunction { port: Port::E, index: 6, af: 6 })
                || p == (PinFunction { port: Port::E, index: 14, af: 6 }),
        },
        SpiInstance::Spi1 => false,
        SpiInstance::Spi6 => false,
    }
}

/// Whether the assignment `rp` is legal for role `role` on controller `i`.
///
/// A placeholder leaves the role unconnected and is always legal; an
/// assigned pin must be a registered capability.
pub open spec fn spec_role_pin_valid(i: SpiInstance, role: Role, rp: RolePin) -> bool {
    match rp {
        RolePin::Unused => true,
        RolePin::Pin(p) => spec_capability(i, role, p),
    }
}

/// Whether every assigned pin of `s` is a registered capability of
/// controller `i`.
pub open spec fn spec_pin_set_valid(i: SpiInstance, s: PinSet) -> bool {
    spec_role_pin_valid(i, Role::Clock, s.sck) && spec_role_pin_valid(i, Role::DataIn, s.miso)
        && spec_role_pin_valid(i, Role::DataOut, s.mosi)
}

/// Answers whether every assigned pin of `s` is a registered capability of
/// controller `i`.
pub fn pin_set_valid(i: SpiInstance, s: PinSet) -> (b: bool)
    ensures
        b == spec_pin_set_valid(i, s),
{
    let sck_ok = match s.sck {
        RolePin::Unused => true,
        RolePin::Pin(p) => capability_allows(i, Role::Clock, p),
    };
    let miso_ok = match s.miso {
        RolePin::Unused => true,
        RolePin::Pin(p) => capability_allows(i, Role::DataIn, p),
    };
    let mosi_ok = match s.mosi {
        RolePin::Unused => true,
        RolePin::Pin(p) => capability_allows(i, Role::DataOut, p),
    };
    sck_ok && miso_ok && mosi_ok
}

/// The peripheral bus a controller hangs off, which selects both its
/// clock-enable register and the bus frequency fed to it.
pub open spec fn spec_spi_bus(i: SpiInstance) -> ApbBus {
    match i {
        SpiInstance::Spi1 => ApbBus::Apb2,
        SpiInstance::Spi2 => ApbBus::Apb1,
        SpiInstance::Spi3 => ApbBus::Apb1,
        SpiInstance::Spi4 => ApbBus::Apb2,
        SpiInstance::Spi5 => ApbBus::Apb2,
        SpiInstance::Spi6 => ApbBus::Apb2,
    }
}

/// The peripheral bus controller `i` hangs off.
pub fn spi_bus(i: SpiInstance) -> (b: ApbBus)
    ensures
        b == spec_spi_bus(i),
{
    match i {
        SpiInstance::Spi1 => ApbBus::Apb2,
        SpiInstance::Spi2 => ApbBus::Apb1,
        SpiInstance::Spi3 => ApbBus::Apb1,
        SpiInstance::Spi4 => ApbBus::Apb2,
        SpiInstance::Spi5 => ApbBus::Apb2,
        SpiInstance::Spi6 => ApbBus::Apb2,
    }
}

/// The clock-enable bit of controller `i` within its bus's enable register.
pub open spec fn spec_spi_enable_mask(i: SpiInstance) -> u32 {
    match i {
        SpiInstance::Spi1 => 0x1000,
        SpiInstance::Spi2 => 0x4000,
        SpiInstance::Spi3 => 0x8000,
        SpiInstance::Spi4 => 0x2000,
        SpiInstance::Spi5 => 0x10_0000,
        SpiInstance::Spi6 => 0x20_0000,
    }
}

/// The clock-enable bit of controller `i` within its bus's enable register.
pub fn spi_enable_mask(i: SpiInstance) -> (m: u32)
    ensures
        m == spec_spi_enable_mask(i),
{
    match i {
        SpiInstance::Spi1 => 0x1000,
        SpiInstance::Spi2 => 0x4000,
        SpiInstance::Spi3 => 0x8000,
        SpiInstance::Spi4 => 0x2000,
        SpiInstance::Spi5 => 0x10_0000,
        SpiInstance::Spi6 => 0x20_0000,
    }
}

/// Clock polarity of the bus when idle.
#[derive(Clone, Copy, Debug, PartialEq, Eq, Structural)]
pub enum Polarity {
    /// The clock line rests low.
    IdleLow,
    /// The clock line rests high.
    IdleHigh,
}

/// Clock phase: which clock transition captures data.
#[derive(Clone, Copy, Debug, PartialEq, Eq, Structural)]
pub enum Phase {
    /// Data is captured on the first clock transition.
    CaptureOnFirstTransition,
    /// Data is captured on the second clock transition.
    CaptureOnSecondTransition,
}

/// The clock mode of a transfer: polarity and phase together.
#[derive(Clone, Copy, Debug, PartialEq, Eq, Structural)]
pub struct Mode {
    /// Resting level of the clock line.
    pub polarity: Polarity,
    /// Capturing clock transition.
    pub phase: Phase,
}

/// The first control register of a controller, by named bitfield.
#[derive(Clone, Copy, Debug, PartialEq, Eq, Structural)]
pub struct SpiCr1 {
    /// Clock phase: capture on the second transition.
    pub cpha: bool,
    /// Clock polarity: idle high.
    pub cpol: bool,
    /// Master configuration.
    pub mstr: bool,
    /// The 3-bit power-of-two baud-rate divisor code.
    pub br: u8,
    /// Peripheral enabled.
    pub spe: bool,
    /// Least-significant bit first (clear: most-significant first).
    pub lsbfirst: bool,
    /// Internal slave-select level under software management.
    pub ssi: bool,
    /// Software slave management enabled.
    pub ssm: bool,
    /// Receive-only mode (clear: receive and transmit).
    pub rxonly: bool,
    /// 16-bit data frames (clear: 8-bit frames).
    pub dff: bool,
    /// Single-line bidirectional wiring (clear: 2-line unidirectional).
    pub bidimode: bool,
}

/// The second control register of a controller, reduced to the one field
/// the driver touches.
#[derive(Clone, Copy, Debug, PartialEq, Eq, Structural)]
pub struct SpiCr2 {
    /// Hardware slave-select output enabled.
    pub ssoe: bool,
}

/// The status register of a controller, by named bitfield.
#[derive(Clone, Copy, Debug, PartialEq, Eq, Structural)]
pub struct SpiSr {
    /// A received byte is ready in the data register.
    pub rxne: bool,
    /// The transmit buffer is empty.
    pub txe: bool,
    /// CRC error flag.
    pub crcerr: bool,
    /// Mode fault flag.
    pub modf: bool,
    /// Overrun flag.
    pub ovr: bool,
}

/// One controller's register block: an owned handle representing exclusive
/// access to the controller, with its registers as named bitfields.
///
/// While a driver owns the block no other code can address it; `free` hands
/// it back. The status register and data register are driven by the bus
/// between calls; the control registers only change through the driver.
#[derive(Clone, Copy, Debug, PartialEq, Eq, Structural)]
pub struct SpiBlock {
    /// Which controller this block addresses.
    pub instance: SpiInstance,
    /// First control register.
    pub cr1: SpiCr1,
    /// Second control register.
    pub cr2: SpiCr2,
    /// Status register.
    pub sr: SpiSr,
    /// Data register (one byte of hardware FIFO; 8-bit frames).
    pub dr: u8,
}

impl SpiBlock {
    /// A block in its power-on state: every control and status field clear.
    pub fn new(instance: SpiInstance) -> (r: SpiBlock)
        ensures
            r == (SpiBlock {
                instance,
                cr1: SpiCr1 {
                    cpha: false,
                    cpol: false,
                    mstr: false,
                    br: 0,
                    spe: false,
                    lsbfirst: false,
                    ssi: false,
                    ssm: false,
                    rxonly: false,
                    dff: false,
                    bidimode: false,
                },
                cr2: SpiCr2 { ssoe: false },
                sr: SpiSr { rxne: false, txe: false, crcerr: false, modf: false, ovr: false },
                dr: 0,
            }),
    {
        SpiBlock {
            instance,
            cr1: SpiCr1 {
                cpha: false,
                cpol: false,
                mstr: false,
                br: 0,
                spe: false,
                lsbfirst: false,
                ssi: false,
                ssm: false,
                rxonly: false,
                dff: false,
                bidimode: false,
            },
            cr2: SpiCr2 { ssoe: false },
            sr: SpiSr { rxne: false, txe: false, crcerr: false, modf: false, ovr: false },
            dr: 0,
        }
    }
}

/// The terminal fault reported by status `sr`, in the fixed priority order
/// overrun, then mode fault, then CRC error; `None` when no fault is
/// asserted.
pub open spec fn spec_fault(sr: SpiSr) -> Option<Error> {
    if sr.ovr {
        Some(Error::Overrun)
    } else if sr.modf {
        Some(Error::ModeFault)
    } else if sr.crcerr {
        Some(Error::Crc)
    } else {
        None
    }
}

/// When a fault and data-ready are asserted together, the fault wins: a
/// driver with the overrun flag set reports the overrun, never the data.
pub proof fn lemma_fault_priority(sr: SpiSr)
    requires
        sr.ovr,
    ensures
        spec_fault(sr) == Some(Error::Overrun),
{
}

/// The block `b` as the constructor programs it: slave-select output
/// disabled, then phase, polarity, master mode, divisor code `code`,
/// most-significant-bit-first ordering, software slave management with the
/// internal select line high, receive-and-transmit mode, 8-bit frames,
/// 2-line wiring, and the unit enabled. Status and data are left alone.
pub open spec fn spec_configured(b: SpiBlock, mode: Mode, code: u8) -> SpiBlock {
    SpiBlock {
        instance: b.instance,
        cr1: SpiCr1 {
            cpha: mode.phase == Phase::CaptureOnSecondTransition,
            cpol: mode.polarity == Polarity::IdleHigh,
            mstr: true,
            br: code,
            spe: true,
            lsbfirst: false,
            ssi: true,
            ssm: true,
            rxonly: false,
            dff: false,
            bidimode: false,
        },
        cr2: SpiCr2 { ssoe: false },
        sr: b.sr,
        dr: b.dr,
    }
}

/// A bus driver owning one controller's register block and its
/// capability-checked pin set.
#[derive(Debug)]
pub struct Spi {
    spi: SpiBlock,
    pins: PinSet,
}

impl Spi {
    /// The owned register block.
    pub closed spec fn spec_regs(self) -> SpiBlock {
        self.spi
    }

    /// The owned pin set.
    pub closed spec fn spec_pins(self) -> PinSet {
        self.pins
    }

    /// Binds `pins` to the controller of `spi` and configures it for `mode`,
    /// with the power-of-two divisor code that the table of
    /// [`divisor_code`] selects for the ratio of its bus clock to `freq`.
    ///
    /// The pin set is checked against the capability registry first: on
    /// rejection both resources come back untouched and no register —
    /// neither of the block nor the shared clock-enable register — has been
    /// written. On acceptance the effects are strictly ordered: the
    /// controller's clock gate is enabled, the hardware slave-select output
    /// is disabled, and the control register is programmed with the divisor
    /// code and the unit enabled.
    ///
    /// A requested frequency above the bus frequency (ratio 0) is an
    /// unrepresentable request and a programming error, so it is excluded
    /// whenever the pin set would let construction proceed; a rejected pin
    /// set is rejected whatever the requested frequency.
    pub fn new(spi: SpiBlock, pins: PinSet, mode: Mode, freq: Hertz, clocks: &Clocks, rcc: &mut Rcc) -> (r:
        Result<Spi, (SpiBlock, PinSet)>)
        requires
            spec_pin_set_valid(spi.instance, pins) ==> 1 <= freq.0 && freq.0 <= clocks.spec_pclk(
                spec_spi_bus(spi.instance),
            ).0,
        ensures
            ({
                let bus = spec_spi_bus(spi.instance);
                let ratio = clocks.spec_pclk(bus).0 as int / freq.0 as int;
                match r {
                    Ok(d) => spec_pin_set_valid(spi.instance, pins) && d.spec_pins() == pins
                        && d.spec_regs() == spec_configured(
                        spi,
                        mode,
                        spec_divisor_code(ratio) as u8,
                    ) && *final(rcc) == old(rcc).spec_with_enr(
                        bus,
                        old(rcc).spec_enr(bus) | spec_spi_enable_mask(spi.instance),
                    ),
                    Err(e) => !spec_pin_set_valid(spi.instance, pins) && e == (spi, pins)
                        && *final(rcc) == *old(rcc),
                }
            }),
    {
        if !pin_set_valid(spi.instance, pins) {
            return Err((spi, pins));
        }
        let bus = spi_bus(spi.instance);

        // Enable the controller's clock gate: a read-modify-write of its own
        // bit in the shared enable register.
        rcc.enable_clock(bus, spi_enable_mask(spi.instance));

        let mut regs = spi;

        // Disable the hardware slave-select output before configuring.
        regs.cr2 = SpiCr2 { ssoe: false };

        let pclk: u32 = clocks.pclk(bus).0;
        let ratio: u32 = pclk / freq.0;
        assert(1 <= ratio) by (nonlinear_arith)
            requires
                1 <= freq.0,
                freq.0 <= pclk,
                ratio == pclk / freq.0,
        ;
        let code: u8 = divisor_code(ratio);

        // Program the whole control register in one write, enabling the unit
        // last of all in the same value.
        regs.cr1 = SpiCr1 {
            cpha: mode.phase == Phase::CaptureOnSecondTransition,
            cpol: mode.polarity == Polarity::IdleHigh,
            mstr: true,
            br: code,
            spe: true,
            lsbfirst: false,
            ssi: true,
            ssm: true,
            rxonly: false,
            dff: false,
            bidimode: false,
        };

        Ok(Spi { spi: regs, pins })
    }

    /// Polls for a received byte.
    ///
    /// Status flags are inspected in fixed priority order: overrun, mode
    /// fault, CRC error, then data-ready. A fault is reported as the
    /// terminal outcome of this call and left asserted. If data is ready,
    /// exactly one byte is consumed from the data register; otherwise the
    /// call signals would-block and changes nothing.
    pub fn read(&mut self) -> (r: Result<u8, NbError<Error>>)
        ensures
            ({
                let regs = old(self).spec_regs();
                match spec_fault(regs.sr) {
                    Some(e) => r == Err::<u8, NbError<Error>>(NbError::Other(e)) && *final(self)
                        == *old(self),
                    None => if regs.sr.rxne {
                        r == Ok::<u8, NbError<Error>>(regs.dr) && final(self).spec_regs() == (SpiBlock {
                            sr: SpiSr { rxne: false, ..regs.sr },
                            ..regs
                        }) && final(self).spec_pins() == old(self).spec_pins()
                    } else {
                        r == Err::<u8, NbError<Error>>(NbError::WouldBlock) && *final(self)
                            == *old(self)
                    },
                }
            }),
    {
        if self.spi.sr.ovr {
            Err(NbError::Other(Error::Overrun))
        } else if self.spi.sr.modf {
            Err(NbError::Other(Error::ModeFault))
        } else if self.spi.sr.crcerr {
            Err(NbError::Other(Error::Crc))
        } else if self.spi.sr.rxne {
            let byte: u8 = self.spi.dr;
            self.spi.sr = SpiSr { rxne: false, ..self.spi.sr };
            Ok(byte)
        } else {
            Err(NbError::WouldBlock)
        }
    }

    /// Polls for room to transmit, and sends `byte` when there is.
    ///
    /// Status flags are inspected in the same priority order as [`read`].
    /// If the transmit buffer is empty, exactly `byte` is written to the
    /// data register; otherwise the call signals would-block. The status
    /// flags themselves are driven by the bus, not by this call.
    ///
    /// [`read`]: Spi::read
    pub fn send(&mut self, byte: u8) -> (r: Result<(), NbError<Error>>)
        ensures
            ({
                let regs = old(self).spec_regs();
                match spec_fault(regs.sr) {
                    Some(e) => r == Err::<(), NbError<Error>>(NbError::Other(e)) && *final(self)
                        == *old(self),
                    None => if regs.sr.txe {
                        r == Ok::<(), NbError<Error>>(()) && final(self).spec_regs() == (SpiBlock {
                            dr: byte,
                            ..regs
                        })
                            && final(self).spec_pins() == old(self).spec_pins()
                    } else {
                        r == Err::<(), NbError<Error>>(NbError::WouldBlock) && *final(self)
                            == *old(self)
                    },
                }
            }),
    {
        if self.spi.sr.ovr {
            Err(NbError::Other(Error::Overrun))
        } else if self.spi.sr.modf {
            Err(NbError::Other(Error::ModeFault))
        } else if self.spi.sr.crcerr {
            Err(NbError::Other(Error::Crc))
        } else if self.spi.sr.txe {
            self.spi.dr = byte;
            Ok(())
        } else {
            Err(NbError::WouldBlock)
        }
    }

    /// Blocking convenience wrapper: sends every byte of `words` in order
    /// through the non-blocking [`send`].
    ///
    /// The status flags of an owned block only change between calls, so a
    /// busy transmit buffer could never come free within this call: instead
    /// of spinning on a would-be-infinite condition the wrapper demands up
    /// front that the controller is ready (or has a fault to surface). A
    /// pending fault is reported exactly as `send` reports it, with nothing
    /// written.
    ///
    /// [`send`]: Spi::send
    pub fn write(&mut self, words: &Vec<u8>) -> (r: Result<(), Error>)
        requires
            words@.len() > 0 ==> (spec_fault(old(self).spec_regs().sr) is Some || old(
                self,
            ).spec_regs().sr.txe),
        ensures
            ({
                let regs = old(self).spec_regs();
                match r {
                    Ok(()) => (words@.len() == 0 && *final(self) == *old(self)) || (words@.len() > 0
                        && spec_fault(regs.sr) is None && final(self).spec_regs() == (SpiBlock {
                        dr: words@[words@.len() - 1],
                        ..regs
                    }) && final(self).spec_pins() == old(self).spec_pins()),
                    Err(e) => words@.len() > 0 && spec_fault(regs.sr) == Some(e) && *final(self)
                        == *old(self),
                }
            }),
    {
        let ghost orig = *self;
        let mut i: usize = 0;
        while i < words.len()
            invariant
                orig == *old(self),
                i <= words@.len(),
                words@.len() > 0 ==> (spec_fault(orig.spec_regs().sr) is Some
                    || orig.spec_regs().sr.txe),
                i == 0 ==> *self == orig,
                i > 0 ==> spec_fault(orig.spec_regs().sr) is None && self.spec_regs() == (SpiBlock {
                    dr: words@[i - 1],
                    ..orig.spec_regs()
                }) && self.spec_pins() == orig.spec_pins(),
            decreases words@.len() - i,
        {
            match self.send(words[i]) {
                Ok(()) => {
                    i = i + 1;
                },
                Err(NbError::Other(e)) => {
                    return Err(e);
                },
                Err(NbError::WouldBlock) => {
                    // The buffer was demanded free on entry and no call in
                    // between can have filled it.
                },
            }
        }
        Ok(())
    }

    /// Blocking convenience wrapper: one full-duplex exchange. Consumes the
    /// byte ready in the data register through the non-blocking [`read`],
    /// then hands `byte` to the non-blocking [`send`].
    ///
    /// As with [`write`], readiness is demanded up front — one received
    /// byte pending and the transmit buffer free — because the flags of an
    /// owned block cannot change within the call. A pending fault is
    /// reported exactly as `read` reports it, with nothing consumed and
    /// nothing written.
    ///
    /// [`read`]: Spi::read
    /// [`send`]: Spi::send
    /// [`write`]: Spi::write
    pub fn transfer(&mut self, byte: u8) -> (r: Result<u8, Error>)
        requires
            spec_fault(old(self).spec_regs().sr) is Some || (old(self).spec_regs().sr.txe && old(
                self,
            ).spec_regs().sr.rxne),
        ensures
            ({
                let regs = old(self).spec_regs();
                match spec_fault(regs.sr) {
                    Some(e) => r == Err::<u8, Error>(e) && *final(self) == *old(self),
                    None => r == Ok::<u8, Error>(regs.dr) && final(self).spec_regs() == (SpiBlock {
                        dr: byte,
                        sr: SpiSr { rxne: false, ..regs.sr },
                        ..regs
                    }) && final(self).spec_pins() == old(self).spec_pins(),
                }
            }),
    {
        match self.read() {
            Ok(received) => {
                match self.send(byte) {
                    Ok(()) => Ok(received),
                    Err(NbError::Other(e)) => Err(e),
                    Err(NbError::WouldBlock) => {
                        // The transmit buffer was demanded free on entry and
                        // reading cannot have filled it.
                        Err(Error::_Extensible)
                    },
                }
            },
            Err(NbError::Other(e)) => Err(e),
            Err(NbError::WouldBlock) => {
                // A received byte was demanded pending on entry.
                Err(Error::_Extensible)
            },
        }
    }

    /// Returns the exclusively owned resources to the caller.
    ///
    /// The controller is left enabled; any further teardown is the caller's
    /// responsibility.
    pub fn free(self) -> (r: (SpiBlock, PinSet))
        ensures
            r.0 == self.spec_regs(),
            r.1 == self.spec_pins(),
    {
        (self.spi, self.pins)
    }
}

} // verus!
