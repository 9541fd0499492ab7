//! Timers: the general-purpose timer/counter blocks and the core system
//! tick, driven as periodic count-down timers.
//!
//! A timer is either stopped (counter disabled) or running (counter enabled,
//! producing one wake event per period); construction goes straight to
//! running, `release` back to stopped. The period comes from the
//! prescaler/reload split of [`crate::divider`], fed by the timer's bus
//! frequency — doubled whenever the bus prescaler is not 1:1 — or, for the
//! system tick, from the raw 24-bit reload fed by the core clock.

use vstd::prelude::*;

use crate::divider::ConfigError;
use crate::divider::PrescalerReload;
use crate::divider::spec_prescaler;
use crate::divider::spec_reload;
use crate::divider::spec_split_fits;
use crate::divider::spec_ticks;
use crate::divider::systick_reload;
use crate::divider::timer_fields;
use crate::nonblocking::NbError;
use crate::rcc::ApbBus;
use crate::rcc::Clocks;
use crate::rcc::Rcc;
use crate::time::Hertz;

verus! {

/// Interrupt events a timer can raise.
#[derive(Clone, Copy, Debug, PartialEq, Eq, Structural)]
pub enum Event {
    /// Timer timed out / count down ended.
    TimeOut,
}

/// One general-purpose timer block of the family.
#[derive(Clone, Copy, Debug, PartialEq, Eq, Structural)]
pub enum TimInstance {
    /// Advanced-control timer 1.
    Tim1,
    /// General-purpose timer 2.
    Tim2,
    /// General-purpose timer 3.
    Tim3,
    /// General-purpose timer 4.
    Tim4,
    /// General-purpose timer 5.
    Tim5,
    /// Basic timer 6.
    Tim6,
    /// Basic timer 7.
    Tim7,
    /// Advanced-control timer 8.
    Tim8,
    /// General-purpose timer 9.
    Tim9,
    /// General-purpose timer 10.
    Tim10,
    /// General-purpose timer 11.
    Tim11,
    /// General-purpose timer 12.
    Tim12,
    /// General-purpose timer 13.
    Tim13,
    /// General-purpose timer 14.
    Tim14,
}

/// The peripheral bus holding a timer's clock-enable and reset bits.
pub open spec fn spec_tim_bus(i: TimInstance) -> ApbBus {
    match i {
        TimInstance::Tim1 => ApbBus::Apb2,
        TimInstance::Tim8 => ApbBus::Apb2,
        TimInstance::Tim9 => ApbBus::Apb2,
        TimInstance::Tim10 => ApbBus::Apb2,
        TimInstance::Tim11 => ApbBus::Apb2,
        _ => ApbBus::Apb1,
    }
}

/// The peripheral bus holding timer `i`'s clock-enable and reset bits.
pub fn tim_bus(i: TimInstance) -> (b: ApbBus)
    ensures
        b == spec_tim_bus(i),
{
    match i {
        TimInstance::Tim1 => ApbBus::Apb2,
        TimInstance::Tim8 => ApbBus::Apb2,
        TimInstance::Tim9 => ApbBus::Apb2,
        TimInstance::Tim10 => ApbBus::Apb2,
        TimInstance::Tim11 => ApbBus::Apb2,
        _ => ApbBus::Apb1,
    }
}

/// The bus domain whose frequency and prescaler ratio feed timer `i`'s
/// counter.
pub open spec fn spec_tim_clock_bus(i: TimInstance) -> ApbBus {
    match i {
        TimInstance::Tim1 => ApbBus::Apb2,
        TimInstance::Tim8 => ApbBus::Apb2,
        TimInstance::Tim10 => ApbBus::Apb2,
        TimInstance::Tim11 => ApbBus::Apb2,
        _ => ApbBus::Apb1,
    }
}

/// The bus domain whose frequency and prescaler ratio feed timer `i`'s
/// counter.
pub fn tim_clock_bus(i: TimInstance) -> (b: ApbBus)
    ensures
        b == spec_tim_clock_bus(i),
{
    match i {
        TimInstance::Tim1 => ApbBus::Apb2,
        TimInstance::Tim8 => ApbBus::Apb2,
        TimInstance::Tim10 => ApbBus::Apb2,
        TimInstance::Tim11 => ApbBus::Apb2,
        _ => ApbBus::Apb1,
    }
}

/// The clock-enable (and reset) bit of timer `i` within its bus's
/// registers.
pub open spec fn spec_tim_enable_mask(i: TimInstance) -> u32 {
    match i {
        TimInstance::Tim1 => 0x1,
        TimInstance::Tim2 => 0x1,
        TimInstance::Tim3 => 0x2,
        TimInstance::Tim4 => 0x4,
        TimInstance::Tim5 => 0x8,
        TimInstance::Tim6 => 0x10,
        TimInstance::Tim7 => 0x20,
        TimInstance::Tim8 => 0x2,
        TimInstance::Tim9 => 0x1_0000,
        TimInstance::Tim10 => 0x2_0000,
        TimInstance::Tim11 => 0x4_0000,
        TimInstance::Tim12 => 0x40,
        TimInstance::Tim13 => 0x80,
        TimInstance::Tim14 => 0x100,
    }
}

/// The clock-enable (and reset) bit of timer `i` within its bus's
/// registers.
pub fn tim_enable_mask(i: TimInstance) -> (m: u32)
    ensures
        m == spec_tim_enable_mask(i),
{
    match i {
        TimInstance::Tim1 => 0x1,
        TimInstance::Tim2 => 0x1,
        TimInstance::Tim3 => 0x2,
        TimInstance::Tim4 => 0x4,
        TimInstance::Tim5 => 0x8,
        TimInstance::Tim6 => 0x10,
        TimInstance::Tim7 => 0x20,
        TimInstance::Tim8 => 0x2,
        TimInstance::Tim9 => 0x1_0000,
        TimInstance::Tim10 => 0x2_0000,
        TimInstance::Tim11 => 0x4_0000,
        TimInstance::Tim12 => 0x40,
        TimInstance::Tim13 => 0x80,
        TimInstance::Tim14 => 0x100,
    }
}

/// The control register of a general-purpose timer, reduced to the one
/// field the driver touches.
#[derive(Clone, Copy, Debug, PartialEq, Eq, Structural)]
pub struct TimCr1 {
    /// Counter enabled.
    pub cen: bool,
}

/// The interrupt-enable register of a general-purpose timer.
#[derive(Clone, Copy, Debug, PartialEq, Eq, Structural)]
pub struct TimDier {
    /// Update-event interrupt enabled.
    pub uie: bool,
}

/// The status register of a general-purpose timer.
#[derive(Clone, Copy, Debug, PartialEq, Eq, Structural)]
pub struct TimSr {
    /// An update event (count-down wrap) occurred.
    pub uif: bool,
}

/// One general-purpose timer's register block: an owned handle representing
/// exclusive access to the timer, with its registers as named bitfields.
#[derive(Clone, Copy, Debug, PartialEq, Eq, Structural)]
pub struct TimBlock {
    /// Which timer this block addresses.
    pub instance: TimInstance,
    /// Control register.
    pub cr1: TimCr1,
    /// Interrupt-enable register.
    pub dier: TimDier,
    /// Status register.
    pub sr: TimSr,
    /// Live counter value.
    pub cnt: u32,
    /// Prescaler: the counter advances once per `psc + 1` input ticks.
    pub psc: u16,
    /// Auto-reload: the count-to value of one period.
    pub arr: u16,
}

impl TimBlock {
    /// A block in its power-on state: every field clear, counter stopped.
    pub fn new(instance: TimInstance) -> (r: TimBlock)
        ensures
            r == (TimBlock {
                instance,
                cr1: TimCr1 { cen: false },
                dier: TimDier { uie: false },
                sr: TimSr { uif: false },
                cnt: 0,
                psc: 0,
                arr: 0,
            }),
    {
        TimBlock {
            instance,
            cr1: TimCr1 { cen: false },
            dier: TimDier { uie: false },
            sr: TimSr { uif: false },
            cnt: 0,
            psc: 0,
            arr: 0,
        }
    }
}

/// The clock source feeding the system tick.
#[derive(Clone, Copy, Debug, PartialEq, Eq, Structural)]
pub enum SystClkSource {
    /// The core clock.
    Core,
    /// The core clock divided by a fixed external ratio.
    External,
}

/// The control-and-status register of the system tick.
#[derive(Clone, Copy, Debug, PartialEq, Eq, Structural)]
pub struct SystCsr {
    /// Counter enabled.
    pub enable: bool,
    /// Wrap interrupt enabled.
    pub tickint: bool,
    /// Which clock feeds the counter.
    pub clksource: SystClkSource,
    /// The counter wrapped since this register was last read; reading the
    /// register consumes it.
    pub countflag: bool,
}

/// The system tick's register block: an owned handle with its registers as
/// named bitfields.
#[derive(Clone, Copy, Debug, PartialEq, Eq, Structural)]
pub struct SystBlock {
    /// Control-and-status register.
    pub csr: SystCsr,
    /// 24-bit reload value.
    pub rvr: u32,
    /// Current counter value.
    pub cvr: u32,
}

impl SystBlock {
    /// A block in its power-on state: counter stopped, externally clocked.
    pub fn new() -> (r: SystBlock)
        ensures
            r == (SystBlock {
                csr: SystCsr {
                    enable: false,
                    tickint: false,
                    clksource: SystClkSource::External,
                    countflag: false,
                },
                rvr: 0,
                cvr: 0,
            }),
    {
        SystBlock {
            csr: SystCsr {
                enable: false,
                tickint: false,
                clksource: SystClkSource::External,
                countflag: false,
            },
            rvr: 0,
            cvr: 0,
        }
    }
}

/// The effective input frequency of timer `i` under `clocks`: its bus
/// frequency, doubled when the bus prescaler is not 1:1.
pub open spec fn spec_tim_adjusted(clocks: Clocks, i: TimInstance) -> int {
    let bus = spec_tim_clock_bus(i);
    clocks.spec_pclk(bus).0 * (if clocks.spec_ppre(bus) == 1 {
        1int
    } else {
        2int
    })
}

/// The prescaler/reload fields that `start` programs for timer `i` under
/// `clocks` at requested frequency `freq`. Depends on nothing else: not on
/// the timer's current register state.
pub open spec fn spec_start_fields(clocks: Clocks, i: TimInstance, freq: Hertz) -> PrescalerReload {
    let ticks = spec_ticks(spec_tim_adjusted(clocks, i), freq.0 as int);
    PrescalerReload {
        prescaler: spec_prescaler(ticks) as u16,
        reload: spec_reload(ticks) as u16,
    }
}

/// Whether `start` can realise `freq` for timer `i` under `clocks` within
/// the 16-bit prescaler and reload fields.
pub open spec fn spec_start_ok(clocks: Clocks, i: TimInstance, freq: Hertz) -> bool {
    spec_split_fits(spec_ticks(spec_tim_adjusted(clocks, i), freq.0 as int))
}

/// The block `b` as `start` leaves it on success: counter reset and
/// running with fields `f`; interrupt-enable and status untouched.
pub open spec fn spec_started(b: TimBlock, f: PrescalerReload) -> TimBlock {
    TimBlock {
        instance: b.instance,
        cr1: TimCr1 { cen: true },
        dier: b.dier,
        sr: b.sr,
        cnt: 0,
        psc: f.prescaler,
        arr: f.reload,
    }
}

/// The block `b` as `start` leaves it on an unachievable request: paused
/// with the count reset, all other fields untouched.
pub open spec fn spec_halted(b: TimBlock) -> TimBlock {
    TimBlock { cr1: TimCr1 { cen: false }, cnt: 0, ..b }
}

/// Starting a timer twice in succession with the same requested frequency
/// yields the same final register field values as starting it once: the
/// started state depends only on the clock snapshot, the instance and the
/// request, and `start` touches neither of the first two. The same holds of
/// an unachievable request, which leaves the same halted state either way.
pub proof fn lemma_start_idempotent(b: TimBlock, clocks: Clocks, freq: Hertz)
    ensures
        ({
            let f = spec_start_fields(clocks, b.instance, freq);
            spec_started(spec_started(b, f), f) == spec_started(b, f)
        }),
        spec_halted(spec_halted(b)) == spec_halted(b),
{
}

/// A hardware timer driven as a periodic count-down: one of the
/// general-purpose blocks ([`TimBlock`]) or the core system tick
/// ([`SystBlock`]).
pub struct Timer<TIM> {
    clocks: Clocks,
    tim: TIM,
}

impl Timer<TimBlock> {
    /// The owned register block.
    pub closed spec fn spec_regs(self) -> TimBlock {
        self.tim
    }

    /// The clock snapshot the timer was built with.
    pub closed spec fn spec_clocks(self) -> Clocks {
        self.clocks
    }

    /// Configures a general-purpose timer as a periodic count-down timer
    /// running at `timeout`.
    ///
    /// Enables the timer's clock gate, pulses its reset bit (set, then
    /// clear) for a clean starting state, and starts the counter. On an
    /// unachievable request the clock gate and reset pulse have still
    /// happened, and the block comes back stopped with its fields
    /// otherwise untouched.
    pub fn tim(tim: TimBlock, timeout: Hertz, clocks: Clocks, rcc: &mut Rcc) -> (r: Result<
        Timer<TimBlock>,
        (TimBlock, ConfigError),
    >)
        requires
            1 <= timeout.0,
            timeout.0 <= spec_tim_adjusted(clocks, tim.instance),
            spec_tim_adjusted(clocks, tim.instance) <= u32::MAX,
        ensures
            ({
                let bus = spec_tim_bus(tim.instance);
                let mask = spec_tim_enable_mask(tim.instance);
                let enabled = old(rcc).spec_with_enr(bus, old(rcc).spec_enr(bus) | mask);
                *final(rcc) == enabled.spec_with_rstr(bus, (enabled.spec_rstr(bus) | mask) & !mask)
            }),
            ({
                match r {
                    Ok(t) => spec_start_ok(clocks, tim.instance, timeout) && t.spec_clocks()
                        == clocks && t.spec_regs() == spec_started(
                        tim,
                        spec_start_fields(clocks, tim.instance, timeout),
                    ),
                    Err(e) => !spec_start_ok(clocks, tim.instance, timeout) && e == (
                        spec_halted(tim),
                        ConfigError::UnreachableFrequency,
                    ),
                }
            }),
    {
        // Enable and reset the peripheral to a clean slate state, touching
        // only this timer's bit of the shared registers.
        let bus = tim_bus(tim.instance);
        let mask = tim_enable_mask(tim.instance);
        rcc.enable_clock(bus, mask);
        rcc.assert_reset(bus, mask);
        rcc.clear_reset(bus, mask);

        let mut timer = Timer { clocks, tim };
        match timer.start(timeout) {
            Ok(()) => Ok(timer),
            Err(e) => Err((timer.release(), e)),
        }
    }

    /// Reconfigures the timer to wake once per period of `timeout`.
    ///
    /// Pauses the counter, resets the live count to zero, derives the
    /// prescaler/reload split from the effective input frequency, programs
    /// the fields and re-enables the counter. Legal on a running timer:
    /// calling `start` again simply reconfigures it. On an unachievable
    /// request the counter stays paused with the count reset and the
    /// remaining fields untouched.
    ///
    /// A requested frequency above the effective input frequency (ratio 0)
    /// is an unrepresentable request and a programming error, so it is
    /// excluded.
    pub fn start(&mut self, timeout: Hertz) -> (r: Result<(), ConfigError>)
        requires
            1 <= timeout.0,
            timeout.0 <= spec_tim_adjusted(old(self).spec_clocks(), old(self).spec_regs().instance),
            spec_tim_adjusted(old(self).spec_clocks(), old(self).spec_regs().instance) <= u32::MAX,
        ensures
            final(self).spec_clocks() == old(self).spec_clocks(),
            ({
                let b = old(self).spec_regs();
                let clocks = old(self).spec_clocks();
                match r {
                    Ok(()) => spec_start_ok(clocks, b.instance, timeout) && final(self).spec_regs()
                        == spec_started(b, spec_start_fields(clocks, b.instance, timeout)),
                    Err(e) => !spec_start_ok(clocks, b.instance, timeout) && e
                        == ConfigError::UnreachableFrequency && final(self).spec_regs()
                        == spec_halted(b),
                }
            }),
    {
        // Pause the counter and reset the live count.
        self.tim.cr1 = TimCr1 { cen: false };
        self.tim.cnt = 0;

        let bus = tim_clock_bus(self.tim.instance);
        let pclk: u32 = self.clocks.pclk(bus).0;
        let mul: u32 = if self.clocks.ppre(bus) == 1 {
            1
        } else {
            2
        };
        let adjusted: u32 = pclk * mul;

        match timer_fields(adjusted, timeout.0) {
            Ok(f) => {
                self.tim.psc = f.prescaler;
                self.tim.arr = f.reload;
                // Start the counter.
                self.tim.cr1 = TimCr1 { cen: true };
                Ok(())
            },
            Err(e) => Err(e),
        }
    }

    /// Polls for the end of the current period.
    ///
    /// If no update event has occurred yet the call signals would-block and
    /// changes nothing; otherwise it clears the update flag and signals
    /// completion. Periodic: each success corresponds to exactly one
    /// elapsed period, and the operation may be called again without
    /// re-arming. The `Other` outcome never occurs.
    pub fn wait(&mut self) -> (r: Result<(), NbError<()>>)
        ensures
            final(self).spec_clocks() == old(self).spec_clocks(),
            ({
                let b = old(self).spec_regs();
                if b.sr.uif {
                    r == Ok::<(), NbError<()>>(()) && final(self).spec_regs() == (TimBlock {
                        sr: TimSr { uif: false },
                        ..b
                    })
                } else {
                    r == Err::<(), NbError<()>>(NbError::WouldBlock) && *final(self) == *old(self)
                }
            }),
    {
        if self.tim.sr.uif {
            self.tim.sr = TimSr { uif: false };
            Ok(())
        } else {
            Err(NbError::WouldBlock)
        }
    }

    /// Starts listening for `event`: enables the update-event interrupt.
    pub fn listen(&mut self, event: Event)
        ensures
            final(self).spec_clocks() == old(self).spec_clocks(),
            final(self).spec_regs() == (TimBlock {
                dier: TimDier { uie: true },
                ..old(self).spec_regs()
            }),
    {
        match event {
            Event::TimeOut => {
                // Enable update event interrupt.
                self.tim.dier = TimDier { uie: true };
            },
        }
    }

    /// Stops listening for `event`: disables the update-event interrupt.
    pub fn unlisten(&mut self, event: Event)
        ensures
            final(self).spec_clocks() == old(self).spec_clocks(),
            final(self).spec_regs() == (TimBlock {
                dier: TimDier { uie: false },
                ..old(self).spec_regs()
            }),
    {
        match event {
            Event::TimeOut => {
                // Disable update event interrupt.
                self.tim.dier = TimDier { uie: false };
            },
        }
    }

    /// Releases the timer: pauses the counter and returns the register
    /// block.
    pub fn release(self) -> (r: TimBlock)
        ensures
            r == (TimBlock { cr1: TimCr1 { cen: false }, ..self.spec_regs() }),
    {
        let mut tim = self.tim;
        // Pause the counter.
        tim.cr1 = TimCr1 { cen: false };
        tim
    }
}

/// The system-tick block `b` as `start` leaves it on success: reload
/// programmed, count cleared, counter running; clock source and interrupt
/// enable untouched.
pub open spec fn spec_syst_started(b: SystBlock, rvr: u32) -> SystBlock {
    SystBlock { csr: SystCsr { enable: true, ..b.csr }, rvr, cvr: 0 }
}

/// Starting the system tick twice in succession with the same reload
/// yields the same final register field values as starting it once.
pub proof fn lemma_syst_start_idempotent(b: SystBlock, rvr: u32)
    ensures
        spec_syst_started(spec_syst_started(b, rvr), rvr) == spec_syst_started(b, rvr),
{
}

impl Timer<SystBlock> {
    /// The owned register block.
    pub closed spec fn spec_regs(self) -> SystBlock {
        self.tim
    }

    /// The clock snapshot the timer was built with.
    pub closed spec fn spec_clocks(self) -> Clocks {
        self.clocks
    }

    /// Configures the system tick as a periodic count-down timer running at
    /// `timeout`.
    ///
    /// Selects the core clock as source, then starts the counter. On an
    /// unachievable request the clock source has still been selected and
    /// nothing else is written.
    pub fn syst(syst: SystBlock, timeout: Hertz, clocks: Clocks) -> (r: Result<
        Timer<SystBlock>,
        (SystBlock, ConfigError),
    >)
        requires
            1 <= timeout.0,
            timeout.0 <= clocks.spec_sysclk().0,
        ensures
            ({
                let sourced = SystBlock {
                    csr: SystCsr { clksource: SystClkSource::Core, ..syst.csr },
                    ..syst
                };
                let rvr = spec_ticks(clocks.spec_sysclk().0 as int, timeout.0 as int) - 1;
                match r {
                    Ok(t) => rvr < 0x100_0000 && t.spec_clocks() == clocks && t.spec_regs()
                        == spec_syst_started(sourced, rvr as u32),
                    Err(e) => rvr >= 0x100_0000 && e == (
                        sourced,
                        ConfigError::UnreachableFrequency,
                    ),
                }
            }),
    {
        let mut syst = syst;
        syst.csr = SystCsr { clksource: SystClkSource::Core, ..syst.csr };
        let mut timer = Timer { tim: syst, clocks };
        match timer.start(timeout) {
            Ok(()) => Ok(timer),
            Err(e) => Err((timer.tim, e)),
        }
    }

    /// Reconfigures the system tick to wake once per period of `timeout`.
    ///
    /// The system tick has no separate pause step: the reload is
    /// programmed, the live count cleared, and the counter enabled. Legal
    /// on a running timer. On an unachievable request — a reload that does
    /// not fit in 24 bits — nothing is written.
    ///
    /// A requested frequency above the core frequency (ratio 0) is an
    /// unrepresentable request and a programming error, so it is excluded.
    pub fn start(&mut self, timeout: Hertz) -> (r: Result<(), ConfigError>)
        requires
            1 <= timeout.0,
            timeout.0 <= old(self).spec_clocks().spec_sysclk().0,
        ensures
            final(self).spec_clocks() == old(self).spec_clocks(),
            ({
                let b = old(self).spec_regs();
                let rvr = spec_ticks(
                    old(self).spec_clocks().spec_sysclk().0 as int,
                    timeout.0 as int,
                ) - 1;
                match r {
                    Ok(()) => rvr < 0x100_0000 && final(self).spec_regs() == spec_syst_started(
                        b,
                        rvr as u32,
                    ),
                    Err(e) => rvr >= 0x100_0000 && e == ConfigError::UnreachableFrequency
                        && *final(self) == *old(self),
                }
            }),
    {
        match systick_reload(self.clocks.sysclk().0, timeout.0) {
            Ok(rvr) => {
                self.tim.rvr = rvr;
                self.tim.cvr = 0;
                self.tim.csr = SystCsr { enable: true, ..self.tim.csr };
                Ok(())
            },
            Err(e) => Err(e),
        }
    }

    /// Polls for the end of the current period.
    ///
    /// The wrap flag is consumed by the read itself: if the counter has
    /// wrapped the call signals completion and the flag is clear
    /// afterwards; otherwise it signals would-block. Periodic: may be
    /// called again without re-arming. The `Other` outcome never occurs.
    pub fn wait(&mut self) -> (r: Result<(), NbError<()>>)
        ensures
            final(self).spec_clocks() == old(self).spec_clocks(),
            ({
                let b = old(self).spec_regs();
                if b.csr.countflag {
                    r == Ok::<(), NbError<()>>(()) && final(self).spec_regs() == (SystBlock {
                        csr: SystCsr { countflag: false, ..b.csr },
                        ..b
                    })
                } else {
                    r == Err::<(), NbError<()>>(NbError::WouldBlock) && *final(self) == *old(self)
                }
            }),
    {
        if self.tim.csr.countflag {
            // Reading the control-and-status register consumes the wrap
            // flag.
            self.tim.csr = SystCsr { countflag: false, ..self.tim.csr };
            Ok(())
        } else {
            Err(NbError::WouldBlock)
        }
    }

    /// Starts listening for `event`: enables the wrap interrupt.
    pub fn listen(&mut self, event: Event)
        ensures
            final(self).spec_clocks() == old(self).spec_clocks(),
            final(self).spec_regs() == (SystBlock {
                csr: SystCsr { tickint: true, ..old(self).spec_regs().csr },
                ..old(self).spec_regs()
            }),
    {
        match event {
            Event::TimeOut => {
                self.tim.csr = SystCsr { tickint: true, ..self.tim.csr };
            },
        }
    }

    /// Stops listening for `event`: disables the wrap interrupt.
    pub fn unlisten(&mut self, event: Event)
        ensures
            final(self).spec_clocks() == old(self).spec_clocks(),
            final(self).spec_regs() == (SystBlock {
                csr: SystCsr { tickint: false, ..old(self).spec_regs().csr },
                ..old(self).spec_regs()
            }),
    {
        match event {
            Event::TimeOut => {
                self.tim.csr = SystCsr { tickint: false, ..self.tim.csr };
            },
        }
    }

    /// Releases the system tick: pauses the counter and returns the
    /// register block.
    pub fn release(self) -> (r: SystBlock)
        ensures
            r == (SystBlock {
                csr: SystCsr { enable: false, ..self.spec_regs().csr },
                ..self.spec_regs()
            }),
    {
        let mut tim = self.tim;
        // Pause the counter.
        tim.csr = SystCsr { enable: false, ..tim.csr };
        tim
    }
}

} // verus!
