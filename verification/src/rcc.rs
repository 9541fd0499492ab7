//! The clock-tree snapshot consumed by the drivers, and the shared
//! reset-and-clock-control (RCC) register block.
//!
//! The RCC block is the one register surface shared across all peripherals of
//! the family. The drivers touch it only during construction, and only via a
//! read-modify-write restricted to their own clock-enable or reset bit; the
//! caller is responsible for not constructing peripherals concurrently.

use vstd::prelude::*;

use crate::time::Hertz;

verus! {

/// One of the two peripheral buses fed by the clock tree.
#[derive(Clone, Copy, Debug, PartialEq, Eq, Structural)]
pub enum ApbBus {
    /// The low-speed peripheral bus.
    Apb1,
    /// The high-speed peripheral bus.
    Apb2,
}

/// Read-only snapshot of the derived frequencies of the clock tree.
///
/// Owned by the clock subsystem; the drivers borrow it only for the duration
/// of a configuration call and never write through it.
#[derive(Clone, Copy, Debug, PartialEq, Eq, Structural)]
pub struct Clocks {
    sysclk: Hertz,
    pclk1: Hertz,
    pclk2: Hertz,
    ppre1: u8,
    ppre2: u8,
}

impl Clocks {
    /// The core (system) clock frequency.
    pub closed spec fn spec_sysclk(self) -> Hertz {
        self.sysclk
    }

    /// The frequency feeding the low-speed peripheral bus.
    pub closed spec fn spec_pclk1(self) -> Hertz {
        self.pclk1
    }

    /// The frequency feeding the high-speed peripheral bus.
    pub closed spec fn spec_pclk2(self) -> Hertz {
        self.pclk2
    }

    /// The prescaler ratio between the core clock and the low-speed bus.
    pub closed spec fn spec_ppre1(self) -> u8 {
        self.ppre1
    }

    /// The prescaler ratio between the core clock and the high-speed bus.
    pub closed spec fn spec_ppre2(self) -> u8 {
        self.ppre2
    }

    /// The frequency feeding `bus`.
    pub open spec fn spec_pclk(self, bus: ApbBus) -> Hertz {
        match bus {
            ApbBus::Apb1 => self.spec_pclk1(),
            ApbBus::Apb2 => self.spec_pclk2(),
        }
    }

    /// The prescaler ratio of `bus`.
    pub open spec fn spec_ppre(self, bus: ApbBus) -> u8 {
        match bus {
            ApbBus::Apb1 => self.spec_ppre1(),
            ApbBus::Apb2 => self.spec_ppre2(),
        }
    }

    /// Records a snapshot of the derived clock frequencies.
    ///
    /// `ppre1` and `ppre2` are the bus prescaler ratios; a ratio of 1 means
    /// the bus runs at the core rate, any other ratio doubles the frequency
    /// seen by the timers hanging off that bus.
    pub fn new(sysclk: Hertz, pclk1: Hertz, pclk2: Hertz, ppre1: u8, ppre2: u8) -> (r: Clocks)
        ensures
            r.spec_sysclk() == sysclk,
            r.spec_pclk1() == pclk1,
            r.spec_pclk2() == pclk2,
            r.spec_ppre1() == ppre1,
            r.spec_ppre2() == ppre2,
    {
        Clocks { sysclk, pclk1, pclk2, ppre1, ppre2 }
    }

    /// The core (system) clock frequency.
    pub fn sysclk(&self) -> (r: Hertz)
        ensures
            r == self.spec_sysclk(),
    {
        self.sysclk
    }

    /// The frequency feeding the low-speed peripheral bus.
    pub fn pclk1(&self) -> (r: Hertz)
        ensures
            r == self.spec_pclk1(),
    {
        self.pclk1
    }

    /// The frequency feeding the high-speed peripheral bus.
    pub fn pclk2(&self) -> (r: Hertz)
        ensures
            r == self.spec_pclk2(),
    {
        self.pclk2
    }

    /// The prescaler ratio between the core clock and the low-speed bus.
    pub fn ppre1(&self) -> (r: u8)
        ensures
            r == self.spec_ppre1(),
    {
        self.ppre1
    }

    /// The prescaler ratio between the core clock and the high-speed bus.
    pub fn ppre2(&self) -> (r: u8)
        ensures
            r == self.spec_ppre2(),
    {
        self.ppre2
    }

    /// The frequency feeding `bus`.
    pub fn pclk(&self, bus: ApbBus) -> (r: Hertz)
        ensures
            r == self.spec_pclk(bus),
    {
        match bus {
            ApbBus::Apb1 => self.pclk1,
            ApbBus::Apb2 => self.pclk2,
        }
    }

    /// The prescaler ratio of `bus`.
    pub fn ppre(&self, bus: ApbBus) -> (r: u8)
        ensures
            r == self.spec_ppre(bus),
    {
        match bus {
            ApbBus::Apb1 => self.ppre1,
            ApbBus::Apb2 => self.ppre2,
        }
    }
}

/// The shared reset-and-clock-control register block, reduced to the four
/// registers the drivers touch: the clock-enable and peripheral-reset
/// registers of the two peripheral buses.
///
/// Each bit position belongs to one peripheral; a driver only ever
/// read-modify-writes its own bit.
#[derive(Clone, Copy, Debug, PartialEq, Eq, Structural)]
pub struct Rcc {
    /// Clock-enable register of the low-speed bus.
    pub apb1enr: u32,
    /// Clock-enable register of the high-speed bus.
    pub apb2enr: u32,
    /// Peripheral-reset register of the low-speed bus.
    pub apb1rstr: u32,
    /// Peripheral-reset register of the high-speed bus.
    pub apb2rstr: u32,
}

impl Rcc {
    /// The clock-enable register of `bus`.
    pub open spec fn spec_enr(self, bus: ApbBus) -> u32 {
        match bus {
            ApbBus::Apb1 => self.apb1enr,
            ApbBus::Apb2 => self.apb2enr,
        }
    }

    /// The peripheral-reset register of `bus`.
    pub open spec fn spec_rstr(self, bus: ApbBus) -> u32 {
        match bus {
            ApbBus::Apb1 => self.apb1rstr,
            ApbBus::Apb2 => self.apb2rstr,
        }
    }

    /// The block with the clock-enable register of `bus` replaced by `v`.
    pub open spec fn spec_with_enr(self, bus: ApbBus, v: u32) -> Rcc {
        match bus {
            ApbBus::Apb1 => (Rcc { apb1enr: v, ..self }),
            ApbBus::Apb2 => (Rcc { apb2enr: v, ..self }),
        }
    }

    /// The block with the peripheral-reset register of `bus` replaced by `v`.
    pub open spec fn spec_with_rstr(self, bus: ApbBus, v: u32) -> Rcc {
        match bus {
            ApbBus::Apb1 => (Rcc { apb1rstr: v, ..self }),
            ApbBus::Apb2 => (Rcc { apb2rstr: v, ..self }),
        }
    }

    /// Sets the clock-enable bits in `mask` on `bus`, leaving every other
    /// bit of the block as it was.
    pub fn enable_clock(&mut self, bus: ApbBus, mask: u32)
        ensures
            *final(self) == old(self).spec_with_enr(bus, old(self).spec_enr(bus) | mask),
    {
        match bus {
            ApbBus::Apb1 => {
                self.apb1enr = self.apb1enr | mask;
            },
            ApbBus::Apb2 => {
                self.apb2enr = self.apb2enr | mask;
            },
        }
    }

    /// Sets the peripheral-reset bits in `mask` on `bus`, leaving every
    /// other bit of the block as it was.
    pub fn assert_reset(&mut self, bus: ApbBus, mask: u32)
        ensures
            *final(self) == old(self).spec_with_rstr(bus, old(self).spec_rstr(bus) | mask),
    {
        match bus {
            ApbBus::Apb1 => {
                self.apb1rstr = self.apb1rstr | mask;
            },
            ApbBus::Apb2 => {
                self.apb2rstr = self.apb2rstr | mask;
            },
        }
    }

    /// Clears the peripheral-reset bits in `mask` on `bus`, leaving every
    /// other bit of the block as it was.
    pub fn clear_reset(&mut self, bus: ApbBus, mask: u32)
        ensures
            *final(self) == old(self).spec_with_rstr(bus, old(self).spec_rstr(bus) & !mask),
    {
        match bus {
            ApbBus::Apb1 => {
                self.apb1rstr = self.apb1rstr & !mask;
            },
            ApbBus::Apb2 => {
                self.apb2rstr = self.apb2rstr & !mask;
            },
        }
    }
}

} // verus!
