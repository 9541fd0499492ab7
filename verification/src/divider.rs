//! Pure arithmetic turning a requested frequency and a supplied bus frequency
//! into the concrete hardware fields: the 3-bit power-of-two divisor code of
//! the serial-bus controller, and the prescaler/reload split (or the raw
//! 24-bit reload of the system tick) of the timers.
//!
//! Everything here is total arithmetic on plain integers; the drivers call it
//! once per configuration.

use vstd::prelude::*;

verus! {

/// A requested rate that the hardware's divider width cannot represent.
///
/// Reported immediately at configuration time; the request is never silently
/// clamped to an achievable rate.
#[derive(Clone, Copy, Debug, PartialEq, Eq, Structural)]
pub enum ConfigError {
    /// The reload (and, for general timers, prescaler) fields would overflow.
    UnreachableFrequency,
}

/// The 3-bit divisor code selected for a bus-to-target frequency `ratio`.
///
/// Breakpoints are inclusive ranges of the ratio: 1–2 selects code 0,
/// 3–5 code 1, 6–11 code 2, 12–23 code 3, 24–47 code 4, 48–95 code 5,
/// 96–191 code 6, and every ratio from 192 up code 7. Total for all
/// ratios >= 1.
pub open spec fn spec_divisor_code(ratio: int) -> int
    recommends
        1 <= ratio,
{
    if ratio <= 2 {
        0
    } else if ratio <= 5 {
        1
    } else if ratio <= 11 {
        2
    } else if ratio <= 23 {
        3
    } else if ratio <= 47 {
        4
    } else if ratio <= 95 {
        5
    } else if ratio <= 191 {
        6
    } else {
        7
    }
}

/// Selects the power-of-two divisor code for an integer frequency ratio.
///
/// A ratio of 0 would mean a requested frequency above the supplied bus
/// frequency; that is an unrepresentable request and a programming error,
/// so it is excluded rather than reported.
pub fn divisor_code(ratio: u32) -> (code: u8)
    requires
        1 <= ratio,
    ensures
        code == spec_divisor_code(ratio as int),
{
    if ratio <= 2 {
        0b000
    } else if ratio <= 5 {
        0b001
    } else if ratio <= 11 {
        0b010
    } else if ratio <= 23 {
        0b011
    } else if ratio <= 47 {
        0b100
    } else if ratio <= 95 {
        0b101
    } else if ratio <= 191 {
        0b110
    } else {
        0b111
    }
}

/// The divisor code never leaves its 3-bit field.
pub proof fn lemma_divisor_code_range(ratio: int)
    ensures
        0 <= spec_divisor_code(ratio) <= 7,
{
}

/// The divisor code grows with the ratio: asking for a slower bus never
/// selects a smaller divider.
pub proof fn lemma_divisor_code_monotonic(r1: int, r2: int)
    requires
        1 <= r1 <= r2,
    ensures
        spec_divisor_code(r1) <= spec_divisor_code(r2),
{
}

/// The two-stage counter configuration of a general-purpose timer.
#[derive(Clone, Copy, Debug, PartialEq, Eq, Structural)]
pub struct PrescalerReload {
    /// Coarse pre-divider; the counter advances once per `prescaler + 1`
    /// input ticks.
    pub prescaler: u16,
    /// Fine count-to value: the counter reloads after `reload` advances.
    pub reload: u16,
}

/// Input ticks per output period: the adjusted input frequency divided by the
/// requested frequency, truncating toward the nearest achievable lower rate.
pub open spec fn spec_ticks(adjusted: int, freq: int) -> int
    recommends
        1 <= freq,
{
    adjusted / freq
}

/// The coarse pre-divider chosen for `ticks` input ticks per period.
pub open spec fn spec_prescaler(ticks: int) -> int
    recommends
        1 <= ticks,
{
    (ticks - 1) / 0x10000
}

/// The count-to value left after the chosen pre-divider.
pub open spec fn spec_reload(ticks: int) -> int
    recommends
        1 <= ticks,
{
    ticks / (spec_prescaler(ticks) + 1)
}

/// Whether the prescaler/reload split can realise `ticks` input ticks per
/// period within two 16-bit fields.
pub open spec fn spec_split_fits(ticks: int) -> bool
    recommends
        1 <= ticks,
{
    spec_reload(ticks) <= 0xFFFF
}

/// For any tick count a 32-bit counter input can produce, the coarse
/// pre-divider fits its 16-bit field: only the reload can overflow.
pub proof fn lemma_prescaler_fits(ticks: int)
    requires
        1 <= ticks <= u32::MAX,
    ensures
        0 <= spec_prescaler(ticks) <= 0xFFFF,
{
}

/// The reload left after the chosen pre-divider overshoots its 16-bit
/// field by at most one: it is never above 0x10000, so an unachievable
/// request misses by exactly one count.
pub proof fn lemma_reload_bound(ticks: int)
    requires
        1 <= ticks <= u32::MAX,
    ensures
        1 <= spec_reload(ticks) <= 0x10000,
{
    let psc = spec_prescaler(ticks);
    assert(psc * 0x10000 <= ticks - 1 < (psc + 1) * 0x10000) by (nonlinear_arith)
        requires
            1 <= ticks,
            psc == (ticks - 1) / 0x10000,
    ;
    assert(1 <= ticks / (psc + 1) <= 0x10000) by (nonlinear_arith)
        requires
            1 <= ticks,
            0 <= psc,
            ticks <= (psc + 1) * 0x10000,
            psc * 0x10000 <= ticks - 1,
    ;
}

/// Splits a period of `adjusted / freq` input ticks into the 16-bit
/// prescaler and reload fields of a general-purpose timer.
///
/// `adjusted` is the bus frequency feeding the timer, already doubled where
/// the bus prescaler is not 1:1. Requested frequencies that do not divide it
/// evenly truncate toward the nearest achievable lower frequency. A request
/// whose reload would overflow 16 bits is unachievable and reported as such;
/// a request above the input frequency (ratio 0) is a programming error and
/// excluded.
pub fn timer_fields(adjusted: u32, freq: u32) -> (r: Result<PrescalerReload, ConfigError>)
    requires
        1 <= freq,
        freq <= adjusted,
    ensures
        ({
            let ticks = spec_ticks(adjusted as int, freq as int);
            match r {
                Ok(f) => spec_split_fits(ticks) && f.prescaler == spec_prescaler(ticks)
                    && f.reload == spec_reload(ticks),
                Err(e) => !spec_split_fits(ticks) && e == ConfigError::UnreachableFrequency,
            }
        }),
{
    let ticks: u32 = adjusted / freq;
    assert(1 <= ticks && ticks == spec_ticks(adjusted as int, freq as int)) by (nonlinear_arith)
        requires
            1 <= freq <= adjusted,
            ticks == adjusted / freq,
    ;
    let psc: u32 = (ticks - 1) / 0x10000;
    let arr: u32 = ticks / (psc + 1);
    if arr <= 0xFFFF {
        Ok(PrescalerReload { prescaler: psc as u16, reload: arr as u16 })
    } else {
        Err(ConfigError::UnreachableFrequency)
    }
}

/// Derives the 24-bit reload value of the system tick: one full period is
/// `sysclk / freq` core-clock ticks, counted from `reload` down to zero.
///
/// A request whose reload would overflow 24 bits is unachievable and
/// reported as such; a request above the core frequency (ratio 0) is a
/// programming error and excluded.
pub fn systick_reload(sysclk: u32, freq: u32) -> (r: Result<u32, ConfigError>)
    requires
        1 <= freq,
        freq <= sysclk,
    ensures
        ({
            let rvr = spec_ticks(sysclk as int, freq as int) - 1;
            match r {
                Ok(v) => rvr < 0x100_0000 && v == rvr,
                Err(e) => rvr >= 0x100_0000 && e == ConfigError::UnreachableFrequency,
            }
        }),
{
    let ticks: u32 = sysclk / freq;
    assert(1 <= ticks && ticks == spec_ticks(sysclk as int, freq as int)) by (nonlinear_arith)
        requires
            1 <= freq <= sysclk,
            ticks == sysclk / freq,
    ;
    let rvr: u32 = ticks - 1;
    if rvr < 0x100_0000 {
        Ok(rvr)
    } else {
        Err(ConfigError::UnreachableFrequency)
    }
}

} // verus!
