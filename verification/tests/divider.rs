use stm32f7_hal::divider::divisor_code;
use stm32f7_hal::divider::systick_reload;
use stm32f7_hal::divider::timer_fields;
use stm32f7_hal::divider::ConfigError;
use stm32f7_hal::divider::PrescalerReload;
use stm32f7_hal::time::Hertz;

#[test]
fn divisor_table_boundaries() {
    assert_eq!(divisor_code(1), 0);
    assert_eq!(divisor_code(2), 0);
    assert_eq!(divisor_code(3), 1);
    assert_eq!(divisor_code(5), 1);
    assert_eq!(divisor_code(6), 2);
    assert_eq!(divisor_code(11), 2);
    assert_eq!(divisor_code(12), 3);
    assert_eq!(divisor_code(23), 3);
    assert_eq!(divisor_code(24), 4);
    assert_eq!(divisor_code(47), 4);
    assert_eq!(divisor_code(48), 5);
    assert_eq!(divisor_code(95), 5);
    assert_eq!(divisor_code(96), 6);
    assert_eq!(divisor_code(191), 6);
    assert_eq!(divisor_code(192), 7);
    assert_eq!(divisor_code(1_000_000), 7);
}

#[test]
fn divisor_monotonic_samples() {
    let mut last: u8 = 0;
    let mut ratio: u32 = 1;
    while ratio <= 4096 {
        let code = divisor_code(ratio);
        assert!(code >= last);
        last = code;
        ratio += 1;
    }
}

#[test]
fn divisor_sixteen_to_four_megahertz() {
    // Bus at 16 MHz, requested 4 MHz: ratio 4 falls in the 3..=5 range.
    assert_eq!(divisor_code(16_000_000 / 4_000_000), 1);
}

#[test]
fn timer_fields_thirty_two_megahertz_one_kilohertz() {
    // ticks = 32000; prescaler = (32000 - 1) / 65536 = 0; reload = 32000.
    assert_eq!(
        timer_fields(32_000_000, 1_000),
        Ok(PrescalerReload { prescaler: 0, reload: 32_000 })
    );
}

#[test]
fn timer_fields_hundred_megahertz_one_hertz() {
    // ticks = 100_000_000; prescaler = 1525; reload = 100_000_000 / 1526.
    let r = timer_fields(100_000_000, 1).unwrap();
    assert_eq!(r.prescaler, 1_525);
    assert_eq!(r.reload, 65_530);
    assert!(r.reload <= 65_535);
}

#[test]
fn timer_fields_at_sixteen_bit_limit() {
    // ticks = 65535 still fits with no prescaler stage.
    assert_eq!(
        timer_fields(65_535, 1),
        Ok(PrescalerReload { prescaler: 0, reload: 65_535 })
    );
    // ticks = 65537 needs one prescaler step and halves the reload.
    assert_eq!(
        timer_fields(65_537, 1),
        Ok(PrescalerReload { prescaler: 1, reload: 32_768 })
    );
}

#[test]
fn timer_fields_unreachable() {
    // ticks = 65536: prescaler 0 but the reload overflows 16 bits.
    assert_eq!(timer_fields(65_536, 1), Err(ConfigError::UnreachableFrequency));
}

#[test]
fn systick_sixteen_megahertz_one_kilohertz() {
    assert_eq!(systick_reload(16_000_000, 1_000), Ok(15_999));
}

#[test]
fn systick_at_twenty_four_bit_limit() {
    // reload = 2^24 - 1 is the largest representable value.
    assert_eq!(systick_reload(16_777_216, 1), Ok(16_777_215));
    assert_eq!(systick_reload(16_777_217, 1), Err(ConfigError::UnreachableFrequency));
}

#[test]
fn hertz_units() {
    assert_eq!(Hertz::hz(250), Hertz(250));
    assert_eq!(Hertz::khz(32), Hertz(32_000));
    assert_eq!(Hertz::mhz(16), Hertz(16_000_000));
}

#[test]
fn systick_unreachable() {
    // 20 MHz at 1 Hz forces a reload of 2^24 or more.
    assert_eq!(systick_reload(20_000_000, 1), Err(ConfigError::UnreachableFrequency));
}
