use stm32f7_hal::nonblocking::NbError;
use stm32f7_hal::rcc::Clocks;
use stm32f7_hal::rcc::Rcc;
use stm32f7_hal::spi::capability_allows;
use stm32f7_hal::spi::pin_set_valid;
use stm32f7_hal::spi::Error;
use stm32f7_hal::spi::Mode;
use stm32f7_hal::spi::Phase;
use stm32f7_hal::spi::PinFunction;
use stm32f7_hal::spi::PinSet;
use stm32f7_hal::spi::Polarity;
use stm32f7_hal::spi::Port;
use stm32f7_hal::spi::Role;
use stm32f7_hal::spi::RolePin;
use stm32f7_hal::spi::Spi;
use stm32f7_hal::spi::SpiBlock;
use stm32f7_hal::spi::SpiInstance;
use stm32f7_hal::time::Hertz;

fn clocks_16mhz() -> Clocks {
    Clocks::new(
        Hertz(16_000_000),
        Hertz(16_000_000),
        Hertz(16_000_000),
        1,
        1,
    )
}

fn zero_rcc() -> Rcc {
    Rcc { apb1enr: 0, apb2enr: 0, apb1rstr: 0, apb2rstr: 0 }
}

fn mode_0() -> Mode {
    Mode { polarity: Polarity::IdleLow, phase: Phase::CaptureOnFirstTransition }
}

fn spi2_pins() -> PinSet {
    PinSet {
        sck: RolePin::Pin(PinFunction { port: Port::A, index: 9, af: 5 }),
        miso: RolePin::Pin(PinFunction { port: Port::A, index: 12, af: 5 }),
        mosi: RolePin::Pin(PinFunction { port: Port::A, index: 10, af: 5 }),
    }
}

fn spi2_driver(block: SpiBlock, rcc: &mut Rcc) -> Spi {
    match Spi::new(block, spi2_pins(), mode_0(), Hertz(4_000_000), &clocks_16mhz(), rcc) {
        Ok(d) => d,
        Err(_) => panic!("registered pin set was rejected"),
    }
}

#[test]
fn registry_accepts_registered_pins() {
    assert!(capability_allows(
        SpiInstance::Spi2,
        Role::Clock,
        PinFunction { port: Port::A, index: 9, af: 5 }
    ));
    assert!(capability_allows(
        SpiInstance::Spi5,
        Role::DataOut,
        PinFunction { port: Port::E, index: 14, af: 6 }
    ));
    assert!(pin_set_valid(SpiInstance::Spi2, spi2_pins()));
}

#[test]
fn registry_rejects_unregistered_pins() {
    // The right pin in the wrong alternate function.
    assert!(!capability_allows(
        SpiInstance::Spi2,
        Role::Clock,
        PinFunction { port: Port::A, index: 9, af: 6 }
    ));
    // A pin legal for one instance is not thereby legal for another.
    assert!(!capability_allows(
        SpiInstance::Spi3,
        Role::Clock,
        PinFunction { port: Port::A, index: 9, af: 5 }
    ));
    // The first and sixth controllers register no pins at all.
    assert!(!capability_allows(
        SpiInstance::Spi1,
        Role::Clock,
        PinFunction { port: Port::A, index: 5, af: 5 }
    ));
    assert!(!pin_set_valid(SpiInstance::Spi1, spi2_pins()));
}

#[test]
fn registry_accepts_placeholders() {
    let unused = PinSet { sck: RolePin::Unused, miso: RolePin::Unused, mosi: RolePin::Unused };
    assert!(pin_set_valid(SpiInstance::Spi2, unused));
}

#[test]
fn new_rejects_unregistered_pin_set() {
    let mut rcc = zero_rcc();
    let mut block = SpiBlock::new(SpiInstance::Spi2);
    block.sr.txe = true;
    block.dr = 0x42;
    let bad = PinSet {
        sck: RolePin::Pin(PinFunction { port: Port::B, index: 3, af: 5 }),
        miso: RolePin::Unused,
        mosi: RolePin::Unused,
    };
    match Spi::new(block, bad, mode_0(), Hertz(4_000_000), &clocks_16mhz(), &mut rcc) {
        Ok(_) => panic!("unregistered pin set was accepted"),
        Err((returned, pins)) => {
            // No register of the block was modified, and both resources
            // come back.
            assert_eq!(returned, block);
            assert_eq!(pins, bad);
        },
    }
    // The shared clock-enable register was not touched either.
    assert_eq!(rcc, zero_rcc());

    // Rejection does not depend on the requested frequency: even an
    // unrepresentable request is turned away before it matters.
    let r = Spi::new(block, bad, mode_0(), Hertz(0), &clocks_16mhz(), &mut rcc);
    assert!(r.is_err());
    assert_eq!(rcc, zero_rcc());
}

#[test]
fn new_rejects_pins_of_another_instance() {
    let mut rcc = zero_rcc();
    let block = SpiBlock::new(SpiInstance::Spi4);
    let r = Spi::new(block, spi2_pins(), mode_0(), Hertz(4_000_000), &clocks_16mhz(), &mut rcc);
    assert!(r.is_err());
    assert_eq!(rcc, zero_rcc());
}

#[test]
fn new_programs_control_registers() {
    let mut rcc = zero_rcc();
    let block = SpiBlock::new(SpiInstance::Spi2);
    let driver = spi2_driver(block, &mut rcc);

    // The second controller's clock-enable bit on the low-speed bus.
    assert_eq!(rcc.apb1enr, 0x4000);
    assert_eq!(rcc.apb2enr, 0);

    let (regs, pins) = driver.free();
    assert_eq!(pins, spi2_pins());
    // Ratio 16 MHz / 4 MHz = 4: divisor code 1.
    assert_eq!(regs.cr1.br, 1);
    assert!(regs.cr1.mstr);
    assert!(regs.cr1.spe);
    assert!(regs.cr1.ssm);
    assert!(regs.cr1.ssi);
    assert!(!regs.cr1.cpha);
    assert!(!regs.cr1.cpol);
    assert!(!regs.cr1.lsbfirst);
    assert!(!regs.cr1.rxonly);
    assert!(!regs.cr1.dff);
    assert!(!regs.cr1.bidimode);
    assert!(!regs.cr2.ssoe);
}

#[test]
fn new_programs_mode_bits() {
    let mut rcc = zero_rcc();
    let block = SpiBlock::new(SpiInstance::Spi2);
    let mode = Mode { polarity: Polarity::IdleHigh, phase: Phase::CaptureOnSecondTransition };
    let driver =
        match Spi::new(block, spi2_pins(), mode, Hertz(4_000_000), &clocks_16mhz(), &mut rcc) {
            Ok(d) => d,
            Err(_) => panic!("registered pin set was rejected"),
        };
    let (regs, _) = driver.free();
    assert!(regs.cr1.cpha);
    assert!(regs.cr1.cpol);
}

#[test]
fn read_reports_overrun_before_data() {
    let mut rcc = zero_rcc();
    let mut block = SpiBlock::new(SpiInstance::Spi2);
    // Overrun and data-ready asserted simultaneously.
    block.sr.ovr = true;
    block.sr.rxne = true;
    block.dr = 0x55;
    let mut driver = spi2_driver(block, &mut rcc);
    assert_eq!(driver.read(), Err(NbError::Other(Error::Overrun)));
    // The fault is not auto-cleared and the byte was not consumed.
    let (regs, _) = driver.free();
    assert!(regs.sr.ovr);
    assert!(regs.sr.rxne);
    assert_eq!(regs.dr, 0x55);
}

#[test]
fn read_reports_mode_fault() {
    let mut rcc = zero_rcc();
    let mut block = SpiBlock::new(SpiInstance::Spi2);
    block.sr.modf = true;
    let mut driver = spi2_driver(block, &mut rcc);
    assert_eq!(driver.read(), Err(NbError::Other(Error::ModeFault)));
}

#[test]
fn read_reports_crc_error() {
    let mut rcc = zero_rcc();
    let mut block = SpiBlock::new(SpiInstance::Spi2);
    block.sr.crcerr = true;
    let mut driver = spi2_driver(block, &mut rcc);
    assert_eq!(driver.read(), Err(NbError::Other(Error::Crc)));
}

#[test]
fn read_consumes_one_byte() {
    let mut rcc = zero_rcc();
    let mut block = SpiBlock::new(SpiInstance::Spi2);
    block.sr.rxne = true;
    block.dr = 0xAB;
    let mut driver = spi2_driver(block, &mut rcc);
    assert_eq!(driver.read(), Ok(0xAB));
    // Exactly one byte: the ready flag is consumed with it.
    assert_eq!(driver.read(), Err(NbError::WouldBlock));
    let (regs, _) = driver.free();
    assert!(!regs.sr.rxne);
}

#[test]
fn read_would_block_changes_nothing() {
    let mut rcc = zero_rcc();
    let block = SpiBlock::new(SpiInstance::Spi2);
    let mut driver = spi2_driver(block, &mut rcc);
    assert_eq!(driver.read(), Err(NbError::WouldBlock));
}

#[test]
fn send_writes_one_byte() {
    let mut rcc = zero_rcc();
    let mut block = SpiBlock::new(SpiInstance::Spi2);
    block.sr.txe = true;
    let mut driver = spi2_driver(block, &mut rcc);
    assert_eq!(driver.send(0x3C), Ok(()));
    let (regs, _) = driver.free();
    assert_eq!(regs.dr, 0x3C);
}

#[test]
fn send_reports_fault_before_readiness() {
    let mut rcc = zero_rcc();
    let mut block = SpiBlock::new(SpiInstance::Spi2);
    block.sr.ovr = true;
    block.sr.txe = true;
    let mut driver = spi2_driver(block, &mut rcc);
    assert_eq!(driver.send(0x3C), Err(NbError::Other(Error::Overrun)));
    let (regs, _) = driver.free();
    assert_eq!(regs.dr, 0);
}

#[test]
fn send_would_block_when_buffer_full() {
    let mut rcc = zero_rcc();
    let block = SpiBlock::new(SpiInstance::Spi2);
    let mut driver = spi2_driver(block, &mut rcc);
    assert_eq!(driver.send(0x3C), Err(NbError::WouldBlock));
}

#[test]
fn write_sends_all_bytes_in_order() {
    let mut rcc = zero_rcc();
    let mut block = SpiBlock::new(SpiInstance::Spi2);
    block.sr.txe = true;
    let mut driver = spi2_driver(block, &mut rcc);
    let words = vec![1u8, 2, 3];
    assert_eq!(driver.write(&words), Ok(()));
    let (regs, _) = driver.free();
    assert_eq!(regs.dr, 3);
}

#[test]
fn write_surfaces_pending_fault() {
    let mut rcc = zero_rcc();
    let mut block = SpiBlock::new(SpiInstance::Spi2);
    block.sr.ovr = true;
    block.sr.txe = true;
    let mut driver = spi2_driver(block, &mut rcc);
    let words = vec![1u8, 2, 3];
    assert_eq!(driver.write(&words), Err(Error::Overrun));
    let (regs, _) = driver.free();
    assert_eq!(regs.dr, 0);
}

#[test]
fn transfer_exchanges_one_byte() {
    let mut rcc = zero_rcc();
    let mut block = SpiBlock::new(SpiInstance::Spi2);
    block.sr.txe = true;
    block.sr.rxne = true;
    block.dr = 0x5A;
    let mut driver = spi2_driver(block, &mut rcc);
    assert_eq!(driver.transfer(0xA5), Ok(0x5A));
    let (regs, _) = driver.free();
    assert_eq!(regs.dr, 0xA5);
    assert!(!regs.sr.rxne);
}

#[test]
fn free_returns_owned_resources() {
    let mut rcc = zero_rcc();
    let mut block = SpiBlock::new(SpiInstance::Spi2);
    block.dr = 0x77;
    let driver = spi2_driver(block, &mut rcc);
    let (regs, pins) = driver.free();
    assert_eq!(regs.instance, SpiInstance::Spi2);
    assert_eq!(regs.dr, 0x77);
    // The controller is left enabled: no implicit disable on release.
    assert!(regs.cr1.spe);
    assert_eq!(pins, spi2_pins());
}
