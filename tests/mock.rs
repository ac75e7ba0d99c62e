use stuw81300::{MockStuw81300LE, MockStuw81300SPI};

#[test]
fn mock() {
    let mut spi = MockStuw81300SPI::default();
    spi.transfer(&mut [0x48, 0x00, 0x00, 0x00]).unwrap();
    spi.transfer(&mut [0x40, 0x00, 0x00, 0x03]).unwrap();
    let mut read: [u8; 4] = [0xC0, 0x00, 0x00, 0x03];
    spi.transfer(&mut read).unwrap();
    assert_eq!(u32::from_be_bytes(read), 3);
}

#[test]
fn mock_registers() {
    let mut spi = MockStuw81300SPI::default();
    assert_eq!(spi.read(11), 0x8052);
    assert_eq!(spi.read(0), 0);
    spi.write(3, 0x1234);
    assert_eq!(spi.read(3), 0x1234);
    let mut answer = [0x98, 0, 0, 0];
    spi.transfer(&mut answer).unwrap();
    assert_eq!(answer, [0, 0, 0x12, 0x34]);
    let mut echo = [0x18, 0xFF, 0xFF, 0xFF];
    spi.transfer(&mut echo).unwrap();
    assert_eq!(echo, [0, 0, 0, 0]);
    assert_eq!(spi.read(3), 0x00FF_FFFF);
}

#[test]
fn mock_latch_enable() {
    let mut le = MockStuw81300LE::default();
    assert!(le.set_high().is_ok());
    assert!(le.set_low().is_ok());
}
