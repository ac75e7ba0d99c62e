use stuw81300::registers::{ST0, ST10};
use stuw81300::{
    AccessMode, BusAction, BusEvent, DomainError, DsmOrder, Exchange, ExchangeOutcome,
    MockStuw81300LE, MockStuw81300SPI, PfdDelay, PfdDelayMode, PllPath, Rational,
    ReferenceClockPath, ReferenceType, RegisterAddr, RegisterFile, STuW81300, SupplyVoltage,
};

const ADDRS: [RegisterAddr; 12] = [
    RegisterAddr::ST0,
    RegisterAddr::ST1,
    RegisterAddr::ST2,
    RegisterAddr::ST3,
    RegisterAddr::ST4,
    RegisterAddr::ST5,
    RegisterAddr::ST6,
    RegisterAddr::ST7,
    RegisterAddr::ST8,
    RegisterAddr::ST9,
    RegisterAddr::ST10,
    RegisterAddr::ST11,
];

/// The stand-in chip with its latch enable line.
struct Bench {
    spi: MockStuw81300SPI,
    le: MockStuw81300LE,
}

impl Bench {
    fn new() -> Bench {
        Bench { spi: MockStuw81300SPI::default(), le: MockStuw81300LE::default() }
    }

    fn exchange(&mut self, addr: RegisterAddr, payload: u32, mode: AccessMode) -> u32 {
        let (mut x, mut action) = Exchange::start(addr, payload, mode).unwrap();
        loop {
            let event = match action {
                BusAction::SelectLow => {
                    self.le.set_low().unwrap();
                    BusEvent::Selected
                }
                BusAction::Transfer(frame) => {
                    let mut buf = frame;
                    self.spi.transfer(&mut buf).unwrap();
                    BusEvent::Transferred(buf)
                }
                BusAction::ReleaseHigh => {
                    self.le.set_high().unwrap();
                    BusEvent::Released
                }
                BusAction::Finish(ExchangeOutcome::Payload(p)) => return p,
                BusAction::Finish(other) => panic!("exchange failed: {:?}", other),
            };
            let next = x.step(event);
            x = next.0;
            action = next.1;
        }
    }

    fn snapshot(&mut self) -> RegisterFile {
        let mut payloads = [0u32; 12];
        for (i, addr) in ADDRS.iter().enumerate() {
            payloads[i] = self.exchange(*addr, 0, AccessMode::Read);
        }
        RegisterFile::new(payloads)
    }

    fn run<F: FnOnce(&mut RegisterFile) -> Result<(), DomainError>>(&mut self, op: F) -> Result<(), DomainError> {
        let mut regs = self.snapshot();
        let r = op(&mut regs);
        for w in regs.writes.iter() {
            self.exchange(w.addr, w.payload, AccessMode::Write);
        }
        r
    }
}

fn to_f32(r: Rational) -> f32 {
    (r.num as f64 / r.den as f64) as f32
}

fn chip(supply: SupplyVoltage, ref_freq: u32, ref_type: ReferenceType) -> STuW81300 {
    STuW81300::new(supply, ref_freq, ref_type).unwrap()
}

fn file_with(addr: RegisterAddr, payload: u32) -> RegisterFile {
    let mut payloads = [0u32; 12];
    payloads[addr as usize] = payload;
    RegisterFile::new(payloads)
}

#[test]
fn device_id() {
    let (x, action) = Exchange::start(RegisterAddr::ST11, 0, AccessMode::Read).unwrap();
    assert!(matches!(action, BusAction::SelectLow));
    let (x, action) = x.step(BusEvent::Selected);
    assert!(matches!(action, BusAction::Transfer([0xd8, 0, 0, 0])));
    let (x, _) = x.step(BusEvent::Transferred([0, 0, 0x80, 0x52]));
    let (_, action) = x.step(BusEvent::Released);
    let id = match action {
        BusAction::Finish(ExchangeOutcome::Payload(p)) => p,
        other => panic!("unexpected {:?}", other),
    };
    let vco = chip(SupplyVoltage::HighVoltage, 100_000_000, ReferenceType::SingleEnded);
    assert_eq!(vco.device_id(&file_with(RegisterAddr::ST11, id)), 0x8052);
}

#[test]
fn mock_device_id() {
    let mut bench = Bench::new();
    let vco = chip(SupplyVoltage::HighVoltage, 100_000_000, ReferenceType::SingleEnded);
    assert_eq!(vco.device_id(&bench.snapshot()), 0x8052);
}

#[test]
fn complete_mock() {
    let mut bench = Bench::new();
    let vco = chip(SupplyVoltage::HighVoltage, 100_000_000, ReferenceType::SingleEnded);
    bench.run(|r| vco.init(r)).unwrap();

    bench.run(|r| vco.set_reference_clock_path(r, ReferenceClockPath::Direct)).unwrap();
    bench.run(|r| vco.set_reference_clock_divider(r, 2)).unwrap();
    assert_eq!(to_f32(vco.get_pfd_frequency(&bench.snapshot()).unwrap()), 50e6);

    bench.run(|r| Ok(vco.set_dsm_order(r, DsmOrder::ThirdOrder))).unwrap();
    bench.run(|r| Ok(vco.set_dithering(r, true))).unwrap();
    bench.run(|r| Ok(vco.set_pfd_delay(r, PfdDelay::Default))).unwrap();
    bench.run(|r| Ok(vco.set_pfd_delay_mode(r, PfdDelayMode::VcoDivDelay))).unwrap();
    bench.run(|r| vco.set_vco_amplitude(r, 7)).unwrap();

    bench.run(|r| vco.set_output_frequency(r, Rational::from_hz(7_625_000_000))).unwrap();
    assert_eq!(to_f32(vco.get_output_frequency(&bench.snapshot()).unwrap()), 7625e6);

    bench.run(|r| vco.set_output_frequency(r, Rational::from_hz(3_151_000_000))).unwrap();
    assert_eq!(to_f32(vco.get_output_frequency(&bench.snapshot()).unwrap()), 3151e6);

    // 3150123456.7 Hz; the error here is under 10 Hz.
    bench.run(|r| vco.set_output_frequency(r, Rational::new(31_501_234_567, 10))).unwrap();
    assert_eq!(to_f32(vco.get_output_frequency(&bench.snapshot()).unwrap()), 3150123500.0);

    bench.run(|r| vco.set_output_frequency(r, Rational::from_hz(8_000_000_000))).unwrap();
    assert_eq!(to_f32(vco.get_output_frequency(&bench.snapshot()).unwrap()), 8e9);
    assert_eq!(to_f32(vco.get_calibrator_frequency(&bench.snapshot()).unwrap()), 250e3);
}

#[test]
fn set_output_frequency_registers() {
    let mut bench = Bench::new();
    let vco = chip(SupplyVoltage::HighVoltage, 100_000_000, ReferenceType::SingleEnded);
    bench.run(|r| vco.set_reference_clock_divider(r, 2)).unwrap();
    bench.run(|r| vco.set_output_frequency(r, Rational::from_hz(7_625_000_000))).unwrap();
    let regs = bench.snapshot();
    assert_eq!(regs.st0().n, 76);
    assert_eq!(regs.st1().frac, 524287);
    assert!(regs.st1().pll_sel);
    assert_eq!(regs.st2().modu, 2097151);
    assert!(regs.st6().dithering);
    assert_eq!(regs.st6().cal_div, 200);
    assert!(regs.st4().vcalb_mode);
    assert_eq!(vco.get_pll_path(&regs), PllPath::Direct);
    bench.run(|r| vco.set_output_frequency(r, Rational::from_hz(3_151_000_000))).unwrap();
    let regs = bench.snapshot();
    assert!(!regs.st1().pll_sel);
    assert!(!regs.st4().vcalb_mode);
    assert_eq!(vco.get_pll_path(&regs), PllPath::Halved);
}

#[test]
fn set_output_frequency_write_order() {
    let vco = chip(SupplyVoltage::LowVoltage, 100_000_000, ReferenceType::SingleEnded);
    let mut regs = file_with(RegisterAddr::ST3, 2);
    vco.set_output_frequency(&mut regs, Rational::from_hz(8_000_000_000)).unwrap();
    let order: Vec<RegisterAddr> = regs.writes.iter().map(|w| w.addr).collect();
    assert_eq!(
        order,
        vec![
            RegisterAddr::ST6,
            RegisterAddr::ST1,
            RegisterAddr::ST0,
            RegisterAddr::ST1,
            RegisterAddr::ST2,
            RegisterAddr::ST6,
            RegisterAddr::ST4
        ]
    );
    assert!(regs.st4().vcalb_mode);
}

#[test]
fn failed_output_frequency_writes_nothing() {
    let vco = chip(SupplyVoltage::HighVoltage, 100_000_000, ReferenceType::SingleEnded);
    let mut regs = file_with(RegisterAddr::ST3, 2);
    assert_eq!(
        vco.set_output_frequency(&mut regs, Rational::from_hz(1_000_000_000)),
        Err(DomainError::InvalidDividerRatio)
    );
    assert_eq!(
        vco.set_output_frequency(&mut regs, Rational::from_hz(60_000_000_000)),
        Err(DomainError::DividerOutOfRange)
    );
    assert!(regs.writes.is_empty());
    assert_eq!(regs.payloads, file_with(RegisterAddr::ST3, 2).payloads);
    let mut no_r = file_with(RegisterAddr::ST3, 0);
    assert_eq!(
        vco.set_output_frequency(&mut no_r, Rational::from_hz(3_000_000_000)),
        Err(DomainError::ReferenceDividerOutOfRange)
    );
    let fast = chip(SupplyVoltage::HighVoltage, 800_000_000, ReferenceType::SingleEnded);
    // Quartered, R = 1: a 200 MHz PFD needs a calibrator division of 800.
    let mut regs = file_with(RegisterAddr::ST3, 3 << 13 | 1);
    assert_eq!(
        fast.set_output_frequency(&mut regs, Rational::from_hz(6_000_000_000)),
        Err(DomainError::CalibratorDivisionOutOfRange)
    );
    assert!(regs.writes.is_empty());
    let mut regs = file_with(RegisterAddr::ST3, 1);
    assert_eq!(
        fast.set_output_frequency(&mut regs, Rational::from_hz(6_000_000_000)),
        Err(DomainError::InvalidDividerRatio)
    );
    assert!(regs.writes.is_empty());
}

#[test]
fn init_on_1t_leaves_calibration_bits_clear() {
    let vco = chip(SupplyVoltage::LowVoltage, 100_000_000, ReferenceType::Crystal);
    let mut regs = file_with(RegisterAddr::ST11, 0x804B);
    regs.payloads[4] = 1 << 24 | 1 << 14;
    vco.init(&mut regs).unwrap();
    let st4 = regs.st4();
    assert!(!st4.calb_3v3_mode1);
    assert!(!st4.calb_3v3_mode0);
    assert!(st4.rf_out_3v3);
    assert_eq!(st4.ref_buff_mode, 2);
    assert_eq!(regs.writes[0].addr, RegisterAddr::ST9);
    assert_eq!(regs.writes[0].payload, 0);
    assert_eq!(regs.writes[1].addr, RegisterAddr::ST4);
}

#[test]
fn init_on_t_follows_supply() {
    let low = chip(SupplyVoltage::LowVoltage, 100_000_000, ReferenceType::Differential);
    let mut regs = file_with(RegisterAddr::ST11, 0x8052);
    low.init(&mut regs).unwrap();
    assert!(regs.st4().calb_3v3_mode1);
    assert!(regs.st4().calb_3v3_mode0);
    assert_eq!(regs.st4().ref_buff_mode, 1);
    let high = chip(SupplyVoltage::HighVoltage, 100_000_000, ReferenceType::SingleEnded);
    let mut regs = file_with(RegisterAddr::ST11, 0x8052);
    regs.payloads[4] = 1 << 24 | 1 << 14 | 1 << 23;
    high.init(&mut regs).unwrap();
    assert!(!regs.st4().calb_3v3_mode1);
    assert!(!regs.st4().calb_3v3_mode0);
    assert!(!regs.st4().rf_out_3v3);
    assert_eq!(regs.st4().ref_buff_mode, 3);
}

#[test]
fn init_on_unknown_device_fails() {
    let vco = chip(SupplyVoltage::HighVoltage, 100_000_000, ReferenceType::SingleEnded);
    let mut regs = file_with(RegisterAddr::ST11, 0x1234);
    assert_eq!(vco.init(&mut regs), Err(DomainError::UnknownDevice(0x1234)));
    assert!(regs.writes.is_empty());
}

#[test]
fn reference_frequency_range() {
    assert_eq!(
        STuW81300::new(SupplyVoltage::HighVoltage, 9_999_999, ReferenceType::SingleEnded).err(),
        Some(DomainError::ReferenceFrequencyOutOfRange)
    );
    assert_eq!(
        STuW81300::new(SupplyVoltage::HighVoltage, 800_000_001, ReferenceType::SingleEnded).err(),
        Some(DomainError::ReferenceFrequencyOutOfRange)
    );
    let vco = chip(SupplyVoltage::LowVoltage, 800_000_000, ReferenceType::Crystal);
    assert_eq!(vco.ref_freq(), 800_000_000);
    assert_eq!(vco.supply_voltage(), SupplyVoltage::LowVoltage);
    assert_eq!(vco.ref_type(), ReferenceType::Crystal);
    assert!(STuW81300::new(SupplyVoltage::HighVoltage, 10_000_000, ReferenceType::SingleEnded).is_ok());
}

#[test]
fn reference_path_compatibility() {
    let cases = [
        (450_000_000, ReferenceType::SingleEnded, ReferenceClockPath::Quartered, true),
        (450_000_000, ReferenceType::SingleEnded, ReferenceClockPath::Halved, false),
        (400_000_000, ReferenceType::SingleEnded, ReferenceClockPath::Halved, false),
        (300_000_000, ReferenceType::SingleEnded, ReferenceClockPath::Halved, true),
        (300_000_000, ReferenceType::SingleEnded, ReferenceClockPath::Direct, false),
        (200_000_000, ReferenceType::SingleEnded, ReferenceClockPath::Direct, false),
        (100_000_000, ReferenceType::SingleEnded, ReferenceClockPath::Direct, true),
        (100_000_000, ReferenceType::SingleEnded, ReferenceClockPath::Doubled, false),
        (20_000_000, ReferenceType::SingleEnded, ReferenceClockPath::Doubled, true),
        (20_000_000, ReferenceType::Differential, ReferenceClockPath::Doubled, false),
        (20_000_000, ReferenceType::Differential, ReferenceClockPath::Direct, true),
    ];
    for (f, t, path, ok) in cases {
        let vco = chip(SupplyVoltage::HighVoltage, f, t);
        let mut regs = file_with(RegisterAddr::ST3, 0x0400_0002);
        let r = vco.set_reference_clock_path(&mut regs, path);
        if ok {
            assert_eq!(r, Ok(()));
            assert_eq!(regs.st3().ref_path_sel, path as u32);
            assert_eq!(regs.st3().r, 2);
            assert!(regs.st3().dbr);
        } else {
            assert_eq!(r, Err(DomainError::ReferencePathIncompatible));
            assert!(regs.writes.is_empty());
        }
    }
}

#[test]
fn setters_check_their_ranges() {
    let vco = chip(SupplyVoltage::LowVoltage, 100_000_000, ReferenceType::SingleEnded);
    let mut regs = file_with(RegisterAddr::ST2, 10);
    assert_eq!(vco.set_reference_clock_divider(&mut regs, 0), Err(DomainError::ReferenceDividerOutOfRange));
    assert_eq!(vco.set_reference_clock_divider(&mut regs, 8192), Err(DomainError::ReferenceDividerOutOfRange));
    assert_eq!(vco.set_mod(&mut regs, 1), Err(DomainError::ModulusOutOfRange));
    assert_eq!(vco.set_mod(&mut regs, 2097152), Err(DomainError::ModulusOutOfRange));
    assert_eq!(vco.set_frac(&mut regs, 10), Err(DomainError::FracNotBelowMod));
    assert_eq!(vco.set_charge_pump(&mut regs, 32), Err(DomainError::ChargePumpOutOfRange));
    assert_eq!(vco.set_calibrator_division(&mut regs, 512), Err(DomainError::CalibratorDivisionOutOfRange));
    assert_eq!(vco.set_vco_amplitude(&mut regs, 3), Err(DomainError::AmplitudeTooHigh));
    assert!(regs.writes.is_empty());
    assert_eq!(vco.set_frac(&mut regs, 9), Ok(()));
    assert_eq!(regs.st1().frac, 9);
    assert_eq!(vco.set_mod(&mut regs, 2097151), Ok(()));
    assert_eq!(regs.st2().modu, 2097151);
    assert_eq!(vco.set_vco_amplitude(&mut regs, 2), Ok(()));
    assert_eq!(regs.st4().vco_amp, 2);
    let high = chip(SupplyVoltage::HighVoltage, 100_000_000, ReferenceType::SingleEnded);
    assert_eq!(high.set_vco_amplitude(&mut regs, 7), Ok(()));
    assert_eq!(high.set_vco_amplitude(&mut regs, 8), Err(DomainError::AmplitudeTooHigh));
    assert_eq!(vco.set_calibrator_division(&mut regs, 511), Ok(()));
    assert_eq!(vco.get_calibrator_division(&regs), 511);
}

#[test]
fn read_modify_write_keeps_other_fields() {
    let vco = chip(SupplyVoltage::HighVoltage, 100_000_000, ReferenceType::SingleEnded);
    let st0 = ST0 { cp_sel: 3, pfd_del: 2, n: 1000 };
    let mut regs = file_with(RegisterAddr::ST0, st0.encode());
    regs.payloads[5] = 0x15;
    vco.set_charge_pump(&mut regs, 31).unwrap();
    assert_eq!(regs.st0(), ST0 { cp_sel: 31, pfd_del: 2, n: 1000 });
    assert_eq!(vco.get_charge_pump(&regs), 31);
    assert_eq!(regs.payloads[5], 0x15);
    vco.set_pfd_delay(&mut regs, PfdDelay::ThreeZero);
    assert_eq!(regs.st0(), ST0 { cp_sel: 31, pfd_del: 3, n: 1000 });
    assert_eq!(vco.get_pfd_delay(&regs), PfdDelay::ThreeZero);
}

#[test]
fn divider_ratio_uses_configured_order() {
    let vco = chip(SupplyVoltage::HighVoltage, 100_000_000, ReferenceType::SingleEnded);
    let mut regs = file_with(RegisterAddr::ST3, 2);
    vco.set_dsm_order(&mut regs, DsmOrder::FourthOrder);
    assert_eq!(vco.set_divider_ratio(&mut regs, Rational::from_hz(30)), Err(DomainError::DividerOutOfRange));
    vco.set_dsm_order(&mut regs, DsmOrder::FirstOrder);
    vco.set_dithering(&mut regs, false);
    assert_eq!(vco.set_divider_ratio(&mut regs, Rational::new(121, 4)), Ok(()));
    assert_eq!(regs.st0().n, 30);
    assert_eq!(regs.st1().frac, 524288);
    assert_eq!(regs.st2().modu, 2097151);
}

#[test]
fn getters_report_register_states() {
    let vco = chip(SupplyVoltage::HighVoltage, 100_000_000, ReferenceType::SingleEnded);
    assert_eq!(vco.get_pfd_frequency(&file_with(RegisterAddr::ST3, 0)), Err(DomainError::ReferenceDividerOutOfRange));
    let mut regs = file_with(RegisterAddr::ST3, 2);
    assert_eq!(vco.get_output_frequency(&regs), Err(DomainError::ModulusOutOfRange));
    assert_eq!(vco.get_calibrator_frequency(&regs), Err(DomainError::CalibratorDivisionOutOfRange));
    vco.set_pfd_delay_mode(&mut regs, PfdDelayMode::RefDivDelay);
    assert_eq!(vco.get_pfd_delay_mode(&regs), Ok(PfdDelayMode::RefDivDelay));
    regs.payloads[3] |= 3 << 15;
    assert_eq!(vco.get_pfd_delay_mode(&regs), Err(DomainError::ReservedFieldValue));
    vco.set_pll_path(&mut regs, PllPath::Halved);
    assert!(regs.st1().pll_sel);
    vco.set_pll_path(&mut regs, PllPath::Direct);
    assert!(!regs.st1().pll_sel);
}

#[test]
fn status_flags() {
    let vco = chip(SupplyVoltage::HighVoltage, 100_000_000, ReferenceType::SingleEnded);
    let all_up = ST10 {
        vco_sel: 0,
        word: 0,
        reg_dig_startup: true,
        reg_ref_startup: true,
        reg_rf_startup: true,
        reg_vco_startup: false,
        reg_vco_4v5_startup: true,
        reg_dig_ocp: false,
        reg_ref_ocp: false,
        reg_rf_ocp: false,
        reg_vco_ocp: true,
        reg_vco_4v5_ocp: false,
        lock_det: true,
    };
    let regs = file_with(RegisterAddr::ST10, all_up.encode());
    assert!(vco.is_locked(&regs));
    assert!(vco.is_startup(&regs));
    assert!(!vco.is_ocp(&regs));
    let regs = file_with(RegisterAddr::ST10, ST10 { reg_rf_startup: false, reg_rf_ocp: true, lock_det: false, ..all_up }.encode());
    assert!(!vco.is_locked(&regs));
    assert!(!vco.is_startup(&regs));
    assert!(vco.is_ocp(&regs));
}
