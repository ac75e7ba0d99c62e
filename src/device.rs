//! Operations of the driver on a snapshot of the chip's registers.
//!
//! Each operation reads the registers it needs from a `RegisterFile`, checks
//! its inputs before it changes anything, and changes only the fields it
//! targets: every change is a read-modify-write of one register, recorded in
//! order in the file's write log. The caller fills the file from the chip and
//! sends the logged writes back to it.
use vstd::prelude::*;
use crate::error::DomainError;
use crate::register_file::{applied, RegisterFile, RegisterFileView};
use crate::registers::{
    lemma_from_payload_wf_st0, lemma_from_payload_wf_st1, lemma_from_payload_wf_st2,
    lemma_from_payload_wf_st3, lemma_from_payload_wf_st4, lemma_from_payload_wf_st6,
    lemma_round_trip_st0, lemma_round_trip_st1, lemma_round_trip_st2, lemma_round_trip_st4,
    lemma_round_trip_st6, RegisterAddr, ST0, ST1, ST2, ST3, ST4, ST6,
};
use crate::synth::{
    lemma_output_frequency_error, lemma_solved_divider_fields, spec_pll_halved,
    calibrator_division, calibrator_frequency, output_frequency, pfd_frequency,
    solve_divider, solve_output_frequency, spec_calibrator_division, spec_calibrator_frequency,
    spec_output_frequency, spec_pfd, spec_solve_divider, spec_solve_output_frequency,
    spec_target_ratio, target_ratio, DsmOrder, PllPath, Rational,
    ReferenceClockPath, Divider, OutputSetting, MAX_MOD, PFD_LIMIT, RATIO_LIMIT,
};

verus! {

/// Class of the supply voltage on pin 36.
#[derive(Debug, Clone, Copy, PartialEq, Eq, Structural)]
pub enum SupplyVoltage {
    /// 3.6 V to 5.4 V.
    LowVoltage,
    /// 5.0 V to 5.4 V.
    HighVoltage,
}

/// How the reference clock is connected.
#[derive(Debug, Clone, Copy, PartialEq, Eq, Structural)]
pub enum ReferenceType {
    /// Clock on pin 21.
    SingleEnded,
    /// Differential clock between pins 20 and 21.
    Differential,
    /// Crystal oscillator between pins 20 and 21.
    Crystal,
}

impl ReferenceType {
    /// The value of ST4's REF_BUFF_MODE field.
    pub open spec fn spec_code(self) -> u32 {
        match self {
            ReferenceType::SingleEnded => 3,
            ReferenceType::Differential => 1,
            ReferenceType::Crystal => 2,
        }
    }

    pub fn code(&self) -> (r: u32)
        ensures
            r == self.spec_code(),
    {
        match self {
            ReferenceType::SingleEnded => 3,
            ReferenceType::Differential => 1,
            ReferenceType::Crystal => 2,
        }
    }
}

/// Delay mode of the phase-frequency detector.
#[derive(Debug, Clone, Copy, PartialEq, Eq, Structural)]
pub enum PfdDelayMode {
    NoDelay,
    VcoDivDelay,
    RefDivDelay,
}

impl PfdDelayMode {
    /// The value of ST3's PFD_DEL_MODE field.
    pub open spec fn spec_code(self) -> u32 {
        match self {
            PfdDelayMode::NoDelay => 0,
            PfdDelayMode::VcoDivDelay => 1,
            PfdDelayMode::RefDivDelay => 2,
        }
    }

    pub fn code(&self) -> (r: u32)
        ensures
            r == self.spec_code(),
    {
        match self {
            PfdDelayMode::NoDelay => 0,
            PfdDelayMode::VcoDivDelay => 1,
            PfdDelayMode::RefDivDelay => 2,
        }
    }
}

/// Delay of the phase-frequency detector, with the charge pump current
/// that goes with it.
#[derive(Debug, Clone, Copy, PartialEq, Eq, Structural)]
pub enum PfdDelay {
    /// 1.2 ns, no current.
    Default,
    /// 1.9 ns, a quarter of Icp.
    OneNine,
    /// 2.5 ns, half of Icp.
    TwoFive,
    /// 3.0 ns, three quarters of Icp.
    ThreeZero,
}

impl PfdDelay {
    /// The value of ST0's PFD_DEL field.
    pub open spec fn spec_code(self) -> u32 {
        match self {
            PfdDelay::Default => 0,
            PfdDelay::OneNine => 1,
            PfdDelay::TwoFive => 2,
            PfdDelay::ThreeZero => 3,
        }
    }

    pub open spec fn spec_from_code(c: u32) -> PfdDelay {
        if c == 0 {
            PfdDelay::Default
        } else if c == 1 {
            PfdDelay::OneNine
        } else if c == 2 {
            PfdDelay::TwoFive
        } else {
            PfdDelay::ThreeZero
        }
    }

    pub fn code(&self) -> (r: u32)
        ensures
            r == self.spec_code(),
    {
        match self {
            PfdDelay::Default => 0,
            PfdDelay::OneNine => 1,
            PfdDelay::TwoFive => 2,
            PfdDelay::ThreeZero => 3,
        }
    }

    pub fn from_code(c: u32) -> (r: PfdDelay)
        ensures
            r == PfdDelay::spec_from_code(c),
    {
        if c == 0 {
            PfdDelay::Default
        } else if c == 1 {
            PfdDelay::OneNine
        } else if c == 2 {
            PfdDelay::TwoFive
        } else {
            PfdDelay::ThreeZero
        }
    }
}


/// Lowest reference frequency, in Hz.
pub const REF_FREQ_MIN_HZ: u32 = 10_000_000;

/// Highest reference frequency, in Hz.
pub const REF_FREQ_MAX_HZ: u32 = 800_000_000;

/// Identity of the STuW81300-1T and -1TR.
pub const DEVICE_ID_1T: u32 = 0x804B;

/// Identity of the STuW81300T and -TR.
pub const DEVICE_ID_T: u32 = 0x8052;

/// Above this output frequency, in Hz, a high-voltage supply takes the
/// high VCO calibration voltage mode.
pub const VCALB_HIGH_ABOVE_HZ: u128 = 4_500_000_000;

/// The board-level configuration of one chip, fixed when it is made.
pub struct STuW81300 {
    supply_voltage: SupplyVoltage,
    ref_freq: u32,
    ref_type: ReferenceType,
}

impl STuW81300 {
    #[verifier::type_invariant]
    spec fn inv(self) -> bool {
        REF_FREQ_MIN_HZ <= self.ref_freq <= REF_FREQ_MAX_HZ
    }

    pub closed spec fn spec_supply_voltage(self) -> SupplyVoltage {
        self.supply_voltage
    }

    /// Reference frequency in Hz.
    pub closed spec fn spec_ref_freq(self) -> u32 {
        self.ref_freq
    }

    pub closed spec fn spec_ref_type(self) -> ReferenceType {
        self.ref_type
    }

    /// The reference frequency lies in 10 MHz to 800 MHz, as for every chip
    /// that `new` makes.
    pub open spec fn valid(self) -> bool {
        REF_FREQ_MIN_HZ <= self.spec_ref_freq() <= REF_FREQ_MAX_HZ
    }

    /// The low-voltage supply class.
    pub open spec fn low_voltage(self) -> bool {
        self.spec_supply_voltage() == SupplyVoltage::LowVoltage
    }

    /// Checks the reference frequency, which must lie in 10 MHz to 800 MHz.
    pub fn new(supply_voltage: SupplyVoltage, ref_freq: u32, ref_type: ReferenceType) -> (r: Result<
        STuW81300,
        DomainError,
    >)
        ensures
            r is Ok <==> REF_FREQ_MIN_HZ <= ref_freq <= REF_FREQ_MAX_HZ,
            r matches Err(e) ==> e == DomainError::ReferenceFrequencyOutOfRange,
            r matches Ok(c) ==> {
                &&& c.valid()
                &&& c.spec_supply_voltage() == supply_voltage
                &&& c.spec_ref_freq() == ref_freq
                &&& c.spec_ref_type() == ref_type
            },
    {
        if ref_freq < REF_FREQ_MIN_HZ || ref_freq > REF_FREQ_MAX_HZ {
            return Err(DomainError::ReferenceFrequencyOutOfRange);
        }
        Ok(STuW81300 { supply_voltage, ref_freq, ref_type })
    }

    pub fn supply_voltage(&self) -> (r: SupplyVoltage)
        ensures
            r == self.spec_supply_voltage(),
    {
        self.supply_voltage
    }

    pub fn ref_freq(&self) -> (r: u32)
        ensures
            r == self.spec_ref_freq(),
            REF_FREQ_MIN_HZ <= r <= REF_FREQ_MAX_HZ,
    {
        proof {
            use_type_invariant(self);
        }
        self.ref_freq
    }

    pub fn ref_type(&self) -> (r: ReferenceType)
        ensures
            r == self.spec_ref_type(),
    {
        self.ref_type
    }

    /// The identity register: 0x804B or 0x8052 on a known device.
    pub fn device_id(&self, regs: &RegisterFile) -> (r: u32)
        ensures
            r == regs@.regs[11],
    {
        regs.payload(RegisterAddr::ST11)
    }

    pub open spec fn spec_set_reference_clock_divider(v: RegisterFileView, r: u32) -> Result<
        RegisterFileView,
        DomainError,
    > {
        if 1 <= r <= 8191 {
            Ok(v.write(RegisterAddr::ST3, ST3 { r, ..v.st3() }.payload()))
        } else {
            Err(DomainError::ReferenceDividerOutOfRange)
        }
    }

    /// Sets the reference divider R, which must lie in 1 to 8191. With the
    /// reference path it sets the PFD frequency.
    pub fn set_reference_clock_divider(&self, regs: &mut RegisterFile, r: u32) -> (res: Result<
        (),
        DomainError,
    >)
        ensures
            applied(res, old(regs)@, final(regs)@, Self::spec_set_reference_clock_divider(old(regs)@, r)),
    {
        if r < 1 || r > 8191 {
            return Err(DomainError::ReferenceDividerOutOfRange);
        }
        let mut st3 = regs.st3();
        st3.r = r;
        regs.write(RegisterAddr::ST3, st3.encode());
        Ok(())
    }

    /// Whether `path` suits the band of the reference frequency and the
    /// reference signal type.
    pub open spec fn spec_path_allowed(self, path: ReferenceClockPath) -> bool {
        let f = self.spec_ref_freq();
        let band_ok = if 400_000_000 <= f <= 800_000_000 {
            path == ReferenceClockPath::Quartered
        } else if 200_000_000 <= f <= 400_000_000 {
            path == ReferenceClockPath::Halved || path == ReferenceClockPath::Quartered
        } else if 25_000_000 <= f <= 200_000_000 {
            path != ReferenceClockPath::Doubled
        } else {
            true
        };
        band_ok && !(self.spec_ref_type() == ReferenceType::Differential && path
            == ReferenceClockPath::Doubled)
    }

    pub open spec fn spec_set_reference_clock_path(
        self,
        v: RegisterFileView,
        path: ReferenceClockPath,
    ) -> Result<RegisterFileView, DomainError> {
        if self.spec_path_allowed(path) {
            Ok(v.write(RegisterAddr::ST3, ST3 { ref_path_sel: path.spec_code(), ..v.st3() }.payload()))
        } else {
            Err(DomainError::ReferencePathIncompatible)
        }
    }

    /// Sets the reference clock path. From 400 MHz up only `Quartered` is
    /// allowed, from 200 MHz `Halved` or `Quartered`, from 25 MHz anything
    /// but `Doubled`; a differential reference is never doubled.
    pub fn set_reference_clock_path(&self, regs: &mut RegisterFile, path: ReferenceClockPath) -> (res:
        Result<(), DomainError>)
        ensures
            applied(res, old(regs)@, final(regs)@, self.spec_set_reference_clock_path(old(regs)@, path)),
    {
        let f = self.ref_freq;
        let band_ok = if 400_000_000 <= f && f <= 800_000_000 {
            path == ReferenceClockPath::Quartered
        } else if 200_000_000 <= f && f <= 400_000_000 {
            path == ReferenceClockPath::Halved || path == ReferenceClockPath::Quartered
        } else if 25_000_000 <= f && f <= 200_000_000 {
            path != ReferenceClockPath::Doubled
        } else {
            true
        };
        let differential_doubled = self.ref_type == ReferenceType::Differential && path
            == ReferenceClockPath::Doubled;
        if !band_ok || differential_doubled {
            return Err(DomainError::ReferencePathIncompatible);
        }
        let mut st3 = regs.st3();
        st3.ref_path_sel = path.code();
        regs.write(RegisterAddr::ST3, st3.encode());
        Ok(())
    }

    pub open spec fn spec_pfd_frequency(self, v: RegisterFileView) -> Result<Rational, DomainError> {
        if v.st3().r == 0 {
            Err(DomainError::ReferenceDividerOutOfRange)
        } else {
            Ok(
                spec_pfd(
                    self.spec_ref_freq(),
                    ReferenceClockPath::spec_from_code(v.st3().ref_path_sel),
                    v.st3().r,
                ),
            )
        }
    }

    /// The PFD frequency in Hz, from the reference path and R in ST3. Fails
    /// when R is zero.
    pub fn get_pfd_frequency(&self, regs: &RegisterFile) -> (r: Result<Rational, DomainError>)
        ensures
            r == self.spec_pfd_frequency(regs@),
            r matches Ok(f) ==> f.is_pfd_sized() && f.num > 0,
    {
        proof {
            use_type_invariant(self);
        }
        let st3 = regs.st3();
        if st3.r == 0 {
            return Err(DomainError::ReferenceDividerOutOfRange);
        }
        Ok(pfd_frequency(self.ref_freq, ReferenceClockPath::from_code(st3.ref_path_sel), st3.r))
    }

    pub open spec fn spec_output_frequency(self, v: RegisterFileView) -> Result<Rational, DomainError> {
        if v.st2().modu == 0 {
            Err(DomainError::ModulusOutOfRange)
        } else {
            match self.spec_pfd_frequency(v) {
                Err(e) => Err(e),
                Ok(pfd) => Ok(
                    spec_output_frequency(
                        pfd,
                        v.st0().n,
                        v.st1().frac,
                        v.st2().modu,
                        v.st6().dithering,
                        v.st1().pll_sel,
                    ),
                ),
            }
        }
    }

    /// The output frequency in Hz that the divider registers give. Fails
    /// when MOD or R is zero.
    pub fn get_output_frequency(&self, regs: &RegisterFile) -> (r: Result<Rational, DomainError>)
        ensures
            r == self.spec_output_frequency(regs@),
    {
        let st0 = regs.st0();
        let st1 = regs.st1();
        let st2 = regs.st2();
        let st6 = regs.st6();
        if st2.modu == 0 {
            return Err(DomainError::ModulusOutOfRange);
        }
        match self.get_pfd_frequency(regs) {
            Err(e) => Err(e),
            Ok(pfd) => Ok(output_frequency(pfd, st0.n, st1.frac, st2.modu, st6.dithering, st1.pll_sel)),
        }
    }

    /// Sets the dithering of the DSM sequence, which spreads the energy of
    /// fractional spurs over a wider band.
    pub fn set_dithering(&self, regs: &mut RegisterFile, active: bool)
        ensures
            final(regs)@ == old(regs)@.write(
                RegisterAddr::ST6,
                ST6 { dithering: active, ..old(regs)@.st6() }.payload(),
            ),
    {
        let mut st6 = regs.st6();
        st6.dithering = active;
        regs.write(RegisterAddr::ST6, st6.encode());
    }

    /// Sets the order of the delta-sigma modulator.
    pub fn set_dsm_order(&self, regs: &mut RegisterFile, order: DsmOrder)
        ensures
            final(regs)@ == old(regs)@.write(
                RegisterAddr::ST6,
                ST6 { dsm_order: order.spec_code(), ..old(regs)@.st6() }.payload(),
            ),
    {
        let mut st6 = regs.st6();
        st6.dsm_order = order.code();
        regs.write(RegisterAddr::ST6, st6.encode());
    }

    pub open spec fn spec_set_mod(v: RegisterFileView, modu: u32) -> Result<RegisterFileView, DomainError> {
        if 2 <= modu <= MAX_MOD {
            Ok(v.write(RegisterAddr::ST2, ST2 { modu, ..v.st2() }.payload()))
        } else {
            Err(DomainError::ModulusOutOfRange)
        }
    }

    /// Sets MOD, which must lie in 2 to 2097151.
    pub fn set_mod(&self, regs: &mut RegisterFile, modu: u32) -> (res: Result<(), DomainError>)
        ensures
            applied(res, old(regs)@, final(regs)@, Self::spec_set_mod(old(regs)@, modu)),
    {
        if modu < 2 || modu > MAX_MOD {
            return Err(DomainError::ModulusOutOfRange);
        }
        let mut st2 = regs.st2();
        st2.modu = modu;
        regs.write(RegisterAddr::ST2, st2.encode());
        Ok(())
    }

    pub open spec fn spec_set_frac(v: RegisterFileView, frac: u32) -> Result<RegisterFileView, DomainError> {
        if frac < v.st2().modu {
            Ok(v.write(RegisterAddr::ST1, ST1 { frac, ..v.st1() }.payload()))
        } else {
            Err(DomainError::FracNotBelowMod)
        }
    }

    /// Sets FRAC, which must be below the MOD already in ST2.
    pub fn set_frac(&self, regs: &mut RegisterFile, frac: u32) -> (res: Result<(), DomainError>)
        ensures
            applied(res, old(regs)@, final(regs)@, Self::spec_set_frac(old(regs)@, frac)),
    {
        let st2 = regs.st2();
        if frac >= st2.modu {
            return Err(DomainError::FracNotBelowMod);
        }
        let mut st1 = regs.st1();
        st1.frac = frac;
        regs.write(RegisterAddr::ST1, st1.encode());
        Ok(())
    }

    /// The file after the divider values `d` are written to ST0, ST1 and ST2.
    pub open spec fn spec_apply_divider(v: RegisterFileView, d: Divider) -> RegisterFileView {
        let v1 = v.write(RegisterAddr::ST0, ST0 { n: d.n_int, ..v.st0() }.payload());
        let v2 = v1.write(RegisterAddr::ST1, ST1 { frac: d.frac, ..v1.st1() }.payload());
        v2.write(RegisterAddr::ST2, ST2 { modu: d.modu, ..v2.st2() }.payload())
    }

    fn apply_divider(regs: &mut RegisterFile, d: Divider)
        requires
            d.n_int < 0x20000,
            d.frac < 0x200000,
            d.modu < 0x200000,
        ensures
            final(regs)@ == Self::spec_apply_divider(old(regs)@, d),
    {
        let mut st0 = regs.st0();
        st0.n = d.n_int;
        regs.write(RegisterAddr::ST0, st0.encode());
        let mut st1 = regs.st1();
        st1.frac = d.frac;
        regs.write(RegisterAddr::ST1, st1.encode());
        let mut st2 = regs.st2();
        st2.modu = d.modu;
        regs.write(RegisterAddr::ST2, st2.encode());
    }

    pub open spec fn spec_set_divider_ratio(v: RegisterFileView, n: Rational) -> Result<
        RegisterFileView,
        DomainError,
    > {
        match spec_solve_divider(n, DsmOrder::spec_from_code(v.st6().dsm_order), v.st6().dithering) {
            Err(e) => Err(e),
            Ok(d) => Ok(Self::spec_apply_divider(v, d)),
        }
    }

    /// Sets N, FRAC and MOD for the divider ratio `n`, with MOD at its
    /// largest, under the DSM order and dithering already in ST6.
    pub fn set_divider_ratio(&self, regs: &mut RegisterFile, n: Rational) -> (res: Result<
        (),
        DomainError,
    >)
        requires
            n.is_ratio_sized(),
        ensures
            applied(res, old(regs)@, final(regs)@, Self::spec_set_divider_ratio(old(regs)@, n)),
    {
        let st6 = regs.st6();
        match solve_divider(n, DsmOrder::from_code(st6.dsm_order), st6.dithering) {
            Err(e) => Err(e),
            Ok(d) => {
                Self::apply_divider(regs, d);
                Ok(())
            },
        }
    }

    /// Sets the signal path to the PLL: `Halved` sets PLL_SEL.
    pub fn set_pll_path(&self, regs: &mut RegisterFile, path: PllPath)
        ensures
            final(regs)@ == old(regs)@.write(
                RegisterAddr::ST1,
                ST1 { pll_sel: path == PllPath::Halved, ..old(regs)@.st1() }.payload(),
            ),
    {
        let mut st1 = regs.st1();
        st1.pll_sel = path == PllPath::Halved;
        regs.write(RegisterAddr::ST1, st1.encode());
    }

    /// The signal path to the PLL as the chip reports it: `Direct` when
    /// PLL_SEL is set.
    pub fn get_pll_path(&self, regs: &RegisterFile) -> (r: PllPath)
        ensures
            r == (if regs@.st1().pll_sel {
                PllPath::Direct
            } else {
                PllPath::Halved
            }),
    {
        if regs.st1().pll_sel {
            PllPath::Direct
        } else {
            PllPath::Halved
        }
    }

    /// Dithering on in ST6, then the PLL path in ST1.
    pub open spec fn spec_select_path(v: RegisterFileView, pll_sel: bool) -> RegisterFileView {
        let v1 = v.write(RegisterAddr::ST6, ST6 { dithering: true, ..v.st6() }.payload());
        v1.write(RegisterAddr::ST1, ST1 { pll_sel, ..v1.st1() }.payload())
    }

    fn select_path(regs: &mut RegisterFile, pll_sel: bool)
        ensures
            final(regs)@ == Self::spec_select_path(old(regs)@, pll_sel),
    {
        let mut st6 = regs.st6();
        st6.dithering = true;
        regs.write(RegisterAddr::ST6, st6.encode());
        let mut st1 = regs.st1();
        st1.pll_sel = pll_sel;
        regs.write(RegisterAddr::ST1, st1.encode());
    }

    /// The calibrator division in ST6, then the VCO calibration voltage mode
    /// in ST4.
    pub open spec fn spec_set_calibration(v: RegisterFileView, cal: u32, vcalb: bool) -> RegisterFileView {
        let v1 = v.write(RegisterAddr::ST6, ST6 { cal_div: cal, ..v.st6() }.payload());
        v1.write(RegisterAddr::ST4, ST4 { vcalb_mode: vcalb, ..v1.st4() }.payload())
    }

    fn set_calibration(regs: &mut RegisterFile, cal: u32, vcalb: bool)
        requires
            cal < 512,
        ensures
            final(regs)@ == Self::spec_set_calibration(old(regs)@, cal, vcalb),
    {
        let mut st6 = regs.st6();
        st6.cal_div = cal;
        regs.write(RegisterAddr::ST6, st6.encode());
        let mut st4 = regs.st4();
        st4.vcalb_mode = vcalb;
        regs.write(RegisterAddr::ST4, st4.encode());
    }

    /// The writes of `set_output_frequency` once every check has passed.
    pub open spec fn spec_apply_output(
        v: RegisterFileView,
        s: OutputSetting,
        cal: u32,
        vcalb: bool,
    ) -> RegisterFileView {
        Self::spec_set_calibration(
            Self::spec_apply_divider(Self::spec_select_path(v, s.pll_sel), s.divider),
            cal,
            vcalb,
        )
    }

    /// What `set_output_frequency` does: every check first, then the writes
    /// in their order: dithering on, the PLL path, the divider, the
    /// calibrator division, and the VCO calibration voltage mode.
    pub open spec fn spec_set_output_frequency(self, v: RegisterFileView, f: Rational) -> Result<
        RegisterFileView,
        DomainError,
    > {
        match self.spec_pfd_frequency(v) {
            Err(e) => Err(e),
            Ok(pfd) => match spec_solve_output_frequency(
                f,
                pfd,
                DsmOrder::spec_from_code(v.st6().dsm_order),
            ) {
                Err(e) => Err(e),
                Ok(s) => match spec_calibrator_division(pfd, spec_target_ratio(f, pfd)) {
                    Err(e) => Err(e),
                    Ok(cal) => Ok(
                        Self::spec_apply_output(
                            v,
                            s,
                            cal,
                            self.low_voltage() || f.num > VCALB_HIGH_ABOVE_HZ * f.den,
                        ),
                    ),
                },
            },
        }
    }

    /// Sets the output frequency `f`, in Hz. Above 6 GHz the PLL takes the
    /// halved path. Dithering is switched on and MOD set to its largest, which
    /// keeps spurs low at the cost of a small frequency error. The calibrator
    /// runs at its fastest clock, 250 kHz.
    pub fn set_output_frequency(&self, regs: &mut RegisterFile, f: Rational) -> (res: Result<
        (),
        DomainError,
    >)
        requires
            f.is_u64_sized(),
        ensures
            applied(res, old(regs)@, final(regs)@, self.spec_set_output_frequency(old(regs)@, f)),
    {
        let pfd = match self.get_pfd_frequency(regs) {
            Err(e) => return Err(e),
            Ok(p) => p,
        };
        let order = DsmOrder::from_code(regs.st6().dsm_order);
        let s = match solve_output_frequency(f, pfd, order) {
            Err(e) => return Err(e),
            Ok(s) => s,
        };
        let cal = match calibrator_division(pfd, target_ratio(f, pfd)) {
            Err(e) => return Err(e),
            Ok(c) => c,
        };
        let vcalb = self.supply_voltage == SupplyVoltage::LowVoltage || f.num > VCALB_HIGH_ABOVE_HZ
            * f.den;
        Self::select_path(regs, s.pll_sel);
        Self::apply_divider(regs, s.divider);
        Self::set_calibration(regs, cal, vcalb);
        Ok(())
    }

    /// What `init` does: on a known identity, the initialization write to
    /// ST9, then the supply and reference settings in ST4.
    pub open spec fn spec_init(self, v: RegisterFileView) -> Result<RegisterFileView, DomainError> {
        let id = v.regs[11];
        if id != DEVICE_ID_1T && id != DEVICE_ID_T {
            Err(DomainError::UnknownDevice(id))
        } else {
            let v1 = v.write(RegisterAddr::ST9, 0);
            let low = self.low_voltage();
            let calb = id == DEVICE_ID_T && low;
            Ok(
                v1.write(
                    RegisterAddr::ST4,
                    ST4 {
                        calb_3v3_mode1: calb,
                        calb_3v3_mode0: calb,
                        rf_out_3v3: low,
                        ref_buff_mode: self.spec_ref_type().spec_code(),
                        ..v1.st4()
                    }.payload(),
                ),
            )
        }
    }

    /// Initializes the chip: writes the initialization register, then sets
    /// the 3.3 V modes and the reference buffer. The calibrator's 3.3 V mode
    /// bits are set only on the STuW81300T with a low-voltage supply. Fails
    /// on an unknown identity before anything is written.
    pub fn init(&self, regs: &mut RegisterFile) -> (res: Result<(), DomainError>)
        ensures
            applied(res, old(regs)@, final(regs)@, self.spec_init(old(regs)@)),
    {
        let id = self.device_id(regs);
        if id != DEVICE_ID_1T && id != DEVICE_ID_T {
            return Err(DomainError::UnknownDevice(id));
        }
        regs.write(RegisterAddr::ST9, 0);
        let low = self.supply_voltage == SupplyVoltage::LowVoltage;
        let calb = id == DEVICE_ID_T && low;
        let mut st4 = regs.st4();
        st4.calb_3v3_mode1 = calb;
        st4.calb_3v3_mode0 = calb;
        st4.rf_out_3v3 = low;
        st4.ref_buff_mode = self.ref_type.code();
        regs.write(RegisterAddr::ST4, st4.encode());
        Ok(())
    }

    /// The PFD delay mode in ST3; the fourth code has no meaning.
    pub fn get_pfd_delay_mode(&self, regs: &RegisterFile) -> (r: Result<PfdDelayMode, DomainError>)
        ensures
            match regs@.st3().pfd_del_mode {
                0 => r == Ok::<PfdDelayMode, DomainError>(PfdDelayMode::NoDelay),
                1 => r == Ok::<PfdDelayMode, DomainError>(PfdDelayMode::VcoDivDelay),
                2 => r == Ok::<PfdDelayMode, DomainError>(PfdDelayMode::RefDivDelay),
                _ => r == Err::<PfdDelayMode, DomainError>(DomainError::ReservedFieldValue),
            },
    {
        let c = regs.st3().pfd_del_mode;
        if c == 0 {
            Ok(PfdDelayMode::NoDelay)
        } else if c == 1 {
            Ok(PfdDelayMode::VcoDivDelay)
        } else if c == 2 {
            Ok(PfdDelayMode::RefDivDelay)
        } else {
            Err(DomainError::ReservedFieldValue)
        }
    }

    /// Sets the PFD delay mode; `VcoDivDelay` is the recommended one.
    pub fn set_pfd_delay_mode(&self, regs: &mut RegisterFile, mode: PfdDelayMode)
        ensures
            final(regs)@ == old(regs)@.write(
                RegisterAddr::ST3,
                ST3 { pfd_del_mode: mode.spec_code(), ..old(regs)@.st3() }.payload(),
            ),
    {
        let mut st3 = regs.st3();
        st3.pfd_del_mode = mode.code();
        regs.write(RegisterAddr::ST3, st3.encode());
    }

    /// The PFD delay in ST0.
    pub fn get_pfd_delay(&self, regs: &RegisterFile) -> (r: PfdDelay)
        ensures
            r == PfdDelay::spec_from_code(regs@.st0().pfd_del),
            r.spec_code() == regs@.st0().pfd_del,
    {
        PfdDelay::from_code(regs.st0().pfd_del)
    }

    /// Sets the PFD delay; `Default` is the recommended one.
    pub fn set_pfd_delay(&self, regs: &mut RegisterFile, delay: PfdDelay)
        ensures
            final(regs)@ == old(regs)@.write(
                RegisterAddr::ST0,
                ST0 { pfd_del: delay.spec_code(), ..old(regs)@.st0() }.payload(),
            ),
    {
        let mut st0 = regs.st0();
        st0.pfd_del = delay.code();
        regs.write(RegisterAddr::ST0, st0.encode());
    }

    pub open spec fn spec_set_charge_pump(v: RegisterFileView, scale: u32) -> Result<
        RegisterFileView,
        DomainError,
    > {
        if scale <= 31 {
            Ok(v.write(RegisterAddr::ST0, ST0 { cp_sel: scale, ..v.st0() }.payload()))
        } else {
            Err(DomainError::ChargePumpOutOfRange)
        }
    }

    /// Sets the charge pump current to `scale` times the minimum, at most 31.
    pub fn set_charge_pump(&self, regs: &mut RegisterFile, scale: u32) -> (res: Result<(), DomainError>)
        ensures
            applied(res, old(regs)@, final(regs)@, Self::spec_set_charge_pump(old(regs)@, scale)),
    {
        if scale > 31 {
            return Err(DomainError::ChargePumpOutOfRange);
        }
        let mut st0 = regs.st0();
        st0.cp_sel = scale;
        regs.write(RegisterAddr::ST0, st0.encode());
        Ok(())
    }

    /// The charge pump scale in ST0.
    pub fn get_charge_pump(&self, regs: &RegisterFile) -> (r: u32)
        ensures
            r == regs@.st0().cp_sel,
    {
        regs.st0().cp_sel
    }

    pub open spec fn spec_set_calibrator_division(v: RegisterFileView, div: u32) -> Result<
        RegisterFileView,
        DomainError,
    > {
        if div <= 511 {
            Ok(v.write(RegisterAddr::ST6, ST6 { cal_div: div, ..v.st6() }.payload()))
        } else {
            Err(DomainError::CalibratorDivisionOutOfRange)
        }
    }

    /// Sets the VCO calibrator division, at most 511.
    pub fn set_calibrator_division(&self, regs: &mut RegisterFile, div: u32) -> (res: Result<
        (),
        DomainError,
    >)
        ensures
            applied(res, old(regs)@, final(regs)@, Self::spec_set_calibrator_division(old(regs)@, div)),
    {
        if div > 511 {
            return Err(DomainError::CalibratorDivisionOutOfRange);
        }
        let mut st6 = regs.st6();
        st6.cal_div = div;
        regs.write(RegisterAddr::ST6, st6.encode());
        Ok(())
    }

    /// The VCO calibrator division in ST6.
    pub fn get_calibrator_division(&self, regs: &RegisterFile) -> (r: u32)
        ensures
            r == regs@.st6().cal_div,
    {
        regs.st6().cal_div
    }

    pub open spec fn spec_calibrator_frequency(self, v: RegisterFileView) -> Result<Rational, DomainError> {
        match self.spec_pfd_frequency(v) {
            Err(e) => Err(e),
            Ok(pfd) => if v.st6().cal_div == 0 {
                Err(DomainError::CalibratorDivisionOutOfRange)
            } else {
                Ok(spec_calibrator_frequency(pfd, v.st6().cal_div))
            },
        }
    }

    /// The VCO calibrator clock in Hz: the PFD frequency divided by the
    /// calibrator division. Fails when R or the division is zero.
    pub fn get_calibrator_frequency(&self, regs: &RegisterFile) -> (r: Result<Rational, DomainError>)
        ensures
            r == self.spec_calibrator_frequency(regs@),
    {
        let st6 = regs.st6();
        match self.get_pfd_frequency(regs) {
            Err(e) => Err(e),
            Ok(pfd) => if st6.cal_div == 0 {
                Err(DomainError::CalibratorDivisionOutOfRange)
            } else {
                Ok(calibrator_frequency(pfd, st6.cal_div))
            },
        }
    }

    /// Largest VCO amplitude setting for the supply class.
    pub open spec fn max_vco_amplitude(self) -> u32 {
        if self.low_voltage() {
            2
        } else {
            7
        }
    }

    pub open spec fn spec_set_vco_amplitude(self, v: RegisterFileView, amplitude: u32) -> Result<
        RegisterFileView,
        DomainError,
    > {
        if amplitude <= self.max_vco_amplitude() {
            Ok(v.write(RegisterAddr::ST4, ST4 { vco_amp: amplitude, ..v.st4() }.payload()))
        } else {
            Err(DomainError::AmplitudeTooHigh)
        }
    }

    /// Sets the VCO amplitude: at most 2 on a low-voltage supply, at most 7
    /// on a high-voltage one. The largest allowed value gives the best phase
    /// noise, a lower one saves power.
    pub fn set_vco_amplitude(&self, regs: &mut RegisterFile, amplitude: u32) -> (res: Result<
        (),
        DomainError,
    >)
        ensures
            applied(res, old(regs)@, final(regs)@, self.spec_set_vco_amplitude(old(regs)@, amplitude)),
    {
        let max: u32 = match self.supply_voltage {
            SupplyVoltage::LowVoltage => 2,
            SupplyVoltage::HighVoltage => 7,
        };
        if amplitude > max {
            return Err(DomainError::AmplitudeTooHigh);
        }
        let mut st4 = regs.st4();
        st4.vco_amp = amplitude;
        regs.write(RegisterAddr::ST4, st4.encode());
        Ok(())
    }

    /// The lock detector's state.
    pub fn is_locked(&self, regs: &RegisterFile) -> (r: bool)
        ensures
            r == regs@.st10().lock_det,
    {
        regs.st10().lock_det
    }

    /// All of the digital, reference, RF and 4.5 V VCO regulators started up.
    pub fn is_startup(&self, regs: &RegisterFile) -> (r: bool)
        ensures
            r == (regs@.st10().reg_dig_startup && regs@.st10().reg_ref_startup
                && regs@.st10().reg_rf_startup && regs@.st10().reg_vco_4v5_startup),
    {
        let st10 = regs.st10();
        st10.reg_dig_startup && st10.reg_ref_startup && st10.reg_rf_startup
            && st10.reg_vco_4v5_startup
    }

    /// One of the digital, reference, RF and 4.5 V VCO regulators reports an
    /// overcurrent.
    pub fn is_ocp(&self, regs: &RegisterFile) -> (r: bool)
        ensures
            r == (regs@.st10().reg_dig_ocp || regs@.st10().reg_ref_ocp || regs@.st10().reg_rf_ocp
                || regs@.st10().reg_vco_4v5_ocp),
    {
        let st10 = regs.st10();
        st10.reg_dig_ocp || st10.reg_ref_ocp || st10.reg_rf_ocp || st10.reg_vco_4v5_ocp
    }
}

/// Initialization is gated on the chip's identity: on 0x804B neither 3.3 V
/// calibration mode bit is set; on 0x8052 both follow the low-voltage supply
/// class; any other identity fails with `UnknownDevice`.
pub proof fn lemma_init_identity_gate(chip: STuW81300, v: RegisterFileView)
    requires
        v.regs.len() == 12,
    ensures
        v.regs[11] == DEVICE_ID_1T ==> (chip.spec_init(v) matches Ok(w)
            && !w.st4().calb_3v3_mode1 && !w.st4().calb_3v3_mode0),
        v.regs[11] == DEVICE_ID_T ==> (chip.spec_init(v) matches Ok(w) && w.st4().calb_3v3_mode1
            == chip.low_voltage() && w.st4().calb_3v3_mode0 == chip.low_voltage()),
        v.regs[11] != DEVICE_ID_1T && v.regs[11] != DEVICE_ID_T ==> chip.spec_init(v) == Err::<
            RegisterFileView,
            DomainError,
        >(DomainError::UnknownDevice(v.regs[11])),
{
    let id = v.regs[11];
    if id == DEVICE_ID_1T || id == DEVICE_ID_T {
        let v1 = v.write(RegisterAddr::ST9, 0);
        lemma_from_payload_wf_st4(v1.regs[4]);
        let low = chip.low_voltage();
        let calb = id == DEVICE_ID_T && low;
        let st4 = ST4 {
            calb_3v3_mode1: calb,
            calb_3v3_mode0: calb,
            rf_out_3v3: low,
            ref_buff_mode: chip.spec_ref_type().spec_code(),
            ..v1.st4()
        };
        lemma_round_trip_st4(st4);
    }
}

/// The PFD frequency of a chip made by `new` stays within the range that
/// the solver takes, and is positive.
proof fn lemma_pfd_in_range(chip: STuW81300, v: RegisterFileView)
    requires
        chip.valid(),
        chip.spec_pfd_frequency(v) is Ok,
    ensures
        chip.spec_pfd_frequency(v)->Ok_0.is_pfd_sized(),
        chip.spec_pfd_frequency(v)->Ok_0.num > 0,
{
    lemma_from_payload_wf_st3(v.regs[3]);
}

/// After `spec_select_path`: dithering is on, PLL_SEL is `pll_sel`, and only
/// ST1 and ST6 changed.
proof fn lemma_select_path_fields(v: RegisterFileView, pll_sel: bool)
    requires
        v.regs.len() == 12,
    ensures
        ({
            let w = STuW81300::spec_select_path(v, pll_sel);
            &&& w.regs.len() == 12
            &&& w.st6().dithering
            &&& w.st6().dsm_order == v.st6().dsm_order
            &&& w.st1().pll_sel == pll_sel
            &&& forall|i: int| 0 <= i < 12 && i != 1 && i != 6 ==> w.regs[i] == v.regs[i]
        }),
{
    let x6 = ST6 { dithering: true, ..v.st6() };
    lemma_from_payload_wf_st6(v.regs[6]);
    lemma_round_trip_st6(x6);
    let v1 = v.write(RegisterAddr::ST6, x6.payload());
    let x1 = ST1 { pll_sel, ..v1.st1() };
    lemma_from_payload_wf_st1(v1.regs[1]);
    lemma_round_trip_st1(x1);
}

/// After `spec_apply_divider`: N, FRAC and MOD hold the divider's values,
/// PLL_SEL is kept, and only ST0, ST1 and ST2 changed.
proof fn lemma_apply_divider_fields(v: RegisterFileView, d: Divider)
    requires
        v.regs.len() == 12,
        d.n_int < 0x20000,
        d.frac < 0x200000,
        d.modu < 0x200000,
    ensures
        ({
            let w = STuW81300::spec_apply_divider(v, d);
            &&& w.regs.len() == 12
            &&& w.st0().n == d.n_int
            &&& w.st1().frac == d.frac
            &&& w.st1().pll_sel == v.st1().pll_sel
            &&& w.st2().modu == d.modu
            &&& forall|i: int| 3 <= i < 12 ==> w.regs[i] == v.regs[i]
        }),
{
    let y0 = ST0 { n: d.n_int, ..v.st0() };
    lemma_from_payload_wf_st0(v.regs[0]);
    lemma_round_trip_st0(y0);
    let a = v.write(RegisterAddr::ST0, y0.payload());
    let y1 = ST1 { frac: d.frac, ..a.st1() };
    lemma_from_payload_wf_st1(a.regs[1]);
    lemma_round_trip_st1(y1);
    let b = a.write(RegisterAddr::ST1, y1.payload());
    let y2 = ST2 { modu: d.modu, ..b.st2() };
    lemma_from_payload_wf_st2(b.regs[2]);
    lemma_round_trip_st2(y2);
}

/// After `spec_set_calibration`: dithering is kept, and only ST4 and ST6
/// changed.
proof fn lemma_set_calibration_fields(v: RegisterFileView, cal: u32, vcalb: bool)
    requires
        v.regs.len() == 12,
        cal < 512,
    ensures
        ({
            let w = STuW81300::spec_set_calibration(v, cal, vcalb);
            &&& w.regs.len() == 12
            &&& w.st6().dithering == v.st6().dithering
            &&& w.st6().cal_div == cal
            &&& forall|i: int| 0 <= i < 4 ==> w.regs[i] == v.regs[i]
        }),
{
    let z6 = ST6 { cal_div: cal, ..v.st6() };
    lemma_from_payload_wf_st6(v.regs[6]);
    lemma_round_trip_st6(z6);
}

/// Setting an output frequency and reading it back: the PFD frequency is
/// unchanged, and the frequency read back differs from the one asked for by
/// at most `k * pfd / (2 * MAX_MOD)`, where `k` is 2 when PLL_SEL is set and
/// 1 otherwise.
pub proof fn lemma_set_then_get_output_frequency(chip: STuW81300, v: RegisterFileView, f: Rational)
    requires
        chip.valid(),
        v.regs.len() == 12,
        f.is_u64_sized(),
        chip.spec_set_output_frequency(v, f) is Ok,
    ensures
        ({
            let w = chip.spec_set_output_frequency(v, f)->Ok_0;
            let pfd = chip.spec_pfd_frequency(v)->Ok_0;
            let k: int = if w.st1().pll_sel {
                2
            } else {
                1
            };
            &&& chip.spec_pfd_frequency(w) == chip.spec_pfd_frequency(v)
            &&& chip.spec_output_frequency(w) is Ok
            &&& -(k * pfd.num * f.den) < chip.spec_output_frequency(w)->Ok_0.num * f.den - f.num
                * chip.spec_output_frequency(w)->Ok_0.den <= k * pfd.num * f.den
        }),
{
    let pfd = chip.spec_pfd_frequency(v)->Ok_0;
    lemma_pfd_in_range(chip, v);
    let order = DsmOrder::spec_from_code(v.st6().dsm_order);
    let n = spec_target_ratio(f, pfd);
    let s = spec_solve_output_frequency(f, pfd, order)->Ok_0;
    let cal = spec_calibrator_division(pfd, n)->Ok_0;
    let vcalb = chip.low_voltage() || f.num > VCALB_HIGH_ABOVE_HZ * f.den;
    let k: int = if spec_pll_halved(f) {
        2
    } else {
        1
    };
    assert(0 < f.den * pfd.num * k < RATIO_LIMIT) by (nonlinear_arith)
        requires
            0 < f.den <= u64::MAX,
            0 < pfd.num < PFD_LIMIT,
            0 < k <= 2,
    ;
    lemma_solved_divider_fields(n, order, true);
    let v2 = STuW81300::spec_select_path(v, s.pll_sel);
    lemma_select_path_fields(v, s.pll_sel);
    let v3 = STuW81300::spec_apply_divider(v2, s.divider);
    lemma_apply_divider_fields(v2, s.divider);
    lemma_set_calibration_fields(v3, cal, vcalb);
    let w = chip.spec_set_output_frequency(v, f)->Ok_0;
    assert(w == STuW81300::spec_apply_output(v, s, cal, vcalb));
    assert(w.regs[3] == v.regs[3]);
    lemma_output_frequency_error(f, pfd, order);
}

} // verus!
