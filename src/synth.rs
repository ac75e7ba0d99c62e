//! Frequency arithmetic of the synthesizer: PFD frequency, output frequency
//! and the solve from a wanted frequency to divider register values.
//!
//! Frequencies and divider ratios are exact fractions.
use vstd::prelude::*;
use crate::error::DomainError;
use vstd::arithmetic::div_mod::{lemma_fundamental_div_mod, lemma_mod_pos_bound};

verus! {

/// Largest MOD value, and the one the solver always uses.
pub const MAX_MOD: u32 = 2097151;

/// Bound on the numerator and denominator of a divider ratio.
pub const RATIO_LIMIT: u128 = 0x10000000000000000000000000;

/// Bound on the numerator and denominator of a PFD frequency.
pub const PFD_LIMIT: u128 = 0x400000000;

/// A non-negative fraction `num / den`: a frequency in Hz or a divider ratio.
#[derive(Debug, Clone, Copy, PartialEq, Eq, Structural)]
pub struct Rational {
    pub num: u128,
    pub den: u128,
}

impl Rational {
    /// Numerator and denominator each fit in 64 bits.
    pub open spec fn is_u64_sized(self) -> bool {
        self.num <= u64::MAX && 0 < self.den <= u64::MAX
    }

    /// Within the range of `pfd_frequency`.
    pub open spec fn is_pfd_sized(self) -> bool {
        self.num < PFD_LIMIT && 0 < self.den < PFD_LIMIT
    }

    /// Within the range that the divider solve takes.
    pub open spec fn is_ratio_sized(self) -> bool {
        self.num < RATIO_LIMIT && 0 < self.den < RATIO_LIMIT
    }

    pub fn new(num: u64, den: u64) -> (r: Rational)
        requires
            den > 0,
        ensures
            r.num == num,
            r.den == den,
            r.is_u64_sized(),
    {
        Rational { num: num as u128, den: den as u128 }
    }

    pub fn from_hz(hz: u64) -> (r: Rational)
        ensures
            r.num == hz,
            r.den == 1,
            r.is_u64_sized(),
    {
        Rational { num: hz as u128, den: 1 }
    }
}

/// Scaling of the reference clock ahead of the R divider.
#[derive(Debug, Clone, Copy, PartialEq, Eq, Structural)]
pub enum ReferenceClockPath {
    Direct,
    Doubled,
    Halved,
    Quartered,
}

impl ReferenceClockPath {
    /// The value of ST3's REF_PATH_SEL field.
    pub open spec fn spec_code(self) -> u32 {
        match self {
            ReferenceClockPath::Direct => 0,
            ReferenceClockPath::Doubled => 1,
            ReferenceClockPath::Halved => 2,
            ReferenceClockPath::Quartered => 3,
        }
    }

    pub open spec fn spec_from_code(c: u32) -> ReferenceClockPath {
        if c == 0 {
            ReferenceClockPath::Direct
        } else if c == 1 {
            ReferenceClockPath::Doubled
        } else if c == 2 {
            ReferenceClockPath::Halved
        } else {
            ReferenceClockPath::Quartered
        }
    }

    /// Factor applied to the reference frequency.
    pub open spec fn multiplier(self) -> int {
        if self == ReferenceClockPath::Doubled {
            2
        } else {
            1
        }
    }

    /// Divisor applied to the reference frequency.
    pub open spec fn divisor(self) -> int {
        match self {
            ReferenceClockPath::Halved => 2,
            ReferenceClockPath::Quartered => 4,
            _ => 1,
        }
    }

    pub fn code(&self) -> (r: u32)
        ensures
            r == self.spec_code(),
            r < 4,
    {
        match self {
            ReferenceClockPath::Direct => 0,
            ReferenceClockPath::Doubled => 1,
            ReferenceClockPath::Halved => 2,
            ReferenceClockPath::Quartered => 3,
        }
    }

    pub fn from_code(c: u32) -> (r: ReferenceClockPath)
        requires
            c < 4,
        ensures
            r == ReferenceClockPath::spec_from_code(c),
            r.spec_code() == c,
    {
        if c == 0 {
            ReferenceClockPath::Direct
        } else if c == 1 {
            ReferenceClockPath::Doubled
        } else if c == 2 {
            ReferenceClockPath::Halved
        } else {
            ReferenceClockPath::Quartered
        }
    }
}

/// Signal path to the PLL. Set `Halved` for VCO operation above 6 GHz.
#[derive(Debug, Clone, Copy, PartialEq, Eq, Structural)]
pub enum PllPath {
    Direct,
    Halved,
}

/// Order of the delta-sigma modulator.
#[derive(Debug, Clone, Copy, PartialEq, Eq, Structural)]
pub enum DsmOrder {
    ThirdOrder,
    SecondOrder,
    FirstOrder,
    FourthOrder,
}

impl DsmOrder {
    /// The value of ST6's DSM_ORDER field.
    pub open spec fn spec_code(self) -> u32 {
        match self {
            DsmOrder::ThirdOrder => 0,
            DsmOrder::SecondOrder => 1,
            DsmOrder::FirstOrder => 2,
            DsmOrder::FourthOrder => 3,
        }
    }

    pub open spec fn spec_from_code(c: u32) -> DsmOrder {
        if c == 0 {
            DsmOrder::ThirdOrder
        } else if c == 1 {
            DsmOrder::SecondOrder
        } else if c == 2 {
            DsmOrder::FirstOrder
        } else {
            DsmOrder::FourthOrder
        }
    }

    /// Smallest admissible divider ratio.
    pub open spec fn n_min(self) -> u128 {
        match self {
            DsmOrder::ThirdOrder => 27,
            DsmOrder::SecondOrder => 25,
            DsmOrder::FirstOrder => 24,
            DsmOrder::FourthOrder => 31,
        }
    }

    /// Largest admissible divider ratio.
    pub open spec fn n_max(self) -> u128 {
        match self {
            DsmOrder::ThirdOrder => 507,
            DsmOrder::SecondOrder => 509,
            DsmOrder::FirstOrder => 510,
            DsmOrder::FourthOrder => 503,
        }
    }

    pub fn code(&self) -> (r: u32)
        ensures
            r == self.spec_code(),
            r < 4,
    {
        match self {
            DsmOrder::ThirdOrder => 0,
            DsmOrder::SecondOrder => 1,
            DsmOrder::FirstOrder => 2,
            DsmOrder::FourthOrder => 3,
        }
    }

    pub fn from_code(c: u32) -> (r: DsmOrder)
        requires
            c < 4,
        ensures
            r == DsmOrder::spec_from_code(c),
            r.spec_code() == c,
    {
        if c == 0 {
            DsmOrder::ThirdOrder
        } else if c == 1 {
            DsmOrder::SecondOrder
        } else if c == 2 {
            DsmOrder::FirstOrder
        } else {
            DsmOrder::FourthOrder
        }
    }

    fn bounds(&self) -> (r: (u128, u128))
        ensures
            r.0 == self.n_min(),
            r.1 == self.n_max(),
    {
        match self {
            DsmOrder::ThirdOrder => (27, 507),
            DsmOrder::SecondOrder => (25, 509),
            DsmOrder::FirstOrder => (24, 510),
            DsmOrder::FourthOrder => (31, 503),
        }
    }
}

/// PFD frequency: the reference frequency scaled by the path, divided by R.
pub open spec fn spec_pfd(ref_freq: u32, path: ReferenceClockPath, r: u32) -> Rational {
    Rational {
        num: (ref_freq * path.multiplier()) as u128,
        den: (r * path.divisor()) as u128,
    }
}

pub fn pfd_frequency(ref_freq: u32, path: ReferenceClockPath, r: u32) -> (f: Rational)
    requires
        r >= 1,
    ensures
        f == spec_pfd(ref_freq, path, r),
        f.is_pfd_sized(),
{
    let rf = ref_freq as u128;
    let rr = r as u128;
    match path {
        ReferenceClockPath::Direct => Rational { num: rf, den: rr },
        ReferenceClockPath::Doubled => Rational { num: 2 * rf, den: rr },
        ReferenceClockPath::Halved => Rational { num: rf, den: 2 * rr },
        ReferenceClockPath::Quartered => Rational { num: rf, den: 4 * rr },
    }
}

/// Output frequency for the divider registers: the PFD frequency times
/// `n_int + frac / modu + dithering / (2 * modu)`, doubled when ST1's PLL_SEL
/// bit is set.
pub open spec fn spec_output_frequency(
    pfd: Rational,
    n_int: u32,
    frac: u32,
    modu: u32,
    dithering: bool,
    pll_sel: bool,
) -> Rational {
    let d: int = if dithering {
        1
    } else {
        0
    };
    let k: int = if pll_sel {
        2
    } else {
        1
    };
    Rational {
        num: (pfd.num * (2 * modu * n_int + 2 * frac + d) * k) as u128,
        den: (pfd.den * 2 * modu) as u128,
    }
}

pub fn output_frequency(
    pfd: Rational,
    n_int: u32,
    frac: u32,
    modu: u32,
    dithering: bool,
    pll_sel: bool,
) -> (f: Rational)
    requires
        pfd.is_pfd_sized(),
        n_int < 0x20000,
        frac < 0x200000,
        0 < modu < 0x200000,
    ensures
        f == spec_output_frequency(pfd, n_int, frac, modu, dithering, pll_sel),
        f.den > 0,
{
    let m = modu as u128;
    let d: u128 = if dithering {
        1
    } else {
        0
    };
    let k: u128 = if pll_sel {
        2
    } else {
        1
    };
    assert(2 * m * (n_int as u128) < 0x10000000000) by (nonlinear_arith)
        requires
            m < 0x200000,
            n_int < 0x20000,
    ;
    let t = 2 * m * (n_int as u128) + 2 * (frac as u128) + d;
    assert(pfd.num * t * k < 0x100000000000000000000000000) by (nonlinear_arith)
        requires
            pfd.num < 0x400000000,
            t < 0x20000000000,
            k <= 2,
    ;
    assert(pfd.den * 2 * m < 0x100000000000000) by (nonlinear_arith)
        requires
            pfd.den < 0x400000000,
            m < 0x200000,
    ;
    assert(pfd.den * 2 * m > 0) by (nonlinear_arith)
        requires
            pfd.den > 0,
            m > 0,
    ;
    Rational { num: pfd.num * t * k, den: pfd.den * 2 * m }
}

/// The divider ratio `n` lies in the closed range that `order` admits.
pub open spec fn in_dsm_range(order: DsmOrder, n: Rational) -> bool {
    order.n_min() * n.den <= n.num <= order.n_max() * n.den
}

pub fn validate_n_range(order: DsmOrder, n: Rational) -> (r: Result<(), DomainError>)
    requires
        n.is_ratio_sized(),
    ensures
        r is Ok <==> in_dsm_range(order, n),
        r is Err ==> r == Err::<(), DomainError>(DomainError::DividerOutOfRange),
{
    let (lo, hi) = order.bounds();
    if lo * n.den <= n.num && n.num <= hi * n.den {
        Ok(())
    } else {
        Err(DomainError::DividerOutOfRange)
    }
}

/// Values for the N, FRAC and MOD fields.
#[derive(Debug, Clone, Copy, PartialEq, Eq, Structural)]
pub struct Divider {
    pub n_int: u32,
    pub frac: u32,
    pub modu: u32,
}

/// FRAC for a fractional part `rem / den` at the largest MOD:
/// `round((2 * (rem / den) * MAX_MOD - dithering) / 2)`, halves rounded away
/// from zero, and no less than zero.
pub open spec fn spec_frac(rem: int, den: int, dithering: bool) -> int {
    let x = 2 * rem * MAX_MOD - (if dithering {
        den
    } else {
        0
    });
    if x < 0 {
        0
    } else {
        (x + den) / (2 * den)
    }
}

/// What `solve_divider` answers: the checks in their order, then N as the
/// integer part of `n`, FRAC from its fractional part, and MOD at its largest.
pub open spec fn spec_solve_divider(n: Rational, order: DsmOrder, dithering: bool) -> Result<
    Divider,
    DomainError,
> {
    if n.num < 24 * n.den {
        Err(DomainError::InvalidDividerRatio)
    } else if n.num / n.den >= 512 && n.num % n.den != 0 {
        Err(DomainError::FractionalNotAllowedAboveN512)
    } else if !in_dsm_range(order, n) {
        Err(DomainError::DividerOutOfRange)
    } else {
        Ok(
            Divider {
                n_int: (n.num / n.den) as u32,
                frac: spec_frac((n.num % n.den) as int, n.den as int, dithering) as u32,
                modu: MAX_MOD,
            },
        )
    }
}

/// Solves the divider registers for the ratio `n`. MOD is always the largest
/// value, which makes the frequency error smallest.
pub fn solve_divider(n: Rational, order: DsmOrder, dithering: bool) -> (r: Result<
    Divider,
    DomainError,
>)
    requires
        n.is_ratio_sized(),
    ensures
        r == spec_solve_divider(n, order, dithering),
        r matches Ok(d) ==> {
            &&& d.n_int <= 510
            &&& d.frac as int == spec_frac((n.num % n.den) as int, n.den as int, dithering)
            &&& d.frac <= MAX_MOD
            &&& dithering ==> d.frac < MAX_MOD
        },
{
    if n.num < 24 * n.den {
        return Err(DomainError::InvalidDividerRatio);
    }
    let n_int = n.num / n.den;
    let rem = n.num % n.den;
    if n_int >= 512 && rem != 0 {
        return Err(DomainError::FractionalNotAllowedAboveN512);
    }
    if let Err(e) = validate_n_range(order, n) {
        return Err(e);
    }
    let den = n.den;
    proof {
        let hi = order.n_max();
        assert(hi * den <= 510 * den) by (nonlinear_arith)
            requires
                hi <= 510,
        ;
        lemma_fundamental_div_mod(n.num as int, den as int);
        lemma_mod_pos_bound(n.num as int, den as int);
        assert(n_int <= 510) by (nonlinear_arith)
            requires
                n.num == den * n_int + rem,
                rem >= 0,
                n.num <= 510 * den,
                den > 0,
        ;
        assert(2 * rem * (MAX_MOD as u128) < 2 * den * (MAX_MOD as int)) by (nonlinear_arith)
            requires
                0 <= rem < den,
        ;
    }
    let x = 2 * rem * (MAX_MOD as u128);
    let dd: u128 = if dithering {
        den
    } else {
        0
    };
    let frac: u128 = if x < dd {
        0
    } else {
        (x - dd + den) / (2 * den)
    };
    proof {
        lemma_frac_facts(rem as int, den as int, dithering);
    }
    Ok(Divider { n_int: n_int as u32, frac: frac as u32, modu: MAX_MOD })
}

/// Above this output frequency, in Hz, the PLL takes the halved path.
pub const HALVED_PATH_ABOVE_HZ: u128 = 6_000_000_000;

/// Fastest VCO calibrator clock, in Hz.
pub const CALIBRATOR_MAX_HZ: u128 = 250_000;

/// Largest divider ratio for which the calibrator division is derived.
pub const AUTO_CALIBRATION_N_MAX: u128 = 512;

/// Register values that produce an output frequency.
#[derive(Debug, Clone, Copy, PartialEq, Eq, Structural)]
pub struct OutputSetting {
    /// ST1's PLL_SEL bit: set for the path used above 6 GHz.
    pub pll_sel: bool,
    pub divider: Divider,
}

/// A wanted output frequency above 6 GHz takes the halved PLL path.
pub open spec fn spec_pll_halved(f: Rational) -> bool {
    f.num > HALVED_PATH_ABOVE_HZ * f.den
}

/// The divider ratio for output frequency `f`: `f / pfd`, halved on the
/// halved PLL path.
pub open spec fn spec_target_ratio(f: Rational, pfd: Rational) -> Rational {
    let k: int = if spec_pll_halved(f) {
        2
    } else {
        1
    };
    Rational { num: (f.num * pfd.den) as u128, den: (f.den * pfd.num * k) as u128 }
}

/// What `solve_output_frequency` answers: the path for `f`, and the divider
/// solved with dithering on.
pub open spec fn spec_solve_output_frequency(f: Rational, pfd: Rational, order: DsmOrder) -> Result<
    OutputSetting,
    DomainError,
> {
    match spec_solve_divider(spec_target_ratio(f, pfd), order, true) {
        Ok(d) => Ok(OutputSetting { pll_sel: spec_pll_halved(f), divider: d }),
        Err(e) => Err(e),
    }
}

pub fn target_ratio(f: Rational, pfd: Rational) -> (n: Rational)
    requires
        f.is_u64_sized(),
        pfd.is_pfd_sized(),
        pfd.num > 0,
    ensures
        n == spec_target_ratio(f, pfd),
        n.is_ratio_sized(),
{
    let k: u128 = if f.num > HALVED_PATH_ABOVE_HZ * f.den {
        2
    } else {
        1
    };
    assert(f.num * pfd.den < RATIO_LIMIT) by (nonlinear_arith)
        requires
            f.num <= u64::MAX,
            pfd.den < PFD_LIMIT,
    ;
    assert(0 < f.den * pfd.num * k < RATIO_LIMIT) by (nonlinear_arith)
        requires
            0 < f.den <= u64::MAX,
            0 < pfd.num < PFD_LIMIT,
            0 < k <= 2,
    ;
    Rational { num: f.num * pfd.den, den: f.den * pfd.num * k }
}

/// Solves the registers for output frequency `f` at PFD frequency `pfd`.
pub fn solve_output_frequency(f: Rational, pfd: Rational, order: DsmOrder) -> (r: Result<
    OutputSetting,
    DomainError,
>)
    requires
        f.is_u64_sized(),
        pfd.is_pfd_sized(),
        pfd.num > 0,
    ensures
        r == spec_solve_output_frequency(f, pfd, order),
        r matches Ok(s) ==> s.divider.n_int <= 510 && s.divider.frac < MAX_MOD,
{
    let n = target_ratio(f, pfd);
    match solve_divider(n, order, true) {
        Ok(d) => Ok(OutputSetting { pll_sel: f.num > HALVED_PATH_ABOVE_HZ * f.den, divider: d }),
        Err(e) => Err(e),
    }
}

/// What `calibrator_division` answers: `floor(pfd / 250 kHz)` for a divider
/// ratio up to 512, which the 9-bit field must hold.
pub open spec fn spec_calibrator_division(pfd: Rational, n: Rational) -> Result<u32, DomainError> {
    if n.num > AUTO_CALIBRATION_N_MAX * n.den {
        Err(DomainError::ManualConfigurationRequired)
    } else if pfd.num as int / (CALIBRATOR_MAX_HZ * pfd.den) > 511 {
        Err(DomainError::CalibratorDivisionOutOfRange)
    } else {
        Ok((pfd.num as int / (CALIBRATOR_MAX_HZ * pfd.den)) as u32)
    }
}

/// The calibrator division that runs the VCO calibrator at its fastest
/// clock, 250 kHz, for divider ratio `n`.
pub fn calibrator_division(pfd: Rational, n: Rational) -> (r: Result<u32, DomainError>)
    requires
        pfd.is_pfd_sized(),
        n.is_ratio_sized(),
    ensures
        r == spec_calibrator_division(pfd, n),
        r matches Ok(c) ==> c < 512,
{
    if n.num > AUTO_CALIBRATION_N_MAX * n.den {
        return Err(DomainError::ManualConfigurationRequired);
    }
    let c = pfd.num / (CALIBRATOR_MAX_HZ * pfd.den);
    if c > 511 {
        Err(DomainError::CalibratorDivisionOutOfRange)
    } else {
        Ok(c as u32)
    }
}

/// Calibrator clock: the PFD frequency divided by the calibrator division.
pub open spec fn spec_calibrator_frequency(pfd: Rational, cal_div: u32) -> Rational {
    Rational { num: pfd.num, den: (pfd.den * cal_div) as u128 }
}

pub fn calibrator_frequency(pfd: Rational, cal_div: u32) -> (f: Rational)
    requires
        pfd.is_pfd_sized(),
        cal_div > 0,
    ensures
        f == spec_calibrator_frequency(pfd, cal_div),
        f.den > 0,
{
    assert(0 < pfd.den * (cal_div as u128) < 0x100000000000000000000) by (nonlinear_arith)
        requires
            0 < pfd.den < PFD_LIMIT,
            0 < cal_div,
            cal_div <= u32::MAX,
    ;
    Rational { num: pfd.num, den: pfd.den * (cal_div as u128) }
}

/// FRAC stays within MOD, and below it with dithering on; with dithering
/// on, `2 * den * frac` is within `den` of `2 * rem * MAX_MOD - den`.
proof fn lemma_frac_facts(rem: int, den: int, dithering: bool)
    requires
        0 <= rem < den,
    ensures
        0 <= spec_frac(rem, den, dithering) <= MAX_MOD,
        dithering ==> spec_frac(rem, den, dithering) < MAX_MOD,
        dithering ==> -den < 2 * den * spec_frac(rem, den, dithering) - (2 * rem * MAX_MOD - den)
            <= den,
{
    let m = MAX_MOD as int;
    let dd = if dithering {
        den
    } else {
        0
    };
    let x = 2 * rem * m - dd;
    assert(2 * rem * m <= 2 * (den - 1) * m) by (nonlinear_arith)
        requires
            0 <= rem < den,
            m > 0,
    ;
    if x >= 0 {
        let y = x + den;
        lemma_fundamental_div_mod(y, 2 * den);
        lemma_mod_pos_bound(y, 2 * den);
        let q = y / (2 * den);
        assert(q >= 0 && q <= 2097151) by (nonlinear_arith)
            requires
                y == 2 * den * q + y % (2 * den),
                0 <= y % (2 * den) < 2 * den,
                0 <= y <= 2 * (den - 1) * 2097151 + den,
                den > 0,
        ;
        if dithering {
            assert(q < 2097151) by (nonlinear_arith)
                requires
                    y == 2 * den * q + y % (2 * den),
                    y % (2 * den) >= 0,
                    y <= 2 * (den - 1) * 2097151,
                    den > 0,
                    q >= 0,
            ;
        }
    }
}

/// The divider solve succeeds exactly on the ratios that the DSM order
/// admits: every admissible ratio is at least 24, and below 512 so that it
/// may have a fractional part.
pub proof fn lemma_solve_divider_ok_iff_in_range(n: Rational, order: DsmOrder, dithering: bool)
    requires
        n.den > 0,
    ensures
        spec_solve_divider(n, order, dithering) is Ok <==> in_dsm_range(order, n),
{
    if in_dsm_range(order, n) {
        let lo = order.n_min();
        let hi = order.n_max();
        assert(24 * n.den <= lo * n.den && hi * n.den <= 510 * n.den) by (nonlinear_arith)
            requires
                24 <= lo,
                hi <= 510,
        ;
        lemma_fundamental_div_mod(n.num as int, n.den as int);
        lemma_mod_pos_bound(n.num as int, n.den as int);
        let q = n.num as int / n.den as int;
        assert(q <= 510) by (nonlinear_arith)
            requires
                n.num == n.den * q + n.num as int % n.den as int,
                n.num as int % n.den as int >= 0,
                n.num <= 510 * n.den,
                n.den > 0,
        ;
    }
}

/// A solved divider holds the integer part of the ratio, at most 510, and a
/// FRAC no larger than MOD.
pub proof fn lemma_solved_divider_fields(n: Rational, order: DsmOrder, dithering: bool)
    requires
        n.den > 0,
        spec_solve_divider(n, order, dithering) is Ok,
    ensures
        ({
            let d = spec_solve_divider(n, order, dithering)->Ok_0;
            &&& d.n_int == n.num / n.den
            &&& d.n_int <= 510
            &&& d.frac == spec_frac((n.num % n.den) as int, n.den as int, dithering)
            &&& d.frac <= MAX_MOD
            &&& d.modu == MAX_MOD
        }),
{
    lemma_solve_divider_ok_iff_in_range(n, order, dithering);
    lemma_fundamental_div_mod(n.num as int, n.den as int);
    lemma_mod_pos_bound(n.num as int, n.den as int);
    let q = n.num as int / n.den as int;
    let hi = order.n_max();
    assert(hi * n.den <= 510 * n.den) by (nonlinear_arith)
        requires
            hi <= 510,
    ;
    assert(q <= 510) by (nonlinear_arith)
        requires
            n.num == n.den * q + n.num as int % n.den as int,
            n.num as int % n.den as int >= 0,
            n.num <= 510 * n.den,
            n.den > 0,
    ;
    lemma_frac_facts((n.num % n.den) as int, n.den as int, dithering);
}

/// With third-order DSM the divider solve fails for every ratio below 27 and
/// every ratio above 507.
pub proof fn lemma_third_order_rejects(n: Rational, dithering: bool)
    requires
        n.den > 0,
        n.num < 27 * n.den || n.num > 507 * n.den,
    ensures
        spec_solve_divider(n, DsmOrder::ThirdOrder, dithering) is Err,
{
    lemma_solve_divider_ok_iff_in_range(n, DsmOrder::ThirdOrder, dithering);
}

/// With dithering on, the ratio that the solved registers stand for,
/// `n_int + frac / MAX_MOD + 1 / (2 * MAX_MOD)`, is within `1 / (2 * MAX_MOD)`
/// of the ratio asked for.
pub proof fn lemma_divider_quantization(n: Rational, order: DsmOrder)
    requires
        n.is_ratio_sized(),
        spec_solve_divider(n, order, true) is Ok,
    ensures
        ({
            let d = spec_solve_divider(n, order, true)->Ok_0;
            let err = (2 * MAX_MOD * d.n_int + 2 * d.frac + 1) * n.den - 2 * MAX_MOD * n.num;
            -n.den < err <= n.den
        }),
{
    let m = MAX_MOD as int;
    let nn = n.num as int;
    let den = n.den as int;
    lemma_solve_divider_ok_iff_in_range(n, order, true);
    lemma_fundamental_div_mod(nn, den);
    lemma_mod_pos_bound(nn, den);
    let q = nn / den;
    let rem = nn % den;
    let hi = order.n_max();
    assert(hi * n.den <= 510 * n.den) by (nonlinear_arith)
        requires
            hi <= 510,
    ;
    assert(q <= 510) by (nonlinear_arith)
        requires
            nn == den * q + rem,
            rem >= 0,
            nn <= 510 * den,
            den > 0,
    ;
    lemma_frac_facts(rem, den, true);
    let frac = spec_frac(rem, den, true);
    let d = spec_solve_divider(n, order, true)->Ok_0;
    assert(d.n_int == q && d.frac == frac);
    assert((2 * m * q + 2 * frac + 1) * den - 2 * m * nn == 2 * den * frac - (2 * rem * m - den))
        by (nonlinear_arith)
        requires
            nn == den * q + rem,
    ;
}

/// Setting a solved output frequency and reading it back: the frequency that
/// the registers give differs from the one asked for by at most
/// `k * pfd / (2 * MAX_MOD)`, where `k` is 2 on the halved PLL path and 1
/// otherwise. With a 50 MHz PFD this is under 24 Hz.
pub proof fn lemma_output_frequency_error(f: Rational, pfd: Rational, order: DsmOrder)
    requires
        f.is_u64_sized(),
        pfd.is_pfd_sized(),
        pfd.num > 0,
        spec_solve_output_frequency(f, pfd, order) is Ok,
    ensures
        ({
            let s = spec_solve_output_frequency(f, pfd, order)->Ok_0;
            let out = spec_output_frequency(
                pfd,
                s.divider.n_int,
                s.divider.frac,
                MAX_MOD,
                true,
                s.pll_sel,
            );
            let k: int = if s.pll_sel {
                2
            } else {
                1
            };
            let err = out.num * f.den - f.num * out.den;
            -(k * pfd.num * f.den) < err <= k * pfd.num * f.den
        }),
{
    let n = spec_target_ratio(f, pfd);
    let k: int = if spec_pll_halved(f) {
        2
    } else {
        1
    };
    assert(f.num * pfd.den < RATIO_LIMIT) by (nonlinear_arith)
        requires
            f.num <= u64::MAX,
            pfd.den < PFD_LIMIT,
    ;
    assert(0 < f.den * pfd.num * k < RATIO_LIMIT) by (nonlinear_arith)
        requires
            0 < f.den <= u64::MAX,
            0 < pfd.num < PFD_LIMIT,
            0 < k <= 2,
    ;
    assert(n.num == f.num * pfd.den && n.den == f.den * pfd.num * k);
    lemma_divider_quantization(n, order);
    let d = spec_solve_divider(n, order, true)->Ok_0;
    lemma_solved_divider_fields(n, order, true);
    let m = MAX_MOD as int;
    let a = 2 * m * d.n_int + 2 * d.frac + 1;
    assert(0 < a < 0x20000000000) by (nonlinear_arith)
        requires
            a == 2 * m * d.n_int + 2 * d.frac + 1,
            m == 2097151,
            d.n_int <= 0xffff_ffff,
            d.frac <= 0xffff_ffff,
            d.n_int <= 512,
            d.frac <= 2097151,
    ;
    assert(pfd.num * a * k < 0x1_0000_0000_0000_0000_0000_0000) by (nonlinear_arith)
        requires
            pfd.num < PFD_LIMIT,
            0 < a < 0x20000000000,
            0 < k <= 2,
    ;
    assert(pfd.den * 2 * m < 0x1_0000_0000_0000_0000_0000_0000) by (nonlinear_arith)
        requires
            pfd.den < PFD_LIMIT,
            m == 2097151,
    ;
    let out = spec_output_frequency(pfd, d.n_int, d.frac, MAX_MOD, true, spec_pll_halved(f));
    assert(out.num == pfd.num * a * k && out.den == pfd.den * 2 * m);
    assert(out.num * f.den - f.num * out.den == a * n.den - 2 * m * n.num) by (nonlinear_arith)
        requires
            out.num == pfd.num * a * k,
            out.den == pfd.den * 2 * m,
            n.num == f.num * pfd.den,
            n.den == f.den * pfd.num * k,
    ;
    assert(n.den == k * pfd.num * f.den) by (nonlinear_arith)
        requires
            n.den == f.den * pfd.num * k,
    ;
    assert(spec_solve_output_frequency(f, pfd, order)->Ok_0 == OutputSetting {
        pll_sel: spec_pll_halved(f),
        divider: d,
    });
}

/// With a PFD frequency of at most 100 MHz, a solved output frequency reads
/// back within 50 Hz of the frequency asked for.
pub proof fn lemma_output_frequency_within_50_hz(f: Rational, pfd: Rational, order: DsmOrder)
    requires
        f.is_u64_sized(),
        pfd.is_pfd_sized(),
        pfd.num > 0,
        pfd.num <= 100_000_000 * pfd.den,
        spec_solve_output_frequency(f, pfd, order) is Ok,
    ensures
        ({
            let s = spec_solve_output_frequency(f, pfd, order)->Ok_0;
            let out = spec_output_frequency(
                pfd,
                s.divider.n_int,
                s.divider.frac,
                MAX_MOD,
                true,
                s.pll_sel,
            );
            let err = out.num * f.den - f.num * out.den;
            -(50 * out.den * f.den) <= err <= 50 * out.den * f.den
        }),
{
    lemma_output_frequency_error(f, pfd, order);
    let s = spec_solve_output_frequency(f, pfd, order)->Ok_0;
    let k: int = if s.pll_sel {
        2
    } else {
        1
    };
    assert(pfd.den * 2 * MAX_MOD < 0x1_0000_0000_0000_0000_0000_0000) by (nonlinear_arith)
        requires
            pfd.den < PFD_LIMIT,
    ;
    let out = spec_output_frequency(pfd, s.divider.n_int, s.divider.frac, MAX_MOD, true, s.pll_sel);
    assert(out.den == pfd.den * 2 * MAX_MOD);
    assert(k * pfd.num * f.den <= 50 * (pfd.den * 2 * MAX_MOD) * f.den) by (nonlinear_arith)
        requires
            0 < k <= 2,
            pfd.num <= 100_000_000 * pfd.den,
            f.den > 0,
            pfd.den > 0,
    ;
}

} // verus!
