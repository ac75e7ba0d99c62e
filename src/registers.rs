//! Bit layouts of the chip's registers and their encoding into payloads.
use vstd::prelude::*;

verus! {

/// Address of one of the chip's twelve registers.
#[derive(Debug, Clone, Copy, PartialEq, Eq, Structural)]
pub enum RegisterAddr {
    /// N divider, charge pump current.
    ST0,
    /// FRAC value, RF1 output control.
    ST1,
    /// MOD value, RF2 output control.
    ST2,
    /// R divider, charge pump leakage, reference path, power down.
    ST3,
    /// Lock detector, reference buffer, VCO and output power settings.
    ST4,
    /// Low power mode control.
    ST5,
    /// VCO calibrator, DSM settings.
    ST6,
    /// Fast lock control, LD_SDO settings.
    ST7,
    /// LDO regulator settings.
    ST8,
    /// Test and initialization register.
    ST9,
    /// VCO, lock detector and LDO status.
    ST10,
    /// Device identity.
    ST11,
}

impl RegisterAddr {
    /// The 4-bit address that the bus frame carries.
    pub open spec fn spec_index(self) -> u8 {
        match self {
            RegisterAddr::ST0 => 0,
            RegisterAddr::ST1 => 1,
            RegisterAddr::ST2 => 2,
            RegisterAddr::ST3 => 3,
            RegisterAddr::ST4 => 4,
            RegisterAddr::ST5 => 5,
            RegisterAddr::ST6 => 6,
            RegisterAddr::ST7 => 7,
            RegisterAddr::ST8 => 8,
            RegisterAddr::ST9 => 9,
            RegisterAddr::ST10 => 10,
            RegisterAddr::ST11 => 11,
        }
    }

    /// The status and identity registers cannot be written.
    pub open spec fn spec_read_only(self) -> bool {
        self == RegisterAddr::ST10 || self == RegisterAddr::ST11
    }

    pub fn index(&self) -> (r: u8)
        ensures
            r == self.spec_index(),
            r < 12,
    {
        match self {
            RegisterAddr::ST0 => 0,
            RegisterAddr::ST1 => 1,
            RegisterAddr::ST2 => 2,
            RegisterAddr::ST3 => 3,
            RegisterAddr::ST4 => 4,
            RegisterAddr::ST5 => 5,
            RegisterAddr::ST6 => 6,
            RegisterAddr::ST7 => 7,
            RegisterAddr::ST8 => 8,
            RegisterAddr::ST9 => 9,
            RegisterAddr::ST10 => 10,
            RegisterAddr::ST11 => 11,
        }
    }

    pub fn read_only(&self) -> (r: bool)
        ensures
            r == self.spec_read_only(),
    {
        matches!(self, RegisterAddr::ST10 | RegisterAddr::ST11)
    }
}

/// The `size` lowest bits set.
pub open spec fn bit_mask(size: u32) -> u32 {
    ((1u32 << size) - 1) as u32
}

/// A number field placed at bit `start`.
pub open spec fn put_num(num: u32, start: u32) -> u32 {
    num << start
}

/// A flag placed at bit `bit`.
pub open spec fn put_flag(flag: bool, bit: u32) -> u32 {
    if flag {
        1u32 << bit
    } else {
        0u32
    }
}

/// The number field of `size` bits that starts at bit `start`.
pub open spec fn get_num(payload: u32, start: u32, size: u32) -> u32 {
    (payload >> start) & bit_mask(size)
}

/// The flag at bit `bit`.
pub open spec fn get_flag(payload: u32, bit: u32) -> bool {
    (payload >> bit) & 1u32 == 1u32
}

pub fn shift_flag_forward(flag: bool, bit: u8) -> (r: u32)
    requires
        bit < 32,
    ensures
        r == put_flag(flag, bit as u32),
{
    if flag {
        1u32 << bit
    } else {
        0u32
    }
}

pub fn shift_num_forward(num: u32, start: u8) -> (r: u32)
    requires
        start < 32,
    ensures
        r == put_num(num, start as u32),
{
    num << start
}

pub fn shift_flag_back(payload: u32, bit: u8) -> (r: bool)
    requires
        bit < 32,
    ensures
        r == get_flag(payload, bit as u32),
{
    (payload >> bit) & 1u32 == 1u32
}

pub fn shift_num_back(payload: u32, start: u8, size: u8) -> (r: u32)
    requires
        start < 32,
        1 <= size < 32,
    ensures
        r == get_num(payload, start as u32, size as u32),
        r <= bit_mask(size as u32),
{
    let s = size as u32;
    assert(1u32 <= (1u32 << s)) by (bit_vector)
        requires
            s < 32,
    ;
    let r = (payload >> start) & ((1u32 << size) - 1);
    assert(r <= bit_mask(s)) by (bit_vector)
        requires
            r == (payload >> start) & bit_mask(s),
    ;
    r
}

/// N divider, charge pump current and PFD delay.
#[derive(Debug, Clone, Copy, PartialEq, Eq, Structural)]
pub struct ST0 {
    pub cp_sel: u32,
    pub pfd_del: u32,
    pub n: u32,
}

impl ST0 {
    /// Every number field fits in its bit width.
    pub open spec fn wf(self) -> bool {
        self.cp_sel < 32 && self.pfd_del < 4 && self.n < 0x20000
    }

    /// Each number field shifted to its start bit, each set flag as its bit.
    #[verifier::opaque]
    pub open spec fn payload(self) -> u32 {
        put_num(self.cp_sel, 21)
            | put_num(self.pfd_del, 19)
            | put_num(self.n, 0)
    }

    /// Each field read from its bits of `p`; other bits are ignored.
    pub open spec fn from_payload(p: u32) -> ST0 {
        ST0 {
            cp_sel: get_num(p, 21, 5),
            pfd_del: get_num(p, 19, 2),
            n: get_num(p, 0, 17),
        }
    }

    pub fn encode(&self) -> (r: u32)
        requires
            self.wf(),
        ensures
            r == self.payload(),
    {
        proof {
            reveal(ST0::payload);
        }
        shift_num_forward(self.cp_sel, 21)
            | shift_num_forward(self.pfd_del, 19)
            | shift_num_forward(self.n, 0)
    }

    pub fn decode(p: u32) -> (r: ST0)
        ensures
            r == ST0::from_payload(p),
            r.wf(),
    {
        let r = ST0 {
            cp_sel: shift_num_back(p, 21, 5),
            pfd_del: shift_num_back(p, 19, 2),
            n: shift_num_back(p, 0, 17),
        };
        proof {
            lemma_masks();
        }
        r
    }
}

/// Decoding an encoded ST0 gives back every field, and the payload fits
/// in the 27 bits that a bus frame carries.
pub proof fn lemma_round_trip_st0(reg: ST0)
    requires
        reg.wf(),
    ensures
        ST0::from_payload(reg.payload()) == reg,
        reg.payload() < 0x800_0000,
{
    let cp_sel = reg.cp_sel;
    let pfd_del = reg.pfd_del;
    let n = reg.n;
    reveal(ST0::payload);
    let p = reg.payload();
    assert(get_num(p, 21, 5) == cp_sel
        && get_num(p, 19, 2) == pfd_del
        && get_num(p, 0, 17) == n
        && p < 0x800_0000) by (bit_vector)
        requires
            p == put_num(cp_sel, 21)
                | put_num(pfd_del, 19)
                | put_num(n, 0),
            cp_sel < 32,
            pfd_del < 4,
            n < 0x20000,
    ;
}

/// Every ST0 read from a payload is well formed.
pub proof fn lemma_from_payload_wf_st0(p: u32)
    ensures
        ST0::from_payload(p).wf(),
{
    lemma_masks();
    lemma_get_num_bound(p, 21, 5);
    lemma_get_num_bound(p, 19, 2);
    lemma_get_num_bound(p, 0, 17);
}

/// FRAC value, PLL path and RF1 output control.
#[derive(Debug, Clone, Copy, PartialEq, Eq, Structural)]
pub struct ST1 {
    pub frac: u32,
    pub dbr: bool,
    pub rf1_out_pd: bool,
    pub man_calb_en: bool,
    pub pll_sel: bool,
    pub rf1_sel: bool,
}

impl ST1 {
    /// Every number field fits in its bit width.
    pub open spec fn wf(self) -> bool {
        self.frac < 0x200000
    }

    /// Each number field shifted to its start bit, each set flag as its bit.
    #[verifier::opaque]
    pub open spec fn payload(self) -> u32 {
        put_num(self.frac, 0)
            | put_flag(self.dbr, 26)
            | put_flag(self.rf1_out_pd, 24)
            | put_flag(self.man_calb_en, 23)
            | put_flag(self.pll_sel, 22)
            | put_flag(self.rf1_sel, 21)
    }

    /// Each field read from its bits of `p`; other bits are ignored.
    pub open spec fn from_payload(p: u32) -> ST1 {
        ST1 {
            frac: get_num(p, 0, 21),
            dbr: get_flag(p, 26),
            rf1_out_pd: get_flag(p, 24),
            man_calb_en: get_flag(p, 23),
            pll_sel: get_flag(p, 22),
            rf1_sel: get_flag(p, 21),
        }
    }

    pub fn encode(&self) -> (r: u32)
        requires
            self.wf(),
        ensures
            r == self.payload(),
    {
        proof {
            reveal(ST1::payload);
        }
        shift_num_forward(self.frac, 0)
            | shift_flag_forward(self.dbr, 26)
            | shift_flag_forward(self.rf1_out_pd, 24)
            | shift_flag_forward(self.man_calb_en, 23)
            | shift_flag_forward(self.pll_sel, 22)
            | shift_flag_forward(self.rf1_sel, 21)
    }

    pub fn decode(p: u32) -> (r: ST1)
        ensures
            r == ST1::from_payload(p),
            r.wf(),
    {
        let r = ST1 {
            frac: shift_num_back(p, 0, 21),
            dbr: shift_flag_back(p, 26),
            rf1_out_pd: shift_flag_back(p, 24),
            man_calb_en: shift_flag_back(p, 23),
            pll_sel: shift_flag_back(p, 22),
            rf1_sel: shift_flag_back(p, 21),
        };
        proof {
            lemma_masks();
        }
        r
    }
}

/// Decoding an encoded ST1 gives back every field, and the payload fits
/// in the 27 bits that a bus frame carries.
pub proof fn lemma_round_trip_st1(reg: ST1)
    requires
        reg.wf(),
    ensures
        ST1::from_payload(reg.payload()) == reg,
        reg.payload() < 0x800_0000,
{
    let frac = reg.frac;
    let dbr = reg.dbr;
    let rf1_out_pd = reg.rf1_out_pd;
    let man_calb_en = reg.man_calb_en;
    let pll_sel = reg.pll_sel;
    let rf1_sel = reg.rf1_sel;
    reveal(ST1::payload);
    let p = reg.payload();
    assert(get_num(p, 0, 21) == frac
        && get_flag(p, 26) == dbr
        && get_flag(p, 24) == rf1_out_pd
        && get_flag(p, 23) == man_calb_en
        && get_flag(p, 22) == pll_sel
        && get_flag(p, 21) == rf1_sel
        && p < 0x800_0000) by (bit_vector)
        requires
            p == put_num(frac, 0)
                | put_flag(dbr, 26)
                | put_flag(rf1_out_pd, 24)
                | put_flag(man_calb_en, 23)
                | put_flag(pll_sel, 22)
                | put_flag(rf1_sel, 21),
            frac < 0x200000,
    ;
}

/// Every ST1 read from a payload is well formed.
pub proof fn lemma_from_payload_wf_st1(p: u32)
    ensures
        ST1::from_payload(p).wf(),
{
    lemma_masks();
    lemma_get_num_bound(p, 0, 21);
}

/// MOD value and RF2 output control.
#[derive(Debug, Clone, Copy, PartialEq, Eq, Structural)]
pub struct ST2 {
    pub modu: u32,
    pub dbr: bool,
    pub rf2_out_pd: bool,
}

impl ST2 {
    /// Every number field fits in its bit width.
    pub open spec fn wf(self) -> bool {
        self.modu < 0x200000
    }

    /// Each number field shifted to its start bit, each set flag as its bit.
    #[verifier::opaque]
    pub open spec fn payload(self) -> u32 {
        put_num(self.modu, 0)
            | put_flag(self.dbr, 26)
            | put_flag(self.rf2_out_pd, 21)
    }

    /// Each field read from its bits of `p`; other bits are ignored.
    pub open spec fn from_payload(p: u32) -> ST2 {
        ST2 {
            modu: get_num(p, 0, 21),
            dbr: get_flag(p, 26),
            rf2_out_pd: get_flag(p, 21),
        }
    }

    pub fn encode(&self) -> (r: u32)
        requires
            self.wf(),
        ensures
            r == self.payload(),
    {
        proof {
            reveal(ST2::payload);
        }
        shift_num_forward(self.modu, 0)
            | shift_flag_forward(self.dbr, 26)
            | shift_flag_forward(self.rf2_out_pd, 21)
    }

    pub fn decode(p: u32) -> (r: ST2)
        ensures
            r == ST2::from_payload(p),
            r.wf(),
    {
        let r = ST2 {
            modu: shift_num_back(p, 0, 21),
            dbr: shift_flag_back(p, 26),
            rf2_out_pd: shift_flag_back(p, 21),
        };
        proof {
            lemma_masks();
        }
        r
    }
}

/// Decoding an encoded ST2 gives back every field, and the payload fits
/// in the 27 bits that a bus frame carries.
pub proof fn lemma_round_trip_st2(reg: ST2)
    requires
        reg.wf(),
    ensures
        ST2::from_payload(reg.payload()) == reg,
        reg.payload() < 0x800_0000,
{
    let modu = reg.modu;
    let dbr = reg.dbr;
    let rf2_out_pd = reg.rf2_out_pd;
    reveal(ST2::payload);
    let p = reg.payload();
    assert(get_num(p, 0, 21) == modu
        && get_flag(p, 26) == dbr
        && get_flag(p, 21) == rf2_out_pd
        && p < 0x800_0000) by (bit_vector)
        requires
            p == put_num(modu, 0)
                | put_flag(dbr, 26)
                | put_flag(rf2_out_pd, 21),
            modu < 0x200000,
    ;
}

/// Every ST2 read from a payload is well formed.
pub proof fn lemma_from_payload_wf_st2(p: u32)
    ensures
        ST2::from_payload(p).wf(),
{
    lemma_masks();
    lemma_get_num_bound(p, 0, 21);
}

/// R divider, charge pump leakage, reference path and power down.
#[derive(Debug, Clone, Copy, PartialEq, Eq, Structural)]
pub struct ST3 {
    pub cp_leak: u32,
    pub pfd_del_mode: u32,
    pub ref_path_sel: u32,
    pub r: u32,
    pub dbr: bool,
    pub pd: bool,
    pub cp_leak_x2: bool,
    pub cp_leak_dir: bool,
    pub dnsplit_en: bool,
}

impl ST3 {
    /// Every number field fits in its bit width.
    pub open spec fn wf(self) -> bool {
        self.cp_leak < 32 && self.pfd_del_mode < 4 && self.ref_path_sel < 4 && self.r < 0x2000
    }

    /// Each number field shifted to its start bit, each set flag as its bit.
    #[verifier::opaque]
    pub open spec fn payload(self) -> u32 {
        put_num(self.cp_leak, 19)
            | put_num(self.pfd_del_mode, 15)
            | put_num(self.ref_path_sel, 13)
            | put_num(self.r, 0)
            | put_flag(self.dbr, 26)
            | put_flag(self.pd, 25)
            | put_flag(self.cp_leak_x2, 24)
            | put_flag(self.cp_leak_dir, 18)
            | put_flag(self.dnsplit_en, 17)
    }

    /// Each field read from its bits of `p`; other bits are ignored.
    pub open spec fn from_payload(p: u32) -> ST3 {
        ST3 {
            cp_leak: get_num(p, 19, 5),
            pfd_del_mode: get_num(p, 15, 2),
            ref_path_sel: get_num(p, 13, 2),
            r: get_num(p, 0, 13),
            dbr: get_flag(p, 26),
            pd: get_flag(p, 25),
            cp_leak_x2: get_flag(p, 24),
            cp_leak_dir: get_flag(p, 18),
            dnsplit_en: get_flag(p, 17),
        }
    }

    pub fn encode(&self) -> (r: u32)
        requires
            self.wf(),
        ensures
            r == self.payload(),
    {
        proof {
            reveal(ST3::payload);
        }
        shift_num_forward(self.cp_leak, 19)
            | shift_num_forward(self.pfd_del_mode, 15)
            | shift_num_forward(self.ref_path_sel, 13)
            | shift_num_forward(self.r, 0)
            | shift_flag_forward(self.dbr, 26)
            | shift_flag_forward(self.pd, 25)
            | shift_flag_forward(self.cp_leak_x2, 24)
            | shift_flag_forward(self.cp_leak_dir, 18)
            | shift_flag_forward(self.dnsplit_en, 17)
    }

    pub fn decode(p: u32) -> (r: ST3)
        ensures
            r == ST3::from_payload(p),
            r.wf(),
    {
        let r = ST3 {
            cp_leak: shift_num_back(p, 19, 5),
            pfd_del_mode: shift_num_back(p, 15, 2),
            ref_path_sel: shift_num_back(p, 13, 2),
            r: shift_num_back(p, 0, 13),
            dbr: shift_flag_back(p, 26),
            pd: shift_flag_back(p, 25),
            cp_leak_x2: shift_flag_back(p, 24),
            cp_leak_dir: shift_flag_back(p, 18),
            dnsplit_en: shift_flag_back(p, 17),
        };
        proof {
            lemma_masks();
        }
        r
    }
}

/// Decoding an encoded ST3 gives back every field, and the payload fits
/// in the 27 bits that a bus frame carries.
pub proof fn lemma_round_trip_st3(reg: ST3)
    requires
        reg.wf(),
    ensures
        ST3::from_payload(reg.payload()) == reg,
        reg.payload() < 0x800_0000,
{
    let cp_leak = reg.cp_leak;
    let pfd_del_mode = reg.pfd_del_mode;
    let ref_path_sel = reg.ref_path_sel;
    let r = reg.r;
    let dbr = reg.dbr;
    let pd = reg.pd;
    let cp_leak_x2 = reg.cp_leak_x2;
    let cp_leak_dir = reg.cp_leak_dir;
    let dnsplit_en = reg.dnsplit_en;
    reveal(ST3::payload);
    let p = reg.payload();
    assert(get_num(p, 19, 5) == cp_leak
        && get_num(p, 15, 2) == pfd_del_mode
        && get_num(p, 13, 2) == ref_path_sel
        && get_num(p, 0, 13) == r
        && get_flag(p, 26) == dbr
        && get_flag(p, 25) == pd
        && get_flag(p, 24) == cp_leak_x2
        && get_flag(p, 18) == cp_leak_dir
        && get_flag(p, 17) == dnsplit_en
        && p < 0x800_0000) by (bit_vector)
        requires
            p == put_num(cp_leak, 19)
                | put_num(pfd_del_mode, 15)
                | put_num(ref_path_sel, 13)
                | put_num(r, 0)
                | put_flag(dbr, 26)
                | put_flag(pd, 25)
                | put_flag(cp_leak_x2, 24)
                | put_flag(cp_leak_dir, 18)
                | put_flag(dnsplit_en, 17),
            cp_leak < 32,
            pfd_del_mode < 4,
            ref_path_sel < 4,
            r < 0x2000,
    ;
}

/// Every ST3 read from a payload is well formed.
pub proof fn lemma_from_payload_wf_st3(p: u32)
    ensures
        ST3::from_payload(p).wf(),
{
    lemma_masks();
    lemma_get_num_bound(p, 19, 5);
    lemma_get_num_bound(p, 15, 2);
    lemma_get_num_bound(p, 13, 2);
    lemma_get_num_bound(p, 0, 13);
}

/// Lock detector, reference buffer, VCO amplitude and 3.3 V supply modes.
#[derive(Debug, Clone, Copy, PartialEq, Eq, Structural)]
pub struct ST4 {
    pub vco_amp: u32,
    pub ref_buff_mode: u32,
    pub ld_prec: u32,
    pub ld_count: u32,
    pub calb_3v3_mode1: bool,
    pub rf_out_3v3: bool,
    pub ext_vco_en: bool,
    pub calb_3v3_mode0: bool,
    pub vcalb_mode: bool,
    pub kvco_comp_dis: bool,
    pub pfd_pol: bool,
    pub mute_lock_en: bool,
    pub ld_activelow: bool,
}

impl ST4 {
    /// Every number field fits in its bit width.
    pub open spec fn wf(self) -> bool {
        self.vco_amp < 8 && self.ref_buff_mode < 4 && self.ld_prec < 8 && self.ld_count < 8
    }

    /// Each number field shifted to its start bit, each set flag as its bit.
    #[verifier::opaque]
    pub open spec fn payload(self) -> u32 {
        put_num(self.vco_amp, 15)
            | put_num(self.ref_buff_mode, 8)
            | put_num(self.ld_prec, 3)
            | put_num(self.ld_count, 0)
            | put_flag(self.calb_3v3_mode1, 24)
            | put_flag(self.rf_out_3v3, 23)
            | put_flag(self.ext_vco_en, 19)
            | put_flag(self.calb_3v3_mode0, 14)
            | put_flag(self.vcalb_mode, 12)
            | put_flag(self.kvco_comp_dis, 11)
            | put_flag(self.pfd_pol, 10)
            | put_flag(self.mute_lock_en, 7)
            | put_flag(self.ld_activelow, 6)
    }

    /// Each field read from its bits of `p`; other bits are ignored.
    pub open spec fn from_payload(p: u32) -> ST4 {
        ST4 {
            vco_amp: get_num(p, 15, 3),
            ref_buff_mode: get_num(p, 8, 2),
            ld_prec: get_num(p, 3, 3),
            ld_count: get_num(p, 0, 3),
            calb_3v3_mode1: get_flag(p, 24),
            rf_out_3v3: get_flag(p, 23),
            ext_vco_en: get_flag(p, 19),
            calb_3v3_mode0: get_flag(p, 14),
            vcalb_mode: get_flag(p, 12),
            kvco_comp_dis: get_flag(p, 11),
            pfd_pol: get_flag(p, 10),
            mute_lock_en: get_flag(p, 7),
            ld_activelow: get_flag(p, 6),
        }
    }

    pub fn encode(&self) -> (r: u32)
        requires
            self.wf(),
        ensures
            r == self.payload(),
    {
        proof {
            reveal(ST4::payload);
        }
        shift_num_forward(self.vco_amp, 15)
            | shift_num_forward(self.ref_buff_mode, 8)
            | shift_num_forward(self.ld_prec, 3)
            | shift_num_forward(self.ld_count, 0)
            | shift_flag_forward(self.calb_3v3_mode1, 24)
            | shift_flag_forward(self.rf_out_3v3, 23)
            | shift_flag_forward(self.ext_vco_en, 19)
            | shift_flag_forward(self.calb_3v3_mode0, 14)
            | shift_flag_forward(self.vcalb_mode, 12)
            | shift_flag_forward(self.kvco_comp_dis, 11)
            | shift_flag_forward(self.pfd_pol, 10)
            | shift_flag_forward(self.mute_lock_en, 7)
            | shift_flag_forward(self.ld_activelow, 6)
    }

    pub fn decode(p: u32) -> (r: ST4)
        ensures
            r == ST4::from_payload(p),
            r.wf(),
    {
        let r = ST4 {
            vco_amp: shift_num_back(p, 15, 3),
            ref_buff_mode: shift_num_back(p, 8, 2),
            ld_prec: shift_num_back(p, 3, 3),
            ld_count: shift_num_back(p, 0, 3),
            calb_3v3_mode1: shift_flag_back(p, 24),
            rf_out_3v3: shift_flag_back(p, 23),
            ext_vco_en: shift_flag_back(p, 19),
            calb_3v3_mode0: shift_flag_back(p, 14),
            vcalb_mode: shift_flag_back(p, 12),
            kvco_comp_dis: shift_flag_back(p, 11),
            pfd_pol: shift_flag_back(p, 10),
            mute_lock_en: shift_flag_back(p, 7),
            ld_activelow: shift_flag_back(p, 6),
        };
        proof {
            lemma_masks();
        }
        r
    }
}

/// Decoding an encoded ST4 gives back every field, and the payload fits
/// in the 27 bits that a bus frame carries.
pub proof fn lemma_round_trip_st4(reg: ST4)
    requires
        reg.wf(),
    ensures
        ST4::from_payload(reg.payload()) == reg,
        reg.payload() < 0x800_0000,
{
    let vco_amp = reg.vco_amp;
    let ref_buff_mode = reg.ref_buff_mode;
    let ld_prec = reg.ld_prec;
    let ld_count = reg.ld_count;
    let calb_3v3_mode1 = reg.calb_3v3_mode1;
    let rf_out_3v3 = reg.rf_out_3v3;
    let ext_vco_en = reg.ext_vco_en;
    let calb_3v3_mode0 = reg.calb_3v3_mode0;
    let vcalb_mode = reg.vcalb_mode;
    let kvco_comp_dis = reg.kvco_comp_dis;
    let pfd_pol = reg.pfd_pol;
    let mute_lock_en = reg.mute_lock_en;
    let ld_activelow = reg.ld_activelow;
    reveal(ST4::payload);
    let p = reg.payload();
    assert(get_num(p, 15, 3) == vco_amp
        && get_num(p, 8, 2) == ref_buff_mode
        && get_num(p, 3, 3) == ld_prec
        && get_num(p, 0, 3) == ld_count
        && get_flag(p, 24) == calb_3v3_mode1
        && get_flag(p, 23) == rf_out_3v3
        && get_flag(p, 19) == ext_vco_en
        && get_flag(p, 14) == calb_3v3_mode0
        && get_flag(p, 12) == vcalb_mode
        && get_flag(p, 11) == kvco_comp_dis
        && get_flag(p, 10) == pfd_pol
        && get_flag(p, 7) == mute_lock_en
        && get_flag(p, 6) == ld_activelow
        && p < 0x800_0000) by (bit_vector)
        requires
            p == put_num(vco_amp, 15)
                | put_num(ref_buff_mode, 8)
                | put_num(ld_prec, 3)
                | put_num(ld_count, 0)
                | put_flag(calb_3v3_mode1, 24)
                | put_flag(rf_out_3v3, 23)
                | put_flag(ext_vco_en, 19)
                | put_flag(calb_3v3_mode0, 14)
                | put_flag(vcalb_mode, 12)
                | put_flag(kvco_comp_dis, 11)
                | put_flag(pfd_pol, 10)
                | put_flag(mute_lock_en, 7)
                | put_flag(ld_activelow, 6),
            vco_amp < 8,
            ref_buff_mode < 4,
            ld_prec < 8,
            ld_count < 8,
    ;
}

/// Every ST4 read from a payload is well formed.
pub proof fn lemma_from_payload_wf_st4(p: u32)
    ensures
        ST4::from_payload(p).wf(),
{
    lemma_masks();
    lemma_get_num_bound(p, 15, 3);
    lemma_get_num_bound(p, 8, 2);
    lemma_get_num_bound(p, 3, 3);
    lemma_get_num_bound(p, 0, 3);
}

/// Low power mode control bits.
#[derive(Debug, Clone, Copy, PartialEq, Eq, Structural)]
pub struct ST5 {
    pub rf2_outbuf_lp: bool,
    pub demux_lp: bool,
    pub ref_buff_lp: bool,
}

impl ST5 {
    /// Every number field fits in its bit width.
    pub open spec fn wf(self) -> bool {
        true
    }

    /// Each number field shifted to its start bit, each set flag as its bit.
    #[verifier::opaque]
    pub open spec fn payload(self) -> u32 {
        put_flag(self.rf2_outbuf_lp, 4)
            | put_flag(self.demux_lp, 2)
            | put_flag(self.ref_buff_lp, 0)
    }

    /// Each field read from its bits of `p`; other bits are ignored.
    pub open spec fn from_payload(p: u32) -> ST5 {
        ST5 {
            rf2_outbuf_lp: get_flag(p, 4),
            demux_lp: get_flag(p, 2),
            ref_buff_lp: get_flag(p, 0),
        }
    }

    pub fn encode(&self) -> (r: u32)
        requires
            self.wf(),
        ensures
            r == self.payload(),
    {
        proof {
            reveal(ST5::payload);
        }
        shift_flag_forward(self.rf2_outbuf_lp, 4)
            | shift_flag_forward(self.demux_lp, 2)
            | shift_flag_forward(self.ref_buff_lp, 0)
    }

    pub fn decode(p: u32) -> (r: ST5)
        ensures
            r == ST5::from_payload(p),
            r.wf(),
    {
        let r = ST5 {
            rf2_outbuf_lp: shift_flag_back(p, 4),
            demux_lp: shift_flag_back(p, 2),
            ref_buff_lp: shift_flag_back(p, 0),
        };
        proof {
            lemma_masks();
        }
        r
    }
}

/// Decoding an encoded ST5 gives back every field, and the payload fits
/// in the 27 bits that a bus frame carries.
pub proof fn lemma_round_trip_st5(reg: ST5)
    requires
        reg.wf(),
    ensures
        ST5::from_payload(reg.payload()) == reg,
        reg.payload() < 0x800_0000,
{
    let rf2_outbuf_lp = reg.rf2_outbuf_lp;
    let demux_lp = reg.demux_lp;
    let ref_buff_lp = reg.ref_buff_lp;
    reveal(ST5::payload);
    let p = reg.payload();
    assert(get_flag(p, 4) == rf2_outbuf_lp
        && get_flag(p, 2) == demux_lp
        && get_flag(p, 0) == ref_buff_lp
        && p < 0x800_0000) by (bit_vector)
        requires
            p == put_flag(rf2_outbuf_lp, 4)
                | put_flag(demux_lp, 2)
                | put_flag(ref_buff_lp, 0),
    ;
}

/// VCO calibrator and delta-sigma modulator settings.
#[derive(Debug, Clone, Copy, PartialEq, Eq, Structural)]
pub struct ST6 {
    pub dsm_order: u32,
    pub prchg_del: u32,
    pub cal_div: u32,
    pub dithering: bool,
    pub en_autocal: bool,
    pub cal_temp_comp: bool,
    pub cal_acc_en: bool,
}

impl ST6 {
    /// Every number field fits in its bit width.
    pub open spec fn wf(self) -> bool {
        self.dsm_order < 4 && self.prchg_del < 4 && self.cal_div < 0x200
    }

    /// Each number field shifted to its start bit, each set flag as its bit.
    #[verifier::opaque]
    pub open spec fn payload(self) -> u32 {
        put_num(self.dsm_order, 22)
            | put_num(self.prchg_del, 10)
            | put_num(self.cal_div, 0)
            | put_flag(self.dithering, 26)
            | put_flag(self.en_autocal, 20)
            | put_flag(self.cal_temp_comp, 12)
            | put_flag(self.cal_acc_en, 9)
    }

    /// Each field read from its bits of `p`; other bits are ignored.
    pub open spec fn from_payload(p: u32) -> ST6 {
        ST6 {
            dsm_order: get_num(p, 22, 2),
            prchg_del: get_num(p, 10, 2),
            cal_div: get_num(p, 0, 9),
            dithering: get_flag(p, 26),
            en_autocal: get_flag(p, 20),
            cal_temp_comp: get_flag(p, 12),
            cal_acc_en: get_flag(p, 9),
        }
    }

    pub fn encode(&self) -> (r: u32)
        requires
            self.wf(),
        ensures
            r == self.payload(),
    {
        proof {
            reveal(ST6::payload);
        }
        shift_num_forward(self.dsm_order, 22)
            | shift_num_forward(self.prchg_del, 10)
            | shift_num_forward(self.cal_div, 0)
            | shift_flag_forward(self.dithering, 26)
            | shift_flag_forward(self.en_autocal, 20)
            | shift_flag_forward(self.cal_temp_comp, 12)
            | shift_flag_forward(self.cal_acc_en, 9)
    }

    pub fn decode(p: u32) -> (r: ST6)
        ensures
            r == ST6::from_payload(p),
            r.wf(),
    {
        let r = ST6 {
            dsm_order: shift_num_back(p, 22, 2),
            prchg_del: shift_num_back(p, 10, 2),
            cal_div: shift_num_back(p, 0, 9),
            dithering: shift_flag_back(p, 26),
            en_autocal: shift_flag_back(p, 20),
            cal_temp_comp: shift_flag_back(p, 12),
            cal_acc_en: shift_flag_back(p, 9),
        };
        proof {
            lemma_masks();
        }
        r
    }
}

/// Decoding an encoded ST6 gives back every field, and the payload fits
/// in the 27 bits that a bus frame carries.
pub proof fn lemma_round_trip_st6(reg: ST6)
    requires
        reg.wf(),
    ensures
        ST6::from_payload(reg.payload()) == reg,
        reg.payload() < 0x800_0000,
{
    let dsm_order = reg.dsm_order;
    let prchg_del = reg.prchg_del;
    let cal_div = reg.cal_div;
    let dithering = reg.dithering;
    let en_autocal = reg.en_autocal;
    let cal_temp_comp = reg.cal_temp_comp;
    let cal_acc_en = reg.cal_acc_en;
    reveal(ST6::payload);
    let p = reg.payload();
    assert(get_num(p, 22, 2) == dsm_order
        && get_num(p, 10, 2) == prchg_del
        && get_num(p, 0, 9) == cal_div
        && get_flag(p, 26) == dithering
        && get_flag(p, 20) == en_autocal
        && get_flag(p, 12) == cal_temp_comp
        && get_flag(p, 9) == cal_acc_en
        && p < 0x800_0000) by (bit_vector)
        requires
            p == put_num(dsm_order, 22)
                | put_num(prchg_del, 10)
                | put_num(cal_div, 0)
                | put_flag(dithering, 26)
                | put_flag(en_autocal, 20)
                | put_flag(cal_temp_comp, 12)
                | put_flag(cal_acc_en, 9),
            dsm_order < 4,
            prchg_del < 4,
            cal_div < 0x200,
    ;
}

/// Every ST6 read from a payload is well formed.
pub proof fn lemma_from_payload_wf_st6(p: u32)
    ensures
        ST6::from_payload(p).wf(),
{
    lemma_masks();
    lemma_get_num_bound(p, 22, 2);
    lemma_get_num_bound(p, 10, 2);
    lemma_get_num_bound(p, 0, 9);
}

/// Fast lock control and LD_SDO pin settings.
#[derive(Debug, Clone, Copy, PartialEq, Eq, Structural)]
pub struct ST7 {
    pub cp_sel_fl: u32,
    pub fstlck_cnt: u32,
    pub ld_sdo_tristate: bool,
    pub ld_sdo_mode: bool,
    pub spi_data_out_disable: bool,
    pub cycle_slip_en: bool,
    pub fstlck_en: bool,
}

impl ST7 {
    /// Every number field fits in its bit width.
    pub open spec fn wf(self) -> bool {
        self.cp_sel_fl < 32 && self.fstlck_cnt < 0x2000
    }

    /// Each number field shifted to its start bit, each set flag as its bit.
    #[verifier::opaque]
    pub open spec fn payload(self) -> u32 {
        put_num(self.cp_sel_fl, 13)
            | put_num(self.fstlck_cnt, 0)
            | put_flag(self.ld_sdo_tristate, 25)
            | put_flag(self.ld_sdo_mode, 24)
            | put_flag(self.spi_data_out_disable, 23)
            | put_flag(self.cycle_slip_en, 19)
            | put_flag(self.fstlck_en, 18)
    }

    /// Each field read from its bits of `p`; other bits are ignored.
    pub open spec fn from_payload(p: u32) -> ST7 {
        ST7 {
            cp_sel_fl: get_num(p, 13, 5),
            fstlck_cnt: get_num(p, 0, 13),
            ld_sdo_tristate: get_flag(p, 25),
            ld_sdo_mode: get_flag(p, 24),
            spi_data_out_disable: get_flag(p, 23),
            cycle_slip_en: get_flag(p, 19),
            fstlck_en: get_flag(p, 18),
        }
    }

    pub fn encode(&self) -> (r: u32)
        requires
            self.wf(),
        ensures
            r == self.payload(),
    {
        proof {
            reveal(ST7::payload);
        }
        shift_num_forward(self.cp_sel_fl, 13)
            | shift_num_forward(self.fstlck_cnt, 0)
            | shift_flag_forward(self.ld_sdo_tristate, 25)
            | shift_flag_forward(self.ld_sdo_mode, 24)
            | shift_flag_forward(self.spi_data_out_disable, 23)
            | shift_flag_forward(self.cycle_slip_en, 19)
            | shift_flag_forward(self.fstlck_en, 18)
    }

    pub fn decode(p: u32) -> (r: ST7)
        ensures
            r == ST7::from_payload(p),
            r.wf(),
    {
        let r = ST7 {
            cp_sel_fl: shift_num_back(p, 13, 5),
            fstlck_cnt: shift_num_back(p, 0, 13),
            ld_sdo_tristate: shift_flag_back(p, 25),
            ld_sdo_mode: shift_flag_back(p, 24),
            spi_data_out_disable: shift_flag_back(p, 23),
            cycle_slip_en: shift_flag_back(p, 19),
            fstlck_en: shift_flag_back(p, 18),
        };
        proof {
            lemma_masks();
        }
        r
    }
}

/// Decoding an encoded ST7 gives back every field, and the payload fits
/// in the 27 bits that a bus frame carries.
pub proof fn lemma_round_trip_st7(reg: ST7)
    requires
        reg.wf(),
    ensures
        ST7::from_payload(reg.payload()) == reg,
        reg.payload() < 0x800_0000,
{
    let cp_sel_fl = reg.cp_sel_fl;
    let fstlck_cnt = reg.fstlck_cnt;
    let ld_sdo_tristate = reg.ld_sdo_tristate;
    let ld_sdo_mode = reg.ld_sdo_mode;
    let spi_data_out_disable = reg.spi_data_out_disable;
    let cycle_slip_en = reg.cycle_slip_en;
    let fstlck_en = reg.fstlck_en;
    reveal(ST7::payload);
    let p = reg.payload();
    assert(get_num(p, 13, 5) == cp_sel_fl
        && get_num(p, 0, 13) == fstlck_cnt
        && get_flag(p, 25) == ld_sdo_tristate
        && get_flag(p, 24) == ld_sdo_mode
        && get_flag(p, 23) == spi_data_out_disable
        && get_flag(p, 19) == cycle_slip_en
        && get_flag(p, 18) == fstlck_en
        && p < 0x800_0000) by (bit_vector)
        requires
            p == put_num(cp_sel_fl, 13)
                | put_num(fstlck_cnt, 0)
                | put_flag(ld_sdo_tristate, 25)
                | put_flag(ld_sdo_mode, 24)
                | put_flag(spi_data_out_disable, 23)
                | put_flag(cycle_slip_en, 19)
                | put_flag(fstlck_en, 18),
            cp_sel_fl < 32,
            fstlck_cnt < 0x2000,
    ;
}

/// LDO voltage regulator settings.
#[derive(Debug, Clone, Copy, PartialEq, Eq, Structural)]
pub struct ST8 {
    pub reg_vco_4v5_vout: u32,
    pub pd_rf2_disable: bool,
}

impl ST8 {
    /// Every number field fits in its bit width.
    pub open spec fn wf(self) -> bool {
        self.reg_vco_4v5_vout < 4
    }

    /// Each number field shifted to its start bit, each set flag as its bit.
    #[verifier::opaque]
    pub open spec fn payload(self) -> u32 {
        put_num(self.reg_vco_4v5_vout, 0)
            | put_flag(self.pd_rf2_disable, 26)
    }

    /// Each field read from its bits of `p`; other bits are ignored.
    pub open spec fn from_payload(p: u32) -> ST8 {
        ST8 {
            reg_vco_4v5_vout: get_num(p, 0, 2),
            pd_rf2_disable: get_flag(p, 26),
        }
    }

    pub fn encode(&self) -> (r: u32)
        requires
            self.wf(),
        ensures
            r == self.payload(),
    {
        proof {
            reveal(ST8::payload);
        }
        shift_num_forward(self.reg_vco_4v5_vout, 0)
            | shift_flag_forward(self.pd_rf2_disable, 26)
    }

    pub fn decode(p: u32) -> (r: ST8)
        ensures
            r == ST8::from_payload(p),
            r.wf(),
    {
        let r = ST8 {
            reg_vco_4v5_vout: shift_num_back(p, 0, 2),
            pd_rf2_disable: shift_flag_back(p, 26),
        };
        proof {
            lemma_masks();
        }
        r
    }
}

/// Decoding an encoded ST8 gives back every field, and the payload fits
/// in the 27 bits that a bus frame carries.
pub proof fn lemma_round_trip_st8(reg: ST8)
    requires
        reg.wf(),
    ensures
        ST8::from_payload(reg.payload()) == reg,
        reg.payload() < 0x800_0000,
{
    let reg_vco_4v5_vout = reg.reg_vco_4v5_vout;
    let pd_rf2_disable = reg.pd_rf2_disable;
    reveal(ST8::payload);
    let p = reg.payload();
    assert(get_num(p, 0, 2) == reg_vco_4v5_vout
        && get_flag(p, 26) == pd_rf2_disable
        && p < 0x800_0000) by (bit_vector)
        requires
            p == put_num(reg_vco_4v5_vout, 0)
                | put_flag(pd_rf2_disable, 26),
            reg_vco_4v5_vout < 4,
    ;
}

/// VCO, lock detector and regulator status (read only).
#[derive(Debug, Clone, Copy, PartialEq, Eq, Structural)]
pub struct ST10 {
    pub vco_sel: u32,
    pub word: u32,
    pub reg_dig_startup: bool,
    pub reg_ref_startup: bool,
    pub reg_rf_startup: bool,
    pub reg_vco_startup: bool,
    pub reg_vco_4v5_startup: bool,
    pub reg_dig_ocp: bool,
    pub reg_ref_ocp: bool,
    pub reg_rf_ocp: bool,
    pub reg_vco_ocp: bool,
    pub reg_vco_4v5_ocp: bool,
    pub lock_det: bool,
}

impl ST10 {
    /// Every number field fits in its bit width.
    pub open spec fn wf(self) -> bool {
        self.vco_sel < 4 && self.word < 32
    }

    /// Each number field shifted to its start bit, each set flag as its bit.
    #[verifier::opaque]
    pub open spec fn payload(self) -> u32 {
        put_num(self.vco_sel, 5)
            | put_num(self.word, 0)
            | put_flag(self.reg_dig_startup, 17)
            | put_flag(self.reg_ref_startup, 16)
            | put_flag(self.reg_rf_startup, 15)
            | put_flag(self.reg_vco_startup, 14)
            | put_flag(self.reg_vco_4v5_startup, 13)
            | put_flag(self.reg_dig_ocp, 12)
            | put_flag(self.reg_ref_ocp, 11)
            | put_flag(self.reg_rf_ocp, 10)
            | put_flag(self.reg_vco_ocp, 9)
            | put_flag(self.reg_vco_4v5_ocp, 8)
            | put_flag(self.lock_det, 7)
    }

    /// Each field read from its bits of `p`; other bits are ignored.
    pub open spec fn from_payload(p: u32) -> ST10 {
        ST10 {
            vco_sel: get_num(p, 5, 2),
            word: get_num(p, 0, 5),
            reg_dig_startup: get_flag(p, 17),
            reg_ref_startup: get_flag(p, 16),
            reg_rf_startup: get_flag(p, 15),
            reg_vco_startup: get_flag(p, 14),
            reg_vco_4v5_startup: get_flag(p, 13),
            reg_dig_ocp: get_flag(p, 12),
            reg_ref_ocp: get_flag(p, 11),
            reg_rf_ocp: get_flag(p, 10),
            reg_vco_ocp: get_flag(p, 9),
            reg_vco_4v5_ocp: get_flag(p, 8),
            lock_det: get_flag(p, 7),
        }
    }

    pub fn encode(&self) -> (r: u32)
        requires
            self.wf(),
        ensures
            r == self.payload(),
    {
        proof {
            reveal(ST10::payload);
        }
        shift_num_forward(self.vco_sel, 5)
            | shift_num_forward(self.word, 0)
            | shift_flag_forward(self.reg_dig_startup, 17)
            | shift_flag_forward(self.reg_ref_startup, 16)
            | shift_flag_forward(self.reg_rf_startup, 15)
            | shift_flag_forward(self.reg_vco_startup, 14)
            | shift_flag_forward(self.reg_vco_4v5_startup, 13)
            | shift_flag_forward(self.reg_dig_ocp, 12)
            | shift_flag_forward(self.reg_ref_ocp, 11)
            | shift_flag_forward(self.reg_rf_ocp, 10)
            | shift_flag_forward(self.reg_vco_ocp, 9)
            | shift_flag_forward(self.reg_vco_4v5_ocp, 8)
            | shift_flag_forward(self.lock_det, 7)
    }

    pub fn decode(p: u32) -> (r: ST10)
        ensures
            r == ST10::from_payload(p),
            r.wf(),
    {
        let r = ST10 {
            vco_sel: shift_num_back(p, 5, 2),
            word: shift_num_back(p, 0, 5),
            reg_dig_startup: shift_flag_back(p, 17),
            reg_ref_startup: shift_flag_back(p, 16),
            reg_rf_startup: shift_flag_back(p, 15),
            reg_vco_startup: shift_flag_back(p, 14),
            reg_vco_4v5_startup: shift_flag_back(p, 13),
            reg_dig_ocp: shift_flag_back(p, 12),
            reg_ref_ocp: shift_flag_back(p, 11),
            reg_rf_ocp: shift_flag_back(p, 10),
            reg_vco_ocp: shift_flag_back(p, 9),
            reg_vco_4v5_ocp: shift_flag_back(p, 8),
            lock_det: shift_flag_back(p, 7),
        };
        proof {
            lemma_masks();
        }
        r
    }
}

/// Decoding an encoded ST10 gives back every field, and the payload fits
/// in the 27 bits that a bus frame carries.
pub proof fn lemma_round_trip_st10(reg: ST10)
    requires
        reg.wf(),
    ensures
        ST10::from_payload(reg.payload()) == reg,
        reg.payload() < 0x800_0000,
{
    let vco_sel = reg.vco_sel;
    let word = reg.word;
    let reg_dig_startup = reg.reg_dig_startup;
    let reg_ref_startup = reg.reg_ref_startup;
    let reg_rf_startup = reg.reg_rf_startup;
    let reg_vco_startup = reg.reg_vco_startup;
    let reg_vco_4v5_startup = reg.reg_vco_4v5_startup;
    let reg_dig_ocp = reg.reg_dig_ocp;
    let reg_ref_ocp = reg.reg_ref_ocp;
    let reg_rf_ocp = reg.reg_rf_ocp;
    let reg_vco_ocp = reg.reg_vco_ocp;
    let reg_vco_4v5_ocp = reg.reg_vco_4v5_ocp;
    let lock_det = reg.lock_det;
    reveal(ST10::payload);
    let p = reg.payload();
    assert(get_num(p, 5, 2) == vco_sel
        && get_num(p, 0, 5) == word
        && get_flag(p, 17) == reg_dig_startup
        && get_flag(p, 16) == reg_ref_startup
        && get_flag(p, 15) == reg_rf_startup
        && get_flag(p, 14) == reg_vco_startup
        && get_flag(p, 13) == reg_vco_4v5_startup
        && get_flag(p, 12) == reg_dig_ocp
        && get_flag(p, 11) == reg_ref_ocp
        && get_flag(p, 10) == reg_rf_ocp
        && get_flag(p, 9) == reg_vco_ocp
        && get_flag(p, 8) == reg_vco_4v5_ocp
        && get_flag(p, 7) == lock_det
        && p < 0x800_0000) by (bit_vector)
        requires
            p == put_num(vco_sel, 5)
                | put_num(word, 0)
                | put_flag(reg_dig_startup, 17)
                | put_flag(reg_ref_startup, 16)
                | put_flag(reg_rf_startup, 15)
                | put_flag(reg_vco_startup, 14)
                | put_flag(reg_vco_4v5_startup, 13)
                | put_flag(reg_dig_ocp, 12)
                | put_flag(reg_ref_ocp, 11)
                | put_flag(reg_rf_ocp, 10)
                | put_flag(reg_vco_ocp, 9)
                | put_flag(reg_vco_4v5_ocp, 8)
                | put_flag(lock_det, 7),
            vco_sel < 4,
            word < 32,
    ;
}

/// A number field is no larger than its mask.
pub proof fn lemma_get_num_bound(p: u32, start: u32, size: u32)
    requires
        start < 32,
        1 <= size < 32,
    ensures
        get_num(p, start, size) <= bit_mask(size),
{
    assert((p >> start) & bit_mask(size) <= bit_mask(size)) by (bit_vector);
}

pub proof fn lemma_masks()
    ensures
        bit_mask(1) == 1,
        bit_mask(2) == 3,
        bit_mask(3) == 7,
        bit_mask(5) == 31,
        bit_mask(9) == 511,
        bit_mask(13) == 8191,
        bit_mask(17) == 0x1ffff,
        bit_mask(21) == 0x1fffff,
{
    assert(bit_mask(1) == 1 && bit_mask(2) == 3 && bit_mask(3) == 7 && bit_mask(5) == 31
        && bit_mask(9) == 511 && bit_mask(13) == 8191 && bit_mask(17) == 0x1ffff
        && bit_mask(21) == 0x1fffff) by (bit_vector);
}

} // verus!
