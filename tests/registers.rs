use stuw81300::registers::{
    shift_flag_back, shift_flag_forward, shift_num_back, shift_num_forward, ST0, ST1, ST10, ST2,
    ST3, ST4, ST5, ST6, ST7, ST8,
};
use stuw81300::RegisterAddr;

#[test]
fn shift_helpers() {
    assert_eq!(shift_flag_forward(true, 26), 0x0400_0000);
    assert_eq!(shift_flag_forward(false, 26), 0);
    assert_eq!(shift_num_forward(0b101, 3), 0b101_000);
    assert!(shift_flag_back(0x0400_0000, 26));
    assert!(!shift_flag_back(0x0400_0000, 25));
    assert_eq!(shift_num_back(0xFFFF_FFFF, 21, 5), 31);
    assert_eq!(shift_num_back(0x0012_3456, 4, 8), 0x45);
}

#[test]
fn read_only_registers() {
    assert!(RegisterAddr::ST10.read_only());
    assert!(RegisterAddr::ST11.read_only());
    assert!(!RegisterAddr::ST9.read_only());
    assert!(!RegisterAddr::ST0.read_only());
    assert_eq!(RegisterAddr::ST11.index(), 11);
}

#[test]
fn round_trip_st0() {
    let r = ST0 { cp_sel: 31, pfd_del: 3, n: 131071 };
    assert_eq!(ST0::decode(r.encode()), r);
    let r = ST0 { cp_sel: 7, pfd_del: 1, n: 76 };
    assert_eq!(ST0::decode(r.encode()), r);
}

#[test]
fn round_trip_st1() {
    let r = ST1 {
        frac: 2097151,
        dbr: true,
        rf1_out_pd: false,
        man_calb_en: true,
        pll_sel: false,
        rf1_sel: true,
    };
    assert_eq!(ST1::decode(r.encode()), r);
}

#[test]
fn round_trip_st2() {
    let r = ST2 { modu: 2097151, dbr: true, rf2_out_pd: true };
    assert_eq!(ST2::decode(r.encode()), r);
}

#[test]
fn round_trip_st3() {
    let r = ST3 {
        cp_leak: 17,
        pfd_del_mode: 2,
        ref_path_sel: 3,
        r: 8191,
        dbr: false,
        pd: true,
        cp_leak_x2: true,
        cp_leak_dir: false,
        dnsplit_en: true,
    };
    assert_eq!(ST3::decode(r.encode()), r);
}

#[test]
fn round_trip_st4() {
    let r = ST4 {
        vco_amp: 5,
        ref_buff_mode: 2,
        ld_prec: 7,
        ld_count: 1,
        calb_3v3_mode1: true,
        rf_out_3v3: false,
        ext_vco_en: true,
        calb_3v3_mode0: true,
        vcalb_mode: false,
        kvco_comp_dis: true,
        pfd_pol: false,
        mute_lock_en: true,
        ld_activelow: true,
    };
    assert_eq!(ST4::decode(r.encode()), r);
}

#[test]
fn round_trip_st5() {
    let r = ST5 { rf2_outbuf_lp: true, demux_lp: false, ref_buff_lp: true };
    assert_eq!(ST5::decode(r.encode()), r);
    assert_eq!(r.encode(), 0b10001);
}

#[test]
fn round_trip_st6() {
    let r = ST6 {
        dsm_order: 3,
        prchg_del: 2,
        cal_div: 511,
        dithering: true,
        en_autocal: true,
        cal_temp_comp: false,
        cal_acc_en: true,
    };
    assert_eq!(ST6::decode(r.encode()), r);
}

#[test]
fn round_trip_st7() {
    let r = ST7 {
        cp_sel_fl: 30,
        fstlck_cnt: 8190,
        ld_sdo_tristate: true,
        ld_sdo_mode: false,
        spi_data_out_disable: true,
        cycle_slip_en: true,
        fstlck_en: false,
    };
    assert_eq!(ST7::decode(r.encode()), r);
}

#[test]
fn round_trip_st8() {
    let r = ST8 { reg_vco_4v5_vout: 2, pd_rf2_disable: true };
    assert_eq!(ST8::decode(r.encode()), r);
}

#[test]
fn round_trip_st10() {
    let r = ST10 {
        vco_sel: 2,
        word: 19,
        reg_dig_startup: true,
        reg_ref_startup: false,
        reg_rf_startup: true,
        reg_vco_startup: false,
        reg_vco_4v5_startup: true,
        reg_dig_ocp: false,
        reg_ref_ocp: true,
        reg_rf_ocp: false,
        reg_vco_ocp: true,
        reg_vco_4v5_ocp: false,
        lock_det: true,
    };
    assert_eq!(ST10::decode(r.encode()), r);
}

#[test]
fn decode_ignores_bits_outside_fields() {
    let r = ST5::decode(0xFFFF_FFFF);
    assert_eq!(r, ST5 { rf2_outbuf_lp: true, demux_lp: true, ref_buff_lp: true });
    assert_eq!(r.encode(), 0b10101);
    let r = ST0::decode(0xFFFF_FFFF);
    assert_eq!(r, ST0 { cp_sel: 31, pfd_del: 3, n: 0x1FFFF });
}
