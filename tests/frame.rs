use stuw81300::{
    pack, unpack, AccessMode, BusAction, BusEvent, Exchange, ExchangeOutcome, ProtocolError,
    RegisterAddr,
};
use stuw81300::registers::{ST0, ST1, ST2, ST3, ST4, ST5, ST6, ST7, ST8};

/// Runs one write exchange on a bus that never fails and returns the frame
/// it sent, checking that the line goes low before and high after.
fn frame_written(addr: RegisterAddr, payload: u32) -> [u8; 4] {
    let (x, action) = Exchange::start(addr, payload, AccessMode::Write).unwrap();
    assert!(matches!(action, BusAction::SelectLow));
    let (x, action) = x.step(BusEvent::Selected);
    let frame = match action {
        BusAction::Transfer(f) => f,
        other => panic!("expected a transfer, got {:?}", other),
    };
    let (x, action) = x.step(BusEvent::Transferred([0, 0, 0, 0]));
    assert!(matches!(action, BusAction::ReleaseHigh));
    let (_, action) = x.step(BusEvent::Released);
    assert!(matches!(action, BusAction::Finish(ExchangeOutcome::Payload(0))));
    frame
}

#[test]
fn register() {
    assert_eq!(RegisterAddr::ST5 as u8, 0x05);
}

#[test]
fn access_mode() {
    assert_eq!(AccessMode::Write as u8, 0);
}

#[test]
fn payload() {
    assert_eq!(
        pack(RegisterAddr::ST5, 0x07FFFFFF, AccessMode::Read),
        Ok([0xAF, 0xFF, 0xFF, 0xFF])
    );
}

#[test]
fn pack_rejects_wide_payload() {
    assert_eq!(
        pack(RegisterAddr::ST5, 0x0800_0000, AccessMode::Read),
        Err(ProtocolError::PayloadTooWide)
    );
    assert_eq!(
        pack(RegisterAddr::ST0, u32::MAX, AccessMode::Write),
        Err(ProtocolError::PayloadTooWide)
    );
}

#[test]
fn pack_rejects_write_to_read_only() {
    assert_eq!(
        pack(RegisterAddr::ST10, 0, AccessMode::Write),
        Err(ProtocolError::ReadOnlyViolation)
    );
    assert_eq!(
        pack(RegisterAddr::ST11, 1, AccessMode::Write),
        Err(ProtocolError::ReadOnlyViolation)
    );
    assert_eq!(
        pack(RegisterAddr::ST11, 0x0800_0000, AccessMode::Write),
        Err(ProtocolError::PayloadTooWide)
    );
}

#[test]
fn read_identity_frame() {
    assert_eq!(pack(RegisterAddr::ST11, 0, AccessMode::Read), Ok([0xD8, 0, 0, 0]));
    assert_eq!(pack(RegisterAddr::ST10, 0, AccessMode::Read), Ok([0xD0, 0, 0, 0]));
}

#[test]
fn unpack_is_big_endian() {
    assert_eq!(unpack([0x12, 0x34, 0x56, 0x78]), 0x1234_5678);
    assert_eq!(unpack([0, 0, 0x80, 0x52]), 0x8052);
}

#[test]
fn pack_then_unpack() {
    let frame = pack(RegisterAddr::ST3, 0x0123_4567, AccessMode::Write).unwrap();
    let w = unpack(frame);
    assert_eq!(w >> 31, 0);
    assert_eq!((w >> 27) & 15, 3);
    assert_eq!(w & 0x07FF_FFFF, 0x0123_4567);
}

#[test]
fn write_st8() {
    let st8 = ST8 { reg_vco_4v5_vout: 3, pd_rf2_disable: false };
    assert_eq!(frame_written(RegisterAddr::ST8, st8.encode()), [0x40, 0, 0, 3]);
}

#[test]
fn write_st7() {
    let st7 = ST7 {
        cp_sel_fl: 0,
        fstlck_cnt: 0,
        ld_sdo_tristate: false,
        ld_sdo_mode: true,
        spi_data_out_disable: false,
        cycle_slip_en: false,
        fstlck_en: false,
    };
    assert_eq!(frame_written(RegisterAddr::ST7, st7.encode()), [0x39, 0, 0, 0]);
}

#[test]
fn write_st6() {
    let st6 = ST6 {
        dsm_order: 0,
        prchg_del: 0,
        cal_div: 0,
        dithering: false,
        en_autocal: false,
        cal_temp_comp: true,
        cal_acc_en: false,
    };
    assert_eq!(frame_written(RegisterAddr::ST6, st6.encode()), [0x30, 0, 0x10, 0]);
}

#[test]
fn write_st5() {
    let st5 = ST5 { rf2_outbuf_lp: false, demux_lp: false, ref_buff_lp: false };
    assert_eq!(frame_written(RegisterAddr::ST5, st5.encode()), [0x28, 0, 0, 0]);
}

#[test]
fn write_st4() {
    let st4 = ST4 {
        vco_amp: 7,
        ref_buff_mode: 3,
        ld_prec: 2,
        ld_count: 5,
        calb_3v3_mode1: false,
        rf_out_3v3: false,
        ext_vco_en: false,
        calb_3v3_mode0: false,
        vcalb_mode: true,
        kvco_comp_dis: false,
        pfd_pol: false,
        mute_lock_en: false,
        ld_activelow: false,
    };
    assert_eq!(frame_written(RegisterAddr::ST4, st4.encode()), [0x20, 0x03, 0x93, 0x15]);
}

#[test]
fn write_st3() {
    let st3 = ST3 {
        pfd_del_mode: 1,
        ref_path_sel: 0,
        r: 2,
        cp_leak: 0,
        dbr: false,
        pd: false,
        cp_leak_x2: false,
        cp_leak_dir: false,
        dnsplit_en: false,
    };
    assert_eq!(frame_written(RegisterAddr::ST3, st3.encode()), [0x18, 0, 0x80, 0x02]);
}

#[test]
fn write_st2() {
    let st2 = ST2 { modu: 10, dbr: false, rf2_out_pd: false };
    assert_eq!(frame_written(RegisterAddr::ST2, st2.encode()), [0x10, 0, 0, 0x0A]);
}

#[test]
fn write_st1() {
    let st1 = ST1 {
        frac: 1,
        dbr: false,
        rf1_out_pd: true,
        man_calb_en: false,
        pll_sel: true,
        rf1_sel: false,
    };
    assert_eq!(frame_written(RegisterAddr::ST1, st1.encode()), [0x09, 0x40, 0, 0x01]);
}

#[test]
fn write_st0() {
    let st0 = ST0 { cp_sel: 31, pfd_del: 0, n: 76 };
    assert_eq!(frame_written(RegisterAddr::ST0, st0.encode()), [0x03, 0xE0, 0x00, 0x4C]);
}

#[test]
fn exchange_releases_after_failed_transfer() {
    let (x, _) = Exchange::start(RegisterAddr::ST2, 5, AccessMode::Write).unwrap();
    let (x, _) = x.step(BusEvent::Selected);
    let (x, action) = x.step(BusEvent::TransferFailed);
    assert!(matches!(action, BusAction::ReleaseHigh));
    let (_, action) = x.step(BusEvent::Released);
    assert!(matches!(action, BusAction::Finish(ExchangeOutcome::TransferFailed)));
}

#[test]
fn exchange_reports_first_failure() {
    let (x, _) = Exchange::start(RegisterAddr::ST2, 5, AccessMode::Write).unwrap();
    let (x, _) = x.step(BusEvent::Selected);
    let (x, _) = x.step(BusEvent::TransferFailed);
    let (_, action) = x.step(BusEvent::ReleaseFailed);
    assert!(matches!(action, BusAction::Finish(ExchangeOutcome::TransferFailed)));
}

#[test]
fn exchange_select_failure_sends_nothing() {
    let (x, _) = Exchange::start(RegisterAddr::ST11, 0, AccessMode::Read).unwrap();
    let (_, action) = x.step(BusEvent::SelectFailed);
    assert!(matches!(action, BusAction::Finish(ExchangeOutcome::SelectFailed)));
}

#[test]
fn exchange_release_failure_after_good_transfer() {
    let (x, _) = Exchange::start(RegisterAddr::ST11, 0, AccessMode::Read).unwrap();
    let (x, _) = x.step(BusEvent::Selected);
    let (x, _) = x.step(BusEvent::Transferred([0, 0, 0x80, 0x52]));
    let (_, action) = x.step(BusEvent::ReleaseFailed);
    assert!(matches!(action, BusAction::Finish(ExchangeOutcome::ReleaseFailed)));
}

#[test]
fn exchange_repeats_pending_action_on_stray_event() {
    let (x, _) = Exchange::start(RegisterAddr::ST1, 0, AccessMode::Read).unwrap();
    let (x, action) = x.step(BusEvent::Released);
    assert!(matches!(action, BusAction::SelectLow));
    let (_, action) = x.step(BusEvent::Selected);
    assert!(matches!(action, BusAction::Transfer([0x88, 0, 0, 0])));
}

#[test]
fn exchange_refuses_bad_frame_before_the_bus() {
    assert_eq!(
        Exchange::start(RegisterAddr::ST10, 1, AccessMode::Write).err(),
        Some(ProtocolError::ReadOnlyViolation)
    );
    assert_eq!(
        Exchange::start(RegisterAddr::ST1, 0x0800_0000, AccessMode::Write).err(),
        Some(ProtocolError::PayloadTooWide)
    );
    // A read sends payload 0 whatever it is given.
    assert!(Exchange::start(RegisterAddr::ST1, 0x0800_0000, AccessMode::Read).is_ok());
}

#[test]
fn exchange_stays_finished() {
    let (x, _) = Exchange::start(RegisterAddr::ST11, 0, AccessMode::Read).unwrap();
    let (x, _) = x.step(BusEvent::Selected);
    let (x, _) = x.step(BusEvent::Transferred([0, 0, 0x80, 0x4B]));
    let (x, _) = x.step(BusEvent::Released);
    let (_, action) = x.step(BusEvent::Selected);
    assert!(matches!(action, BusAction::Finish(ExchangeOutcome::Payload(0x804B))));
}
