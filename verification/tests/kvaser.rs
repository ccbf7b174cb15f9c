use can_hal::bittiming::TimingPhase;
use can_hal::bus::BusState;
use can_hal::filter::Filter;
use can_hal::frame::{CanFdFrame, Frame};
use can_hal::id::CanId;
use can_hal::kvaser::convert::{from_canlib_frame, from_canlib_id, to_canlib_id};
use can_hal::kvaser::driver::KvaserDriver;
use can_hal::kvaser::error::{check_status, KvaserError, KvaserStatus};
use can_hal::kvaser::ffi::{
    CAN_ERR_NOT_SUPPORTED, CAN_MSG_BRS, CAN_MSG_ERROR_FRAME, CAN_MSG_ESI, CAN_MSG_EXT, CAN_MSG_FDF,
    CAN_MSG_RTR, CAN_MSG_STD, CAN_STAT_BUS_OFF, CAN_STAT_ERROR_PASSIVE, CAN_STAT_ERROR_WARNING,
};
use can_hal::kvaser::ffi::{
    CAN_FILTER_SET_CODE_EXT, CAN_FILTER_SET_CODE_STD, CAN_FILTER_SET_MASK_EXT,
    CAN_FILTER_SET_MASK_STD,
};
use can_hal::kvaser::filter::{
    filter_apply_call, filter_apply_next, filter_apply_start, merge_filters, set_filters_plan,
    FilterApply,
};
use can_hal::kvaser::status::{
    bus_state_from_flags, classic_read_step, counters_from_raw, fd_write_id, ClassicRead,
};
use can_hal::kvaser::timing::{
    compute_prescaler, fd_tq_fallback, solve_data, solve_nominal, solve_phase_timing,
    to_data_tq, to_nominal_tq, BusParams, BusParamsFd,
};
use can_hal::pcan;
use can_hal::timing::SamplePoint;

fn accepts(code: u32, mask: u32, id: u32) -> bool {
    id & mask == code
}

fn std_filter(id: u16, mask: u32) -> Filter {
    Filter {
        id: CanId::new_standard(id).unwrap(),
        mask,
    }
}

#[test]
fn merge_single_exact_filter_accepts_only_that_id() {
    let merged = merge_filters(&[std_filter(0x100, 0x7FF)], |_| true).unwrap();
    assert!(accepts(merged.0, merged.1, 0x100));
    assert!(!accepts(merged.0, merged.1, 0x101));
    assert!(!accepts(merged.0, merged.1, 0x200));
}

#[test]
fn merge_two_consecutive_ids_accepts_both() {
    let merged = merge_filters(
        &[std_filter(0x100, 0x7FF), std_filter(0x101, 0x7FF)],
        |_| true,
    )
    .unwrap();
    assert!(accepts(merged.0, merged.1, 0x100));
    assert!(accepts(merged.0, merged.1, 0x101));
}

#[test]
fn merge_with_no_matches_returns_none() {
    let merged = merge_filters(&[std_filter(0x100, 0x7FF)], |_| false);
    assert!(merged.is_none());
}

#[test]
fn merge_widening_overaccepts_but_never_underaccepts() {
    let merged = merge_filters(
        &[std_filter(0x100, 0x7FF), std_filter(0x200, 0x7FF)],
        |_| true,
    )
    .unwrap();
    assert!(accepts(merged.0, merged.1, 0x100));
    assert!(accepts(merged.0, merged.1, 0x200));
}

#[test]
fn merge_mixed_masks_accepts_all_original_ids() {
    let merged = merge_filters(
        &[std_filter(0x100, 0x7F0), std_filter(0x200, 0x7E0)],
        |_| true,
    )
    .unwrap();
    for id in 0x100..=0x10F {
        assert!(accepts(merged.0, merged.1, id), "merged should accept {id:#x}");
    }
    for id in 0x200..=0x21F {
        assert!(accepts(merged.0, merged.1, id), "merged should accept {id:#x}");
    }
}

#[test]
fn merge_selects_by_predicate() {
    let ext = Filter {
        id: CanId::new_extended(0x18DA_00F1).unwrap(),
        mask: 0x1FFF_FFFF,
    };
    let filters = [std_filter(0x100, 0x7FF), ext];
    let std = merge_filters(&filters, |f| f.id.is_standard()).unwrap();
    assert_eq!(std, (0x100, 0x7FF));
    let e = merge_filters(&filters, |f| f.id.is_extended()).unwrap();
    assert_eq!(e, (0x18DA_00F1, 0x1FFF_FFFF));
}

#[test]
fn round_trip_standard_id() {
    let id = CanId::new_standard(0x123).unwrap();
    let (raw, flags) = to_canlib_id(id);
    assert_eq!(raw, 0x123);
    assert_eq!(flags, CAN_MSG_STD);
    assert_eq!(from_canlib_id(raw, flags).unwrap(), id);
}

#[test]
fn round_trip_extended_id() {
    let id = CanId::new_extended(0x1234_5678).unwrap();
    let (raw, flags) = to_canlib_id(id);
    assert_eq!(raw, 0x1234_5678);
    assert_eq!(flags, CAN_MSG_EXT);
    assert_eq!(from_canlib_id(raw, flags).unwrap(), id);
}

#[test]
fn classic_frame_from_canlib() {
    let id = CanId::new_standard(0x100).unwrap();
    let (raw_id, flags) = to_canlib_id(id);
    let mut data = [0u8; 64];
    data[..3].copy_from_slice(&[0x01, 0x02, 0x03]);

    let frame = from_canlib_frame(raw_id, &data, 3, flags).unwrap().unwrap();
    match frame {
        Frame::Can(f) => {
            assert_eq!(f.id(), id);
            assert_eq!(f.data(), &[0x01, 0x02, 0x03]);
        }
        _ => panic!("expected classic frame"),
    }
}

#[test]
fn fd_frame_from_canlib() {
    let id = CanId::new_extended(0x200).unwrap();
    let (raw_id, mut flags) = to_canlib_id(id);
    flags |= CAN_MSG_FDF | CAN_MSG_BRS;
    let mut data = [0u8; 64];
    data[..12].fill(0xAB);

    let frame = from_canlib_frame(raw_id, &data, 12, flags).unwrap().unwrap();
    match frame {
        Frame::Fd(f) => {
            assert_eq!(f.len(), 12);
            assert!(f.brs());
            assert!(!f.esi());
        }
        _ => panic!("expected FD frame"),
    }
}

#[test]
fn rtr_frame_returns_none() {
    let data = [0u8; 64];
    assert!(from_canlib_frame(0x100, &data, 0, CAN_MSG_STD | CAN_MSG_RTR)
        .unwrap()
        .is_none());
}

#[test]
fn error_frame_returns_none() {
    let data = [0u8; 64];
    assert!(from_canlib_frame(0x100, &data, 0, CAN_MSG_STD | CAN_MSG_ERROR_FRAME)
        .unwrap()
        .is_none());
}

#[test]
fn canlib_out_of_range_ids_are_refused() {
    match from_canlib_id(0x800, CAN_MSG_STD) {
        Err(KvaserError::InvalidFrame(m)) => assert_eq!(m, "standard ID out of range: 0x800"),
        other => panic!("unexpected {other:?}"),
    }
    match from_canlib_id(0x2000_0000, CAN_MSG_EXT) {
        Err(KvaserError::InvalidFrame(m)) => {
            assert_eq!(m, "extended ID out of range: 0x20000000")
        }
        other => panic!("unexpected {other:?}"),
    }
}

#[test]
fn canlib_invalid_fd_length_is_refused() {
    let data = [0u8; 64];
    match from_canlib_frame(0x100, &data, 9, CAN_MSG_STD | CAN_MSG_FDF) {
        Err(KvaserError::InvalidFrame(m)) => assert_eq!(m, "invalid FD DLC: 9"),
        other => panic!("unexpected {other:?}"),
    }
    // Classic byte counts above 8 are clamped.
    let frame = from_canlib_frame(0x100, &data, 15, CAN_MSG_STD).unwrap().unwrap();
    assert_eq!(frame.len(), 8);
}

#[test]
fn driver_solver_nominal_500k_default_sample_point() {
    let (tseg1, tseg2, sjw) =
        solve_phase_timing(500_000, SamplePoint::nominal_default(), TimingPhase::Nominal).unwrap();
    assert_eq!(tseg1, 13);
    assert_eq!(tseg2, 6);
    assert_eq!(sjw, 4);
}

#[test]
fn driver_solver_data_4m_default_sample_point() {
    let (tseg1, tseg2, sjw) =
        solve_phase_timing(4_000_000, SamplePoint::data_default(), TimingPhase::Data).unwrap();
    assert_eq!(tseg1, 7);
    assert_eq!(tseg2, 2);
    assert_eq!(sjw, 2);
}

#[test]
fn solver_data_5m_uses_data_constraints() {
    let (tseg1, tseg2, _sjw) =
        solve_phase_timing(5_000_000, SamplePoint::data_default(), TimingPhase::Data).unwrap();
    assert_eq!(tseg1, 12);
    assert_eq!(tseg2, 3);
}

#[test]
fn driver_solver_rejects_non_divisible_bitrate() {
    assert!(
        solve_phase_timing(333_000, SamplePoint::nominal_default(), TimingPhase::Nominal).is_none()
    );}

#[test]
fn solve_nominal_returns_busparams() {
    let p = solve_nominal(500_000, SamplePoint::nominal_default()).unwrap();
    assert_eq!(p.tseg1, 13);
    assert_eq!(p.tseg2, 6);
    assert_eq!(p.sjw, 4);
    assert_eq!(p.no_samp, 1);
    assert_eq!(p.sync_mode, 0);
}

#[test]
fn solve_data_returns_busparamsfd() {
    let p = solve_data(4_000_000, SamplePoint::data_default()).unwrap();
    assert_eq!(p.tseg1, 7);
    assert_eq!(p.tseg2, 2);
    assert_eq!(p.sjw, 2);
}

#[test]
fn solve_errors_name_phase_bitrate_and_sample_point() {
    match solve_nominal(333_000, SamplePoint::nominal_default()) {
        Err(KvaserError::UnsupportedTiming(m)) => assert_eq!(
            m,
            "no Kvaser nominal timing satisfies bitrate=333000 Hz, sample_point=0.7"
        ),
        other => panic!("unexpected {other:?}"),
    }
    match solve_data(0, SamplePoint::pct_87_5()) {
        Err(KvaserError::UnsupportedTiming(m)) => assert_eq!(
            m,
            "no Kvaser data timing satisfies bitrate=0 Hz, sample_point=0.875"
        ),
        other => panic!("unexpected {other:?}"),
    }
}

#[test]
fn compute_prescaler_500k_at_20tq() {
    assert_eq!(compute_prescaler(500_000, 20).unwrap(), 8);
}

#[test]
fn compute_prescaler_4m_at_10tq() {
    assert_eq!(compute_prescaler(4_000_000, 10).unwrap(), 2);
}

#[test]
fn compute_prescaler_non_integer_fails() {
    assert!(compute_prescaler(333_000, 20).is_err());
    match compute_prescaler(333_000, 20) {
        Err(KvaserError::UnsupportedTiming(m)) => assert_eq!(
            m,
            "cannot achieve 333000 Hz with 20 TQ at 80000000 Hz clock (prescaler would be non-integer)"
        ),
        other => panic!("unexpected {other:?}"),
    }
    assert!(compute_prescaler(0, 20).is_err());
}

#[test]
fn tq_records_carry_segments_and_prescaler() {
    let p = BusParams {
        tseg1: 13,
        tseg2: 6,
        sjw: 4,
        no_samp: 1,
        sync_mode: 0,
    };
    let n = to_nominal_tq(500_000, &p).unwrap();
    assert_eq!((n.tq, n.phase1, n.phase2, n.sjw, n.prop, n.prescaler), (20, 13, 6, 4, 0, 8));
    let q = BusParamsFd {
        tseg1: 7,
        tseg2: 2,
        sjw: 2,
    };
    let d = to_data_tq(4_000_000, &q).unwrap();
    assert_eq!((d.tq, d.phase1, d.phase2, d.sjw, d.prop, d.prescaler), (10, 7, 2, 2, 0, 2));
    assert!(to_data_tq(3_000_000, &q).is_err());
}

#[test]
fn fd_tq_status_decides_fallback() {
    assert!(!fd_tq_fallback(0).unwrap());
    assert!(!fd_tq_fallback(5).unwrap());
    assert!(fd_tq_fallback(CAN_ERR_NOT_SUPPORTED).unwrap());
    match fd_tq_fallback(-3) {
        Err(KvaserError::Canlib(s)) => assert_eq!(s, KvaserStatus(-3)),
        other => panic!("unexpected {other:?}"),
    }
}

#[test]
fn check_status_accepts_non_negative() {
    assert!(check_status(0).is_ok());
    assert!(check_status(1).is_ok());
    match check_status(-7) {
        Err(KvaserError::Canlib(s)) => {
            assert_eq!(s, KvaserStatus(-7));
            assert_eq!(s.description(), "timeout");
        }
        other => panic!("unexpected {other:?}"),
    }
    assert_eq!(KvaserStatus(-14).description(), "unknown error");
    assert_eq!(KvaserStatus(-19).description(), "function not supported");
}

#[test]
fn test_kvaser_classic_explicit_out_of_range_rejected() {
    let driver = KvaserDriver::new(());
    let bad = BusParams {
        tseg1: 13,
        tseg2: 200,
        sjw: 4,
        no_samp: 1,
        sync_mode: 0,
    };
    assert!(
        driver.channel(0).unwrap().classic_explicit(500_000, bad).is_err(),
        "out-of-range explicit segments must be rejected at the call site"
    );
}

#[test]
fn test_kvaser_non_divisible_bitrate_rejected() {
    let driver = KvaserDriver::new(());
    match driver.channel(0).unwrap().classic(333_000) {
        Err(KvaserError::UnsupportedBitrate(hz)) => assert_eq!(hz, 333_000),
        _ => panic!("expected UnsupportedBitrate"),
    }
    match driver.channel(0).unwrap().fd(500_000, 333_000) {
        Err(KvaserError::UnsupportedBitrate(hz)) => assert_eq!(hz, 333_000),
        _ => panic!("expected UnsupportedBitrate"),
    }
    let b = driver.channel(2).unwrap().classic(500_000).unwrap();
    assert_eq!(b.channel_index(), 2);
    assert_eq!(b.state().sample_point().per_mille(), 700);
    let p = b.bus_params().unwrap();
    assert_eq!((p.tseg1, p.tseg2, p.sjw), (13, 6, 4));

    let fd = driver
        .channel(0)
        .unwrap()
        .fd(500_000, 2_000_000)
        .unwrap()
        .sample_point(SamplePoint::pct_87_5())
        .data_sample_point(SamplePoint::pct_75());
    assert_eq!(fd.state().sample_point().per_mille(), 875);
    assert_eq!(fd.state().data_sample_point().per_mille(), 750);
    let (n, d) = fd.bus_params().unwrap();
    assert_eq!((n.tseg1, n.tseg2, n.sjw), (13, 2, 2));
    assert_eq!((d.tseg1, d.tseg2, d.sjw), (5, 2, 2));
}

#[test]
fn explicit_fd_segments_are_stored_unchanged() {
    let driver = KvaserDriver::new(());
    let nominal = BusParams {
        tseg1: 13,
        tseg2: 200,
        sjw: 4,
        no_samp: 1,
        sync_mode: 0,
    };
    let data = BusParamsFd {
        tseg1: 40,
        tseg2: 2,
        sjw: 2,
    };
    let b = driver
        .channel(1)
        .unwrap()
        .fd_explicit(500_000, 2_000_000, nominal, data)
        .unwrap();
    assert_eq!(b.state().params().tseg2, 200);
    assert_eq!(b.state().fd_params().tseg1, 40);
    assert_eq!(b.state().nominal_hz(), 500_000);
    assert_eq!(b.state().data_hz(), 2_000_000);
    assert!(matches!(
        driver
            .channel(0)
            .unwrap()
            .fd_explicit(500_000, 3_000_000, nominal, data),
        Err(KvaserError::UnsupportedBitrate(3_000_000))
    ));
}

#[test]
fn status_flags_decode_to_bus_state() {
    assert_eq!(bus_state_from_flags(0), BusState::ErrorActive);
    assert_eq!(bus_state_from_flags(CAN_STAT_ERROR_WARNING), BusState::ErrorPassive);
    assert_eq!(bus_state_from_flags(CAN_STAT_ERROR_PASSIVE), BusState::ErrorPassive);
    assert_eq!(
        bus_state_from_flags(CAN_STAT_BUS_OFF | CAN_STAT_ERROR_PASSIVE),
        BusState::BusOff
    );
    let c = counters_from_raw(300, 7);
    assert_eq!((c.transmit, c.receive), (255, 7));
}

#[test]
fn fd_write_sets_frame_flags() {
    let id = CanId::new_extended(0x1234).unwrap();
    let f = CanFdFrame::new(id, &[0; 16], true, true).unwrap();
    assert_eq!(fd_write_id(&f), (0x1234, CAN_MSG_EXT | CAN_MSG_FDF | CAN_MSG_BRS | CAN_MSG_ESI));
    let g = CanFdFrame::new(CanId::new_standard(1).unwrap(), &[], false, false).unwrap();
    assert_eq!(fd_write_id(&g), (1, CAN_MSG_STD | CAN_MSG_FDF));
}

#[test]
fn classic_read_skips_fd_frames() {
    let id = CanId::new_standard(0x10).unwrap();
    let fd = CanFdFrame::new(id, &[1], false, false).unwrap();
    assert!(matches!(classic_read_step(Some(Frame::Fd(fd))), ClassicRead::Skip));
    assert!(matches!(classic_read_step(None), ClassicRead::Empty));
    let c = can_hal::frame::CanFrame::new(id, &[2]).unwrap();
    match classic_read_step(Some(Frame::Can(c.clone()))) {
        ClassicRead::Deliver(g) => assert_eq!(g, c),
        _ => panic!("expected delivery"),
    }
}

#[test]
fn filter_plan_resets_then_applies_each_kind() {
    let reset = vec![
        (0, CAN_FILTER_SET_CODE_STD),
        (0, CAN_FILTER_SET_MASK_STD),
        (0, CAN_FILTER_SET_CODE_EXT),
        (0, CAN_FILTER_SET_MASK_EXT),
    ];
    assert_eq!(set_filters_plan(&[]), reset);
    let ext = Filter {
        id: CanId::new_extended(0x1000).unwrap(),
        mask: 0x1FFF_FFFF,
    };
    let mut expected = reset.clone();
    expected.push((0x100, CAN_FILTER_SET_CODE_STD));
    expected.push((0x7FF, CAN_FILTER_SET_MASK_STD));
    expected.push((0x1000, CAN_FILTER_SET_CODE_EXT));
    expected.push((0x1FFF_FFFF, CAN_FILTER_SET_MASK_EXT));
    assert_eq!(set_filters_plan(&[std_filter(0x100, 0x7FF), ext]), expected);
}

#[test]
fn solver_timings_always_have_a_prescaler() {
    for &hz in &[125_000u32, 250_000, 500_000, 1_000_000] {
        let p = solve_nominal(hz, SamplePoint::nominal_default()).unwrap();
        let rec = to_nominal_tq(hz, &p).unwrap();
        assert_eq!(rec.prescaler as u32 * rec.tq as u32 * hz, 80_000_000);
    }
    for &hz in &[1_000_000u32, 2_000_000, 4_000_000, 5_000_000, 8_000_000] {
        let q = solve_data(hz, SamplePoint::data_default()).unwrap();
        let rec = to_data_tq(hz, &q).unwrap();
        assert_eq!(rec.prescaler as u32 * rec.tq as u32 * hz, 80_000_000);
    }
}

#[test]
fn written_fd_frame_reads_back() {
    let id = CanId::new_extended(0x1ABC_DEF0).unwrap();
    let f = CanFdFrame::new(id, &[0x42; 20], true, false).unwrap();
    let (raw, flags) = fd_write_id(&f);
    let mut buf = [0u8; 64];
    buf[..20].copy_from_slice(f.data());
    match from_canlib_frame(raw, &buf, 20, flags).unwrap() {
        Some(Frame::Fd(g)) => assert_eq!(g, f),
        other => panic!("unexpected {other:?}"),
    }
}

#[test]
fn solver_keeps_two_quanta_in_phase_segment_2() {
    let (tseg1, tseg2, sjw) =
        solve_phase_timing(4_000_000, SamplePoint::pct_75(), TimingPhase::Data).unwrap();
    assert!(tseg2 >= 2);
    assert_eq!((tseg1, tseg2, sjw), (14, 5, 4));
}

#[test]
fn solver_weighs_distance_from_the_preferred_quanta() {
    // 20 quanta miss 50.5% by half a percent, 200 quanta hit it exactly but
    // lie 180 quanta from the preferred count: the combined score picks 20.
    let sp = SamplePoint::from_per_mille(505);
    let (tseg1, tseg2, sjw) = solve_phase_timing(80_000, sp, TimingPhase::Nominal).unwrap();
    assert_eq!((tseg1, tseg2, sjw), (9, 10, 4));
    // The PCAN solver ranks by the sample point first.
    let t = pcan::timing::solve_phase_timing(80_000, sp, TimingPhase::Nominal).unwrap();
    assert_eq!((t.brp, t.tseg1, t.tseg2, t.sjw), (5, 100, 99, 4));
}

/// The calls a filter application makes when the call with each index in
/// `failing` fails, and whether it ends with the filters in place.
fn apply_with_failures(plan: &Vec<(u32, u32)>, failing: &[usize]) -> (Vec<(u32, u32)>, bool) {
    let mut state = filter_apply_start(plan.len());
    let mut calls = Vec::new();
    while let Some(call) = filter_apply_call(plan, state) {
        let ok = !failing.contains(&calls.len());
        calls.push(call);
        state = filter_apply_next(state, plan.len(), ok);
    }
    (calls, state == FilterApply::Finished(true))
}

#[test]
fn failed_filter_apply_resets_to_accept_all() {
    let plan = set_filters_plan(&[std_filter(0x100, 0x7FF)]);
    assert_eq!(plan.len(), 6);
    let reset = set_filters_plan(&[]);

    let (calls, ok) = apply_with_failures(&plan, &[]);
    assert_eq!(calls, plan);
    assert!(ok);

    // A failed reset call ends the application there.
    let (calls, ok) = apply_with_failures(&plan, &[1]);
    assert_eq!(calls, plan[..2].to_vec());
    assert!(!ok);

    // A failed merged filter is followed by the reset calls.
    let (calls, ok) = apply_with_failures(&plan, &[4]);
    let mut expected = plan[..5].to_vec();
    expected.extend_from_slice(&reset);
    assert_eq!(calls, expected);
    assert!(!ok);

    // The reset is best effort: it stops at its own first failure.
    let (calls, ok) = apply_with_failures(&plan, &[5, 7]);
    let mut expected = plan.clone();
    expected.extend_from_slice(&reset[..2]);
    assert_eq!(calls, expected);
    assert!(!ok);
}
