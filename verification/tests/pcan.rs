use can_hal::bittiming::TimingPhase;
use can_hal::bus::BusState;
use can_hal::filter::Filter;
use can_hal::frame::{CanFdFrame, CanFrame, Frame};
use can_hal::id::CanId;
use can_hal::pcan::convert::{
    dlc_bytes_to_code, dlc_code_to_bytes, from_pcan_id, from_pcan_msg, from_pcan_msg_fd, to_pcan_id,
    to_pcan_msg, to_pcan_msg_fd,
};
use can_hal::pcan::driver::PcanDriver;
use can_hal::pcan::error::{check_status, PcanError, PcanStatus};
use can_hal::pcan::ffi::{
    bitrate_to_pcan, pcan_handle, TPCANMsg, TPCANMsgFD, PCAN_BAUD_1M, PCAN_BAUD_250K,
    PCAN_BAUD_500K, PCAN_BAUD_5K, PCAN_ERROR_BUSHEAVY, PCAN_ERROR_BUSLIGHT, PCAN_ERROR_BUSOFF,
    PCAN_ERROR_BUSPASSIVE, PCAN_ERROR_OK, PCAN_ERROR_QRCVEMPTY, PCAN_LANBUS1, PCAN_MESSAGE_BRS,
    PCAN_MESSAGE_ESI, PCAN_MESSAGE_EXTENDED, PCAN_MESSAGE_FD, PCAN_MESSAGE_RTR,
    PCAN_MESSAGE_STANDARD, PCAN_MESSAGE_STATUS, PCAN_MODE_EXTENDED, PCAN_MODE_STANDARD,
    PCAN_PCIBUS1, PCAN_USBBUS1,
};
use can_hal::pcan::filter::{
    bus_state_from_status, counters_from_reads, mask_to_range, set_filters_plan,
};
use can_hal::pcan::timing::{
    solve_phase_timing, ClassicBitrate, PcanBusType, PcanFdTiming, PcanPhaseTiming,
};
use can_hal::timing::SamplePoint;

#[test]
fn mask_to_range_exact_standard() {
    let filter = Filter {
        id: CanId::new_standard(0x100).unwrap(),
        mask: 0x7FF,
    };
    let (from, to, ext) = mask_to_range(&filter);
    assert!(!ext);
    assert_eq!(from, 0x100);
    assert_eq!(to, 0x100);
}

#[test]
fn mask_to_range_prefix_standard() {
    let filter = Filter {
        id: CanId::new_standard(0x100).unwrap(),
        mask: 0x700,
    };
    let (from, to, ext) = mask_to_range(&filter);
    assert!(!ext);
    assert_eq!(from, 0x100);
    assert_eq!(to, 0x1FF);
}

#[test]
fn mask_to_range_all_standard() {
    let filter = Filter {
        id: CanId::new_standard(0x000).unwrap(),
        mask: 0x000,
    };
    let (from, to, ext) = mask_to_range(&filter);
    assert!(!ext);
    assert_eq!(from, 0x000);
    assert_eq!(to, 0x7FF);
}

#[test]
fn mask_to_range_exact_extended() {
    let filter = Filter {
        id: CanId::new_extended(0x18DA00F1).unwrap(),
        mask: 0x1FFF_FFFF,
    };
    let (from, to, ext) = mask_to_range(&filter);
    assert!(ext);
    assert_eq!(from, 0x18DA00F1);
    assert_eq!(to, 0x18DA00F1);
}

#[test]
fn filter_plan_merges_ranges_per_kind() {
    let filters = [
        Filter {
            id: CanId::new_standard(0x100).unwrap(),
            mask: 0x7FF,
        },
        Filter {
            id: CanId::new_standard(0x200).unwrap(),
            mask: 0x7F0,
        },
        Filter {
            id: CanId::new_extended(0x1000).unwrap(),
            mask: 0x1FFF_FFFF,
        },
    ];
    assert_eq!(
        set_filters_plan(&filters),
        vec![(0x100, 0x20F, PCAN_MODE_STANDARD), (0x1000, 0x1000, PCAN_MODE_EXTENDED)]
    );
    assert_eq!(
        set_filters_plan(&filters[..1]),
        vec![(0x100, 0x100, PCAN_MODE_STANDARD)]
    );
    assert_eq!(
        set_filters_plan(&[]),
        vec![(0, 0x7FF, PCAN_MODE_STANDARD), (0, 0x1FFF_FFFF, PCAN_MODE_EXTENDED)]
    );
}

#[test]
fn status_decodes_to_bus_state() {
    assert_eq!(bus_state_from_status(PCAN_ERROR_OK), BusState::ErrorActive);
    assert_eq!(bus_state_from_status(PCAN_ERROR_BUSLIGHT), BusState::ErrorActive);
    assert_eq!(bus_state_from_status(PCAN_ERROR_BUSHEAVY), BusState::ErrorPassive);
    assert_eq!(bus_state_from_status(PCAN_ERROR_BUSPASSIVE), BusState::ErrorPassive);
    assert_eq!(
        bus_state_from_status(PCAN_ERROR_BUSOFF | PCAN_ERROR_BUSHEAVY),
        BusState::BusOff
    );
    let c = counters_from_reads(PCAN_ERROR_OK, 1000, PCAN_ERROR_QRCVEMPTY, 9);
    assert_eq!((c.receive, c.transmit), (255, 0));
}

#[test]
fn roundtrip_standard_id_zero() {
    let id = CanId::new_standard(0x000).unwrap();
    let (raw, msg_type) = to_pcan_id(id);
    let back = from_pcan_id(raw, msg_type).unwrap();
    assert_eq!(id, back);
}

#[test]
fn convert_roundtrip_standard_id() {
    let id = CanId::new_standard(0x123).unwrap();
    let (raw, msg_type) = to_pcan_id(id);
    let back = from_pcan_id(raw, msg_type).unwrap();
    assert_eq!(id, back);
}

#[test]
fn convert_roundtrip_extended_id() {
    let id = CanId::new_extended(0x1234_5678).unwrap();
    let (raw, msg_type) = to_pcan_id(id);
    let back = from_pcan_id(raw, msg_type).unwrap();
    assert_eq!(id, back);
}

#[test]
fn roundtrip_standard_id_max() {
    let id = CanId::new_standard(0x7FF).unwrap();
    let (raw, msg_type) = to_pcan_id(id);
    let back = from_pcan_id(raw, msg_type).unwrap();
    assert_eq!(id, back);
}

#[test]
fn roundtrip_extended_id_max() {
    let id = CanId::new_extended(0x1FFF_FFFF).unwrap();
    let (raw, msg_type) = to_pcan_id(id);
    let back = from_pcan_id(raw, msg_type).unwrap();
    assert_eq!(id, back);
}

#[test]
fn invalid_pcan_ids_are_refused() {
    match from_pcan_id(0x800, PCAN_MESSAGE_STANDARD) {
        Err(PcanError::InvalidFrame(m)) => assert_eq!(m, "standard ID out of range: 0x00000800"),
        other => panic!("unexpected {other:?}"),
    }
    match from_pcan_id(0x2000_0000, PCAN_MESSAGE_EXTENDED) {
        Err(PcanError::InvalidFrame(m)) => assert_eq!(m, "invalid extended ID: 0x20000000"),
        other => panic!("unexpected {other:?}"),
    }
}

#[test]
fn convert_roundtrip_can_frame() {
    let id = CanId::new_standard(0x100).unwrap();
    let frame = CanFrame::new(id, &[1, 2, 3]).unwrap();
    let msg = to_pcan_msg(&frame);
    let back = from_pcan_msg(&msg).unwrap().unwrap();
    assert_eq!(frame.id(), back.id());
    assert_eq!(frame.data(), back.data());
}

#[test]
fn roundtrip_can_frame_empty() {
    let id = CanId::new_standard(0x7FF).unwrap();
    let frame = CanFrame::new(id, &[]).unwrap();
    let msg = to_pcan_msg(&frame);
    let back = from_pcan_msg(&msg).unwrap().unwrap();
    assert_eq!(frame.id(), back.id());
    assert_eq!(frame.len(), back.len());
    assert_eq!(0, back.len());
}

#[test]
fn roundtrip_can_frame_full() {
    let id = CanId::new_extended(0x1000).unwrap();
    let frame = CanFrame::new(id, &[1, 2, 3, 4, 5, 6, 7, 8]).unwrap();
    let msg = to_pcan_msg(&frame);
    assert_eq!(msg.msg_type & PCAN_MESSAGE_EXTENDED, PCAN_MESSAGE_EXTENDED);
    let back = from_pcan_msg(&msg).unwrap().unwrap();
    assert_eq!(frame.data(), back.data());
}

#[test]
fn convert_roundtrip_fd_frame() {
    let id = CanId::new_extended(0x200).unwrap();
    let data = [0xAA; 24];
    let frame = CanFdFrame::new(id, &data, true, false).unwrap();
    let msg = to_pcan_msg_fd(&frame);
    assert!(msg.msg_type & PCAN_MESSAGE_FD != 0);
    assert!(msg.msg_type & PCAN_MESSAGE_BRS != 0);
    assert!(msg.msg_type & PCAN_MESSAGE_ESI == 0);
    let back = from_pcan_msg_fd(&msg).unwrap().unwrap();
    match back {
        Frame::Fd(fd) => {
            assert_eq!(fd.id(), frame.id());
            assert_eq!(fd.data(), frame.data());
            assert!(fd.brs());
            assert!(!fd.esi());
        }
        Frame::Can(_) => panic!("expected FD frame"),
    }
}

#[test]
fn fd_frame_with_esi() {
    let id = CanId::new_standard(0x100).unwrap();
    let frame = CanFdFrame::new(id, &[1, 2, 3, 4, 5, 6, 7, 8], false, true).unwrap();
    let msg = to_pcan_msg_fd(&frame);
    assert!(msg.msg_type & PCAN_MESSAGE_ESI != 0);
    assert!(msg.msg_type & PCAN_MESSAGE_BRS == 0);
}

#[test]
fn classic_frame_on_fd_channel() {
    let msg = TPCANMsgFD {
        id: 0x100,
        msg_type: PCAN_MESSAGE_STANDARD,
        dlc: 3,
        data: {
            let mut d = [0u8; 64];
            d[0] = 0xAA;
            d[1] = 0xBB;
            d[2] = 0xCC;
            d
        },
    };
    let frame = from_pcan_msg_fd(&msg).unwrap().unwrap();
    match frame {
        Frame::Can(cf) => {
            assert_eq!(cf.len(), 3);
            assert_eq!(cf.data(), &[0xAA, 0xBB, 0xCC]);
        }
        Frame::Fd(_) => panic!("expected classic frame"),
    }
}

#[test]
fn skip_rtr_message() {
    let msg = TPCANMsg {
        id: 0x100,
        msg_type: PCAN_MESSAGE_RTR,
        len: 0,
        data: [0; 8],
    };
    assert!(from_pcan_msg(&msg).unwrap().is_none());
}

#[test]
fn skip_status_message() {
    let msg = TPCANMsg {
        id: 0,
        msg_type: PCAN_MESSAGE_STATUS,
        len: 0,
        data: [0; 8],
    };
    assert!(from_pcan_msg(&msg).unwrap().is_none());
}

#[test]
fn skip_status_message_fd() {
    let msg = TPCANMsgFD {
        id: 0,
        msg_type: PCAN_MESSAGE_STATUS,
        dlc: 0,
        data: [0; 64],
    };
    assert!(from_pcan_msg_fd(&msg).unwrap().is_none());
}

#[test]
fn dlc_encoding_roundtrip() {
    for &bytes in &[0, 1, 2, 3, 4, 5, 6, 7, 8, 12, 16, 20, 24, 32, 48, 64] {
        let code = dlc_bytes_to_code(bytes);
        let back = dlc_code_to_bytes(code);
        assert_eq!(bytes, back, "DLC roundtrip failed for {bytes}");
    }
}

#[test]
fn dlc_rounds_up_and_clamps() {
    assert_eq!(dlc_bytes_to_code(9), 9);
    assert_eq!(dlc_bytes_to_code(13), 10);
    assert_eq!(dlc_bytes_to_code(49), 15);
    assert_eq!(dlc_bytes_to_code(200), 15);
    assert_eq!(dlc_code_to_bytes(16), 64);
    assert_eq!(dlc_code_to_bytes(255), 64);
    for code in 0..=15u8 {
        assert_eq!(dlc_bytes_to_code(dlc_code_to_bytes(code)), code);
    }
}

#[test]
fn classic_length_is_clamped() {
    let msg = TPCANMsg {
        id: 0x10,
        msg_type: PCAN_MESSAGE_STANDARD,
        len: 12,
        data: [7; 8],
    };
    assert_eq!(from_pcan_msg(&msg).unwrap().unwrap().len(), 8);
}

#[test]
fn classic_bitrate_maps_to_pcan_constants() {
    assert_eq!(ClassicBitrate::Br500K.as_pcan(), PCAN_BAUD_500K);
    assert_eq!(ClassicBitrate::Br1M.as_pcan(), PCAN_BAUD_1M);
    assert_eq!(ClassicBitrate::Br5K.as_pcan(), PCAN_BAUD_5K);
}

#[test]
fn solver_nominal_500k_default_sample_point() {
    let t = solve_phase_timing(500_000, SamplePoint::nominal_default(), TimingPhase::Nominal)
        .unwrap();
    assert_eq!(t.brp, 8);
    assert_eq!(t.tseg1, 13);
    assert_eq!(t.tseg2, 6);
    assert_eq!(t.sjw, 4);
}

#[test]
fn solver_data_4m_default_sample_point() {
    let t = solve_phase_timing(4_000_000, SamplePoint::data_default(), TimingPhase::Data).unwrap();
    assert_eq!(t.brp, 2);
    assert_eq!(t.tseg1, 7);
    assert_eq!(t.tseg2, 2);
    assert_eq!(t.sjw, 2);
}

#[test]
fn solver_rejects_non_divisible_bitrate() {
    assert!(
        solve_phase_timing(333_000, SamplePoint::nominal_default(), TimingPhase::Nominal)
            .is_none()
    );
}

#[test]
fn solver_nominal_1m_default_sample_point() {
    let t = solve_phase_timing(1_000_000, SamplePoint::nominal_default(), TimingPhase::Nominal)
        .unwrap();
    assert_eq!(t.brp, 4);
    assert_eq!(t.tseg1, 13);
    assert_eq!(t.tseg2, 6);
    assert_eq!(t.sjw, 4);
}

#[test]
fn solver_nominal_250k_default_sample_point() {
    let t =
        solve_phase_timing(250_000, SamplePoint::nominal_default(), TimingPhase::Nominal).unwrap();
    assert_eq!(t.brp, 16);
    assert_eq!(t.tseg1, 13);
    assert_eq!(t.tseg2, 6);
}

#[test]
fn solver_data_2m_default_sample_point() {
    let t = solve_phase_timing(2_000_000, SamplePoint::data_default(), TimingPhase::Data).unwrap();
    assert_eq!(t.brp, 4);
    assert_eq!(t.tseg1, 7);
    assert_eq!(t.tseg2, 2);
}

#[test]
fn solver_data_1m_default_sample_point() {
    let t = solve_phase_timing(1_000_000, SamplePoint::data_default(), TimingPhase::Data).unwrap();
    assert_eq!(t.brp, 8);
    assert_eq!(t.tseg1, 7);
    assert_eq!(t.tseg2, 2);
}

#[test]
fn solver_nominal_500k_custom_sample_point() {
    let t = solve_phase_timing(500_000, SamplePoint::pct_87_5(), TimingPhase::Nominal).unwrap();
    assert_eq!(t.brp, 10);
    assert_eq!(t.tseg1, 13);
    assert_eq!(t.tseg2, 2);
}

#[test]
fn solver_nominal_500k_85_percent() {
    let t = solve_phase_timing(
        500_000,
        SamplePoint::from_per_mille(850),
        TimingPhase::Nominal,
    )
    .unwrap();
    assert_eq!(t.brp, 8);
    assert_eq!(t.tseg1, 16);
    assert_eq!(t.tseg2, 3);
    assert_eq!(t.sjw, 3);
}

#[test]
fn solver_rejects_zero_bitrate() {
    assert!(solve_phase_timing(0, SamplePoint::nominal_default(), TimingPhase::Nominal).is_none());
}

#[test]
fn solver_result_meets_bitrate_exactly() {
    for &hz in &[125_000u32, 250_000, 500_000, 800_000, 1_000_000] {
        let t = solve_phase_timing(hz, SamplePoint::nominal_default(), TimingPhase::Nominal)
            .unwrap();
        assert_eq!(t.brp * (1 + t.tseg1 + t.tseg2) * hz, 80_000_000);
        assert!(t.sjw <= t.tseg1.min(t.tseg2).min(4));
    }
}

#[test]
fn fd_timing_to_string_matches_legacy_format() {
    let timing = PcanFdTiming {
        nominal: PcanPhaseTiming {
            brp: 8,
            tseg1: 13,
            tseg2: 6,
            sjw: 4,
        },
        data: PcanPhaseTiming {
            brp: 2,
            tseg1: 7,
            tseg2: 2,
            sjw: 2,
        },
    };
    assert_eq!(
        timing.to_pcan_string(),
        "f_clock_mhz=80, \
         nom_brp=8, nom_tseg1=13, nom_tseg2=6, nom_sjw=4, \
         data_brp=2, data_tseg1=7, data_tseg2=2, data_sjw=2"
    );
}

#[test]
fn usb_handle_mapping() {
    assert_eq!(pcan_handle(0, 0), Some(PCAN_USBBUS1));
    assert_eq!(pcan_handle(0, 1), Some(PCAN_USBBUS1 + 1));
    assert_eq!(pcan_handle(0, 15), Some(PCAN_USBBUS1 + 15));
    assert_eq!(pcan_handle(0, 16), None);
}

#[test]
fn pci_handle_mapping() {
    assert_eq!(pcan_handle(1, 0), Some(PCAN_PCIBUS1));
    assert_eq!(pcan_handle(1, 15), Some(PCAN_PCIBUS1 + 15));
}

#[test]
fn lan_handle_mapping() {
    assert_eq!(pcan_handle(2, 0), Some(PCAN_LANBUS1));
    assert_eq!(pcan_handle(2, 15), Some(PCAN_LANBUS1 + 15));
}

#[test]
fn invalid_bus_type() {
    assert_eq!(pcan_handle(3, 0), None);
}

#[test]
fn bitrate_mapping() {
    assert_eq!(bitrate_to_pcan(500_000), Some(PCAN_BAUD_500K));
    assert_eq!(bitrate_to_pcan(1_000_000), Some(PCAN_BAUD_1M));
    assert_eq!(bitrate_to_pcan(250_000), Some(PCAN_BAUD_250K));
    assert_eq!(bitrate_to_pcan(123_456), None);
}

#[test]
fn pcan_status_checks_and_descriptions() {
    assert!(check_status(PCAN_ERROR_OK).is_ok());
    match check_status(PCAN_ERROR_QRCVEMPTY) {
        Err(PcanError::Pcan(s)) => {
            assert_eq!(s, PcanStatus(PCAN_ERROR_QRCVEMPTY));
            assert_eq!(s.description(), "receive queue empty");
        }
        other => panic!("unexpected {other:?}"),
    }
    assert_eq!(PcanStatus(0x3).description(), "");
}

#[test]
fn test_pcan_invalid_channel_index_rejected() {
    let driver = PcanDriver::new(());
    assert!(matches!(driver.channel(16), Err(PcanError::InvalidChannel(16))));
    assert!(matches!(driver.channel(99), Err(PcanError::InvalidChannel(99))));
    assert!(matches!(
        driver.channel(65_536),
        Err(PcanError::InvalidChannel(65_536))
    ));
    assert_eq!(driver.channel(3).unwrap().handle(), PCAN_USBBUS1 + 3);
    assert_eq!(
        driver.channel_on_bus(PcanBusType::Lan, 0).unwrap().handle(),
        PCAN_LANBUS1
    );
}

#[test]
fn test_pcan_fd_non_divisible_bitrate_rejected() {
    let driver = PcanDriver::new(());
    let builder = driver.channel(0).unwrap();
    assert!(matches!(
        builder.fd(333_000, 4_000_000),
        Err(PcanError::UnsupportedBitrate(333_000))
    ));
    let builder = driver.channel(0).unwrap();
    assert!(matches!(
        builder.fd(500_000, 3_000_000),
        Err(PcanError::UnsupportedBitrate(3_000_000))
    ));
}

#[test]
fn fd_builder_solves_both_phases() {
    let driver = PcanDriver::new(());
    let b = driver.channel(0).unwrap().fd(500_000, 4_000_000).unwrap();
    let t = b.timing().unwrap();
    assert_eq!(t.to_pcan_string(), "f_clock_mhz=80, nom_brp=8, nom_tseg1=13, nom_tseg2=6, nom_sjw=4, data_brp=2, data_tseg1=7, data_tseg2=2, data_sjw=2");
    let c = driver.channel(1).unwrap().classic(ClassicBitrate::Br250K);
    assert_eq!(c.state().bitrate_const(), PCAN_BAUD_250K);
}

#[test]
fn fd_builder_reports_unsolvable_timing() {
    let driver = PcanDriver::new(());
    // 40 MHz divides the clock, but two quanta per bit fit no timing.
    let b = driver.channel(0).unwrap().fd(500_000, 40_000_000).unwrap();
    match b.timing() {
        Err(PcanError::UnsupportedTiming(m)) => assert_eq!(
            m,
            "no PCAN FD data timing satisfies bitrate=40000000 Hz, sample_point=0.8"
        ),
        other => panic!("unexpected {other:?}"),
    }
}

#[test]
fn solver_prefers_the_closest_sample_point() {
    let t = solve_phase_timing(2_000_000, SamplePoint::from_per_mille(775), TimingPhase::Data)
        .unwrap();
    assert_eq!(t, PcanPhaseTiming { brp: 1, tseg1: 30, tseg2: 9, sjw: 4 });
}
