use std::time::Instant;

use can_hal::bus::{BusState, ErrorCounters};
use can_hal::frame::{CanFdFrame, CanFrame, Frame, Timestamped};
use can_hal::id::CanId;
use can_hal::timing::SamplePoint;

#[test]
fn can_id_standard_valid() {
    let id = CanId::new_standard(0x123).unwrap();
    assert_eq!(id.raw(), 0x123);
    assert!(id.is_standard());
}

#[test]
fn can_id_standard_max() {
    assert!(CanId::new_standard(0x7FF).is_some());
    assert!(CanId::new_standard(0x800).is_none());
}

#[test]
fn can_id_extended_valid() {
    let id = CanId::new_extended(0x1234_5678).unwrap();
    assert_eq!(id.raw(), 0x1234_5678);
    assert!(id.is_extended());
}

#[test]
fn can_id_extended_max() {
    assert!(CanId::new_extended(0x1FFF_FFFF).is_some());
    assert!(CanId::new_extended(0x2000_0000).is_none());
}

#[test]
fn can_frame_valid() {
    let id = CanId::new_standard(0x100).unwrap();
    let frame = CanFrame::new(id, &[1, 2, 3]).unwrap();
    assert_eq!(frame.id(), id);
    assert_eq!(frame.len(), 3);
    assert_eq!(frame.data(), &[1, 2, 3]);
}

#[test]
fn can_frame_empty() {
    let id = CanId::new_standard(0x000).unwrap();
    let frame = CanFrame::new(id, &[]).unwrap();
    assert_eq!(frame.len(), 0);
    assert_eq!(frame.data(), &[] as &[u8]);
}

#[test]
fn can_frame_too_long() {
    let id = CanId::new_standard(0x100).unwrap();
    assert!(CanFrame::new(id, &[0; 9]).is_none());
}

#[test]
fn can_fd_frame_valid() {
    let id = CanId::new_extended(0x100).unwrap();
    let data = [0xAA; 32];
    let frame = CanFdFrame::new(id, &data, true, false).unwrap();
    assert_eq!(frame.len(), 32);
    assert_eq!(frame.data(), &data);
    assert!(frame.brs());
    assert!(!frame.esi());
}

#[test]
fn can_fd_frame_invalid_dlc() {
    let id = CanId::new_standard(0x100).unwrap();
    assert!(CanFdFrame::new(id, &[0; 9], false, false).is_none());
}

#[test]
fn frame_enum_accessors() {
    let id = CanId::new_standard(0x200).unwrap();
    let classic = CanFrame::new(id, &[0xFF]).unwrap();
    let frame = Frame::Can(classic);
    assert_eq!(frame.id(), id);
    assert_eq!(frame.len(), 1);
    assert_eq!(frame.data(), &[0xFF]);
}

#[test]
fn timestamped_wrapper() {
    let id = CanId::new_standard(0x100).unwrap();
    let frame = CanFrame::new(id, &[1, 2]).unwrap();
    let now = Instant::now();
    let ts = Timestamped::new(frame.clone(), now);
    assert_eq!(ts.frame(), &frame);
    assert_eq!(*ts.timestamp(), now);
    assert_eq!(ts.into_frame(), frame);
}

#[test]
fn bus_state_enum() {
    let state = BusState::ErrorActive;
    assert_eq!(state, BusState::ErrorActive);
    assert_ne!(state, BusState::BusOff);

    let counters = ErrorCounters {
        transmit: 0,
        receive: 0,
    };
    assert_eq!(counters.transmit, 0);
}

#[test]
fn from_per_mille_accepts_range_bounds() {
    assert_eq!(SamplePoint::from_per_mille(500).per_mille(), 500);
    assert_eq!(SamplePoint::from_per_mille(950).per_mille(), 950);
}

#[test]
fn nominal_default_is_70_percent() {
    assert_eq!(SamplePoint::nominal_default().per_mille(), 700);
}

#[test]
fn data_default_is_80_percent() {
    assert_eq!(SamplePoint::data_default().per_mille(), 800);
}

#[test]
fn pct_87_5_is_875_per_mille() {
    assert_eq!(SamplePoint::pct_87_5().per_mille(), 875);
    assert_eq!(SamplePoint::pct_75().per_mille(), 750);
}

#[test]
fn fd_frame_lengths_between_valid_ones_are_refused() {
    let id = CanId::new_standard(0x1).unwrap();
    for n in 0..=64usize {
        let ok = CanFdFrame::new(id, &vec![0u8; n], false, false).is_some();
        let valid = n <= 8 || [12, 16, 20, 24, 32, 48, 64].contains(&n);
        assert_eq!(ok, valid, "length {n}");
    }
    assert!(CanFdFrame::new(id, &[0u8; 65], false, false).is_none());
}

#[test]
fn fd_frame_keeps_flags_and_empty_frames() {
    let id = CanId::new_extended(0x1FFF_FFFF).unwrap();
    let f = CanFdFrame::new(id, &[], false, true).unwrap();
    assert!(f.is_empty());
    assert!(!f.brs());
    assert!(f.esi());
    let frame = Frame::Fd(f);
    assert_eq!(frame.id(), id);
    assert!(frame.is_empty());
}
