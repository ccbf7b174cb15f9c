use can_hal::filter::Filter;
use can_hal::frame::Frame;
use can_hal::id::CanId;
use can_hal::socketcan::convert::{
    any_from_socketcan, classic_from_socketcan, from_socketcan_any_frame, to_socketcan_filter, ScFrame, ScFrameKind, CAN_EFF_FLAG,
};
use can_hal::socketcan::driver::{InterfaceSpec, SocketCanDriver};
use can_hal::socketcan::error::SocketCanError;
use socketcan::CanFilter;

fn sc_filter(f: &Filter) -> CanFilter {
    let (id, mask) = to_socketcan_filter(f);
    CanFilter::new(id, mask)
}

#[test]
fn filter_standard() {
    let filter = Filter {
        id: CanId::new_standard(0x100).unwrap(),
        mask: 0x7FF,
    };
    assert_eq!(sc_filter(&filter), CanFilter::new(0x100, 0x7FF));
}

#[test]
fn filter_extended() {
    let filter = Filter {
        id: CanId::new_extended(0x1234).unwrap(),
        mask: 0x1FFF_FFFF,
    };
    assert_eq!(
        sc_filter(&filter),
        CanFilter::new(0x1234 | CAN_EFF_FLAG, 0x1FFF_FFFF | CAN_EFF_FLAG)
    );
}

fn plain(kind: ScFrameKind, id: CanId, data: &[u8], brs: bool, esi: bool) -> ScFrame {
    ScFrame {
        kind,
        id,
        data: data.to_vec(),
        brs,
        esi,
    }
}

#[test]
fn any_frame_classic() {
    let id = CanId::new_standard(0x300).unwrap();
    let back = from_socketcan_any_frame(&plain(ScFrameKind::Normal, id, &[0xFF], false, false))
        .unwrap();
    match back {
        Frame::Can(f) => {
            assert_eq!(f.id(), id);
            assert_eq!(f.data(), &[0xFF]);
        }
        Frame::Fd(_) => panic!("expected classic frame"),
    }
}

#[test]
fn any_frame_fd() {
    let id = CanId::new_standard(0x400).unwrap();
    let back =
        from_socketcan_any_frame(&plain(ScFrameKind::Fd, id, &[0xBB; 12], false, true)).unwrap();
    match back {
        Frame::Fd(f) => {
            assert_eq!(f.id(), id);
            assert_eq!(f.data(), &[0xBB; 12]);
            assert!(!f.brs());
            assert!(f.esi());
        }
        Frame::Can(_) => panic!("expected FD frame"),
    }
}

#[test]
fn remote_and_error_frames_are_refused() {
    let id = CanId::new_standard(0x1).unwrap();
    match from_socketcan_any_frame(&plain(ScFrameKind::Remote, id, &[], false, false)) {
        Err(SocketCanError::InvalidFrame(m)) => assert_eq!(m, "remote frames are not supported"),
        other => panic!("unexpected {other:?}"),
    }
    match from_socketcan_any_frame(&plain(ScFrameKind::Error, id, &[], false, false)) {
        Err(SocketCanError::InvalidFrame(m)) => assert_eq!(m, "error frames are not supported"),
        other => panic!("unexpected {other:?}"),
    }
    match from_socketcan_any_frame(&plain(ScFrameKind::Fd, id, &[0; 9], false, false)) {
        Err(SocketCanError::InvalidFrame(m)) => {
            assert_eq!(m, "failed to construct can-hal CanFdFrame")
        }
        other => panic!("unexpected {other:?}"),
    }
}

#[test]
fn builder_holds_the_interface() {
    let driver = SocketCanDriver::new();
    assert_eq!(
        *driver.channel_by_name("vcan0").interface(),
        InterfaceSpec::Name("vcan0".to_string())
    );
    assert_eq!(driver.channel(3).into_interface(), InterfaceSpec::Index(3));
}

#[test]
fn receive_decisions_skip_what_the_caller_does_not_take() {
    let id = CanId::new_standard(0x10).unwrap();
    let fd = plain(ScFrameKind::Fd, id, &[1; 12], true, false);
    assert!(classic_from_socketcan(&fd).is_none());
    assert!(matches!(any_from_socketcan(&fd), Some(Frame::Fd(_))));
    let remote = plain(ScFrameKind::Remote, id, &[], false, false);
    assert!(classic_from_socketcan(&remote).is_none());
    assert!(any_from_socketcan(&remote).is_none());
    let normal = plain(ScFrameKind::Normal, id, &[7, 8], false, false);
    match classic_from_socketcan(&normal) {
        Some(Ok(f)) => assert_eq!(f.data(), &[7, 8]),
        _ => panic!("expected a classic frame"),
    }
}
