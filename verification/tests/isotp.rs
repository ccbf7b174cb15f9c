use std::collections::VecDeque;
use std::time::{Duration, Instant};

use can_hal::channel::{Receive, Transmit};
use can_hal::frame::{CanFrame, Timestamped};
use can_hal::id::CanId;
use can_hal::isotp::channel::{interpret_st_min, st_min_micros, IsoTpChannel, SendProgress};
use can_hal::isotp::config::{AddressingMode, IsoTpConfig};
use can_hal::isotp::error::IsoTpError;
use can_hal::isotp::frame::{parse, FcFlag, IsoTpFrame};
use can_hal::isotp::reassembler::{Reassembler, RxOutcome};
use can_hal::isotp::session::{SendSession, SendStep};

#[derive(Debug, PartialEq)]
struct MockError;

/// A loopback-free mock bus: frames written are logged, frames read come
/// from a queue; an empty queue reads as a timeout.
struct Mock {
    tx: Vec<CanFrame>,
    rx: VecDeque<CanFrame>,
}

impl Mock {
    fn new() -> Self {
        Mock {
            tx: Vec::new(),
            rx: VecDeque::new(),
        }
    }
}

impl Transmit for Mock {
    type Error = MockError;
    fn transmit(&mut self, frame: &CanFrame) -> Result<(), MockError> {
        self.tx.push(frame.clone());
        Ok(())
    }
}

impl Receive for Mock {
    type Error = MockError;
    type Timestamp = Instant;
    fn receive(&mut self) -> Result<Timestamped<CanFrame, Instant>, MockError> {
        self.rx
            .pop_front()
            .map(|f| Timestamped::new(f, Instant::now()))
            .ok_or(MockError)
    }
    fn try_receive(&mut self) -> Result<Option<Timestamped<CanFrame, Instant>>, MockError> {
        Ok(self.rx.pop_front().map(|f| Timestamped::new(f, Instant::now())))
    }
    fn receive_timeout(
        &mut self,
        _timeout: Duration,
    ) -> Result<Option<Timestamped<CanFrame, Instant>>, MockError> {
        Ok(self.rx.pop_front().map(|f| Timestamped::new(f, Instant::now())))
    }
}

fn ids() -> (CanId, CanId) {
    (
        CanId::new_standard(0x7E0).unwrap(),
        CanId::new_standard(0x7E8).unwrap(),
    )
}

fn config() -> IsoTpConfig {
    let (tx, rx) = ids();
    let mut c = IsoTpConfig::new(tx, rx);
    c.timeout = Duration::from_millis(20);
    c
}

/// Drive a send to completion the way the application does.
fn send_all(isotp: &mut IsoTpChannel<Mock>, data: &[u8]) -> Result<(), IsoTpError<MockError>> {
    let mut session = isotp.begin_send(data)?;
    loop {
        match isotp.send_step(&mut session)? {
            SendProgress::Continue => {}
            SendProgress::Pause(st) => {
                let until = Instant::now() + interpret_st_min(st);
                while Instant::now() < until {}
            }
            SendProgress::Finished => return Ok(()),
        }
    }
}

/// All frames a session produces for `data`, with Flow Control answered
/// by `(bs, st)` every time it is due.
fn session_frames(prefix: &[u8], data: &[u8], bs: u8, st: u8) -> (Vec<Vec<u8>>, usize) {
    let mut s = SendSession::new(prefix, data).unwrap();
    let mut out = Vec::new();
    let mut fcs = 0;
    loop {
        match s.next_step() {
            SendStep::Transmit(f) => out.push(f),
            SendStep::AwaitFlowControl => {
                fcs += 1;
                s.flow_control(bs, st);
            }
            SendStep::Pause(_) => {}
            SendStep::Finished => return (out, fcs),
        }
    }
}

fn frame(id: CanId, data: &[u8]) -> CanFrame {
    CanFrame::new(id, data).unwrap()
}

#[test]
fn single_frame_send_is_padded() {
    let mut isotp = IsoTpChannel::new(Mock::new(), config());
    send_all(&mut isotp, &[0x10, 0x01]).unwrap();
    let mock = isotp.into_inner();
    assert_eq!(mock.tx.len(), 1);
    assert_eq!(mock.tx[0].id(), ids().0);
    assert_eq!(
        mock.tx[0].data(),
        &[0x02, 0x10, 0x01, 0xCC, 0xCC, 0xCC, 0xCC, 0xCC]
    );
}

#[test]
fn multi_frame_send_follows_flow_control() {
    let (tx, rx) = ids();
    let mut mock = Mock::new();
    // The receiver answers with CTS, block size 2, STmin 0, twice.
    mock.rx.push_back(frame(rx, &[0x30, 0x02, 0x00]));
    mock.rx.push_back(frame(rx, &[0x30, 0x02, 0x00]));
    let mut isotp = IsoTpChannel::new(mock, config());
    let data: Vec<u8> = (0..20u8).collect();
    send_all(&mut isotp, &data).unwrap();
    let mock = isotp.into_inner();
    let sent: Vec<Vec<u8>> = mock.tx.iter().map(|f| f.data().to_vec()).collect();
    assert!(mock.tx.iter().all(|f| f.id() == tx));
    assert_eq!(sent[0], vec![0x10, 20, 0, 1, 2, 3, 4, 5]);
    assert_eq!(sent[1], vec![0x21, 6, 7, 8, 9, 10, 11, 12]);
    assert_eq!(sent[2], vec![0x22, 13, 14, 15, 16, 17, 18, 19]);
    assert_eq!(sent.len(), 3);
}

#[test]
fn send_times_out_without_flow_control() {
    let mut isotp = IsoTpChannel::new(Mock::new(), config());
    let data = [0u8; 30];
    assert!(matches!(send_all(&mut isotp, &data), Err(IsoTpError::Timeout)));
}

#[test]
fn overflow_flow_control_aborts_send() {
    let (_, rx) = ids();
    let mut mock = Mock::new();
    mock.rx.push_back(frame(rx, &[0x32, 0x00, 0x00]));
    let mut isotp = IsoTpChannel::new(mock, config());
    assert!(matches!(
        send_all(&mut isotp, &[1u8; 10]),
        Err(IsoTpError::BufferOverflow)
    ));
}

#[test]
fn fc_wait_limit_is_enforced() {
    let (_, rx) = ids();
    let mut mock = Mock::new();
    for _ in 0..4 {
        mock.rx.push_back(frame(rx, &[0x31, 0x00, 0x00]));
    }
    let mut c = config();
    c.max_fc_wait = 3;
    let mut isotp = IsoTpChannel::new(mock, c);
    assert!(matches!(
        send_all(&mut isotp, &[1u8; 10]),
        Err(IsoTpError::WaitLimitExceeded)
    ));
}

#[test]
fn fc_waits_up_to_the_limit_are_tolerated() {
    let (tx, rx) = ids();
    let mut mock = Mock::new();
    for _ in 0..3 {
        mock.rx.push_back(frame(rx, &[0x31, 0x00, 0x00]));
    }
    mock.rx.push_back(frame(rx, &[0x30, 0x00, 0x00]));
    let mut c = config();
    c.max_fc_wait = 3;
    let mut isotp = IsoTpChannel::new(mock, c);
    send_all(&mut isotp, &[1u8; 10]).unwrap();
    let mock = isotp.into_inner();
    assert!(mock.tx.iter().all(|f| f.id() == tx));
    assert_eq!(mock.tx[0].data(), &[0x10, 10, 1, 1, 1, 1, 1, 1]);
    assert_eq!(mock.tx[1].data()[..5], [0x21, 1, 1, 1, 1]);
    assert_eq!(mock.tx.len(), 2);
}

#[test]
fn wait_for_fc_returns_block_size_and_st_min() {
    let (_, rx) = ids();
    let mut mock = Mock::new();
    // Frames on other IDs and non-FC PDUs are passed over.
    mock.rx.push_back(frame(CanId::new_standard(0x123).unwrap(), &[0x30, 0x09, 0x09]));
    mock.rx.push_back(frame(rx, &[0x21, 0x00]));
    mock.rx.push_back(frame(rx, &[0x30, 0x04, 0x14]));
    let mut isotp = IsoTpChannel::new(mock, config());
    assert_eq!(isotp.wait_for_fc().unwrap(), (4, 0x14));
    assert!(isotp.into_inner().tx.is_empty());
}

#[test]
fn receive_single_frame() {
    let (_, rx) = ids();
    let mut mock = Mock::new();
    // A frame from another ID is ignored.
    mock.rx.push_back(frame(CanId::new_standard(0x123).unwrap(), &[0x01, 0xFF]));
    mock.rx.push_back(frame(rx, &[0x03, 0xAA, 0xBB, 0xCC, 0x55, 0x55, 0x55, 0x55]));
    let mut isotp = IsoTpChannel::new(mock, config());
    assert_eq!(isotp.receive().unwrap(), vec![0xAA, 0xBB, 0xCC]);
}

#[test]
fn receive_multi_frame_sends_flow_control() {
    let (tx, rx) = ids();
    let mut mock = Mock::new();
    mock.rx.push_back(frame(rx, &[0x10, 0x0A, 1, 2, 3, 4, 5, 6]));
    mock.rx.push_back(frame(rx, &[0x21, 7, 8, 9, 10]));
    let mut isotp = IsoTpChannel::new(mock, config());
    assert_eq!(isotp.receive().unwrap(), (1..=10).collect::<Vec<u8>>());
    let mock = isotp.into_inner();
    assert_eq!(mock.tx.len(), 1);
    assert_eq!(mock.tx[0].id(), tx);
    assert_eq!(
        mock.tx[0].data(),
        &[0x30, 0x00, 0x05, 0xCC, 0xCC, 0xCC, 0xCC, 0xCC]
    );
}

#[test]
fn receive_reports_sequence_error() {
    let (_, rx) = ids();
    let mut mock = Mock::new();
    mock.rx.push_back(frame(rx, &[0x10, 0x0A, 1, 2, 3, 4, 5, 6]));
    mock.rx.push_back(frame(rx, &[0x22, 7, 8, 9, 10]));
    let mut isotp = IsoTpChannel::new(mock, config());
    assert!(matches!(
        isotp.receive(),
        Err(IsoTpError::SequenceError {
            expected: 1,
            got: 2
        })
    ));
}

#[test]
fn receive_times_out_on_silence() {
    let mut isotp = IsoTpChannel::new(Mock::new(), config());
    assert!(matches!(isotp.receive(), Err(IsoTpError::Timeout)));
}

#[test]
fn functional_single_frame() {
    let mut c = config();
    let func = CanId::new_standard(0x7DF).unwrap();
    c.functional_id = Some(func);
    let mut isotp = IsoTpChannel::new(Mock::new(), c);
    isotp.send_functional(&[0x3E, 0x00]).unwrap();
    assert!(matches!(
        isotp.send_functional(&[0u8; 8]),
        Err(IsoTpError::PayloadTooLarge)
    ));
    let mock = isotp.into_inner();
    assert_eq!(mock.tx[0].id(), func);
    assert_eq!(mock.tx[0].data()[..3], [0x02, 0x3E, 0x00]);

    let mut plain = IsoTpChannel::new(Mock::new(), config());
    assert!(matches!(
        plain.send_functional(&[0x01]),
        Err(IsoTpError::InvalidFrame)
    ));
}

#[test]
fn extended_addressing_prefixes_and_filters() {
    let (tx, rx) = ids();
    let mut c = IsoTpConfig::new(tx, rx);
    c.timeout = Duration::from_millis(20);
    c.addressing = AddressingMode::Extended {
        tx_target_address: 0xF1,
        rx_target_address: 0x10,
    };
    let mut mock = Mock::new();
    // Wrong target address: ignored.
    mock.rx.push_back(frame(rx, &[0x11, 0x02, 0xAA, 0xBB]));
    mock.rx.push_back(frame(rx, &[0x10, 0x02, 0xCC, 0xDD]));
    let mut isotp = IsoTpChannel::new(mock, c);
    assert_eq!(isotp.receive().unwrap(), vec![0xCC, 0xDD]);
    send_all(&mut isotp, &[1, 2, 3, 4, 5, 6]).unwrap();
    assert!(matches!(
        send_all(&mut isotp, &[1, 2, 3, 4, 5, 6, 7]),
        Err(IsoTpError::Timeout)
    ));
    let mock = isotp.into_inner();
    assert_eq!(mock.tx[0].data()[..8], [0xF1, 0x06, 1, 2, 3, 4, 5, 6]);
}

#[test]
fn st_min_encoding() {
    assert_eq!(st_min_micros(0), 0);
    assert_eq!(st_min_micros(5), 5_000);
    assert_eq!(st_min_micros(0x7F), 127_000);
    assert_eq!(st_min_micros(0xF1), 100);
    assert_eq!(st_min_micros(0xF9), 900);
    assert_eq!(st_min_micros(0x80), 127_000);
    assert_eq!(st_min_micros(0xFA), 127_000);
    assert_eq!(interpret_st_min(0xF5), Duration::from_micros(500));
}

#[test]
fn segmentation_reassembles_to_the_message() {
    for &len in &[0usize, 1, 7, 8, 20, 62, 200, 4095, 4096, 5000] {
        let data: Vec<u8> = (0..len).map(|i| (i * 7 % 251) as u8).collect();
        let (frames, _) = session_frames(&[], &data, 0, 0);
        let mut rx = Reassembler::new(0, 0);
        let mut result = None;
        for f in &frames {
            assert!(f.len() <= 8);
            match rx.on_frame(f) {
                RxOutcome::Complete(v) => {
                    result = Some(v);
                    break;
                }
                RxOutcome::Invalid | RxOutcome::SequenceError { .. } => panic!("len {len}"),
                _ => {}
            }
        }
        assert_eq!(result, Some(data), "len {len}");
    }
}

#[test]
fn long_first_frame_escape_above_4095_bytes() {
    let data = vec![0x5A; 5000];
    let (frames, _) = session_frames(&[], &data, 0, 0);
    assert_eq!(frames[0][..6], [0x10, 0x00, 0x00, 0x00, 0x13, 0x88]);
    match parse(&frames[0], 0) {
        Some(IsoTpFrame::FirstFrame { total_len, .. }) => assert_eq!(total_len, 5000),
        other => panic!("unexpected {other:?}"),
    }
    let (short, _) = session_frames(&[], &vec![1u8; 4095], 0, 0);
    assert_eq!(short[0][..2], [0x1F, 0xFF]);
}

#[test]
fn block_size_paces_flow_control() {
    let data = vec![3u8; 6 + 7 * 10];
    let (frames, fcs) = session_frames(&[], &data, 4, 0);
    assert_eq!(frames.len(), 11);
    // One FC after the First Frame, then one after every 4 CFs while data remains.
    assert_eq!(fcs, 3);
    let (_, fcs_unlimited) = session_frames(&[], &data, 0, 0);
    assert_eq!(fcs_unlimited, 1);
}

#[test]
fn sequence_numbers_wrap_after_fifteen() {
    let data = vec![9u8; 6 + 7 * 17];
    let (frames, _) = session_frames(&[], &data, 0, 0);
    let sns: Vec<u8> = frames[1..].iter().map(|f| f[0] & 0x0F).collect();
    assert_eq!(sns[..17], [1, 2, 3, 4, 5, 6, 7, 8, 9, 10, 11, 12, 13, 14, 15, 0, 1]);
}

#[test]
fn parse_decodes_flow_control() {
    match parse(&[0x30, 0x08, 0x14], 0) {
        Some(IsoTpFrame::FlowControl {
            flag,
            block_size,
            st_min,
        }) => {
            assert_eq!(flag, FcFlag::ContinueToSend);
            assert_eq!((block_size, st_min), (8, 20));
        }
        other => panic!("unexpected {other:?}"),
    }
    assert!(parse(&[0x33, 0, 0], 0).is_none());
    assert!(parse(&[], 0).is_none());
}

/// A channel whose writes fail.
struct Broken;

impl Transmit for Broken {
    type Error = MockError;
    fn transmit(&mut self, _frame: &CanFrame) -> Result<(), MockError> {
        Err(MockError)
    }
}

impl Receive for Broken {
    type Error = MockError;
    type Timestamp = Instant;
    fn receive(&mut self) -> Result<Timestamped<CanFrame, Instant>, MockError> {
        Err(MockError)
    }
    fn try_receive(&mut self) -> Result<Option<Timestamped<CanFrame, Instant>>, MockError> {
        Err(MockError)
    }
    fn receive_timeout(
        &mut self,
        _timeout: Duration,
    ) -> Result<Option<Timestamped<CanFrame, Instant>>, MockError> {
        Err(MockError)
    }
}

#[test]
fn channel_errors_are_passed_on() {
    let mut isotp = IsoTpChannel::new(Broken, config());
    assert!(matches!(
        isotp.transmit_padded(vec![0x01, 0x02]),
        Err(IsoTpError::CanError(MockError))
    ));
    assert!(matches!(isotp.receive(), Err(IsoTpError::CanError(MockError))));
    assert!(matches!(
        isotp.transmit_frame(&[0u8; 9]),
        Err(IsoTpError::InvalidFrame)
    ));
}

#[test]
fn config_defaults() {
    let (tx, rx) = ids();
    let c = IsoTpConfig::new(tx, rx);
    assert_eq!(c.timeout, Duration::from_millis(1000));
    assert_eq!(c.block_size, 0);
    assert_eq!(c.st_min, 5);
    assert_eq!(c.padding, Some(0xCC));
    assert_eq!(c.max_fc_wait, 10);
    assert_eq!(c.functional_id, None);
    assert_eq!(c.tx_id, tx);
    assert_eq!(c.rx_id, rx);
}

#[test]
fn message_sent_by_one_channel_is_received_by_its_peer() {
    let (tx, rx) = ids();
    for &len in &[2usize, 7, 20, 100, 200, 1000] {
        let data: Vec<u8> = (0..len).map(|i| (i * 13 % 256) as u8).collect();
        // The receiver's frames as the sender sees them: Flow Control,
        // Continue To Send, no block limit.
        let mut sender_bus = Mock::new();
        for _ in 0..4 {
            sender_bus.rx.push_back(frame(rx, &[0x30, 0x00, 0x00]));
        }
        let mut c = config();
        c.st_min = 0;
        let mut sender = IsoTpChannel::new(sender_bus, c);
        send_all(&mut sender, &data).unwrap();
        let wire = sender.into_inner().tx;

        // The peer listens on the sender's TX ID and answers on its RX ID.
        let mut peer_cfg = IsoTpConfig::new(rx, tx);
        peer_cfg.timeout = Duration::from_millis(20);
        peer_cfg.block_size = 4;
        let mut receiver_bus = Mock::new();
        receiver_bus.rx.extend(wire.iter().cloned());
        let mut receiver = IsoTpChannel::new(receiver_bus, peer_cfg);
        assert_eq!(receiver.receive().unwrap(), data);
        let answers = receiver.into_inner().tx;
        assert!(answers.iter().all(|f| f.id() == rx && f.data()[0] == 0x30));
    }
}
