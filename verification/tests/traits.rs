use std::collections::VecDeque;
use std::fmt;
use std::time::{Duration, Instant};

use can_hal::channel::{Receive, Transmit};
use can_hal::frame::{CanFrame, Timestamped};
use can_hal::id::CanId;

#[derive(Debug)]
struct MockError(String);

impl fmt::Display for MockError {
    fn fmt(&self, f: &mut fmt::Formatter<'_>) -> fmt::Result {
        f.write_str(&format!("MockError: {}", self.0))
    }
}

impl std::error::Error for MockError {}

struct MockChannel {
    tx_log: Vec<CanFrame>,
    rx_queue: VecDeque<CanFrame>,
}

impl MockChannel {
    fn new() -> Self {
        MockChannel {
            tx_log: Vec::new(),
            rx_queue: VecDeque::new(),
        }
    }

    fn push_rx(&mut self, frame: CanFrame) {
        self.rx_queue.push_back(frame);
    }
}

impl Transmit for MockChannel {
    type Error = MockError;

    fn transmit(&mut self, frame: &CanFrame) -> Result<(), Self::Error> {
        self.tx_log.push(frame.clone());
        Ok(())
    }
}

impl Receive for MockChannel {
    type Error = MockError;
    type Timestamp = Instant;

    fn receive(&mut self) -> Result<Timestamped<CanFrame, Instant>, Self::Error> {
        self.rx_queue
            .pop_front()
            .map(|f| Timestamped::new(f, Instant::now()))
            .ok_or_else(|| MockError("no frames available".into()))
    }

    fn try_receive(&mut self) -> Result<Option<Timestamped<CanFrame, Instant>>, Self::Error> {
        Ok(self
            .rx_queue
            .pop_front()
            .map(|f| Timestamped::new(f, Instant::now())))
    }

    fn receive_timeout(
        &mut self,
        _timeout: Duration,
    ) -> Result<Option<Timestamped<CanFrame, Instant>>, Self::Error> {
        self.try_receive()
    }
}

#[test]
fn mock_transmit_receive() {
    let mut ch = MockChannel::new();
    let id = CanId::new_standard(0x100).unwrap();
    let frame = CanFrame::new(id, &[1, 2]).unwrap();

    ch.transmit(&frame).unwrap();
    assert_eq!(ch.tx_log.len(), 1);
    assert_eq!(ch.tx_log[0], frame);

    assert!(ch.try_receive().unwrap().is_none());

    ch.push_rx(frame.clone());
    let received = ch.receive().unwrap();
    assert_eq!(received.into_frame(), frame);
}

#[test]
fn mock_receive_timeout() {
    let mut ch = MockChannel::new();
    let id = CanId::new_standard(0x100).unwrap();
    let frame = CanFrame::new(id, &[0xAB]).unwrap();

    let result = ch.receive_timeout(Duration::from_millis(100)).unwrap();
    assert!(result.is_none());

    ch.push_rx(frame.clone());
    let result = ch.receive_timeout(Duration::from_millis(100)).unwrap();
    assert_eq!(result.unwrap().into_frame(), frame);
}

fn send_and_recv<T: Transmit<Error = E> + Receive<Error = E>, E: std::error::Error>(
    channel: &mut T,
    frame: &CanFrame,
) -> Result<Option<CanFrame>, E> {
    channel.transmit(frame)?;
    Ok(channel.try_receive()?.map(|ts| ts.into_frame()))
}

#[test]
fn generic_function_over_traits() {
    let mut ch = MockChannel::new();
    let id = CanId::new_standard(0x42).unwrap();
    let frame = CanFrame::new(id, &[0xBE, 0xEF]).unwrap();

    ch.push_rx(frame.clone());
    let result = send_and_recv(&mut ch, &frame).unwrap();
    assert_eq!(result, Some(frame));
}
