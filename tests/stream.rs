use nokhwa_core::error::NokhwaError;
use nokhwa_core::frame_buffer::{FrameBuffer, Metadata};
use nokhwa_core::control::ControlValue;
use nokhwa_core::frame_format::FrameFormat;
use nokhwa_core::stream::{
    event_channel, frame_outcome, producer_continues, stop_channel, ControlFlowOnOther, Event, Received,
    StreamBounds, StreamConfiguration, StreamHandle, StreamReceiverBehaviour, StreamState,
};
use nokhwa_core::types::{CameraFormat, Resolution};
use std::time::Duration;

fn frame(byte: u8) -> FrameBuffer {
    FrameBuffer::new(Resolution::new(2, 1), vec![byte, byte], FrameFormat::Luma8, None)
}

fn format() -> CameraFormat {
    CameraFormat::new(Resolution::new(640, 480), FrameFormat::MJpeg, 30)
}

fn handle(receiver: StreamReceiverBehaviour, on_other: ControlFlowOnOther) -> (flume::Sender<Event>, flume::Receiver<()>, StreamHandle) {
    let (tx, rx) = event_channel(StreamBounds::Unbounded);
    let (stop_tx, stop_rx) = stop_channel();
    let config = StreamConfiguration::new(receiver, StreamBounds::Unbounded, on_other);
    (tx, stop_rx, StreamHandle::new(rx, stop_tx, config, format()))
}

#[test]
fn bounded_channel_applies_backpressure() {
    let (tx, rx) = event_channel(StreamBounds::Bounded(1));
    assert!(tx.try_send(Event::NewFrame(frame(1))).is_ok());
    assert!(matches!(tx.try_send(Event::NewFrame(frame(2))), Err(flume::TrySendError::Full(_))));
    assert!(matches!(tx.try_send(Event::NewFrame(frame(3))), Err(flume::TrySendError::Full(_))));
    assert_eq!(rx.len(), 1);
    assert_eq!(rx.capacity(), Some(1));
    match rx.try_recv() {
        Ok(Event::NewFrame(f)) => assert_eq!(f.buffer(), &[1, 1]),
        _ => panic!("expected the first frame"),
    }
    assert!(tx.try_send(Event::NewFrame(frame(2))).is_ok());
}

#[test]
fn unbounded_channel_has_no_capacity() {
    let (tx, rx) = event_channel(StreamBounds::Unbounded);
    assert_eq!(rx.capacity(), None);
    assert_eq!(tx.capacity(), None);
}

#[test]
fn terminating_ends_frame_reading() {
    let (tx, stop_rx, mut h) = handle(StreamReceiverBehaviour::Try, ControlFlowOnOther::Break);
    tx.send(Event::Terminating).unwrap();
    tx.send(Event::NewFrame(frame(9))).unwrap();
    tx.send(Event::Closed).unwrap();
    let r = h.next_frame_step();
    assert!(matches!(r, Some(Err(NokhwaError::ReadFrameError(_)))));
    assert!(h.closed());
    assert!(stop_rx.try_recv().is_ok());
    for _ in 0..3 {
        assert!(matches!(h.next_frame_step(), Some(Err(NokhwaError::ReadFrameError(_)))));
        assert!(matches!(h.next_event(), Ok(Event::Closed)));
    }
}

#[test]
fn frames_are_delivered_in_order() {
    let (tx, _stop_rx, mut h) = handle(StreamReceiverBehaviour::Blocking, ControlFlowOnOther::Break);
    tx.send(Event::NewFrame(frame(1))).unwrap();
    tx.send(Event::FormatChange(CameraFormat::new(Resolution::new(2, 1), FrameFormat::Luma8, 5))).unwrap();
    tx.send(Event::NewFrame(frame(2))).unwrap();
    match h.next_frame_step() {
        Some(Ok(f)) => assert_eq!(f.consume(), vec![1, 1]),
        _ => panic!("expected a frame"),
    }
    assert!(h.next_frame_step().is_none());
    assert_eq!(h.format().frame_rate(), 5);
    match h.next_frame_step() {
        Some(Ok(f)) => assert_eq!(f.consume(), vec![2, 2]),
        _ => panic!("expected a frame"),
    }
}

#[test]
fn disconnect_becomes_closed() {
    let (tx, _stop_rx, mut h) = handle(StreamReceiverBehaviour::Blocking, ControlFlowOnOther::Break);
    drop(tx);
    assert!(matches!(h.next_event(), Ok(Event::Closed)));
    assert!(h.closed());
}

#[test]
fn try_and_timeout_give_not_ready() {
    let (_tx, _stop_rx, mut h) = handle(StreamReceiverBehaviour::Try, ControlFlowOnOther::Break);
    assert!(matches!(h.next_event(), Ok(Event::NotReady)));
    assert!(!h.closed());
    let (_tx2, _stop_rx2, mut t) = handle(
        StreamReceiverBehaviour::Timeout(Duration::from_millis(5)),
        ControlFlowOnOther::Break,
    );
    assert!(matches!(t.next_event(), Ok(Event::NotReady)));
    assert!(t.next_frame_step().is_none());
}

#[test]
fn other_follows_policy() {
    let (tx, _s, mut h) = handle(StreamReceiverBehaviour::Try, ControlFlowOnOther::Continue);
    tx.send(Event::Other("hiccup".to_string())).unwrap();
    assert!(h.next_frame_step().is_none());
    let (tx, _s, mut h) = handle(StreamReceiverBehaviour::Try, ControlFlowOnOther::Break);
    tx.send(Event::Other("gone".to_string())).unwrap();
    match h.next_frame_step() {
        Some(Err(NokhwaError::ReadFrameError(m))) => assert_eq!(m, "gone"),
        _ => panic!("expected the message"),
    }
}

#[test]
fn frame_outcome_decisions() {
    assert!(matches!(frame_outcome(ControlFlowOnOther::Break, Event::Closed), (Some(Err(NokhwaError::ReadFrameError(_))), true)));
    assert!(matches!(frame_outcome(ControlFlowOnOther::Continue, Event::Terminating), (Some(Err(NokhwaError::ReadFrameError(_))), true)));
    assert!(matches!(frame_outcome(ControlFlowOnOther::Break, Event::NotReady), (None, false)));
    assert!(matches!(frame_outcome(ControlFlowOnOther::Break, Event::FormatChange(format())), (None, false)));
    assert!(matches!(frame_outcome(ControlFlowOnOther::Continue, Event::Other("x".to_string())), (None, false)));
    match frame_outcome(ControlFlowOnOther::Break, Event::Other("lost".to_string())) {
        (Some(Err(NokhwaError::ReadFrameError(m))), false) => assert_eq!(m, "lost"),
        _ => panic!("expected the message"),
    }
    match frame_outcome(ControlFlowOnOther::Break, Event::NewFrame(frame(3))) {
        (Some(Ok(f)), false) => assert_eq!(f.buffer(), &[3, 3]),
        _ => panic!("expected the frame"),
    }
}

#[test]
fn frames_after_terminating_are_discarded() {
    let (tx, stop_rx, mut h) = handle(StreamReceiverBehaviour::Blocking, ControlFlowOnOther::Break);
    tx.send(Event::NewFrame(frame(1))).unwrap();
    tx.send(Event::Terminating).unwrap();
    tx.send(Event::NewFrame(frame(2))).unwrap();
    tx.send(Event::Closed).unwrap();
    match h.next_frame_step() {
        Some(Ok(f)) => assert_eq!(f.consume(), vec![1, 1]),
        _ => panic!("expected the first frame"),
    }
    assert!(!h.closed());
    assert!(matches!(h.next_frame_step(), Some(Err(NokhwaError::ReadFrameError(_)))));
    assert!(h.closed());
    assert!(stop_rx.try_recv().is_ok());
    for _ in 0..4 {
        assert!(matches!(h.next_frame_step(), Some(Err(NokhwaError::ReadFrameError(_)))));
    }
    assert_eq!(tx.len(), 2);
}

#[test]
fn stop_channel_holds_one_signal() {
    let (tx, rx) = stop_channel();
    assert_eq!(tx.capacity(), Some(1));
    assert!(tx.try_send(()).is_ok());
    assert!(tx.try_send(()).is_err());
    assert!(rx.try_recv().is_ok());
}

#[test]
fn bounded_channel_has_configured_capacity() {
    let (tx, _rx) = event_channel(StreamBounds::Bounded(3));
    assert_eq!(tx.capacity(), Some(3));
    for b in 0..3 {
        assert!(tx.try_send(Event::NewFrame(frame(b))).is_ok());
    }
    assert!(matches!(tx.try_send(Event::NewFrame(frame(9))), Err(flume::TrySendError::Full(_))));
}

#[test]
fn producer_stops_on_signal_or_disconnect() {
    assert!(producer_continues(false, true));
    assert!(!producer_continues(true, true));
    assert!(!producer_continues(false, false));
}

#[test]
fn received_maps_to_events() {
    assert!(matches!(Received::Nothing.into_event(), Event::NotReady));
    assert!(matches!(Received::Disconnected.into_event(), Event::Closed));
    assert!(matches!(Received::Item(Event::Terminating).into_event(), Event::Terminating));
}

#[test]
fn configuration_defaults() {
    let c = StreamConfiguration::default();
    assert_eq!(c.receiver, StreamReceiverBehaviour::Blocking);
    assert_eq!(c.bound, StreamBounds::Bounded(1));
    assert_eq!(c.on_other, ControlFlowOnOther::Break);
}

#[test]
fn frame_buffer_accessors_and_metadata() {
    let mut m = Metadata::new();
    assert!(m.get(4).is_none());
    m.insert(4, ControlValue::Integer(12));
    m.insert(5, ControlValue::Boolean(true));
    m.insert(4, ControlValue::Integer(13));
    assert!(matches!(m.get(4), Some(ControlValue::Integer(13))));
    let mut keys = m.keys();
    keys.sort();
    assert_eq!(keys, vec![4, 5]);
    let f = FrameBuffer::new(Resolution::new(3, 1), vec![7, 8, 9], FrameFormat::Rgb332, Some(m));
    assert_eq!(f.resolution(), Resolution::new(3, 1));
    assert_eq!(f.source_frame_format(), FrameFormat::Rgb332);
    assert!(matches!(f.metadata().unwrap().get(5), Some(ControlValue::Boolean(true))));
    assert_eq!(f.buffer(), &[7, 8, 9]);
}

#[test]
fn metadata_equality() {
    let mut a = Metadata::new();
    let mut b = Metadata::new();
    assert!(a.equals(&b));
    a.insert(1, ControlValue::Integer(5));
    assert!(!a.equals(&b));
    assert!(!b.equals(&a));
    b.insert(1, ControlValue::Integer(5));
    assert!(a.equals(&b));
    b.insert(2, ControlValue::Null);
    assert!(!a.equals(&b));
    a.insert(2, ControlValue::Boolean(false));
    assert!(!a.equals(&b));
}

#[test]
fn stream_lifecycle() {
    let active = StreamState::Idle.open().unwrap();
    assert_eq!(active, StreamState::Active);
    assert!(matches!(active.open(), Err(NokhwaError::OpenStreamError(_))));
    let terminating = active.on_event(&Event::Terminating);
    assert_eq!(terminating, StreamState::Terminating);
    assert!(terminating.open().is_err());
    assert_eq!(terminating.on_event(&Event::NewFrame(frame(1))), StreamState::Terminating);
    let closed = terminating.on_event(&Event::Closed);
    assert_eq!(closed, StreamState::Closed);
    assert_eq!(closed.on_event(&Event::Terminating), StreamState::Closed);
    assert_eq!(closed.close(), StreamState::Closed);
    assert_eq!(StreamState::Active.close(), StreamState::Closed);
    assert_eq!(StreamState::Idle.close(), StreamState::Idle);
    assert_eq!(closed.open().unwrap(), StreamState::Active);
}
