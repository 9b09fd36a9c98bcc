use crate::error::NokhwaError;
use crate::frame_buffer::FrameBuffer;
use crate::types::CameraFormat;
use std::time::Duration;
use vstd::prelude::*;

verus! {

#[verifier::external_type_specification]
#[verifier::external_body]
#[verifier::reject_recursive_types(T)]
pub struct ExReceiver<T>(flume::Receiver<T>);

#[verifier::external_type_specification]
#[verifier::external_body]
#[verifier::reject_recursive_types(T)]
pub struct ExSender<T>(flume::Sender<T>);

/// How a stream handle waits for the next event.
///
/// The default is to block until an event comes.
#[derive(Copy, Clone, Debug, PartialEq)]
pub enum StreamReceiverBehaviour {
    /// Blocks until a new event is sent to the stream.
    Blocking,
    /// Waits at most this long, yielding [`Event::NotReady`] otherwise.
    Timeout(Duration),
    /// Returns at once, with [`Event::NotReady`] when no event is waiting.
    Try,
}

impl Default for StreamReceiverBehaviour {
    fn default() -> (r: Self)
        ensures
            r is Blocking,
    {
        StreamReceiverBehaviour::Blocking
    }
}

/// How many events a stream holds before its producer waits. By default, one.
#[derive(Copy, Clone, Debug, PartialEq, Eq, Structural)]
pub enum StreamBounds {
    Bounded(u32),
    Unbounded,
}

impl Default for StreamBounds {
    fn default() -> (r: Self)
        ensures
            r == StreamBounds::Bounded(1),
    {
        StreamBounds::Bounded(1)
    }
}

/// What [`frame_outcome`] does with an [`Event::Other`].
#[derive(Copy, Clone, Debug, PartialEq, Eq, Structural)]
pub enum ControlFlowOnOther {
    /// Skip it and wait for the next event.
    Continue,
    /// Fail with its message. The default.
    Break,
}

impl Default for ControlFlowOnOther {
    fn default() -> (r: Self)
        ensures
            r is Break,
    {
        ControlFlowOnOther::Break
    }
}

/// Configuration of a [`StreamHandle`], chosen when the stream opens.
#[derive(Copy, Clone, Debug, PartialEq)]
pub struct StreamConfiguration {
    pub receiver: StreamReceiverBehaviour,
    pub bound: StreamBounds,
    pub on_other: ControlFlowOnOther,
}

impl Default for StreamConfiguration {
    fn default() -> (r: Self)
        ensures
            r.receiver is Blocking,
            r.bound == StreamBounds::Bounded(1),
            r.on_other is Break,
    {
        StreamConfiguration {
            receiver: StreamReceiverBehaviour::Blocking,
            bound: StreamBounds::Bounded(1),
            on_other: ControlFlowOnOther::Break,
        }
    }
}

impl StreamConfiguration {
    pub fn new(
        receiver: StreamReceiverBehaviour,
        bound: StreamBounds,
        on_other: ControlFlowOnOther,
    ) -> (r: Self)
        ensures
            r == (StreamConfiguration { receiver, bound, on_other }),
    {
        StreamConfiguration { receiver, bound, on_other }
    }
}

/// An event of an open stream.
#[derive(Debug)]
pub enum Event {
    /// A new frame.
    NewFrame(FrameBuffer),
    /// The format of the stream changed.
    FormatChange(CameraFormat),
    /// No event was ready. A stream handle makes this one; producers never send it.
    NotReady,
    /// The stream will end shortly.
    Terminating,
    /// The stream has ended.
    Closed,
    /// Some other message from the backend.
    Other(String),
}

/// What one receive on the event channel gave.
#[derive(Debug)]
pub enum Received {
    /// An event.
    Item(Event),
    /// No event came in time.
    Nothing,
    /// Every sender is gone and no event is left.
    Disconnected,
}

impl Received {
    /// The event a receive stands for: nothing received is `NotReady`, a channel
    /// with no producer left is `Closed`.
    pub fn into_event(self) -> (r: Event)
        ensures
            match self {
                Received::Item(e) => r == e,
                Received::Nothing => r is NotReady,
                Received::Disconnected => r is Closed,
            },
    {
        match self {
            Received::Item(e) => e,
            Received::Nothing => Event::NotReady,
            Received::Disconnected => Event::Closed,
        }
    }
}

/// Relies on flume's `Receiver::recv`: waits for an event, and fails only when every
/// sender is gone and the channel is empty.
#[verifier::external_body]
fn receive_blocking(frame: &flume::Receiver<Event>) -> (r: Received)
    ensures
        !(r is Nothing),
{
    match frame.recv() {
        Ok(e) => Received::Item(e),
        Err(_) => Received::Disconnected,
    }
}

/// Relies on flume's `Receiver::recv_timeout`: waits at most `wait` for an event.
#[verifier::external_body]
fn receive_timeout(frame: &flume::Receiver<Event>, wait: Duration) -> (r: Received) {
    match frame.recv_timeout(wait) {
        Ok(e) => Received::Item(e),
        Err(flume::RecvTimeoutError::Timeout) => Received::Nothing,
        Err(flume::RecvTimeoutError::Disconnected) => Received::Disconnected,
    }
}

/// Relies on flume's `Receiver::try_recv`: takes an event if one is waiting.
#[verifier::external_body]
fn receive_now(frame: &flume::Receiver<Event>) -> (r: Received) {
    match frame.try_recv() {
        Ok(e) => Received::Item(e),
        Err(flume::TryRecvError::Empty) => Received::Nothing,
        Err(flume::TryRecvError::Disconnected) => Received::Disconnected,
    }
}

/// Relies on flume's `Sender::try_send`: offers the stop signal without waiting; a
/// full or abandoned channel is ignored.
#[verifier::external_body]
fn signal_stop(control: &flume::Sender<()>) {
    let _ = control.try_send(());
}

/// The bound a stream's event channel was made with: `None` when it has none.
pub uninterp spec fn event_capacity(sender: flume::Sender<Event>) -> Option<usize>;

/// The bound the stop channel was made with.
pub uninterp spec fn stop_capacity(sender: flume::Sender<()>) -> Option<usize>;

/// Relies on flume's `bounded`: an event channel that holds at most `cap` events;
/// its sender's `capacity` is `Some(cap)`.
#[verifier::external_body]
fn bounded_event_channel(cap: usize) -> (r: (flume::Sender<Event>, flume::Receiver<Event>))
    ensures
        event_capacity(r.0) == Some(cap),
{
    flume::bounded(cap)
}

/// Relies on flume's `unbounded`: an event channel with no limit; its sender's
/// `capacity` is `None`.
#[verifier::external_body]
fn unbounded_event_channel() -> (r: (flume::Sender<Event>, flume::Receiver<Event>))
    ensures
        event_capacity(r.0) is None,
{
    flume::unbounded()
}

/// Relies on flume's `bounded`: a stop channel that holds at most `cap` signals; its
/// sender's `capacity` is `Some(cap)`.
#[verifier::external_body]
fn bounded_stop_channel(cap: usize) -> (r: (flume::Sender<()>, flume::Receiver<()>))
    ensures
        stop_capacity(r.0) == Some(cap),
{
    flume::bounded(cap)
}

/// The event channel of a stream: bounded as configured, so that a producer waits
/// once the consumer is `n` events behind.
pub fn event_channel(bound: StreamBounds) -> (r: (flume::Sender<Event>, flume::Receiver<Event>))
    ensures
        match bound {
            StreamBounds::Bounded(n) => event_capacity(r.0) == Some(n as usize),
            StreamBounds::Unbounded => event_capacity(r.0) is None,
        },
{
    match bound {
        StreamBounds::Bounded(n) => bounded_event_channel(n as usize),
        StreamBounds::Unbounded => unbounded_event_channel(),
    }
}

/// The stop channel of a stream: it holds one signal.
pub fn stop_channel() -> (r: (flume::Sender<()>, flume::Receiver<()>))
    ensures
        stop_capacity(r.0) == Some(1usize),
{
    bounded_stop_channel(1)
}

/// Whether a producer keeps polling the device: not once the stop signal has come,
/// nor once the consumer's end of the event channel is gone.
pub fn producer_continues(stop_signalled: bool, consumer_connected: bool) -> (r: bool)
    ensures
        r == (!stop_signalled && consumer_connected),
{
    !stop_signalled && consumer_connected
}

/// Whether `(result, stop)` is what waiting for a frame makes of `event`: a frame is
/// delivered; a format change or an empty wait leaves the caller waiting; the end of
/// the stream fails and stops the producer; another message is skipped or fails with
/// its text, as configured.
pub open spec fn is_frame_outcome(
    on_other: ControlFlowOnOther,
    event: Event,
    result: Option<Result<FrameBuffer, NokhwaError>>,
    stop: bool,
) -> bool {
    match event {
        Event::NewFrame(f) => result == Some(Ok::<FrameBuffer, NokhwaError>(f)) && !stop,
        Event::FormatChange(_) | Event::NotReady => result is None && !stop,
        Event::Terminating | Event::Closed => (result matches Some(
            Err(NokhwaError::ReadFrameError(_)),
        )) && stop,
        Event::Other(m) => match on_other {
            ControlFlowOnOther::Continue => result is None && !stop,
            ControlFlowOnOther::Break => result == Some(
                Err::<FrameBuffer, NokhwaError>(NokhwaError::ReadFrameError(m)),
            ) && !stop,
        },
    }
}

/// What waiting for a frame makes of one event: the result for the caller (`None`
/// to wait on), and whether the stream ends here.
pub fn frame_outcome(on_other: ControlFlowOnOther, event: Event) -> (r: (
    Option<Result<FrameBuffer, NokhwaError>>,
    bool,
))
    ensures
        is_frame_outcome(on_other, event, r.0, r.1),
{
    match event {
        Event::NewFrame(f) => (Some(Ok(f)), false),
        Event::FormatChange(_) | Event::NotReady => (None, false),
        Event::Terminating | Event::Closed => (
            Some(Err(NokhwaError::ReadFrameError("Stream Closed.".to_string()))),
            true,
        ),
        Event::Other(m) => match on_other {
            ControlFlowOnOther::Continue => (None, false),
            ControlFlowOnOther::Break => (Some(Err(NokhwaError::ReadFrameError(m))), false),
        },
    }
}

/// The consumer's end of an open stream.
///
/// Once the handle has seen the end of the stream it is closed: it receives nothing
/// more, and frames still queued are discarded.
#[derive(Debug)]
pub struct StreamHandle {
    frame: flume::Receiver<Event>,
    control: flume::Sender<()>,
    configuration: StreamConfiguration,
    format: CameraFormat,
    closed: bool,
}

impl StreamHandle {
    pub closed spec fn spec_configuration(&self) -> StreamConfiguration {
        self.configuration
    }

    pub closed spec fn spec_format(&self) -> CameraFormat {
        self.format
    }

    /// Whether the handle has seen the end of the stream.
    pub closed spec fn is_closed(&self) -> bool {
        self.closed
    }

    pub fn new(
        recv: flume::Receiver<Event>,
        control: flume::Sender<()>,
        configuration: StreamConfiguration,
        format: CameraFormat,
    ) -> (r: Self)
        ensures
            r.spec_configuration() == configuration,
            r.spec_format() == format,
            !r.is_closed(),
    {
        StreamHandle { frame: recv, control, configuration, format, closed: false }
    }

    pub fn configuration(&self) -> (r: &StreamConfiguration)
        ensures
            *r == self.spec_configuration(),
    {
        &self.configuration
    }

    /// The current format: the one the stream opened with, or the last one a
    /// `FormatChange` event announced.
    pub fn format(&self) -> (r: CameraFormat)
        ensures
            r == self.spec_format(),
    {
        self.format
    }

    /// Whether the handle has seen the end of the stream.
    pub fn closed(&self) -> (r: bool)
        ensures
            r == self.is_closed(),
    {
        self.closed
    }

    /// The next event, received as configured. A channel with no producer left gives
    /// `Closed`, and a wait that ends empty gives `NotReady`; after `Closed` the handle
    /// receives nothing more and keeps giving `Closed`. A `FormatChange` becomes the
    /// current format.
    pub fn next_event(&mut self) -> (r: Result<Event, NokhwaError>)
        ensures
            final(self).spec_configuration() == old(self).spec_configuration(),
            r matches Ok(e) && (match e {
                Event::FormatChange(f) => final(self).spec_format() == f,
                _ => final(self).spec_format() == old(self).spec_format(),
            }),
            old(self).is_closed() ==> (r matches Ok(e) && e is Closed),
            final(self).is_closed() == (old(self).is_closed() || r matches Ok(Event::Closed)),
    {
        if self.closed {
            return Ok(Event::Closed);
        }
        let received = match self.configuration.receiver {
            StreamReceiverBehaviour::Blocking => receive_blocking(&self.frame),
            StreamReceiverBehaviour::Timeout(wait) => receive_timeout(&self.frame, wait),
            StreamReceiverBehaviour::Try => receive_now(&self.frame),
        };
        let event = received.into_event();
        match &event {
            Event::FormatChange(f) => {
                self.format = *f;
            },
            Event::Closed => {
                self.closed = true;
            },
            _ => {},
        }
        Ok(event)
    }

    /// One step of waiting for a frame: takes the next event and returns what
    /// [`frame_outcome`] makes of it, `None` meaning wait on. When the stream ends
    /// (`Terminating` or `Closed`) it offers the producer the stop signal and closes
    /// the handle, so frames still queued behind the end are never delivered.
    pub fn next_frame_step(&mut self) -> (r: Option<Result<FrameBuffer, NokhwaError>>)
        ensures
            final(self).spec_configuration() == old(self).spec_configuration(),
            old(self).is_closed() ==> (r matches Some(Err(NokhwaError::ReadFrameError(_))))
                && final(self).is_closed(),
            !old(self).is_closed() ==> exists|e: Event|
                #[trigger] is_frame_outcome(
                    old(self).spec_configuration().on_other,
                    e,
                    r,
                    final(self).is_closed(),
                ),
            !old(self).is_closed() && final(self).is_closed() ==> (r matches Some(
                Err(NokhwaError::ReadFrameError(_)),
            )),
    {
        let ghost was_closed = self.closed;
        let ghost on_other = self.configuration.on_other;
        let event = match self.next_event() {
            Ok(e) => e,
            Err(e) => {
                return Some(Err(e));
            },
        };
        let ghost received = event;
        let (result, stop) = frame_outcome(self.configuration.on_other, event);
        if stop {
            signal_stop(&self.control);
            self.closed = true;
        }
        proof {
            if !was_closed {
                assert(self.closed == stop);
                assert(is_frame_outcome(self.configuration.on_other, received, result, self.closed));
                assert(self.configuration.on_other == on_other);
                assert(self.is_closed() == self.closed);
                assert(exists|e: Event| #[trigger] is_frame_outcome(on_other, e, result, self.is_closed()));
            }
        }
        result
    }

    /// Offers the producer the stop signal, without waiting for it to exit. Dropping
    /// the handle stops the producer too: it finds the event channel disconnected.
    pub fn stop(&self) {
        signal_stop(&self.control);
    }
}

/// The lifecycle of the stream of one open camera.
#[derive(Copy, Clone, Debug, PartialEq, Eq, Structural)]
pub enum StreamState {
    /// No stream is open.
    Idle,
    /// A producer is running and the handle is live.
    Active,
    /// The backend announced that the stream ends; events may still be in flight.
    Terminating,
    /// The stream has ended; no more events come.
    Closed,
}

impl StreamState {
    /// Whether a stream is open in this state.
    pub open spec fn is_open(self) -> bool {
        self is Active || self is Terminating
    }

    /// Opens a stream: only when none is open.
    pub fn open(self) -> (r: Result<StreamState, NokhwaError>)
        ensures
            r is Ok <==> !self.is_open(),
            r matches Ok(s) ==> s is Active,
            r matches Err(e) ==> e is OpenStreamError,
    {
        match self {
            StreamState::Idle | StreamState::Closed => Ok(StreamState::Active),
            StreamState::Active | StreamState::Terminating => Err(
                NokhwaError::OpenStreamError("A stream is already open".to_string()),
            ),
        }
    }

    /// The state after an event of the stream: `Terminating` and `Closed` move an open
    /// stream on; nothing leaves `Closed` or `Idle`.
    pub fn on_event(self, event: &Event) -> (r: StreamState)
        ensures
            self is Closed ==> r is Closed,
            self is Idle ==> r is Idle,
            self.is_open() ==> (r == match *event {
                Event::Closed => StreamState::Closed,
                Event::Terminating => StreamState::Terminating,
                _ => self,
            }),
    {
        match (self, event) {
            (StreamState::Active, Event::Terminating) => StreamState::Terminating,
            (StreamState::Active, Event::Closed) | (StreamState::Terminating, Event::Closed) => StreamState::Closed,
            _ => self,
        }
    }

    /// Closes the stream; closing a stream that is not open changes nothing.
    pub fn close(self) -> (r: StreamState)
        ensures
            self.is_open() ==> r is Closed,
            !self.is_open() ==> r == self,
    {
        if self.is_open_now() {
            StreamState::Closed
        } else {
            self
        }
    }

    /// Whether a stream is open in this state.
    pub fn is_open_now(self) -> (r: bool)
        ensures
            r == self.is_open(),
    {
        match self {
            StreamState::Active | StreamState::Terminating => true,
            _ => false,
        }
    }
}

} // verus!
