//! One connection's life as a state machine: the caller performs each action
//! (read the request line, capture a frame, send bytes, rest) and hands back
//! what happened; the session decides what comes next.
use vstd::prelude::*;
use crate::config::ServerConfig;
use crate::request::{classify, class_of, RequestClass};
use crate::response::{
    append_bytes, part_bytes, snapshot_bytes, snapshot_response, stream_part, stream_preamble,
    unauthorized_response, STREAM_PREAMBLE, UNAUTHORIZED_RESPONSE,
};
use vstd::string::StringSliceAdditionalSpecFns;
use vstd::utf8::encode_utf8;

verus! {

/// Where a connection stands.
#[derive(Clone, Copy, Debug, PartialEq, Eq, Structural)]
pub enum Phase {
    /// Waiting for the first line of the request.
    AwaitingLine,
    /// Sending the 401 answer.
    SendingRefusal,
    /// Sending the multipart preamble.
    SendingPreamble,
    /// Waiting for the one frame of a snapshot.
    CapturingSnapshot,
    /// Sending the snapshot response.
    SendingSnapshot,
    /// Waiting for the next frame of a stream.
    CapturingPart,
    /// Sending one multipart part.
    SendingPart,
    /// Pausing between two parts of a stream.
    Resting,
    /// Done: the connection is to be closed.
    Closed,
}

/// What happened when the caller performed the last action.
pub enum Event {
    /// The first request line was read, line break included.
    LineRead(Vec<u8>),
    /// No request line could be read.
    LineFailed,
    /// The frame station produced this encoded image.
    Captured(Vec<u8>),
    /// Capturing or encoding a frame failed.
    CaptureFailed,
    /// All bytes of the last `Send` were written and flushed.
    Written,
    /// Writing the last `Send` failed, most often because the peer left.
    WriteFailed,
    /// The requested pause is over.
    Rested,
}

/// What the caller is to do next.
pub enum Action {
    /// Capture and encode one frame while holding the frame station.
    Capture,
    /// Write these bytes to the peer.
    Send(Vec<u8>),
    /// Pause this connection for so many nanoseconds.
    Rest(u64),
    /// Close the connection.
    Close,
}

/// The mathematical form of an [`Event`].
pub enum EventView {
    LineRead(Seq<u8>),
    LineFailed,
    Captured(Seq<u8>),
    CaptureFailed,
    Written,
    WriteFailed,
    Rested,
}

/// The mathematical form of an [`Action`].
pub enum ActionView {
    Capture,
    Send(Seq<u8>),
    Rest(u64),
    Close,
}

impl View for Event {
    type V = EventView;

    open spec fn view(&self) -> EventView {
        match self {
            Event::LineRead(l) => EventView::LineRead(l@),
            Event::LineFailed => EventView::LineFailed,
            Event::Captured(j) => EventView::Captured(j@),
            Event::CaptureFailed => EventView::CaptureFailed,
            Event::Written => EventView::Written,
            Event::WriteFailed => EventView::WriteFailed,
            Event::Rested => EventView::Rested,
        }
    }
}

impl View for Action {
    type V = ActionView;

    open spec fn view(&self) -> ActionView {
        match self {
            Action::Capture => ActionView::Capture,
            Action::Send(b) => ActionView::Send(b@),
            Action::Rest(n) => ActionView::Rest(*n),
            Action::Close => ActionView::Close,
        }
    }
}

/// The settings a session runs under and the phase it is in.
pub struct SessionView {
    pub phase: Phase,
    pub token: Seq<u8>,
    pub interval_nanos: u64,
    pub strict: bool,
}

/// The phase after `event` in `phase`, and the action that goes with it.
pub open spec fn transition(
    phase: Phase,
    event: EventView,
    token: Seq<u8>,
    interval_nanos: u64,
    strict: bool,
) -> (Phase, ActionView) {
    let close = (Phase::Closed, ActionView::Close);
    match phase {
        Phase::AwaitingLine => match event {
            EventView::LineRead(line) => match class_of(line, token) {
                RequestClass::Unauthorized => (
                    Phase::SendingRefusal,
                    ActionView::Send(UNAUTHORIZED_RESPONSE.spec_bytes()),
                ),
                RequestClass::Stream => (
                    Phase::SendingPreamble,
                    ActionView::Send(STREAM_PREAMBLE.spec_bytes()),
                ),
                RequestClass::Snapshot => (Phase::CapturingSnapshot, ActionView::Capture),
            },
            _ => close,
        },
        Phase::SendingPreamble => match event {
            EventView::Written => (Phase::CapturingPart, ActionView::Capture),
            _ => close,
        },
        Phase::CapturingSnapshot => match event {
            EventView::Captured(jpeg) => (
                Phase::SendingSnapshot,
                ActionView::Send(snapshot_bytes(jpeg, strict)),
            ),
            _ => close,
        },
        Phase::CapturingPart => match event {
            EventView::Captured(jpeg) => (Phase::SendingPart, ActionView::Send(part_bytes(jpeg))),
            _ => close,
        },
        Phase::SendingPart => match event {
            EventView::Written => (Phase::Resting, ActionView::Rest(interval_nanos)),
            _ => close,
        },
        Phase::Resting => match event {
            EventView::Rested => (Phase::CapturingPart, ActionView::Capture),
            _ => close,
        },
        _ => close,
    }
}

/// One connection, from its request line to its close.
pub struct Session {
    phase: Phase,
    token: Vec<u8>,
    interval_nanos: u64,
    strict: bool,
}

impl View for Session {
    type V = SessionView;

    closed spec fn view(&self) -> SessionView {
        SessionView {
            phase: self.phase,
            token: self.token@,
            interval_nanos: self.interval_nanos,
            strict: self.strict,
        }
    }
}

impl Session {
    /// A session that waits for its request line, under the given settings.
    pub fn new(config: &ServerConfig) -> (r: Session)
        ensures
            r@.phase == Phase::AwaitingLine,
            r@.token == encode_utf8(config.token@),
            r@.interval_nanos == config.frame_interval_nanos,
            r@.strict == config.strict_length_header,
    {
        let mut token: Vec<u8> = Vec::new();
        append_bytes(&mut token, config.token.as_str().as_bytes());
        assert(token@ =~= encode_utf8(config.token@));
        Session {
            phase: Phase::AwaitingLine,
            token,
            interval_nanos: config.frame_interval_nanos,
            strict: config.strict_length_header,
        }
    }

    /// The phase the session is in.
    pub fn phase(&self) -> (r: Phase)
        ensures
            r == self@.phase,
    {
        self.phase
    }

    /// Whether the connection is to be closed.
    pub fn is_closed(&self) -> (r: bool)
        ensures
            r == (self@.phase == Phase::Closed),
    {
        match self.phase {
            Phase::Closed => true,
            _ => false,
        }
    }

    /// Takes what happened and returns what to do next.
    pub fn step(&mut self, event: Event) -> (a: Action)
        ensures
            (final(self)@.phase, a@) == transition(
                old(self)@.phase,
                event@,
                old(self)@.token,
                old(self)@.interval_nanos,
                old(self)@.strict,
            ),
            final(self)@.token == old(self)@.token,
            final(self)@.interval_nanos == old(self)@.interval_nanos,
            final(self)@.strict == old(self)@.strict,
    {
        let (next, action) = match self.phase {
            Phase::AwaitingLine => match event {
                Event::LineRead(line) => match classify(line.as_slice(), self.token.as_slice()) {
                    RequestClass::Unauthorized => (
                        Phase::SendingRefusal,
                        Action::Send(unauthorized_response()),
                    ),
                    RequestClass::Stream => (Phase::SendingPreamble, Action::Send(stream_preamble())),
                    RequestClass::Snapshot => (Phase::CapturingSnapshot, Action::Capture),
                },
                _ => (Phase::Closed, Action::Close),
            },
            Phase::SendingPreamble => match event {
                Event::Written => (Phase::CapturingPart, Action::Capture),
                _ => (Phase::Closed, Action::Close),
            },
            Phase::CapturingSnapshot => match event {
                Event::Captured(jpeg) => (
                    Phase::SendingSnapshot,
                    Action::Send(snapshot_response(jpeg.as_slice(), self.strict)),
                ),
                _ => (Phase::Closed, Action::Close),
            },
            Phase::CapturingPart => match event {
                Event::Captured(jpeg) => (
                    Phase::SendingPart,
                    Action::Send(stream_part(jpeg.as_slice())),
                ),
                _ => (Phase::Closed, Action::Close),
            },
            Phase::SendingPart => match event {
                Event::Written => (Phase::Resting, Action::Rest(self.interval_nanos)),
                _ => (Phase::Closed, Action::Close),
            },
            Phase::Resting => match event {
                Event::Rested => (Phase::CapturingPart, Action::Capture),
                _ => (Phase::Closed, Action::Close),
            },
            _ => (Phase::Closed, Action::Close),
        };
        self.phase = next;
        action
    }
}

/// A failed write ends the connection at once, whatever was being sent, and
/// a closed session stays closed and asks for nothing but the close.
pub proof fn lemma_write_failure_ends_connection(
    phase: Phase,
    event: EventView,
    token: Seq<u8>,
    interval_nanos: u64,
    strict: bool,
)
    ensures
        event == EventView::WriteFailed ==> transition(phase, event, token, interval_nanos, strict)
            == (Phase::Closed, ActionView::Close),
        phase == Phase::Closed ==> transition(phase, event, token, interval_nanos, strict) == (
            Phase::Closed,
            ActionView::Close,
        ),
{
}

/// Pacing: every part that is written is followed by a rest of the configured
/// interval, and a stream captures a new frame only right after its preamble
/// or after such a rest has ended.
pub proof fn lemma_stream_is_paced(
    phase: Phase,
    event: EventView,
    token: Seq<u8>,
    interval_nanos: u64,
    strict: bool,
)
    ensures
        transition(Phase::SendingPart, EventView::Written, token, interval_nanos, strict) == (
            Phase::Resting,
            ActionView::Rest(interval_nanos),
        ),
        transition(phase, event, token, interval_nanos, strict).0 == Phase::CapturingPart ==> (
        phase == Phase::Resting && event == EventView::Rested) || (phase == Phase::SendingPreamble
            && event == EventView::Written),
{
}

/// A refused request is answered with the 401 response and then closed, and
/// the frame station is never asked for a frame on its behalf.
pub proof fn lemma_refusal_never_captures(
    line: Seq<u8>,
    event: EventView,
    token: Seq<u8>,
    interval_nanos: u64,
    strict: bool,
)
    requires
        class_of(line, token) == RequestClass::Unauthorized,
    ensures
        transition(Phase::AwaitingLine, EventView::LineRead(line), token, interval_nanos, strict)
            == (Phase::SendingRefusal, ActionView::Send(UNAUTHORIZED_RESPONSE.spec_bytes())),
        transition(Phase::SendingRefusal, event, token, interval_nanos, strict) == (
            Phase::Closed,
            ActionView::Close,
        ),
{
}

} // verus!
