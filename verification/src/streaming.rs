//! The streaming loop: the worker that receives block after block and hands
//! each to the consumer as a payload, until it is told to stop.
//!
//! The loop is written as a machine. It never touches the transport, the
//! channel to the consumer or the cancellation signal. Each step takes what
//! the last action brought (an [`Event`]) and says what to do next (an
//! [`Action`]); whoever drives the machine performs the action and comes
//! back with the event. Buffers travel with the actions and events: the
//! machine hands out the buffer that a read is to fill and gets it back
//! with the outcome of the read.

use crate::error::{StreamError, StreamErrorView};
use crate::params::StreamParams;
use crate::payload::{Payload, PayloadView};
use crate::payload_builder::{payload_of, PayloadBuilder};
use crate::transfer::{
    countable, next_transfer, outcome_view, payload_received_of, payload_step_of, plan_recv,
    read_leader, read_leader_of, read_trailer, read_trailer_of, received, received_of,
    recv_plan_of, OutcomeView, PayloadRead, PayloadStep, RecvPlan,
};
use std::time::Duration;
use vstd::prelude::*;

verus! {

/// `n` bytes, all zero.
pub open spec fn zeros(n: int) -> Seq<u8> {
    Seq::new(n as nat, |i: int| 0u8)
}

/// `s` cut or filled up with zero bytes to the length `n`.
pub open spec fn resized(s: Seq<u8>, n: int) -> Seq<u8> {
    if n <= s.len() {
        s.subrange(0, n)
    } else {
        s + zeros(n - s.len())
    }
}

/// The payload buffer that a frame starts with: the recycled one, brought
/// to the length `size`, or a fresh one of zero bytes where none came back.
pub open spec fn acquired_of(recycled: Option<Seq<u8>>, size: int) -> Seq<u8> {
    match recycled {
        Some(buffer) => resized(buffer, size),
        None => zeros(size),
    }
}

/// A buffer of `n` zero bytes.
pub fn zeroed(n: usize) -> (buffer: Vec<u8>)
    ensures
        buffer@ == zeros(n as int),
{
    let buffer = vec![0u8; n];
    assert(buffer@ =~= zeros(n as int));
    buffer
}

/// Makes the payload buffer for a frame of what the consumer gave back. A
/// recycled buffer of the right length is taken as it is, one of another
/// length is cut or filled up with zero bytes; without one, a buffer of
/// zero bytes is made.
pub fn acquire_buffer(recycled: Option<Payload>, size: usize) -> (buffer: Vec<u8>)
    ensures
        buffer@ == acquired_of(recycled_view(recycled), size as int),
{
    match recycled {
        Some(payload) => {
            let mut buffer = payload.into_buffer();
            if buffer.len() != size {
                buffer.resize(size, 0);
            }
            assert(buffer@ =~= resized(payload.payload@, size as int));
            buffer
        },
        None => zeroed(size),
    }
}

/// What a poll of the cancellation signal found.
#[derive(Debug, Clone, Copy, PartialEq, Eq, Structural)]
pub enum CancelPoll {
    /// Nothing was sent, and the sender is still there.
    Pending,
    /// The signal to stop was sent.
    Signalled,
    /// The sender is gone without a signal.
    Closed,
}

/// What the driver reports to the loop.
#[derive(Debug, PartialEq, Eq)]
pub enum Event {
    /// The cancellation signal was polled.
    Cancellation(CancelPoll),
    /// The channel was asked for a payload that the consumer gave back.
    Recycled(Option<Payload>),
    /// A read was made into `buf`, which is the buffer that the action
    /// handed out; `outcome` is the number of bytes that arrived or the
    /// transport's error in words.
    Received { buf: Vec<u8>, outcome: Result<usize, String> },
    /// The result was offered to the consumer, who may or may not have
    /// taken it.
    Emitted,
}

/// An [`Event`] as contracts see it.
pub enum EventView {
    Cancellation(CancelPoll),
    Recycled(Option<Seq<u8>>),
    Received { buf: Seq<u8>, outcome: OutcomeView },
    Emitted,
}

/// The bytes of the buffer that comes back with a recycled payload.
pub open spec fn recycled_view(recycled: Option<Payload>) -> Option<Seq<u8>> {
    match recycled {
        Some(payload) => Some(payload.payload@),
        None => None,
    }
}

impl View for Event {
    type V = EventView;

    open spec fn view(&self) -> EventView {
        match self {
            Event::Cancellation(poll) => EventView::Cancellation(*poll),
            Event::Recycled(recycled) => EventView::Recycled(recycled_view(*recycled)),
            Event::Received { buf, outcome } => EventView::Received {
                buf: buf@,
                outcome: outcome_view(*outcome),
            },
            Event::Emitted => EventView::Emitted,
        }
    }
}

/// What the loop asks its driver to do.
#[derive(Debug, PartialEq, Eq)]
pub enum Action {
    /// Poll the cancellation signal, without blocking.
    PollCancellation,
    /// Ask the channel, without blocking, for a payload that the consumer
    /// gave back.
    TakeRecycled,
    /// Read `len` bytes from the transport into `buf`, from `offset` on,
    /// waiting no longer than `timeout`.
    Receive { buf: Vec<u8>, offset: usize, len: usize, timeout: Duration },
    /// Offer the result to the consumer, without blocking.
    Emit(Result<Payload, StreamError>),
    /// Send the completion signal; the loop is over.
    Complete,
}

/// An [`Action`] as contracts see it.
pub enum ActionView {
    PollCancellation,
    TakeRecycled,
    Receive { buf: Seq<u8>, offset: usize, len: usize, timeout: Duration },
    Emit(Result<PayloadView, StreamErrorView>),
    Complete,
}

/// The view of what is emitted.
pub open spec fn emitted_view(result: Result<Payload, StreamError>) -> Result<
    PayloadView,
    StreamErrorView,
> {
    match result {
        Ok(payload) => Ok(payload@),
        Err(e) => Err(e@),
    }
}

impl View for Action {
    type V = ActionView;

    open spec fn view(&self) -> ActionView {
        match self {
            Action::PollCancellation => ActionView::PollCancellation,
            Action::TakeRecycled => ActionView::TakeRecycled,
            Action::Receive { buf, offset, len, timeout } => ActionView::Receive {
                buf: buf@,
                offset: *offset,
                len: *len,
                timeout: *timeout,
            },
            Action::Emit(result) => ActionView::Emit(emitted_view(*result)),
            Action::Complete => ActionView::Complete,
        }
    }
}

/// Where the loop stands, with the buffers that it holds there. The buffer
/// that a read is filling is with the driver.
enum State {
    Polling { leader_buf: Vec<u8>, trailer_buf: Vec<u8>, retained: Option<Vec<u8>> },
    Acquiring { leader_buf: Vec<u8>, trailer_buf: Vec<u8> },
    Leader { trailer_buf: Vec<u8>, payload_buf: Vec<u8> },
    Payload { leader_buf: Vec<u8>, trailer_buf: Vec<u8>, read: PayloadRead },
    Trailer { leader_buf: Vec<u8>, payload_buf: Vec<u8> },
    Emitting { leader_buf: Vec<u8>, trailer_buf: Vec<u8>, retained: Option<Vec<u8>> },
    Finished,
}

/// Where the loop stands, as contracts see it.
pub enum StateView {
    /// The cancellation signal is being polled. `retained` is the payload
    /// buffer of a frame that came to nothing, kept for the next.
    Polling { leader_buf: Seq<u8>, trailer_buf: Seq<u8>, retained: Option<Seq<u8>> },
    /// The channel is being asked for a recycled payload.
    Acquiring { leader_buf: Seq<u8>, trailer_buf: Seq<u8> },
    /// The leader is being read.
    Leader { trailer_buf: Seq<u8>, payload_buf: Seq<u8> },
    /// The transfer `read_index` of the payload is being read; `read_len`
    /// bytes have arrived before it.
    Payload { leader_buf: Seq<u8>, trailer_buf: Seq<u8>, read_index: int, read_len: usize },
    /// The trailer is being read.
    Trailer { leader_buf: Seq<u8>, payload_buf: Seq<u8> },
    /// A result is being offered to the consumer.
    Emitting { leader_buf: Seq<u8>, trailer_buf: Seq<u8>, retained: Option<Seq<u8>> },
    /// The loop is over.
    Finished,
}

/// The streaming loop as contracts see it.
pub struct LoopView {
    /// The parameters that the loop was started with.
    pub params: StreamParams,
    /// The length of every payload buffer that the loop acquires.
    pub maximum_payload_size: usize,
    /// Where the loop stands.
    pub state: StateView,
}

/// The streaming loop.
pub struct StreamingLoop {
    params: StreamParams,
    maximum_payload_size: usize,
    state: State,
}

/// The view of an optional buffer.
pub open spec fn buffer_view(buffer: Option<Vec<u8>>) -> Option<Seq<u8>> {
    match buffer {
        Some(b) => Some(b@),
        None => None,
    }
}

impl View for StreamingLoop {
    type V = LoopView;

    closed spec fn view(&self) -> LoopView {
        LoopView {
            params: self.params,
            maximum_payload_size: self.maximum_payload_size,
            state: match self.state {
                State::Polling { leader_buf, trailer_buf, retained } => StateView::Polling {
                    leader_buf: leader_buf@,
                    trailer_buf: trailer_buf@,
                    retained: buffer_view(retained),
                },
                State::Acquiring { leader_buf, trailer_buf } => StateView::Acquiring {
                    leader_buf: leader_buf@,
                    trailer_buf: trailer_buf@,
                },
                State::Leader { trailer_buf, payload_buf } => StateView::Leader {
                    trailer_buf: trailer_buf@,
                    payload_buf: payload_buf@,
                },
                State::Payload { leader_buf, trailer_buf, read } => StateView::Payload {
                    leader_buf: leader_buf@,
                    trailer_buf: trailer_buf@,
                    read_index: read.position.index(&self.params),
                    read_len: read.read_len,
                },
                State::Trailer { leader_buf, payload_buf } => StateView::Trailer {
                    leader_buf: leader_buf@,
                    payload_buf: payload_buf@,
                },
                State::Emitting { leader_buf, trailer_buf, retained } => StateView::Emitting {
                    leader_buf: leader_buf@,
                    trailer_buf: trailer_buf@,
                    retained: buffer_view(retained),
                },
                State::Finished => StateView::Finished,
            },
        }
    }
}

impl LoopView {
    /// The loop in the state `state`.
    pub open spec fn at(self, state: StateView) -> LoopView {
        LoopView { state, ..self }
    }

    /// The loop goes back to polling the cancellation signal.
    pub open spec fn idle(
        self,
        leader_buf: Seq<u8>,
        trailer_buf: Seq<u8>,
        retained: Option<Seq<u8>>,
    ) -> (LoopView, ActionView) {
        (
            self.at(StateView::Polling { leader_buf, trailer_buf, retained }),
            ActionView::PollCancellation,
        )
    }

    /// The loop offers a result to the consumer.
    pub open spec fn emit(
        self,
        leader_buf: Seq<u8>,
        trailer_buf: Seq<u8>,
        retained: Option<Seq<u8>>,
        result: Result<PayloadView, StreamErrorView>,
    ) -> (LoopView, ActionView) {
        (
            self.at(StateView::Emitting { leader_buf, trailer_buf, retained }),
            ActionView::Emit(result),
        )
    }

    /// The loop ends.
    pub open spec fn finish(self) -> (LoopView, ActionView) {
        (self.at(StateView::Finished), ActionView::Complete)
    }

    /// A frame begins, with its payload buffer at hand: the leader is
    /// read. A failure here is not reported; the payload buffer is kept for
    /// the next frame.
    pub open spec fn begin_frame(
        self,
        leader_buf: Seq<u8>,
        trailer_buf: Seq<u8>,
        payload_buf: Seq<u8>,
    ) -> (LoopView, ActionView) {
        match recv_plan_of(leader_buf.len() as int, 0, self.params.leader_size as int) {
            Ok(RecvPlan::Receive { offset, len }) => (
                self.at(StateView::Leader { trailer_buf, payload_buf }),
                ActionView::Receive { buf: leader_buf, offset, len, timeout: self.params.timeout },
            ),
            Ok(RecvPlan::Nothing) => self.after_leader(leader_buf, trailer_buf, payload_buf),
            Err(_) => self.idle(leader_buf, trailer_buf, Some(payload_buf)),
        }
    }

    /// The leader is read. If it decodes, the payload follows; if not, the
    /// frame is dropped without a report.
    pub open spec fn after_leader(
        self,
        leader_buf: Seq<u8>,
        trailer_buf: Seq<u8>,
        payload_buf: Seq<u8>,
    ) -> (LoopView, ActionView) {
        match read_leader_of(leader_buf) {
            Err(_) => self.idle(leader_buf, trailer_buf, Some(payload_buf)),
            Ok(_) => self.continue_payload(leader_buf, trailer_buf, payload_buf, 0, 0),
        }
    }

    /// The payload is read on from the transfer `index`, with `read_len`
    /// bytes in the buffer: the next transfer that asks for bytes is made,
    /// and after the last one the trailer follows. A failure is reported,
    /// and the payload buffer kept.
    pub open spec fn continue_payload(
        self,
        leader_buf: Seq<u8>,
        trailer_buf: Seq<u8>,
        payload_buf: Seq<u8>,
        index: int,
        read_len: usize,
    ) -> (LoopView, ActionView) {
        let next = next_transfer(&self.params, index);
        match payload_step_of(&self.params, next, read_len, payload_buf.len() as int) {
            Err(e) => self.emit(leader_buf, trailer_buf, Some(payload_buf), Err(e)),
            Ok(PayloadStep::Receive { offset, len }) => (
                self.at(
                    StateView::Payload { leader_buf, trailer_buf, read_index: next, read_len },
                ),
                ActionView::Receive { buf: payload_buf, offset, len, timeout: self.params.timeout },
            ),
            Ok(PayloadStep::Done(_)) => self.begin_trailer(leader_buf, trailer_buf, payload_buf),
        }
    }

    /// The payload is read: the trailer is read. A failure is reported, and
    /// the payload buffer kept.
    pub open spec fn begin_trailer(
        self,
        leader_buf: Seq<u8>,
        trailer_buf: Seq<u8>,
        payload_buf: Seq<u8>,
    ) -> (LoopView, ActionView) {
        match recv_plan_of(trailer_buf.len() as int, 0, self.params.trailer_size as int) {
            Ok(RecvPlan::Receive { offset, len }) => (
                self.at(StateView::Trailer { leader_buf, payload_buf }),
                ActionView::Receive { buf: trailer_buf, offset, len, timeout: self.params.timeout },
            ),
            Ok(RecvPlan::Nothing) => self.finish_frame(leader_buf, trailer_buf, payload_buf),
            Err(e) => self.emit(leader_buf, trailer_buf, Some(payload_buf), Err(e)),
        }
    }

    /// The trailer is read: the payload is built and offered to the
    /// consumer. The payload buffer goes with the payload; where building
    /// fails, the failure is offered and the buffer is given up. Only a
    /// trailer that does not decode leaves the buffer with the loop.
    pub open spec fn finish_frame(
        self,
        leader_buf: Seq<u8>,
        trailer_buf: Seq<u8>,
        payload_buf: Seq<u8>,
    ) -> (LoopView, ActionView) {
        match read_leader_of(leader_buf) {
            Err(_) => self.idle(leader_buf, trailer_buf, Some(payload_buf)),
            Ok(leader) => match read_trailer_of(trailer_buf) {
                Err(e) => self.emit(leader_buf, trailer_buf, Some(payload_buf), Err(e)),
                Ok(trailer) => self.emit(
                    leader_buf,
                    trailer_buf,
                    None,
                    payload_of(leader, payload_buf, trailer),
                ),
            },
        }
    }

    /// Whether the loop can take `event`: where it reports bytes of the
    /// payload, they can be counted to those that have arrived in a
    /// `usize`. Every other event can be taken.
    pub open spec fn takes(self, event: EventView) -> bool {
        match (self.state, event) {
            (
                StateView::Payload { read_index, read_len, .. },
                EventView::Received { outcome, .. },
            ) => countable(&self.params, read_index, read_len, outcome),
            _ => true,
        }
    }

    /// The state of the loop after `event`, and the action that it asks
    /// for.
    ///
    /// An event answers the action before it. One that does not ends the
    /// loop, as does every event when the loop is over.
    pub open spec fn step(self, event: EventView) -> (LoopView, ActionView) {
        match (self.state, event) {
            (
                StateView::Polling { leader_buf, trailer_buf, retained },
                EventView::Cancellation(poll),
            ) => {
                if poll != CancelPoll::Pending {
                    self.finish()
                } else {
                    match retained {
                        Some(payload_buf) => self.begin_frame(leader_buf, trailer_buf, payload_buf),
                        None => (
                            self.at(StateView::Acquiring { leader_buf, trailer_buf }),
                            ActionView::TakeRecycled,
                        ),
                    }
                }
            },
            (StateView::Acquiring { leader_buf, trailer_buf }, EventView::Recycled(recycled)) => {
                self.begin_frame(
                    leader_buf,
                    trailer_buf,
                    acquired_of(recycled, self.maximum_payload_size as int),
                )
            },
            (
                StateView::Leader { trailer_buf, payload_buf },
                EventView::Received { buf, outcome },
            ) => {
                match received_of(outcome) {
                    Err(_) => self.idle(buf, trailer_buf, Some(payload_buf)),
                    Ok(_) => self.after_leader(buf, trailer_buf, payload_buf),
                }
            },
            (
                StateView::Payload { leader_buf, trailer_buf, read_index, read_len },
                EventView::Received { buf, outcome },
            ) => {
                match payload_received_of(&self.params, read_index, read_len, outcome) {
                    Err(e) => self.emit(leader_buf, trailer_buf, Some(buf), Err(e)),
                    Ok((index, sum)) => self.continue_payload(
                        leader_buf,
                        trailer_buf,
                        buf,
                        index,
                        sum as usize,
                    ),
                }
            },
            (
                StateView::Trailer { leader_buf, payload_buf },
                EventView::Received { buf, outcome },
            ) => {
                match received_of(outcome) {
                    Err(e) => self.emit(leader_buf, buf, Some(payload_buf), Err(e)),
                    Ok(_) => self.finish_frame(leader_buf, buf, payload_buf),
                }
            },
            (StateView::Emitting { leader_buf, trailer_buf, retained }, EventView::Emitted) => {
                self.idle(leader_buf, trailer_buf, retained)
            },
            (_, _) => self.finish(),
        }
    }

    /// A loop that has just been started with `params`: both scratch
    /// buffers are as long as the leader and the trailer may be, no payload
    /// buffer is at hand, and the cancellation signal is polled first.
    pub open spec fn started(params: StreamParams) -> (LoopView, ActionView) {
        (
            LoopView {
                params,
                maximum_payload_size: params.spec_maximum_payload_size() as usize,
                state: StateView::Polling {
                    leader_buf: zeros(params.leader_size as int),
                    trailer_buf: zeros(params.trailer_size as int),
                    retained: None,
                },
            },
            ActionView::PollCancellation,
        )
    }
}

impl StreamingLoop {
    /// Starts a loop with `params`. The payload buffers that it acquires
    /// have `params.maximum_payload_size()` bytes, which must fit a
    /// `usize`.
    pub fn start(params: StreamParams) -> (r: (StreamingLoop, Action))
        requires
            params.spec_maximum_payload_size() <= usize::MAX,
        ensures
            (r.0@, r.1@) == LoopView::started(params),
    {
        let maximum_payload_size: usize = params.maximum_payload_size();
        let leader_buf = zeroed(params.leader_size);
        let trailer_buf = zeroed(params.trailer_size);
        (
            StreamingLoop {
                params,
                maximum_payload_size,
                state: State::Polling { leader_buf, trailer_buf, retained: None },
            },
            Action::PollCancellation,
        )
    }

    /// The parameters that the loop was started with.
    pub fn params(&self) -> (params: &StreamParams)
        ensures
            *params == self@.params,
    {
        &self.params
    }

    /// Whether the loop is over.
    pub fn is_finished(&self) -> (b: bool)
        ensures
            b == (self@.state is Finished),
    {
        match &self.state {
            State::Finished => true,
            _ => false,
        }
    }

    fn idle(self, leader_buf: Vec<u8>, trailer_buf: Vec<u8>, retained: Option<Vec<u8>>) -> (r: (
        StreamingLoop,
        Action,
    ))
        ensures
            (r.0@, r.1@) == self@.idle(leader_buf@, trailer_buf@, buffer_view(retained)),
    {
        (
            StreamingLoop {
                params: self.params,
                maximum_payload_size: self.maximum_payload_size,
                state: State::Polling { leader_buf, trailer_buf, retained },
            },
            Action::PollCancellation,
        )
    }

    fn emit(
        self,
        leader_buf: Vec<u8>,
        trailer_buf: Vec<u8>,
        retained: Option<Vec<u8>>,
        result: Result<Payload, StreamError>,
    ) -> (r: (StreamingLoop, Action))
        ensures
            (r.0@, r.1@) == self@.emit(
                leader_buf@,
                trailer_buf@,
                buffer_view(retained),
                emitted_view(result),
            ),
    {
        (
            StreamingLoop {
                params: self.params,
                maximum_payload_size: self.maximum_payload_size,
                state: State::Emitting { leader_buf, trailer_buf, retained },
            },
            Action::Emit(result),
        )
    }

    fn finish(self) -> (r: (StreamingLoop, Action))
        ensures
            (r.0@, r.1@) == self@.finish(),
    {
        (
            StreamingLoop {
                params: self.params,
                maximum_payload_size: self.maximum_payload_size,
                state: State::Finished,
            },
            Action::Complete,
        )
    }

    fn begin_frame(self, leader_buf: Vec<u8>, trailer_buf: Vec<u8>, payload_buf: Vec<u8>) -> (r: (
        StreamingLoop,
        Action,
    ))
        ensures
            (r.0@, r.1@) == self@.begin_frame(leader_buf@, trailer_buf@, payload_buf@),
    {
        match plan_recv(leader_buf.len(), 0, self.params.leader_size) {
            Ok(RecvPlan::Receive { offset, len }) => {
                let timeout = self.params.timeout;
                (
                    StreamingLoop {
                        params: self.params,
                        maximum_payload_size: self.maximum_payload_size,
                        state: State::Leader { trailer_buf, payload_buf },
                    },
                    Action::Receive { buf: leader_buf, offset, len, timeout },
                )
            },
            Ok(RecvPlan::Nothing) => self.after_leader(leader_buf, trailer_buf, payload_buf),
            Err(_) => self.idle(leader_buf, trailer_buf, Some(payload_buf)),
        }
    }

    fn after_leader(self, leader_buf: Vec<u8>, trailer_buf: Vec<u8>, payload_buf: Vec<u8>) -> (r: (
        StreamingLoop,
        Action,
    ))
        ensures
            (r.0@, r.1@) == self@.after_leader(leader_buf@, trailer_buf@, payload_buf@),
    {
        let decodes = read_leader(leader_buf.as_slice()).is_ok();
        if decodes {
            self.continue_payload(leader_buf, trailer_buf, payload_buf, PayloadRead::new())
        } else {
            self.idle(leader_buf, trailer_buf, Some(payload_buf))
        }
    }

    fn continue_payload(
        self,
        leader_buf: Vec<u8>,
        trailer_buf: Vec<u8>,
        payload_buf: Vec<u8>,
        read: PayloadRead,
    ) -> (r: (StreamingLoop, Action))
        ensures
            (r.0@, r.1@) == self@.continue_payload(
                leader_buf@,
                trailer_buf@,
                payload_buf@,
                read.position.index(&self@.params),
                read.read_len,
            ),
    {
        let mut read = read;
        match read.next(&self.params, payload_buf.len()) {
            Err(e) => self.emit(leader_buf, trailer_buf, Some(payload_buf), Err(e)),
            Ok(PayloadStep::Receive { offset, len }) => {
                let timeout = self.params.timeout;
                (
                    StreamingLoop {
                        params: self.params,
                        maximum_payload_size: self.maximum_payload_size,
                        state: State::Payload { leader_buf, trailer_buf, read },
                    },
                    Action::Receive { buf: payload_buf, offset, len, timeout },
                )
            },
            Ok(PayloadStep::Done(_)) => self.begin_trailer(leader_buf, trailer_buf, payload_buf),
        }
    }

    fn begin_trailer(self, leader_buf: Vec<u8>, trailer_buf: Vec<u8>, payload_buf: Vec<u8>) -> (r: (
        StreamingLoop,
        Action,
    ))
        ensures
            (r.0@, r.1@) == self@.begin_trailer(leader_buf@, trailer_buf@, payload_buf@),
    {
        match plan_recv(trailer_buf.len(), 0, self.params.trailer_size) {
            Ok(RecvPlan::Receive { offset, len }) => {
                let timeout = self.params.timeout;
                (
                    StreamingLoop {
                        params: self.params,
                        maximum_payload_size: self.maximum_payload_size,
                        state: State::Trailer { leader_buf, payload_buf },
                    },
                    Action::Receive { buf: trailer_buf, offset, len, timeout },
                )
            },
            Ok(RecvPlan::Nothing) => self.finish_frame(leader_buf, trailer_buf, payload_buf),
            Err(e) => self.emit(leader_buf, trailer_buf, Some(payload_buf), Err(e)),
        }
    }

    fn finish_frame(self, leader_buf: Vec<u8>, trailer_buf: Vec<u8>, payload_buf: Vec<u8>) -> (r: (
        StreamingLoop,
        Action,
    ))
        ensures
            (r.0@, r.1@) == self@.finish_frame(leader_buf@, trailer_buf@, payload_buf@),
    {
        let built = match read_leader(leader_buf.as_slice()) {
            Err(_) => {
                return self.idle(leader_buf, trailer_buf, Some(payload_buf));
            },
            Ok(leader) => match read_trailer(trailer_buf.as_slice()) {
                Err(e) => {
                    return self.emit(leader_buf, trailer_buf, Some(payload_buf), Err(e));
                },
                Ok(trailer) => PayloadBuilder { leader, payload_buf, trailer }.build(),
            },
        };
        self.emit(leader_buf, trailer_buf, None, built)
    }

    /// Takes the event that the last action brought and says what to do
    /// next.
    ///
    /// Bytes of the payload that the event reports must be countable to
    /// those that have arrived: see [`LoopView::takes`]. A read of the
    /// payload goes behind the bytes that have arrived, so the offset of
    /// the read and the reported count must add up in a `usize`.
    pub fn step(self, event: Event) -> (r: (StreamingLoop, Action))
        requires
            self@.takes(event@),
        ensures
            (r.0@, r.1@) == self@.step(event@),
    {
        let StreamingLoop { params, maximum_payload_size, state } = self;
        let this = StreamingLoop { params, maximum_payload_size, state: State::Finished };
        match state {
            State::Polling { leader_buf, trailer_buf, retained } => match event {
                Event::Cancellation(poll) => match poll {
                    CancelPoll::Pending => match retained {
                        Some(payload_buf) => this.begin_frame(leader_buf, trailer_buf, payload_buf),
                        None => (
                            StreamingLoop {
                                params: this.params,
                                maximum_payload_size: this.maximum_payload_size,
                                state: State::Acquiring { leader_buf, trailer_buf },
                            },
                            Action::TakeRecycled,
                        ),
                    },
                    _ => this.finish(),
                },
                _ => this.finish(),
            },
            State::Acquiring { leader_buf, trailer_buf } => match event {
                Event::Recycled(recycled) => {
                    let payload_buf = acquire_buffer(recycled, this.maximum_payload_size);
                    this.begin_frame(leader_buf, trailer_buf, payload_buf)
                },
                _ => this.finish(),
            },
            State::Leader { trailer_buf, payload_buf } => match event {
                Event::Received { buf, outcome } => match received(outcome) {
                    Err(_) => this.idle(buf, trailer_buf, Some(payload_buf)),
                    Ok(_) => this.after_leader(buf, trailer_buf, payload_buf),
                },
                _ => this.finish(),
            },
            State::Payload { leader_buf, trailer_buf, read } => match event {
                Event::Received { buf, outcome } => {
                    let mut read = read;
                    match read.receive(&this.params, outcome) {
                        Err(e) => this.emit(leader_buf, trailer_buf, Some(buf), Err(e)),
                        Ok(_) => this.continue_payload(leader_buf, trailer_buf, buf, read),
                    }
                },
                _ => this.finish(),
            },
            State::Trailer { leader_buf, payload_buf } => match event {
                Event::Received { buf, outcome } => match received(outcome) {
                    Err(e) => this.emit(leader_buf, buf, Some(payload_buf), Err(e)),
                    Ok(_) => this.finish_frame(leader_buf, buf, payload_buf),
                },
                _ => this.finish(),
            },
            State::Emitting { leader_buf, trailer_buf, retained } => match event {
                Event::Emitted => this.idle(leader_buf, trailer_buf, retained),
                _ => this.finish(),
            },
            State::Finished => this.finish(),
        }
    }
}

/// The actions that the loop asks for, one after each of `events`.
pub open spec fn actions_of(s: LoopView, events: Seq<EventView>) -> Seq<ActionView>
    decreases events.len(),
{
    if events.len() == 0 {
        Seq::empty()
    } else {
        seq![s.step(events.first()).1] + actions_of(s.step(events.first()).0, events.drop_first())
    }
}

/// The loop stops between frames: when the poll finds the signal sent or
/// its sender gone, the next action is to send the completion signal.
pub proof fn lemma_cancellation_ends_the_loop(s: LoopView, poll: CancelPoll)
    requires
        s.state is Polling,
        poll != CancelPoll::Pending,
    ensures
        s.step(EventView::Cancellation(poll)) == s.finish(),
{
}

/// Once the loop is over it stays so: whatever is reported to it, it
/// offers nothing to the consumer and asks for no read, only for the
/// completion signal.
pub proof fn lemma_nothing_after_the_end(s: LoopView, events: Seq<EventView>)
    requires
        s.state is Finished,
    ensures
        actions_of(s, events).len() == events.len(),
        forall|i: int|
            0 <= i < events.len() ==> #[trigger] actions_of(s, events)[i] == ActionView::Complete,
    decreases events.len(),
{
    if events.len() > 0 {
        assert(s.step(events.first()) == (s, ActionView::Complete));
        lemma_nothing_after_the_end(s, events.drop_first());
        assert forall|i: int| 0 <= i < events.len() implies #[trigger] actions_of(s, events)[i]
            == ActionView::Complete by {
            if i > 0 {
                assert(actions_of(s, events)[i] == actions_of(s, events.drop_first())[i - 1]);
            }
        }
    }
}

/// Every payload that the loop offers to the consumer was built from a
/// leader and a trailer that decode, and the trailer reports success.
pub proof fn lemma_offered_payload_is_whole(s: LoopView, event: EventView, payload: PayloadView)
    requires
        s.step(event).1 == ActionView::Emit(Ok(payload)),
    ensures
        exists|leader: Seq<u8>, trailer: Seq<u8>|
            {
                &&& #[trigger] read_leader_of(leader) is Ok
                &&& #[trigger] read_trailer_of(trailer) is Ok
                &&& read_trailer_of(trailer)->Ok_0.generic.payload_status
                    == crate::trailer::PayloadStatus::Success
                &&& payload_of(
                    read_leader_of(leader)->Ok_0,
                    payload.payload,
                    read_trailer_of(trailer)->Ok_0,
                ) == Ok::<PayloadView, StreamErrorView>(payload)
            },
{
    let (leader_buf, trailer_buf) = match (s.state, event) {
        (StateView::Polling { leader_buf, trailer_buf, .. }, _) => (leader_buf, trailer_buf),
        (StateView::Acquiring { leader_buf, trailer_buf }, _) => (leader_buf, trailer_buf),
        (StateView::Leader { trailer_buf, .. }, EventView::Received { buf, .. }) => (
            buf,
            trailer_buf,
        ),
        (StateView::Payload { leader_buf, trailer_buf, .. }, _) => (leader_buf, trailer_buf),
        (StateView::Trailer { leader_buf, .. }, EventView::Received { buf, .. }) => (
            leader_buf,
            buf,
        ),
        _ => (Seq::empty(), Seq::empty()),
    };
    assert(read_leader_of(leader_buf) is Ok);
    assert(read_trailer_of(trailer_buf) is Ok);
    let leader = read_leader_of(leader_buf)->Ok_0;
    let trailer = read_trailer_of(trailer_buf)->Ok_0;
    assert(payload_of(leader, payload.payload, trailer) == Ok::<PayloadView, StreamErrorView>(
        payload,
    ));
}

/// A payload buffer that was kept from a frame that came to nothing is the
/// buffer of the next frame: the channel is not asked for another.
pub proof fn lemma_retained_buffer_is_reused(
    s: LoopView,
    leader_buf: Seq<u8>,
    trailer_buf: Seq<u8>,
    payload_buf: Seq<u8>,
)
    requires
        s.state == (StateView::Polling { leader_buf, trailer_buf, retained: Some(payload_buf) }),
    ensures
        s.step(EventView::Cancellation(CancelPoll::Pending)) == s.begin_frame(
            leader_buf,
            trailer_buf,
            payload_buf,
        ),
        s.step(EventView::Cancellation(CancelPoll::Pending)).1 != ActionView::TakeRecycled,
{
}

/// A buffer that the consumer gave back with the right length is taken as
/// it is; any buffer that a frame starts with has that length.
pub proof fn lemma_recycled_buffer_is_reused(recycled: Option<Seq<u8>>, size: int)
    requires
        0 <= size,
    ensures
        acquired_of(recycled, size).len() == size,
        recycled matches Some(buffer) ==> (buffer.len() == size ==> acquired_of(recycled, size)
            == buffer),
{
    match recycled {
        Some(buffer) => {
            if buffer.len() == size {
                assert(resized(buffer, size) =~= buffer);
            }
        },
        None => {},
    }
}

/// A read of the payload goes behind the bytes that have arrived:
/// whenever a step leaves the loop reading the payload, the action is a
/// read whose offset is the number of bytes read so far. So the loop can
/// take the answer to that read where the offset and the count that the
/// answer reports add up in a `usize`.
pub proof fn lemma_payload_read_goes_behind(s: LoopView, event: EventView, answer: EventView)
    requires
        s.step(event).0.state is Payload,
    ensures
        s.step(event).1 is Receive,
        s.step(event).0.state matches StateView::Payload { read_len, .. } ==> s.step(
            event,
        ).1->Receive_offset == read_len,
        answer matches EventView::Received { outcome: Ok(n), .. } ==> (s.step(
            event,
        ).1->Receive_offset + n <= usize::MAX ==> s.step(event).0.takes(answer)),
        !(answer matches EventView::Received { outcome: Ok(_), .. }) ==> s.step(event).0.takes(
            answer,
        ),
{
}

} // verus!
