//! The sized reads of a stream packet: what each read asks of the
//! transport, and what is made of the transport's answer.
//!
//! The transport itself is not here. A read is planned, the caller performs
//! it, and the outcome is handed back.

use crate::error::{StreamError, StreamErrorView};
use crate::leader::{leader_of, Leader, LeaderView};
use crate::params::StreamParams;
use crate::trailer::{trailer_of, Trailer, TrailerView};
use vstd::prelude::*;

verus! {

/// What a sized read asks of the transport.
#[derive(Debug, Clone, Copy, PartialEq, Eq, Structural)]
pub enum RecvPlan {
    /// The read asks for no bytes: nothing is to be done.
    Nothing,
    /// `len` bytes are to be read into the buffer, from `offset` on.
    Receive { offset: usize, len: usize },
}

/// The plan of a read of `len` bytes into a buffer of `buf_len` bytes, from
/// `offset` on. A read of no bytes needs no buffer. Any other read needs
/// `len` bytes of buffer from `offset` on.
pub open spec fn recv_plan_of(buf_len: int, offset: int, len: int) -> Result<
    RecvPlan,
    StreamErrorView,
> {
    if len == 0 {
        Ok(RecvPlan::Nothing)
    } else if offset + len > buf_len {
        Err(StreamErrorView::BufferTooSmall)
    } else {
        Ok(RecvPlan::Receive { offset: offset as usize, len: len as usize })
    }
}

/// Plans a read of `len` bytes into a buffer of `buf_len` bytes, from
/// `offset` on.
pub fn plan_recv(buf_len: usize, offset: usize, len: usize) -> (r: Result<RecvPlan, StreamError>)
    ensures
        match r {
            Ok(plan) => recv_plan_of(buf_len as int, offset as int, len as int) == Ok::<
                RecvPlan,
                StreamErrorView,
            >(plan),
            Err(e) => recv_plan_of(buf_len as int, offset as int, len as int) == Err::<
                RecvPlan,
                StreamErrorView,
            >(e@),
        },
{
    if len == 0 {
        Ok(RecvPlan::Nothing)
    } else if offset > buf_len || len > buf_len - offset {
        Err(StreamError::BufferTooSmall)
    } else {
        Ok(RecvPlan::Receive { offset, len })
    }
}

/// The outcome of a read as contracts see it: the number of bytes that
/// arrived, or the transport's error in words.
pub type OutcomeView = Result<usize, Seq<char>>;

/// The view of an outcome.
pub open spec fn outcome_view(outcome: Result<usize, String>) -> OutcomeView {
    match outcome {
        Ok(n) => Ok(n),
        Err(text) => Err(text@),
    }
}

/// What a read amounts to, given the transport's answer: the number of
/// bytes that arrived, whatever it is, or a `Device` error with the
/// transport's words.
pub open spec fn received_of(outcome: OutcomeView) -> Result<usize, StreamErrorView> {
    match outcome {
        Ok(n) => Ok(n),
        Err(text) => Err(StreamErrorView::Device(text)),
    }
}

/// Makes of the transport's answer to a read the number of bytes that
/// arrived, or the error of the read.
pub fn received(outcome: Result<usize, String>) -> (r: Result<usize, StreamError>)
    ensures
        match r {
            Ok(n) => received_of(outcome_view(outcome)) == Ok::<usize, StreamErrorView>(n),
            Err(e) => received_of(outcome_view(outcome)) == Err::<usize, StreamErrorView>(e@),
        },
{
    match outcome {
        Ok(n) => Ok(n),
        Err(text) => Err(StreamError::Device(text)),
    }
}

/// The leader that the bytes of a read hold; where they hold none, the
/// error is the codec's, kind and text as they are.
pub open spec fn read_leader_of(s: Seq<u8>) -> Result<LeaderView, StreamErrorView> {
    match leader_of(s) {
        Ok(leader) => Ok(leader),
        Err(e) => Err(e.stream_error()),
    }
}

/// The trailer that the bytes of a read hold; where they hold none, the
/// error is the codec's, kind and text as they are.
pub open spec fn read_trailer_of(s: Seq<u8>) -> Result<TrailerView, StreamErrorView> {
    match trailer_of(s) {
        Ok(trailer) => Ok(trailer),
        Err(e) => Err(e.stream_error()),
    }
}

/// Decodes the leader that a read has brought into `buf`.
pub fn read_leader<'a>(buf: &'a [u8]) -> (r: Result<Leader<'a>, StreamError>)
    ensures
        match r {
            Ok(leader) => read_leader_of(buf@) == Ok::<LeaderView, StreamErrorView>(leader@),
            Err(e) => read_leader_of(buf@) == Err::<LeaderView, StreamErrorView>(e@),
        },
{
    match Leader::parse(buf) {
        Ok(leader) => Ok(leader),
        Err(e) => Err(StreamError::from_codec(e)),
    }
}

/// Decodes the trailer that a read has brought into `buf`.
pub fn read_trailer<'a>(buf: &'a [u8]) -> (r: Result<Trailer<'a>, StreamError>)
    ensures
        match r {
            Ok(trailer) => read_trailer_of(buf@) == Ok::<TrailerView, StreamErrorView>(trailer@),
            Err(e) => read_trailer_of(buf@) == Err::<TrailerView, StreamErrorView>(e@),
        },
{
    match Trailer::parse(buf) {
        Ok(trailer) => Ok(trailer),
        Err(e) => Err(StreamError::from_codec(e)),
    }
}

/// The number of transfers that make up a payload: `payload_count` of
/// `payload_size` bytes each, then the two final ones.
pub open spec fn transfer_count(params: &StreamParams) -> int {
    params.payload_count + 2
}

/// The number of bytes that the transfer at `index` asks for.
pub open spec fn transfer_len(params: &StreamParams, index: int) -> int {
    if index < params.payload_count {
        params.payload_size as int
    } else if index == params.payload_count {
        params.payload_final1_size as int
    } else {
        params.payload_final2_size as int
    }
}

/// The first transfer from `index` on that asks for any bytes, or
/// `transfer_count` where none does.
pub open spec fn next_transfer(params: &StreamParams, index: int) -> int {
    if index < params.payload_count && params.payload_size > 0 {
        index
    } else if index <= params.payload_count && params.payload_final1_size > 0 {
        params.payload_count as int
    } else if index <= params.payload_count + 1 && params.payload_final2_size > 0 {
        params.payload_count + 1
    } else {
        params.payload_count + 2
    }
}

/// Where the read of a payload stands.
#[derive(Debug, Clone, Copy, PartialEq, Eq, Structural)]
pub enum ReadPosition {
    /// Before the transfer of `payload_size` bytes with this index. An
    /// index of `payload_count` or more stands before the first final
    /// transfer.
    Transfer(usize),
    /// Before the first final transfer.
    Final1,
    /// Before the second final transfer.
    Final2,
    /// After the last transfer.
    Done,
}

impl ReadPosition {
    /// The index of the transfer that the position stands before.
    pub open spec fn index(self, params: &StreamParams) -> int {
        match self {
            ReadPosition::Transfer(i) => if i < params.payload_count {
                i as int
            } else {
                params.payload_count as int
            },
            ReadPosition::Final1 => params.payload_count as int,
            ReadPosition::Final2 => params.payload_count + 1,
            ReadPosition::Done => params.payload_count + 2,
        }
    }
}

/// What the read of a payload does next.
#[derive(Debug, Clone, Copy, PartialEq, Eq, Structural)]
pub enum PayloadStep {
    /// `len` bytes are to be read into the payload buffer, from `offset`
    /// on.
    Receive { offset: usize, len: usize },
    /// The payload is read; so many bytes have arrived.
    Done(usize),
}

/// The read of one payload, transfer by transfer.
#[derive(Debug, Clone, Copy, PartialEq, Eq, Structural)]
pub struct PayloadRead {
    /// Where the read stands.
    pub position: ReadPosition,
    /// The number of bytes that have arrived.
    pub read_len: usize,
}

/// The step that a read takes once it stands before the transfer at
/// `index`, with `read_len` bytes read into a buffer of `buf_len` bytes.
pub open spec fn payload_step_of(params: &StreamParams, index: int, read_len: usize, buf_len: int)
    -> Result<PayloadStep, StreamErrorView> {
    if index >= transfer_count(params) {
        Ok(PayloadStep::Done(read_len))
    } else if read_len + transfer_len(params, index) > buf_len {
        Err(StreamErrorView::BufferTooSmall)
    } else {
        Ok(PayloadStep::Receive { offset: read_len, len: transfer_len(params, index) as usize })
    }
}

/// What the transport's answer to the transfer at `index` amounts to for a
/// read with `read_len` bytes in the buffer: the transfer that the read
/// stands before afterwards and the bytes that it then has, or the error
/// of the read. The bytes that arrived are counted as the transport
/// reports them. After the last transfer the read does not move.
pub open spec fn payload_received_of(
    params: &StreamParams,
    index: int,
    read_len: usize,
    outcome: OutcomeView,
) -> Result<(int, int), StreamErrorView> {
    match received_of(outcome) {
        Err(e) => Err(e),
        Ok(n) => if index < transfer_count(params) {
            Ok((index + 1, read_len + n))
        } else {
            Ok((index, read_len as int))
        },
    }
}

/// Whether the bytes that `outcome` reports can be counted to the
/// `read_len` that a read at `index` has: their sum fits a `usize`.
pub open spec fn countable(
    params: &StreamParams,
    index: int,
    read_len: usize,
    outcome: OutcomeView,
) -> bool {
    match payload_received_of(params, index, read_len, outcome) {
        Ok((_, sum)) => sum <= usize::MAX,
        Err(_) => true,
    }
}

impl PayloadRead {
    /// A read that stands before the first transfer.
    pub fn new() -> (read: PayloadRead)
        ensures
            read == (PayloadRead { position: ReadPosition::Transfer(0), read_len: 0 }),
    {
        PayloadRead { position: ReadPosition::Transfer(0), read_len: 0 }
    }

    /// Says what to do next. Transfers of no bytes are passed over; the
    /// next one that asks for bytes goes to the payload buffer right after
    /// the bytes that have arrived, and needs room there.
    pub fn next(&mut self, params: &StreamParams, buf_len: usize) -> (r: Result<
        PayloadStep,
        StreamError,
    >)
        ensures
            final(self).read_len == old(self).read_len,
            final(self).position.index(params) == next_transfer(
                params,
                old(self).position.index(params),
            ),
            match r {
                Ok(step) => payload_step_of(
                    params,
                    final(self).position.index(params),
                    old(self).read_len,
                    buf_len as int,
                ) == Ok::<PayloadStep, StreamErrorView>(step),
                Err(e) => payload_step_of(
                    params,
                    final(self).position.index(params),
                    old(self).read_len,
                    buf_len as int,
                ) == Err::<PayloadStep, StreamErrorView>(e@),
            },
    {
        let position = match self.position {
            ReadPosition::Transfer(i) => if i < params.payload_count && params.payload_size > 0 {
                ReadPosition::Transfer(i)
            } else if params.payload_final1_size > 0 {
                ReadPosition::Final1
            } else if params.payload_final2_size > 0 {
                ReadPosition::Final2
            } else {
                ReadPosition::Done
            },
            ReadPosition::Final1 => if params.payload_final1_size > 0 {
                ReadPosition::Final1
            } else if params.payload_final2_size > 0 {
                ReadPosition::Final2
            } else {
                ReadPosition::Done
            },
            ReadPosition::Final2 => if params.payload_final2_size > 0 {
                ReadPosition::Final2
            } else {
                ReadPosition::Done
            },
            ReadPosition::Done => ReadPosition::Done,
        };
        self.position = position;
        let len: usize = match position {
            ReadPosition::Transfer(_) => params.payload_size,
            ReadPosition::Final1 => params.payload_final1_size,
            ReadPosition::Final2 => params.payload_final2_size,
            ReadPosition::Done => {
                return Ok(PayloadStep::Done(self.read_len));
            },
        };
        if self.read_len > buf_len || len > buf_len - self.read_len {
            Err(StreamError::BufferTooSmall)
        } else {
            Ok(PayloadStep::Receive { offset: self.read_len, len })
        }
    }

    /// The number of bytes that the transfer which the read stands before
    /// asks for.
    pub fn pending_len(&self, params: &StreamParams) -> (len: usize)
        ensures
            len == transfer_len(params, self.position.index(params)),
    {
        match self.position {
            ReadPosition::Transfer(i) => if i < params.payload_count {
                params.payload_size
            } else {
                params.payload_final1_size
            },
            ReadPosition::Final1 => params.payload_final1_size,
            ReadPosition::Final2 => params.payload_final2_size,
            ReadPosition::Done => params.payload_final2_size,
        }
    }

    /// Takes the transport's answer to the transfer which the read stands
    /// before. Where bytes arrived, the read moves on by one transfer and
    /// by their number, which is the result; after the last transfer it
    /// does not move. Where the transport failed, the read stays where it
    /// is and the result is the error.
    ///
    /// The bytes that have arrived and those that the transport reports
    /// must be countable in a `usize`.
    pub fn receive(&mut self, params: &StreamParams, outcome: Result<usize, String>) -> (r: Result<
        usize,
        StreamError,
    >)
        requires
            countable(
                params,
                old(self).position.index(params),
                old(self).read_len,
                outcome_view(outcome),
            ),
        ensures
            match r {
                Ok(n) => {
                    &&& outcome == Ok::<usize, String>(n)
                    &&& payload_received_of(
                        params,
                        old(self).position.index(params),
                        old(self).read_len,
                        outcome_view(outcome),
                    ) == Ok::<(int, int), StreamErrorView>(
                        (final(self).position.index(params), final(self).read_len as int),
                    )
                },
                Err(e) => {
                    &&& payload_received_of(
                        params,
                        old(self).position.index(params),
                        old(self).read_len,
                        outcome_view(outcome),
                    ) == Err::<(int, int), StreamErrorView>(e@)
                    &&& *final(self) == *old(self)
                },
            },
    {
        let n: usize = match received(outcome) {
            Ok(n) => n,
            Err(e) => {
                return Err(e);
            },
        };
        let position = match self.position {
            ReadPosition::Transfer(i) => if i < params.payload_count {
                ReadPosition::Transfer(i + 1)
            } else {
                ReadPosition::Final2
            },
            ReadPosition::Final1 => ReadPosition::Final2,
            ReadPosition::Final2 => ReadPosition::Done,
            ReadPosition::Done => {
                return Ok(n);
            },
        };
        self.position = position;
        self.read_len = self.read_len + n;
        Ok(n)
    }
}

/// `next_transfer` gives the first transfer from `index` on that asks for
/// bytes: all that it passes over ask for none, and the one it stops at,
/// if any, asks for some.
pub proof fn lemma_next_transfer_is_first(params: &StreamParams, index: int, passed: int)
    requires
        0 <= index <= transfer_count(params),
    ensures
        index <= next_transfer(params, index) <= transfer_count(params),
        index <= passed < next_transfer(params, index) ==> transfer_len(params, passed) == 0,
        next_transfer(params, index) < transfer_count(params) ==> transfer_len(
            params,
            next_transfer(params, index),
        ) > 0,
{
}

} // verus!
