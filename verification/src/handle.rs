//! The handle of a stream channel: what it keeps of its worker, and when it
//! lets a caller read from the channel directly.
//!
//! The handle does not know what its channel or its signals are. It keeps
//! the channel, the parameters, and, while a worker runs, the two ends by
//! which the worker is told to stop and by which it says that it has.

use crate::error::{StreamError, StreamErrorView};
use crate::params::StreamParams;
use crate::time::duration_of_nanos;
use crate::transfer::{plan_recv, recv_plan_of, PayloadRead, ReadPosition, RecvPlan};
use vstd::prelude::*;

verus! {

/// The handle of a stream channel of type `T`. `C` is the end that sends
/// the cancellation signal to the worker, `D` the end that receives the
/// worker's completion signal.
///
/// A worker runs exactly while the handle keeps both ends: they are put in
/// together and taken out together.
pub struct StreamHandle<T, C, D> {
    inner: T,
    params: StreamParams,
    signals: Option<(C, D)>,
}

impl<T, C, D> StreamHandle<T, C, D> {
    /// The channel.
    pub closed spec fn spec_inner(&self) -> T {
        self.inner
    }

    /// The parameters.
    pub closed spec fn spec_params(&self) -> StreamParams {
        self.params
    }

    /// The two signal ends, where a worker runs.
    pub closed spec fn spec_signals(&self) -> Option<(C, D)> {
        self.signals
    }

    /// Whether a worker runs.
    pub open spec fn spec_is_loop_running(&self) -> bool {
        self.spec_signals() is Some
    }

    /// A handle of the channel `inner`, with default parameters and no
    /// worker.
    pub fn new(inner: T) -> (handle: Self)
        ensures
            handle.spec_inner() == inner,
            !handle.spec_is_loop_running(),
            handle.spec_params() == (StreamParams {
                leader_size: 0,
                trailer_size: 0,
                payload_size: 0,
                payload_count: 0,
                payload_final1_size: 0,
                payload_final2_size: 0,
                timeout: duration_of_nanos(0),
            }),
    {
        StreamHandle { inner, params: StreamParams::default(), signals: None }
    }

    /// Return params.
    pub fn params(&self) -> (params: &StreamParams)
        ensures
            *params == self.spec_params(),
    {
        &self.params
    }

    /// Return mutable params.
    pub fn params_mut(&mut self) -> (params: &mut StreamParams)
        ensures
            *params == old(self).spec_params(),
            final(self).spec_params() == *final(params),
            final(self).spec_inner() == old(self).spec_inner(),
            final(self).spec_signals() == old(self).spec_signals(),
    {
        &mut self.params
    }

    /// Whether a worker runs.
    pub fn is_loop_running(&self) -> (running: bool)
        ensures
            running == self.spec_is_loop_running(),
    {
        self.signals.is_some()
    }

    /// The channel, for a direct read. While a worker runs there is none to
    /// be had: the answer is `InStreaming`.
    pub fn direct(&self) -> (r: Result<&T, StreamError>)
        ensures
            match r {
                Ok(inner) => !self.spec_is_loop_running() && *inner == self.spec_inner(),
                Err(e) => self.spec_is_loop_running() && e@ == StreamErrorView::InStreaming,
            },
    {
        if self.signals.is_some() {
            Err(StreamError::InStreaming)
        } else {
            Ok(&self.inner)
        }
    }

    /// Plans the direct read of a leader into a buffer of `buf_len` bytes:
    /// `leader_size` bytes, from the start of the buffer. While a worker
    /// runs the answer is `InStreaming`, whatever the buffer.
    pub fn plan_read_leader(&self, buf_len: usize) -> (r: Result<(&T, RecvPlan), StreamError>)
        ensures
            match r {
                Ok((inner, plan)) => {
                    &&& !self.spec_is_loop_running()
                    &&& *inner == self.spec_inner()
                    &&& recv_plan_of(buf_len as int, 0, self.spec_params().leader_size as int)
                        == Ok::<RecvPlan, StreamErrorView>(plan)
                },
                Err(e) => if self.spec_is_loop_running() {
                    e@ == StreamErrorView::InStreaming
                } else {
                    recv_plan_of(buf_len as int, 0, self.spec_params().leader_size as int) == Err::<
                        RecvPlan,
                        StreamErrorView,
                    >(e@)
                },
            },
    {
        match self.direct() {
            Err(e) => Err(e),
            Ok(inner) => match plan_recv(buf_len, 0, self.params.leader_size) {
                Ok(plan) => Ok((inner, plan)),
                Err(e) => Err(e),
            },
        }
    }

    /// Plans the direct read of a trailer into a buffer of `buf_len` bytes:
    /// `trailer_size` bytes, from the start of the buffer. While a worker
    /// runs the answer is `InStreaming`, whatever the buffer.
    pub fn plan_read_trailer(&self, buf_len: usize) -> (r: Result<(&T, RecvPlan), StreamError>)
        ensures
            match r {
                Ok((inner, plan)) => {
                    &&& !self.spec_is_loop_running()
                    &&& *inner == self.spec_inner()
                    &&& recv_plan_of(buf_len as int, 0, self.spec_params().trailer_size as int)
                        == Ok::<RecvPlan, StreamErrorView>(plan)
                },
                Err(e) => if self.spec_is_loop_running() {
                    e@ == StreamErrorView::InStreaming
                } else {
                    recv_plan_of(buf_len as int, 0, self.spec_params().trailer_size as int)
                        == Err::<RecvPlan, StreamErrorView>(e@)
                },
            },
    {
        match self.direct() {
            Err(e) => Err(e),
            Ok(inner) => match plan_recv(buf_len, 0, self.params.trailer_size) {
                Ok(plan) => Ok((inner, plan)),
                Err(e) => Err(e),
            },
        }
    }

    /// Plans the direct read of a payload: gives the read, which stands
    /// before the first transfer. While a worker runs the answer is
    /// `InStreaming`.
    pub fn plan_read_payload(&self) -> (r: Result<(&T, PayloadRead), StreamError>)
        ensures
            match r {
                Ok((inner, read)) => {
                    &&& !self.spec_is_loop_running()
                    &&& *inner == self.spec_inner()
                    &&& read == (PayloadRead { position: ReadPosition::Transfer(0), read_len: 0 })
                },
                Err(e) => self.spec_is_loop_running() && e@ == StreamErrorView::InStreaming,
            },
    {
        match self.direct() {
            Err(e) => Err(e),
            Ok(inner) => Ok((inner, PayloadRead::new())),
        }
    }

    /// The channel, for the worker to take with it or for opening and
    /// closing.
    pub fn inner(&self) -> (inner: &T)
        ensures
            *inner == self.spec_inner(),
    {
        &self.inner
    }

    /// Takes note that a worker is started with `params` and the two signal
    /// ends. The parameters are recorded in any case. While a worker runs
    /// no other can start: the answer is `InStreaming`, and the ends that
    /// the handle keeps stay.
    pub fn run_streaming_loop(
        &mut self,
        params: StreamParams,
        cancellation_tx: C,
        completion_rx: D,
    ) -> (r: Result<(), StreamError>)
        ensures
            final(self).spec_params() == params,
            final(self).spec_inner() == old(self).spec_inner(),
            final(self).spec_is_loop_running(),
            match r {
                Ok(()) => !old(self).spec_is_loop_running() && final(self).spec_signals() == Some(
                    (cancellation_tx, completion_rx),
                ),
                Err(e) => old(self).spec_is_loop_running() && e@ == StreamErrorView::InStreaming
                    && final(self).spec_signals() == old(self).spec_signals(),
            },
    {
        self.params = params;
        if self.signals.is_some() {
            return Err(StreamError::InStreaming);
        }
        self.signals = Some((cancellation_tx, completion_rx));
        Ok(())
    }

    /// Takes note that the worker is stopped: gives out the two signal
    /// ends, if a worker runs, and keeps none. After this no worker runs.
    pub fn stop_streaming_loop(&mut self) -> (signals: Option<(C, D)>)
        ensures
            signals == old(self).spec_signals(),
            !final(self).spec_is_loop_running(),
            final(self).spec_params() == old(self).spec_params(),
            final(self).spec_inner() == old(self).spec_inner(),
    {
        self.signals.take()
    }
}

} // verus!
