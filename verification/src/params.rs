//! The sizes and the timeout by which stream packets are received.

use crate::time::{duration_from_nanos, duration_of_nanos};
use std::time::Duration;
use vstd::prelude::*;

verus! {

/// Parameters to receive stream packets.
///
/// Nothing here checks that the parameters make sense together: a read with
/// degenerate sizes fails where it is made.
#[derive(Debug, Clone)]
pub struct StreamParams {
    /// Maximum leader size.
    pub leader_size: usize,
    /// Maximum trailer size.
    pub trailer_size: usize,
    /// Payload transfer size.
    pub payload_size: usize,
    /// Payload transfer count.
    pub payload_count: usize,
    /// Payload transfer final1 size.
    pub payload_final1_size: usize,
    /// Payload transfer final2 size.
    pub payload_final2_size: usize,
    /// Timeout of each transaction with the device.
    pub timeout: Duration,
}

/// The sizing registers of the streaming interface of a device, as read.
#[derive(Debug, Clone, Copy, PartialEq, Eq, Structural)]
pub struct StreamRegisters {
    /// Maximum leader size.
    pub maximum_leader_size: u32,
    /// Maximum trailer size.
    pub maximum_trailer_size: u32,
    /// Payload transfer size.
    pub payload_transfer_size: u32,
    /// Payload transfer count.
    pub payload_transfer_count: u32,
    /// Payload final transfer1 size.
    pub payload_final_transfer1_size: u32,
    /// Payload final transfer2 size.
    pub payload_final_transfer2_size: u32,
}

impl StreamParams {
    /// The upper bound of the payload size, as a mathematical integer:
    /// `payload_size * payload_count + payload_final1_size +
    /// payload_final2_size`.
    pub open spec fn spec_maximum_payload_size(&self) -> int {
        self.payload_size * self.payload_count + self.payload_final1_size
            + self.payload_final2_size
    }

    /// Return upper bound of payload size calculated by current
    /// `StreamParams` values.
    ///
    /// The bound must fit the machine's `usize`;
    /// [`checked_maximum_payload_size`](Self::checked_maximum_payload_size)
    /// tells whether it does.
    pub fn maximum_payload_size(&self) -> (size: usize)
        requires
            self.spec_maximum_payload_size() <= usize::MAX,
        ensures
            size == self.spec_maximum_payload_size(),
    {
        assert(self.payload_size * self.payload_count <= self.spec_maximum_payload_size())
            by (nonlinear_arith)
            requires
                self.payload_size >= 0,
                self.payload_count >= 0,
                self.payload_final1_size >= 0,
                self.payload_final2_size >= 0,
                self.spec_maximum_payload_size() == self.payload_size * self.payload_count
                    + self.payload_final1_size + self.payload_final2_size,
        ;
        self.payload_size * self.payload_count + self.payload_final1_size
            + self.payload_final2_size
    }

    /// The upper bound of the payload size, or `None` where it does not fit
    /// the machine's `usize`.
    pub fn checked_maximum_payload_size(&self) -> (size: Option<usize>)
        ensures
            size is Some <==> self.spec_maximum_payload_size() <= usize::MAX,
            size matches Some(s) ==> s == self.spec_maximum_payload_size(),
    {
        assert(self.payload_size * self.payload_count >= 0) by (nonlinear_arith)
            requires
                self.payload_size >= 0,
                self.payload_count >= 0,
        ;
        let transfers: usize = match self.payload_size.checked_mul(self.payload_count) {
            Some(n) => n,
            None => {
                return None;
            },
        };
        let with_final1: usize = match transfers.checked_add(self.payload_final1_size) {
            Some(n) => n,
            None => {
                return None;
            },
        };
        with_final1.checked_add(self.payload_final2_size)
    }

    /// Construct `StreamParams`.
    pub fn new(
        leader_size: usize,
        trailer_size: usize,
        payload_size: usize,
        payload_count: usize,
        payload_final1_size: usize,
        payload_final2_size: usize,
        timeout: Duration,
    ) -> (params: StreamParams)
        ensures
            params == (StreamParams {
                leader_size,
                trailer_size,
                payload_size,
                payload_count,
                payload_final1_size,
                payload_final2_size,
                timeout,
            }),
    {
        StreamParams {
            leader_size,
            trailer_size,
            payload_size,
            payload_count,
            payload_final1_size,
            payload_final2_size,
            timeout,
        }
    }

    /// Build `StreamParams` from the sizing registers of a device and the
    /// maximum response time that it announces.
    pub fn from_device(registers: &StreamRegisters, timeout: Duration) -> (params: StreamParams)
        ensures
            params == (StreamParams {
                leader_size: registers.maximum_leader_size as usize,
                trailer_size: registers.maximum_trailer_size as usize,
                payload_size: registers.payload_transfer_size as usize,
                payload_count: registers.payload_transfer_count as usize,
                payload_final1_size: registers.payload_final_transfer1_size as usize,
                payload_final2_size: registers.payload_final_transfer2_size as usize,
                timeout,
            }),
    {
        let leader_size: usize = registers.maximum_leader_size as usize;
        let trailer_size: usize = registers.maximum_trailer_size as usize;
        let payload_size: usize = registers.payload_transfer_size as usize;
        let payload_count: usize = registers.payload_transfer_count as usize;
        let payload_final1_size: usize = registers.payload_final_transfer1_size as usize;
        let payload_final2_size: usize = registers.payload_final_transfer2_size as usize;
        Self::new(
            leader_size,
            trailer_size,
            payload_size,
            payload_count,
            payload_final1_size,
            payload_final2_size,
            timeout,
        )
    }
}

impl Default for StreamParams {
    /// Parameters with every size zero and a timeout of no time at all.
    fn default() -> (params: StreamParams)
        ensures
            params == (StreamParams {
                leader_size: 0,
                trailer_size: 0,
                payload_size: 0,
                payload_count: 0,
                payload_final1_size: 0,
                payload_final2_size: 0,
                timeout: duration_of_nanos(0),
            }),
    {
        StreamParams {
            leader_size: 0,
            trailer_size: 0,
            payload_size: 0,
            payload_count: 0,
            payload_final1_size: 0,
            payload_final2_size: 0,
            timeout: duration_from_nanos(0),
        }
    }
}

} // verus!
