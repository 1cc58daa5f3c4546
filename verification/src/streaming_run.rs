//! The streaming loop in its surroundings: what whole runs of the loop
//! bring about when the transport delivers frame after frame.
//!
//! The surroundings are modelled as a world that answers each action of
//! the loop: the cancellation signal is never sent, the transport delivers
//! the bytes of its wire in order and times out when they run short, and
//! the consumer hands over the buffers that it has given back, one for
//! each asking; it may give back every payload that it is offered.

use crate::error::StreamErrorView;
use crate::params::StreamParams;
use crate::payload::PayloadView;
use crate::payload_builder::payload_of;
use crate::streaming::{
    acquired_of, ActionView, CancelPoll, EventView, LoopView, StateView,
};
use crate::transfer::{
    next_transfer, read_leader_of, read_trailer_of, transfer_count, transfer_len,
};
use vstd::prelude::*;

verus! {

/// What surrounds the loop.
pub struct World {
    /// The bytes that the transport will deliver, in their order.
    pub wire: Seq<u8>,
    /// The buffers that the consumer has given back, the next one first.
    pub recycled: Seq<Seq<u8>>,
    /// Whether the consumer gives back every payload that it is offered.
    pub gives_back: bool,
}

/// `buf` with `data` written over its bytes from `offset` on.
pub open spec fn written(buf: Seq<u8>, offset: int, data: Seq<u8>) -> Seq<u8> {
    buf.subrange(0, offset) + data + buf.subrange(offset + data.len(), buf.len() as int)
}

/// The event with which the world answers `action`, and the world after
/// it.
pub open spec fn answer(world: World, action: ActionView) -> (EventView, World) {
    match action {
        ActionView::PollCancellation => (EventView::Cancellation(CancelPoll::Pending), world),
        ActionView::TakeRecycled => if world.recycled.len() > 0 {
            (
                EventView::Recycled(Some(world.recycled.first())),
                World { recycled: world.recycled.drop_first(), ..world },
            )
        } else {
            (EventView::Recycled(None), world)
        },
        ActionView::Receive { buf, offset, len, timeout } => if len <= world.wire.len() && offset
            + len <= buf.len() {
            (
                EventView::Received {
                    buf: written(buf, offset as int, world.wire.subrange(0, len as int)),
                    outcome: Ok(len),
                },
                World { wire: world.wire.skip(len as int), ..world },
            )
        } else {
            (EventView::Received { buf, outcome: Err("operation timed out"@) }, world)
        },
        ActionView::Emit(Ok(payload)) => if world.gives_back {
            (
                EventView::Emitted,
                World { recycled: world.recycled.push(payload.payload), ..world },
            )
        } else {
            (EventView::Emitted, world)
        },
        ActionView::Emit(Err(_)) => (EventView::Emitted, world),
        ActionView::Complete => (EventView::Emitted, world),
    }
}

/// A run of the loop at one moment: the loop, the action that it has asked
/// for, the world, what has been offered to the consumer so far, and how
/// many payload buffers were made anew and how many were brought to
/// another length.
pub struct Run {
    pub state: LoopView,
    pub action: ActionView,
    pub world: World,
    pub offered: Seq<Result<PayloadView, StreamErrorView>>,
    pub fresh: nat,
    pub resized: nat,
}

/// The number of payload buffers that the loop makes anew on `event`: one
/// where the channel had none to give.
pub open spec fn fresh_on(event: EventView) -> nat {
    match event {
        EventView::Recycled(None) => 1,
        _ => 0,
    }
}

/// One if the length of `buffer` is not `size`, else zero.
pub open spec fn other_size(buffer: Seq<u8>, size: int) -> nat {
    if buffer.len() != size {
        1
    } else {
        0
    }
}

/// The number of payload buffers that the loop brings to another length on
/// `event`: one where the channel gave a buffer whose length is not `size`.
pub open spec fn resized_on(event: EventView, size: int) -> nat {
    match event {
        EventView::Recycled(Some(buffer)) => other_size(buffer, size),
        _ => 0,
    }
}

impl Run {
    /// The run one step on: the world answers the action, and the loop
    /// takes the answer.
    pub open spec fn next(self) -> Run {
        let (event, world) = answer(self.world, self.action);
        let (state, action) = self.state.step(event);
        Run {
            state,
            action,
            world,
            offered: match self.action {
                ActionView::Emit(result) => self.offered.push(result),
                _ => self.offered,
            },
            fresh: self.fresh + fresh_on(event),
            resized: self.resized + resized_on(event, self.state.maximum_payload_size as int),
        }
    }

    /// The run `n` steps on.
    pub open spec fn after(self, n: nat) -> Run
        decreases n,
    {
        if n == 0 {
            self
        } else {
            self.next().after((n - 1) as nat)
        }
    }
}

/// One block on the wire.
pub struct Frame {
    pub leader: Seq<u8>,
    pub payload: Seq<u8>,
    pub trailer: Seq<u8>,
}

impl Frame {
    /// The bytes of the frame on the wire.
    pub open spec fn bytes(self) -> Seq<u8> {
        self.leader + self.payload + self.trailer
    }

    /// Whether the frame is well-formed for `params`: its three parts have
    /// the sizes that the parameters give, and its leader and trailer
    /// decode.
    pub open spec fn well_formed(self, params: &StreamParams) -> bool {
        &&& self.leader.len() == params.leader_size
        &&& self.payload.len() == params.spec_maximum_payload_size()
        &&& self.trailer.len() == params.trailer_size
        &&& read_leader_of(self.leader) is Ok
        &&& read_trailer_of(self.trailer) is Ok
    }

    /// Whether the frame holds a payload: it is well-formed, and a payload
    /// can be built of it.
    pub open spec fn holds_payload(self, params: &StreamParams) -> bool {
        self.well_formed(params) && self.result() is Ok
    }

    /// What the frame amounts to for the consumer.
    pub open spec fn result(self) -> Result<PayloadView, StreamErrorView> {
        payload_of(
            read_leader_of(self.leader)->Ok_0,
            self.payload,
            read_trailer_of(self.trailer)->Ok_0,
        )
    }
}

/// The bytes of `frames` on the wire, one frame after the other.
pub open spec fn wire_of(frames: Seq<Frame>) -> Seq<u8>
    decreases frames.len(),
{
    if frames.len() == 0 {
        Seq::empty()
    } else {
        frames.first().bytes() + wire_of(frames.drop_first())
    }
}

/// What `frames` amount to for the consumer, in their order.
pub open spec fn results_of(frames: Seq<Frame>) -> Seq<Result<PayloadView, StreamErrorView>> {
    Seq::new(frames.len(), |i: int| frames[i].result())
}

/// The number of transfers from `index` on that ask for bytes.
pub open spec fn transfers_from(params: &StreamParams, index: int) -> nat {
    ((if params.payload_size > 0 && index < params.payload_count {
        params.payload_count - index
    } else {
        0
    }) + (if index <= params.payload_count && params.payload_final1_size > 0 {
        1int
    } else {
        0
    }) + (if index <= params.payload_count + 1 && params.payload_final2_size > 0 {
        1int
    } else {
        0
    })) as nat
}

/// The number of bytes that the transfers before `index` ask for.
pub open spec fn offset_of(params: &StreamParams, index: int) -> int {
    if index <= params.payload_count {
        index * params.payload_size
    } else if index == params.payload_count + 1 {
        params.payload_count * params.payload_size + params.payload_final1_size
    } else {
        params.spec_maximum_payload_size()
    }
}

/// The number of steps that the loop takes over one frame when it starts
/// without a payload buffer: the poll, the asking for a buffer, the read of
/// the leader, one read for each transfer that asks for bytes, the read of
/// the trailer, and the offer.
pub open spec fn frame_steps(params: &StreamParams) -> nat {
    5 + transfers_from(params, 0)
}

/// The offsets of the transfers follow from their lengths: each transfer
/// starts where the one before it ends, the first at zero, and after the
/// last the whole payload is read. Transfers that ask for no bytes move
/// nothing.
pub proof fn lemma_offsets(params: &StreamParams, index: int)
    requires
        0 <= index <= transfer_count(params),
    ensures
        0 <= offset_of(params, index) <= params.spec_maximum_payload_size(),
        offset_of(params, 0) == 0,
        offset_of(params, transfer_count(params)) == params.spec_maximum_payload_size(),
        index < transfer_count(params) ==> offset_of(params, index + 1) == offset_of(params, index)
            + transfer_len(params, index),
        offset_of(params, next_transfer(params, index)) == offset_of(params, index),
        index <= next_transfer(params, index) <= transfer_count(params),
        transfers_from(params, next_transfer(params, index)) == transfers_from(params, index),
        next_transfer(params, index) < transfer_count(params) ==> {
            &&& transfer_len(params, next_transfer(params, index)) > 0
            &&& transfers_from(params, index) == 1 + transfers_from(
                params,
                next_transfer(params, index) + 1,
            )
        },
        next_transfer(params, index) == transfer_count(params) ==> transfers_from(params, index)
            == 0,
{
    let size = params.payload_size as int;
    let count = params.payload_count as int;
    assert(0 * size == 0) by (nonlinear_arith);
    assert(0 <= index * size) by (nonlinear_arith)
        requires
            0 <= index,
            0 <= size,
    ;
    assert((index + 1) * size == index * size + size) by (nonlinear_arith);
    assert(index <= count ==> index * size <= count * size) by (nonlinear_arith)
        requires
            0 <= index,
            0 <= size,
    ;
    assert(size == 0 ==> index * size == 0 && count * size == 0) by (nonlinear_arith);
}

/// The reads of the payload bring the payload of the frame: from the point
/// where the loop turns to the transfer `index`, with the bytes before it
/// in the buffer and the rest of the payload next on the wire, one step for
/// each transfer that asks for bytes brings the loop to the read of the
/// trailer, with the whole payload in the buffer and the wire behind it.
pub proof fn lemma_payload_is_read(
    s: LoopView,
    leader_buf: Seq<u8>,
    trailer_buf: Seq<u8>,
    payload_buf: Seq<u8>,
    index: int,
    payload: Seq<u8>,
    world: World,
    tail: Seq<u8>,
    offered: Seq<Result<PayloadView, StreamErrorView>>,
    fresh: nat,
    resized: nat,
)
    requires
        0 <= index <= transfer_count(&s.params),
        s.params.spec_maximum_payload_size() <= usize::MAX,
        payload.len() == s.params.spec_maximum_payload_size(),
        payload_buf.len() == payload.len(),
        payload_buf.subrange(0, offset_of(&s.params, index)) == payload.subrange(
            0,
            offset_of(&s.params, index),
        ),
        world.wire == payload.subrange(offset_of(&s.params, index), payload.len() as int) + tail,
    ensures
        (Run {
            state: s.continue_payload(
                leader_buf,
                trailer_buf,
                payload_buf,
                index,
                offset_of(&s.params, index) as usize,
            ).0,
            action: s.continue_payload(
                leader_buf,
                trailer_buf,
                payload_buf,
                index,
                offset_of(&s.params, index) as usize,
            ).1,
            world,
            offered,
            fresh,
            resized,
        }).after(transfers_from(&s.params, index)) == (Run {
            state: s.begin_trailer(leader_buf, trailer_buf, payload).0,
            action: s.begin_trailer(leader_buf, trailer_buf, payload).1,
            world: World { wire: tail, ..world },
            offered,
            fresh,
            resized,
        }),
    decreases transfer_count(&s.params) - index,
{
    let params = &s.params;
    let max = payload.len() as int;
    let read_len = offset_of(params, index);
    let next = next_transfer(params, index);
    lemma_offsets(params, index);
    let run = Run {
        state: s.continue_payload(leader_buf, trailer_buf, payload_buf, index, read_len as usize).0,
        action: s.continue_payload(
            leader_buf,
            trailer_buf,
            payload_buf,
            index,
            read_len as usize,
        ).1,
        world,
        offered,
        fresh,
        resized,
    };
    if next == transfer_count(params) {
        assert(read_len == max);
        assert(payload_buf =~= payload) by {
            assert(payload_buf.subrange(0, max) =~= payload_buf);
            assert(payload.subrange(0, max) =~= payload);
        }
        assert(world.wire =~= tail);
        assert(world == World { wire: tail, ..world });
        assert(run.after(0) == run);
    } else {
        lemma_offsets(params, next);
        lemma_offsets(params, next + 1);
        let len = transfer_len(params, next);
        let end = read_len + len;
        assert(end == offset_of(params, next + 1));
        assert(end <= max);
        assert(run.state == s.at(
            StateView::Payload {
                leader_buf,
                trailer_buf,
                read_index: next,
                read_len: read_len as usize,
            },
        ));
        assert(run.action == ActionView::Receive {
            buf: payload_buf,
            offset: read_len as usize,
            len: len as usize,
            timeout: s.params.timeout,
        });
        let data = world.wire.subrange(0, len);
        let filled = written(payload_buf, read_len, data);
        let world1 = World { wire: world.wire.skip(len), ..world };
        assert(answer(world, run.action) == (
            EventView::Received { buf: filled, outcome: Ok(len as usize) },
            world1,
        ));
        assert(data =~= payload.subrange(read_len, end));
        assert(filled.len() == max);
        assert(filled.subrange(0, end) =~= payload.subrange(0, end)) by {
            assert forall|i: int| 0 <= i < end implies filled[i] == payload[i] by {
                if i < read_len {
                    assert(payload_buf.subrange(0, read_len)[i] == payload.subrange(
                        0,
                        read_len,
                    )[i]);
                }
            }
        }
        assert(world1.wire =~= payload.subrange(end, max) + tail);
        let stepped = s.at(
            StateView::Payload {
                leader_buf,
                trailer_buf,
                read_index: next,
                read_len: read_len as usize,
            },
        ).step(EventView::Received { buf: filled, outcome: Ok(len as usize) });
        assert(stepped == s.continue_payload(
            leader_buf,
            trailer_buf,
            filled,
            next + 1,
            end as usize,
        ));
        assert(run.next() == Run {
            state: stepped.0,
            action: stepped.1,
            world: world1,
            offered,
            fresh,
            resized,
        });
        lemma_payload_is_read(
            s,
            leader_buf,
            trailer_buf,
            filled,
            next + 1,
            payload,
            world1,
            tail,
            offered,
            fresh,
            resized,
        );
        assert(World { wire: tail, ..world1 } == World { wire: tail, ..world });
        assert(transfers_from(params, index) == 1 + transfers_from(params, next + 1));
        assert(run.after(transfers_from(params, index)) == run.next().after(
            transfers_from(params, next + 1),
        ));
    }
}

/// Running on for `a` steps and then for `b` is running on for `a + b`.
pub proof fn lemma_after_add(run: Run, a: nat, b: nat)
    ensures
        run.after(a).after(b) == run.after(a + b),
    decreases a,
{
    if a > 0 {
        lemma_after_add(run.next(), (a - 1) as nat, b);
    }
}

/// The loop between two frames, with no payload buffer at hand.
pub open spec fn between_frames(
    s: LoopView,
    leader_buf: Seq<u8>,
    trailer_buf: Seq<u8>,
) -> LoopView {
    s.at(StateView::Polling { leader_buf, trailer_buf, retained: None })
}

/// What there is to say of a run that stands between two frames.
pub struct Standing {
    /// The leader buffer of the loop.
    pub leader_buf: Seq<u8>,
    /// The trailer buffer of the loop.
    pub trailer_buf: Seq<u8>,
    /// The world.
    pub world: World,
    /// What has been offered to the consumer so far.
    pub offered: Seq<Result<PayloadView, StreamErrorView>>,
    /// How many payload buffers were made anew so far.
    pub fresh: nat,
    /// How many payload buffers were brought to another length so far.
    pub resized: nat,
}

impl Standing {
    /// The run of the loop `s` that stands so between two frames.
    pub open spec fn run(self, s: LoopView) -> Run {
        Run {
            state: between_frames(s, self.leader_buf, self.trailer_buf),
            action: ActionView::PollCancellation,
            world: self.world,
            offered: self.offered,
            fresh: self.fresh,
            resized: self.resized,
        }
    }

    /// How the run stands after the frame `frame`, with payload buffers of
    /// `size` bytes: the loop holds the leader and the trailer of the
    /// frame, the wire is behind the frame, the consumer has handed over a
    /// buffer if it had one and has the payload back if it gives back, and
    /// what the frame amounts to is offered. A buffer was made anew if the
    /// consumer had none, and resized if it had one of another length.
    pub open spec fn after_frame(self, frame: Frame, size: int) -> Standing {
        let handed_over = if self.world.recycled.len() > 0 {
            self.world.recycled.drop_first()
        } else {
            self.world.recycled
        };
        Standing {
            leader_buf: frame.leader,
            trailer_buf: frame.trailer,
            world: World {
                wire: self.world.wire.skip(frame.bytes().len() as int),
                recycled: if self.world.gives_back && frame.result() is Ok {
                    handed_over.push(frame.payload)
                } else {
                    handed_over
                },
                gives_back: self.world.gives_back,
            },
            offered: self.offered.push(frame.result()),
            fresh: self.fresh + (if self.world.recycled.len() == 0 {
                1nat
            } else {
                0
            }),
            resized: self.resized + (if self.world.recycled.len() > 0 {
                other_size(self.world.recycled.first(), size)
            } else {
                0
            }),
        }
    }

    /// How the run stands after `frames`, one after the other.
    pub open spec fn after_frames(self, frames: Seq<Frame>, size: int) -> Standing
        decreases frames.len(),
    {
        if frames.len() == 0 {
            self
        } else {
            self.after_frame(frames.first(), size).after_frames(frames.drop_first(), size)
        }
    }
}

/// One well-formed frame on the wire becomes one offer to the consumer:
/// from between two frames the loop asks for a buffer once, reads the
/// frame, offers what the frame amounts to, and stands between two frames
/// again.
#[verifier::rlimit(40)]
pub proof fn lemma_frame_is_offered(s: LoopView, standing: Standing, frame: Frame, tail: Seq<u8>)
    requires
        s.params.spec_maximum_payload_size() <= usize::MAX,
        s.maximum_payload_size == s.params.spec_maximum_payload_size(),
        standing.leader_buf.len() == s.params.leader_size,
        standing.trailer_buf.len() == s.params.trailer_size,
        frame.well_formed(&s.params),
        standing.world.wire == frame.bytes() + tail,
    ensures
        standing.run(s).after(frame_steps(&s.params)) == standing.after_frame(
            frame,
            s.maximum_payload_size as int,
        ).run(s),
        standing.after_frame(frame, s.maximum_payload_size as int).world.wire == tail,
{
    let params = &s.params;
    let max = s.maximum_payload_size as int;
    let transfers = transfers_from(params, 0);
    let leader_buf = standing.leader_buf;
    let trailer_buf = standing.trailer_buf;
    let world = standing.world;
    let offered = standing.offered;
    let r0 = standing.run(s);
    // The poll finds nothing; the loop asks for a buffer.
    let r1 = r0.next();
    assert(r1 == Run {
        state: s.at(StateView::Acquiring { leader_buf, trailer_buf }),
        action: ActionView::TakeRecycled,
        ..r0
    });
    // The buffer comes; the loop asks for the leader.
    let recycled = if world.recycled.len() > 0 {
        Some(world.recycled.first())
    } else {
        None
    };
    let handed_over = if world.recycled.len() > 0 {
        world.recycled.drop_first()
    } else {
        world.recycled
    };
    let payload_buf = acquired_of(recycled, max);
    assert(payload_buf.len() == max);
    let fresh = standing.after_frame(frame, max).fresh;
    let resized = standing.after_frame(frame, max).resized;
    let world2 = World { recycled: handed_over, ..world };
    assert(frame.leader.len() >= 20);
    assert(frame.trailer.len() >= 28);
    let r2 = r1.next();
    assert(r2 == Run {
        state: s.at(StateView::Leader { trailer_buf, payload_buf }),
        action: ActionView::Receive {
            buf: leader_buf,
            offset: 0,
            len: params.leader_size,
            timeout: params.timeout,
        },
        world: world2,
        offered,
        fresh,
        resized,
    });
    // The leader comes; the loop turns to the payload.
    let leader_len = params.leader_size as int;
    assert(world.wire.subrange(0, leader_len) =~= frame.leader);
    assert(written(leader_buf, 0, frame.leader) =~= frame.leader);
    let world3 = World { wire: frame.payload + frame.trailer + tail, ..world2 };
    assert(world.wire.skip(leader_len) =~= frame.payload + frame.trailer + tail);
    let r3 = r2.next();
    lemma_offsets(params, 0);
    assert(r3 == Run {
        state: s.continue_payload(frame.leader, trailer_buf, payload_buf, 0, 0).0,
        action: s.continue_payload(frame.leader, trailer_buf, payload_buf, 0, 0).1,
        world: world3,
        offered,
        fresh,
        resized,
    });
    // The payload comes, transfer by transfer.
    let world4 = World { wire: frame.trailer + tail, ..world3 };
    assert(frame.payload.subrange(0, max) =~= frame.payload);
    assert(world3.wire =~= frame.payload.subrange(0, max) + (frame.trailer + tail));
    assert(payload_buf.subrange(0, 0) =~= frame.payload.subrange(0, 0));
    lemma_payload_is_read(
        s,
        frame.leader,
        trailer_buf,
        payload_buf,
        0,
        frame.payload,
        world3,
        frame.trailer + tail,
        offered,
        fresh,
        resized,
    );
    let r4 = r3.after(transfers);
    assert(r4 == Run {
        state: s.at(StateView::Trailer { leader_buf: frame.leader, payload_buf: frame.payload }),
        action: ActionView::Receive {
            buf: trailer_buf,
            offset: 0,
            len: params.trailer_size,
            timeout: params.timeout,
        },
        world: world4,
        offered,
        fresh,
        resized,
    });
    lemma_frame_ends(s, frame, trailer_buf, world4, tail, offered, fresh, resized);
    assert(world.wire.skip(frame.bytes().len() as int) =~= tail);
    assert(r0.after(3) == r3) by {
        assert(r2.after(1) == r2.next().after(0));
        assert(r1.after(2) == r1.next().after(1));
        assert(r0.after(3) == r0.next().after(2));
    }
    lemma_after_add(r0, 3, transfers);
    lemma_after_add(r0, 3 + transfers, 2);
}

/// The end of a frame: with the payload read and the trailer next on the
/// wire, two steps bring the trailer, offer what the frame amounts to, and
/// leave the loop between two frames. The payload goes to the consumer,
/// who gives it back if that is its way.
proof fn lemma_frame_ends(
    s: LoopView,
    frame: Frame,
    trailer_buf: Seq<u8>,
    world: World,
    tail: Seq<u8>,
    offered: Seq<Result<PayloadView, StreamErrorView>>,
    fresh: nat,
    resized: nat,
)
    requires
        trailer_buf.len() == s.params.trailer_size,
        frame.well_formed(&s.params),
        world.wire == frame.trailer + tail,
    ensures
        (Run {
            state: s.at(
                StateView::Trailer { leader_buf: frame.leader, payload_buf: frame.payload },
            ),
            action: ActionView::Receive {
                buf: trailer_buf,
                offset: 0,
                len: s.params.trailer_size,
                timeout: s.params.timeout,
            },
            world,
            offered,
            fresh,
            resized,
        }).after(2) == (Run {
            state: between_frames(s, frame.leader, frame.trailer),
            action: ActionView::PollCancellation,
            world: World {
                wire: tail,
                recycled: if world.gives_back && frame.result() is Ok {
                    world.recycled.push(frame.payload)
                } else {
                    world.recycled
                },
                gives_back: world.gives_back,
            },
            offered: offered.push(frame.result()),
            fresh,
            resized,
        }),
{
    let params = &s.params;
    let r4 = Run {
        state: s.at(StateView::Trailer { leader_buf: frame.leader, payload_buf: frame.payload }),
        action: ActionView::Receive {
            buf: trailer_buf,
            offset: 0,
            len: params.trailer_size,
            timeout: params.timeout,
        },
        world,
        offered,
        fresh,
        resized,
    };
    // The trailer comes; the payload is built and offered.
    let trailer_len = params.trailer_size as int;
    assert(frame.trailer.len() >= 28);
    assert(world.wire.subrange(0, trailer_len) =~= frame.trailer);
    assert(written(trailer_buf, 0, frame.trailer) =~= frame.trailer);
    assert(world.wire.skip(trailer_len) =~= tail);
    let world5 = World { wire: tail, ..world };
    let r5 = r4.next();
    assert(r5 == Run {
        state: s.at(
            StateView::Emitting {
                leader_buf: frame.leader,
                trailer_buf: frame.trailer,
                retained: None,
            },
        ),
        action: ActionView::Emit(frame.result()),
        world: world5,
        offered,
        fresh,
        resized,
    });
    // The offer is made; the loop stands between two frames.
    let r6 = r5.next();
    assert(frame.result() matches Ok(payload) ==> payload.payload == frame.payload);
    assert(r4.after(2) == r6) by {
        assert(r5.after(1) == r5.next().after(0));
        assert(r4.after(2) == r4.next().after(1));
    }
}

/// Well-formed frames on the wire become offers to the consumer, one for
/// each frame, in the order of the frames: from between two frames, after
/// the steps of so many frames, the loop has gone through frame after
/// frame and stands between two frames again.
pub proof fn lemma_frames_are_offered(
    s: LoopView,
    standing: Standing,
    frames: Seq<Frame>,
    tail: Seq<u8>,
)
    requires
        s.params.spec_maximum_payload_size() <= usize::MAX,
        s.maximum_payload_size == s.params.spec_maximum_payload_size(),
        standing.leader_buf.len() == s.params.leader_size,
        standing.trailer_buf.len() == s.params.trailer_size,
        forall|i: int| 0 <= i < frames.len() ==> (#[trigger] frames[i]).well_formed(&s.params),
        standing.world.wire == wire_of(frames) + tail,
    ensures
        standing.run(s).after(frames.len() * frame_steps(&s.params)) == standing.after_frames(
            frames,
            s.maximum_payload_size as int,
        ).run(s),
    decreases frames.len(),
{
    let steps = frame_steps(&s.params);
    let size = s.maximum_payload_size as int;
    if frames.len() == 0 {
        assert(frames.len() * steps == 0) by (nonlinear_arith)
            requires
                frames.len() == 0,
        ;
        assert(standing.run(s).after(0) == standing.run(s));
    } else {
        let first = frames.first();
        let rest = frames.drop_first();
        assert(first.well_formed(&s.params));
        assert forall|i: int| 0 <= i < rest.len() implies (#[trigger] rest[i]).well_formed(
            &s.params,
        ) by {
            assert(rest[i] == frames[i + 1]);
        }
        assert(standing.world.wire =~= first.bytes() + (wire_of(rest) + tail));
        lemma_frame_is_offered(s, standing, first, wire_of(rest) + tail);
        lemma_frames_are_offered(s, standing.after_frame(first, size), rest, tail);
        lemma_after_add(standing.run(s), steps, rest.len() * steps);
        assert(frames.len() * steps == steps + rest.len() * steps) by (nonlinear_arith)
            requires
                frames.len() == rest.len() + 1,
        ;
    }
}

/// After frames on the wire, what each frame amounts to has been offered to
/// the consumer, in the order of the frames, behind what was offered
/// before; and nothing else.
pub proof fn lemma_offers_follow_frames(standing: Standing, frames: Seq<Frame>, size: int)
    ensures
        standing.after_frames(frames, size).offered == standing.offered + results_of(frames),
    decreases frames.len(),
{
    if frames.len() == 0 {
        assert(standing.offered + results_of(frames) =~= standing.offered);
    } else {
        let first = frames.first();
        let rest = frames.drop_first();
        lemma_offers_follow_frames(standing.after_frame(first, size), rest, size);
        assert(standing.offered.push(first.result()) + results_of(rest) =~= standing.offered
            + results_of(frames));
    }
}

/// The number of buffers among `recycled` whose length is not `size`.
pub open spec fn other_sized(recycled: Seq<Seq<u8>>, size: int) -> nat
    decreases recycled.len(),
{
    if recycled.len() == 0 {
        0
    } else {
        other_sized(recycled.drop_last(), size) + other_size(recycled.last(), size)
    }
}

/// The number of payload buffers that are yet to be made or resized for a
/// consumer that gives every payload back: one where it has no buffer to
/// hand over, else as many as it has of another length than `size`.
pub open spec fn buffers_due(recycled: Seq<Seq<u8>>, size: int) -> nat {
    if recycled.len() == 0 {
        1
    } else {
        other_sized(recycled, size)
    }
}

/// Taking the first buffer away takes it out of the count.
pub proof fn lemma_other_sized_without_first(recycled: Seq<Seq<u8>>, size: int)
    requires
        recycled.len() > 0,
    ensures
        other_sized(recycled, size) == other_sized(recycled.drop_first(), size) + other_size(
            recycled.first(),
            size,
        ),
    decreases recycled.len(),
{
    if recycled.len() == 1 {
        assert(recycled.drop_last() =~= Seq::<Seq<u8>>::empty());
        assert(recycled.drop_first() =~= Seq::<Seq<u8>>::empty());
    } else {
        lemma_other_sized_without_first(recycled.drop_last(), size);
        assert(recycled.drop_last().drop_first() =~= recycled.drop_first().drop_last());
        assert(recycled.drop_first().last() == recycled.last());
        assert(recycled.drop_last().first() == recycled.first());
    }
}

/// Buffers are reused: with a consumer that gives every payload back, and
/// frames that all hold a payload, the buffers that the loop makes anew or
/// resizes over the frames are no more than were due before the first
/// frame. So a loop whose consumer starts with one buffer makes or resizes
/// one buffer at most, however many frames come.
pub proof fn lemma_buffers_are_reused(
    standing: Standing,
    frames: Seq<Frame>,
    params: &StreamParams,
)
    requires
        standing.world.gives_back,
        forall|i: int| 0 <= i < frames.len() ==> (#[trigger] frames[i]).holds_payload(params),
    ensures
        ({
            let size = params.spec_maximum_payload_size();
            let end = standing.after_frames(frames, size);
            end.fresh + end.resized + buffers_due(end.world.recycled, size) <= standing.fresh
                + standing.resized + buffers_due(standing.world.recycled, size)
        }),
    decreases frames.len(),
{
    let size = params.spec_maximum_payload_size();
    if frames.len() > 0 {
        let first = frames.first();
        let rest = frames.drop_first();
        let next = standing.after_frame(first, size);
        assert(first.holds_payload(params));
        assert forall|i: int| 0 <= i < rest.len() implies (#[trigger] rest[i]).holds_payload(
            params,
        ) by {
            assert(rest[i] == frames[i + 1]);
        }
        let handed_over = if standing.world.recycled.len() > 0 {
            standing.world.recycled.drop_first()
        } else {
            standing.world.recycled
        };
        assert(next.world.recycled == handed_over.push(first.payload));
        assert(next.world.recycled.drop_last() =~= handed_over);
        assert(other_sized(next.world.recycled, size) == other_sized(handed_over, size));
        if standing.world.recycled.len() > 0 {
            lemma_other_sized_without_first(standing.world.recycled, size);
        } else {
            assert(other_sized(handed_over, size) == 0);
        }
        assert(next.fresh + next.resized + buffers_due(next.world.recycled, size) <= standing.fresh
            + standing.resized + buffers_due(standing.world.recycled, size));
        lemma_buffers_are_reused(next, rest, params);
    }
}

/// A loop that is started on a wire with well-formed `frames` on it offers
/// the consumer what each frame amounts to, in the order of the frames,
/// and nothing else, within the steps of so many frames. Where every frame
/// holds a payload and the consumer gives every payload back, the loop
/// makes or resizes no more buffers on the way than were due at the start:
/// none where the consumer starts with a buffer of the right length, one
/// where it starts with one buffer of another length or with none.
pub proof fn lemma_started_loop_offers_frames(
    params: StreamParams,
    frames: Seq<Frame>,
    recycled: Seq<Seq<u8>>,
    gives_back: bool,
    tail: Seq<u8>,
)
    requires
        params.spec_maximum_payload_size() <= usize::MAX,
        forall|i: int| 0 <= i < frames.len() ==> (#[trigger] frames[i]).well_formed(&params),
    ensures
        ({
            let run = Run {
                state: LoopView::started(params).0,
                action: LoopView::started(params).1,
                world: World { wire: wire_of(frames) + tail, recycled, gives_back },
                offered: Seq::empty(),
                fresh: 0,
                resized: 0,
            };
            let end = run.after(frames.len() * frame_steps(&params));
            &&& end.offered == results_of(frames)
            &&& end.world.wire == tail
            &&& end.action == ActionView::PollCancellation
            &&& gives_back && (forall|i: int|
                0 <= i < frames.len() ==> (#[trigger] frames[i]).holds_payload(&params))
                ==> end.fresh + end.resized <= buffers_due(
                recycled,
                params.spec_maximum_payload_size(),
            )
        }),
{
    let s = LoopView::started(params).0;
    let size = params.spec_maximum_payload_size();
    let standing = Standing {
        leader_buf: crate::streaming::zeros(params.leader_size as int),
        trailer_buf: crate::streaming::zeros(params.trailer_size as int),
        world: World { wire: wire_of(frames) + tail, recycled, gives_back },
        offered: Seq::empty(),
        fresh: 0,
        resized: 0,
    };
    assert(s == between_frames(s, standing.leader_buf, standing.trailer_buf));
    lemma_frames_are_offered(s, standing, frames, tail);
    lemma_offers_follow_frames(standing, frames, size);
    lemma_wire_after_frames(standing, frames, size, tail);
    assert(Seq::<Result<PayloadView, StreamErrorView>>::empty() + results_of(frames) =~= results_of(
        frames,
    ));
    if gives_back && (forall|i: int|
        0 <= i < frames.len() ==> (#[trigger] frames[i]).holds_payload(&params)) {
        lemma_buffers_are_reused(standing, frames, &params);
    }
}

/// One buffer serves all frames: where the consumer starts with the one
/// buffer `seed` and gives every payload back, the loop offers the payload
/// of each frame, in the order of the frames, and on the way makes no
/// buffer anew and resizes one at most: none if `seed` has the length of a
/// payload buffer.
pub proof fn lemma_one_buffer_serves_all_frames(
    params: StreamParams,
    frames: Seq<Frame>,
    seed: Seq<u8>,
    tail: Seq<u8>,
)
    requires
        params.spec_maximum_payload_size() <= usize::MAX,
        forall|i: int| 0 <= i < frames.len() ==> (#[trigger] frames[i]).holds_payload(&params),
    ensures
        ({
            let run = Run {
                state: LoopView::started(params).0,
                action: LoopView::started(params).1,
                world: World {
                    wire: wire_of(frames) + tail,
                    recycled: seq![seed],
                    gives_back: true,
                },
                offered: Seq::empty(),
                fresh: 0,
                resized: 0,
            };
            let end = run.after(frames.len() * frame_steps(&params));
            &&& end.offered == results_of(frames)
            &&& forall|i: int| 0 <= i < frames.len() ==> (#[trigger] end.offered[i]) is Ok
            &&& end.fresh + end.resized <= 1
            &&& seed.len() == params.spec_maximum_payload_size() ==> end.fresh + end.resized == 0
        }),
{
    let size = params.spec_maximum_payload_size();
    lemma_started_loop_offers_frames(params, frames, seq![seed], true, tail);
    assert(seq![seed].drop_last() =~= Seq::<Seq<u8>>::empty());
    assert(other_sized(seq![seed].drop_last(), size) == 0);
    assert(seq![seed].last() == seed);
}

/// After frames on the wire, the wire is behind the last of them.
pub proof fn lemma_wire_after_frames(
    standing: Standing,
    frames: Seq<Frame>,
    size: int,
    tail: Seq<u8>,
)
    requires
        standing.world.wire == wire_of(frames) + tail,
    ensures
        standing.after_frames(frames, size).world.wire == tail,
    decreases frames.len(),
{
    if frames.len() == 0 {
        assert(standing.world.wire =~= tail);
    } else {
        let first = frames.first();
        let rest = frames.drop_first();
        assert(standing.world.wire =~= first.bytes() + (wire_of(rest) + tail));
        assert(standing.world.wire.skip(first.bytes().len() as int) =~= wire_of(rest) + tail);
        lemma_wire_after_frames(standing.after_frame(first, size), rest, size, tail);
    }
}

/// A bound on the number of steps that the loop takes from `s` before it
/// polls the cancellation signal again or ends.
pub open spec fn steps_to_poll(s: LoopView) -> nat {
    match s.state {
        StateView::Polling { .. } => 0,
        StateView::Acquiring { .. } => 5 + transfers_from(&s.params, 0),
        StateView::Leader { .. } => 4 + transfers_from(&s.params, 0),
        StateView::Payload { read_index, .. } => 3 + transfers_from(&s.params, read_index + 1),
        StateView::Trailer { .. } => 2,
        StateView::Emitting { .. } => 1,
        StateView::Finished => 0,
    }
}

/// The loop comes round to the cancellation signal: whatever is reported
/// to it while it is busy with a frame, it either polls the signal next,
/// or ends, or is nearer to the poll than before. So a signal is seen
/// after no more than one asking for a buffer, the reads of one frame and
/// one offer.
pub proof fn lemma_poll_comes_round(s: LoopView, event: EventView)
    requires
        !(s.state is Polling),
    ensures
        s.step(event).1 == ActionView::PollCancellation || s.step(event).1 == ActionView::Complete
            || (!(s.step(event).0.state is Polling) && steps_to_poll(s.step(event).0)
            < steps_to_poll(s)),
        s.state matches StateView::Payload { read_index, .. } ==> (read_index >= 0
            ==> steps_to_poll(s) <= frame_steps(&s.params)),
        !(s.state is Payload) ==> steps_to_poll(s) <= frame_steps(&s.params),
{
    let params = &s.params;
    match s.state {
        StateView::Payload { read_index, read_len, .. } => {
            lemma_transfers_left(params, read_index + 1);
            lemma_transfers_left(params, read_index);
        },
        _ => {
            lemma_transfers_left(params, 0);
        },
    }
}

/// Passing over transfers that ask for no bytes leaves as many transfers
/// that ask for some; making one leaves one fewer.
pub proof fn lemma_transfers_left(params: &StreamParams, index: int)
    ensures
        transfers_from(params, next_transfer(params, index)) == transfers_from(params, index),
        next_transfer(params, index) < transfer_count(params) ==> transfers_from(params, index)
            == 1 + transfers_from(params, next_transfer(params, index) + 1),
        index >= 0 ==> transfers_from(params, index) <= transfers_from(params, 0),
        transfers_from(params, index + 1) <= transfers_from(params, index),
{
}

} // verus!
