use byteorder::{WriteBytesExt, BE, LE};
use cameleon::error::StreamError;
use cameleon::leader::PayloadType;
use cameleon::params::StreamParams;
use cameleon::payload::Payload;
use cameleon::pixel_format::PixelFormat;
use cameleon::streaming::{acquire_buffer, zeroed, Action, CancelPoll, Event, StreamingLoop};
use std::collections::VecDeque;
use std::time::Duration;

const LEADER_SIZE: usize = 52;
const TRAILER_SIZE: usize = 36;

fn stream_params(size: usize, count: usize, final1: usize, final2: usize) -> StreamParams {
    StreamParams::new(LEADER_SIZE, TRAILER_SIZE, size, count, final1, final2, Duration::from_millis(10))
}

fn leader_bytes(block_id: u64, payload_type: u16) -> Vec<u8> {
    let mut buf = vec![];
    buf.write_u32::<LE>(0x4C563355).unwrap();
    buf.write_u16::<LE>(0).unwrap();
    buf.write_u16::<LE>(52).unwrap();
    buf.write_u64::<LE>(block_id).unwrap();
    buf.write_u16::<LE>(0).unwrap();
    buf.write_u16::<LE>(payload_type).unwrap();
    buf.write_u64::<LE>(1000 + block_id).unwrap();
    buf.write_u32::<LE>(PixelFormat::mono8().into()).unwrap();
    buf.write_u32::<LE>(60).unwrap();
    buf.write_u32::<LE>(60).unwrap();
    buf.write_u32::<LE>(0).unwrap();
    buf.write_u32::<LE>(0).unwrap();
    buf.write_u16::<LE>(0).unwrap();
    buf.write_u16::<LE>(0).unwrap();
    assert_eq!(buf.len(), LEADER_SIZE);
    buf
}

fn trailer_bytes(block_id: u64, status: u16, valid_payload_size: u64) -> Vec<u8> {
    let mut buf = vec![];
    buf.write_u32::<LE>(0x54563355).unwrap();
    buf.write_u16::<LE>(0).unwrap();
    buf.write_u16::<LE>(36).unwrap();
    buf.write_u64::<LE>(block_id).unwrap();
    buf.write_u16::<LE>(status).unwrap();
    buf.write_u16::<LE>(0).unwrap();
    buf.write_u64::<LE>(valid_payload_size).unwrap();
    buf.write_u32::<LE>(60).unwrap();
    buf.write_u32::<LE>(0).unwrap();
    assert_eq!(buf.len(), TRAILER_SIZE);
    buf
}

fn payload_bytes(block_id: u64, len: usize) -> Vec<u8> {
    (0..len).map(|i| (i as u64 * 7 + block_id) as u8).collect()
}

/// What a read of the fake transport does.
enum Wire {
    /// Delivers these bytes, which must be as many as the read asks for.
    Bytes(Vec<u8>),
    /// Fails with these words.
    Fail(&'static str),
}

/// The surroundings of the loop: a transport with a script of reads, a
/// script of cancellation polls, and the two directions of the channel.
struct Driver {
    wire: VecDeque<Wire>,
    polls: VecDeque<CancelPoll>,
    recycled: VecDeque<Payload>,
    /// Whether the consumer gives back every payload that it is offered.
    gives_back: bool,
    emitted: Vec<Result<Payload, StreamError>>,
    takes: usize,
    fresh: usize,
    resized: usize,
    completed: usize,
}

impl Driver {
    fn new() -> Self {
        Driver {
            wire: VecDeque::new(),
            polls: VecDeque::new(),
            recycled: VecDeque::new(),
            gives_back: false,
            emitted: vec![],
            takes: 0,
            fresh: 0,
            resized: 0,
            completed: 0,
        }
    }

    fn frame(&mut self, leader: Vec<u8>, payload: Vec<u8>, trailer: Vec<u8>, params: &StreamParams) {
        self.wire.push_back(Wire::Bytes(leader));
        let mut at = 0;
        let mut lens = vec![params.payload_size; params.payload_count];
        lens.push(params.payload_final1_size);
        lens.push(params.payload_final2_size);
        for len in lens {
            if len != 0 {
                self.wire.push_back(Wire::Bytes(payload[at..at + len].to_vec()));
                at += len;
            }
        }
        assert_eq!(at, payload.len());
        self.wire.push_back(Wire::Bytes(trailer));
    }

    /// Runs the loop until it is over. A poll beyond the script finds the
    /// signal sent; a read beyond the script times out.
    fn run(&mut self, params: StreamParams) {
        let max = params.maximum_payload_size();
        let (mut machine, mut action) = StreamingLoop::start(params);
        loop {
            let event = match action {
                Action::PollCancellation => {
                    Event::Cancellation(self.polls.pop_front().unwrap_or(CancelPoll::Signalled))
                }
                Action::TakeRecycled => {
                    self.takes += 1;
                    let recycled = self.recycled.pop_front();
                    match &recycled {
                        None => self.fresh += 1,
                        Some(payload) if payload.payload.len() != max => self.resized += 1,
                        Some(_) => {}
                    }
                    Event::Recycled(recycled)
                }
                Action::Receive { mut buf, offset, len, timeout } => {
                    assert_eq!(timeout, Duration::from_millis(10));
                    assert!(len > 0);
                    assert!(offset + len <= buf.len());
                    let outcome = match self.wire.pop_front() {
                        Some(Wire::Bytes(bytes)) => {
                            assert_eq!(bytes.len(), len);
                            buf[offset..offset + len].copy_from_slice(&bytes);
                            Ok(len)
                        }
                        Some(Wire::Fail(words)) => Err(words.to_string()),
                        None => Err("operation timed out".to_string()),
                    };
                    Event::Received { buf, outcome }
                }
                Action::Emit(result) => {
                    if let (true, Ok(payload)) = (self.gives_back, &result) {
                        self.recycled.push_back(payload.clone());
                    }
                    self.emitted.push(result);
                    Event::Emitted
                }
                Action::Complete => {
                    self.completed += 1;
                    assert!(machine.is_finished());
                    return;
                }
            };
            let next = machine.step(event);
            machine = next.0;
            action = next.1;
        }
    }
}

#[test]
fn frames_become_payloads_in_order_and_the_buffer_is_reused() {
    let params = stream_params(1024, 3, 512, 16);
    let max = params.maximum_payload_size();
    let mut driver = Driver::new();
    let frames = 5u64;
    for id in 0..frames {
        driver.frame(
            leader_bytes(id, 0x0001),
            payload_bytes(id, max),
            trailer_bytes(id, 0, max as u64),
            &params,
        );
        driver.polls.push_back(CancelPoll::Pending);
        // The consumer gives a buffer of the right size back for each frame.
        let mut seed = Payload {
            id: 0,
            payload_type: PayloadType::Chunk,
            image_info: None,
            payload: vec![0xEE; max],
            valid_payload_size: 0,
            timestamp: 0,
        };
        seed.id = 1000 + id;
        driver.recycled.push_back(seed);
    }
    driver.run(params);

    assert_eq!(driver.completed, 1);
    assert_eq!(driver.takes, frames as usize);
    assert_eq!(driver.fresh, 0);
    assert_eq!(driver.emitted.len(), frames as usize);
    for (id, result) in driver.emitted.iter().enumerate() {
        let payload = result.as_ref().unwrap();
        assert_eq!(payload.id(), id as u64);
        assert_eq!(payload.payload_type(), PayloadType::Image);
        assert_eq!(payload.payload(), &payload_bytes(id as u64, max)[..]);
        assert_eq!(payload.valid_payload_size(), max as u64);
        assert_eq!(payload.timestamp(), Duration::from_nanos(1000 + id as u64));
        let info = payload.image_info().unwrap();
        assert_eq!(info.image_size, max as u64);
        assert_eq!(info.pixel_format, PixelFormat::mono8());
    }
}

#[test]
fn without_recycled_buffers_each_frame_gets_a_fresh_one() {
    let params = stream_params(100, 2, 0, 0);
    let mut driver = Driver::new();
    for id in 0..3u64 {
        driver.frame(leader_bytes(id, 0x4000), payload_bytes(id, 200), trailer_bytes(id, 0, 200), &params);
        driver.polls.push_back(CancelPoll::Pending);
    }
    driver.run(params);
    assert_eq!(driver.takes, 3);
    assert_eq!(driver.fresh, 3);
    let ids: Vec<u64> = driver.emitted.iter().map(|r| r.as_ref().unwrap().id()).collect();
    assert_eq!(ids, vec![0, 1, 2]);
}

#[test]
fn cancellation_is_seen_between_frames() {
    for poll in [CancelPoll::Signalled, CancelPoll::Closed] {
        let params = stream_params(100, 1, 0, 0);
        let mut driver = Driver::new();
        for id in 0..3u64 {
            driver.frame(leader_bytes(id, 0x4000), payload_bytes(id, 100), trailer_bytes(id, 0, 100), &params);
        }
        driver.polls.push_back(CancelPoll::Pending);
        driver.polls.push_back(poll);
        driver.run(params);
        // The first frame went through; the two others were never read.
        assert_eq!(driver.emitted.len(), 1);
        assert_eq!(driver.wire.len(), 6);
        assert_eq!(driver.completed, 1);
    }
}

#[test]
fn nothing_is_offered_once_the_loop_is_over() {
    let params = stream_params(100, 1, 0, 0);
    let (machine, action) = StreamingLoop::start(params);
    assert_eq!(action, Action::PollCancellation);
    assert!(!machine.is_finished());
    let (mut machine, action) = machine.step(Event::Cancellation(CancelPoll::Signalled));
    assert_eq!(action, Action::Complete);
    assert!(machine.is_finished());
    for _ in 0..3 {
        let events = vec![
            Event::Cancellation(CancelPoll::Pending),
            Event::Recycled(None),
            Event::Received { buf: leader_bytes(1, 1), outcome: Ok(52) },
            Event::Emitted,
        ];
        for event in events {
            let next = machine.step(event);
            assert_eq!(next.1, Action::Complete);
            assert!(next.0.is_finished());
            machine = next.0;
        }
    }
}

#[test]
fn an_event_that_answers_no_action_ends_the_loop() {
    let params = stream_params(100, 1, 0, 0);
    let (machine, _) = StreamingLoop::start(params);
    let (machine, action) = machine.step(Event::Emitted);
    assert_eq!(action, Action::Complete);
    assert!(machine.is_finished());

    let params = stream_params(100, 1, 0, 0);
    let (machine, _) = StreamingLoop::start(params);
    let (machine, action) = machine.step(Event::Cancellation(CancelPoll::Pending));
    assert_eq!(action, Action::TakeRecycled);
    let (machine, action) = machine.step(Event::Cancellation(CancelPoll::Pending));
    assert_eq!(action, Action::Complete);
    assert!(machine.is_finished());
}

#[test]
fn a_failed_leader_is_silent_and_keeps_the_buffer() {
    let params = stream_params(100, 1, 0, 0);
    let mut driver = Driver::new();
    // The read of the leader times out twice, then a frame arrives.
    driver.wire.push_back(Wire::Fail("operation timed out"));
    driver.wire.push_back(Wire::Fail("operation timed out"));
    // A leader that does not decode is dropped as silently.
    let mut broken = leader_bytes(9, 0x4000);
    broken[0] = 0;
    driver.wire.push_back(Wire::Bytes(broken));
    driver.frame(leader_bytes(7, 0x4000), payload_bytes(7, 100), trailer_bytes(7, 0, 100), &params);
    for _ in 0..4 {
        driver.polls.push_back(CancelPoll::Pending);
    }
    driver.run(params);
    assert_eq!(driver.emitted.len(), 1);
    assert_eq!(driver.emitted[0].as_ref().unwrap().id(), 7);
    // One buffer served all four attempts.
    assert_eq!(driver.takes, 1);
    assert_eq!(driver.fresh, 1);
}

#[test]
fn a_failed_payload_or_trailer_is_reported_and_keeps_the_buffer() {
    let params = stream_params(100, 2, 0, 0);
    let mut driver = Driver::new();
    // Frame 1: the second transfer of the payload fails.
    driver.wire.push_back(Wire::Bytes(leader_bytes(1, 0x4000)));
    driver.wire.push_back(Wire::Bytes(payload_bytes(1, 100)));
    driver.wire.push_back(Wire::Fail("pipe error"));
    // Frame 2: the trailer fails.
    driver.wire.push_back(Wire::Bytes(leader_bytes(2, 0x4000)));
    driver.wire.push_back(Wire::Bytes(payload_bytes(2, 100)));
    driver.wire.push_back(Wire::Bytes(payload_bytes(2, 100)));
    driver.wire.push_back(Wire::Fail("operation timed out"));
    // Frame 3: the trailer does not decode.
    driver.wire.push_back(Wire::Bytes(leader_bytes(3, 0x4000)));
    driver.wire.push_back(Wire::Bytes(payload_bytes(3, 100)));
    driver.wire.push_back(Wire::Bytes(payload_bytes(3, 100)));
    driver.wire.push_back(Wire::Bytes(leader_bytes(3, 0x4000)[..36].to_vec()));
    // Frame 4 is whole.
    driver.frame(leader_bytes(4, 0x4000), payload_bytes(4, 200), trailer_bytes(4, 0, 200), &params);
    for _ in 0..4 {
        driver.polls.push_back(CancelPoll::Pending);
    }
    driver.run(params);
    assert_eq!(driver.emitted.len(), 4);
    assert_eq!(driver.emitted[0], Err(StreamError::Device("pipe error".to_string())));
    assert_eq!(driver.emitted[1], Err(StreamError::Device("operation timed out".to_string())));
    assert_eq!(
        driver.emitted[2],
        Err(StreamError::InvalidPacket("invalid prefix magic".to_string()))
    );
    assert_eq!(driver.emitted[3].as_ref().unwrap().id(), 4);
    assert_eq!(driver.takes, 1);
}

#[test]
fn a_payload_that_cannot_be_built_is_reported_and_gives_up_the_buffer() {
    let params = stream_params(100, 1, 0, 0);
    let mut driver = Driver::new();
    driver.frame(leader_bytes(1, 0x0001), payload_bytes(1, 100), trailer_bytes(1, 0xA100, 100), &params);
    driver.frame(leader_bytes(2, 0x4001), payload_bytes(2, 100), trailer_bytes(2, 0, 3), &params);
    let mut chunks = vec![0x11u8; 92];
    chunks.write_u32::<BE>(1).unwrap();
    chunks.write_u32::<BE>(92).unwrap();
    driver.frame(leader_bytes(3, 0x4001), chunks, trailer_bytes(3, 0, 100), &params);
    for _ in 0..3 {
        driver.polls.push_back(CancelPoll::Pending);
    }
    driver.run(params);
    assert_eq!(driver.emitted.len(), 3);
    assert_eq!(
        driver.emitted[0],
        Err(StreamError::InvalidPayload(
            "trailer status indicates error: Failure(41216)".to_string()
        ))
    );
    assert_eq!(
        driver.emitted[1],
        Err(StreamError::InvalidPayload(
            "failed to parse chunk data: size field missing".to_string()
        ))
    );
    let payload = driver.emitted[2].as_ref().unwrap();
    assert_eq!(payload.payload_type(), PayloadType::ImageExtendedChunk);
    assert_eq!(payload.image_info().unwrap().image_size, 92);
    // Each frame took its buffer with it.
    assert_eq!(driver.takes, 3);
}

#[test]
fn a_recycled_buffer_of_another_length_is_resized_with_zeros() {
    let recycled = |len: usize| Payload {
        id: 0,
        payload_type: PayloadType::Chunk,
        image_info: None,
        payload: vec![0xEE; len],
        valid_payload_size: 0,
        timestamp: 0,
    };
    assert_eq!(acquire_buffer(Some(recycled(8)), 8), vec![0xEE; 8]);
    assert_eq!(acquire_buffer(Some(recycled(10)), 8), vec![0xEE; 8]);
    assert_eq!(
        acquire_buffer(Some(recycled(3)), 8),
        vec![0xEE, 0xEE, 0xEE, 0, 0, 0, 0, 0]
    );
    assert_eq!(acquire_buffer(None, 8), vec![0; 8]);
    assert_eq!(acquire_buffer(None, 0), Vec::<u8>::new());
    assert_eq!(zeroed(5), vec![0; 5]);
}

#[test]
fn the_loop_keeps_the_parameters_it_was_started_with() {
    let params = stream_params(1024, 3, 512, 16);
    let (machine, action) = StreamingLoop::start(params);
    assert_eq!(action, Action::PollCancellation);
    assert_eq!(machine.params().leader_size, LEADER_SIZE);
    assert_eq!(machine.params().maximum_payload_size(), 3600);
    let (machine, action) = machine.step(Event::Cancellation(CancelPoll::Pending));
    assert_eq!(action, Action::TakeRecycled);
    let (_, action) = machine.step(Event::Recycled(None));
    assert_eq!(
        action,
        Action::Receive {
            buf: vec![0; LEADER_SIZE],
            offset: 0,
            len: LEADER_SIZE,
            timeout: Duration::from_millis(10)
        }
    );
}

#[test]
fn a_count_of_the_transport_is_taken_as_it_is_reported() {
    let params = stream_params(100, 2, 0, 0);
    let (machine, _) = StreamingLoop::start(params);
    let (machine, _) = machine.step(Event::Cancellation(CancelPoll::Pending));
    let (machine, action) = machine.step(Event::Recycled(None));
    let buf = match action {
        Action::Receive { mut buf, .. } => {
            buf.copy_from_slice(&leader_bytes(1, 0x4000));
            buf
        }
        other => panic!("unexpected action {:?}", other),
    };
    // The count of the leader is of no account.
    let (machine, action) = machine.step(Event::Received { buf, outcome: Ok(7) });
    let buf = match action {
        Action::Receive { buf, offset, len, .. } => {
            assert_eq!((offset, len, buf.len()), (0, 100, 200));
            buf
        }
        other => panic!("unexpected action {:?}", other),
    };
    // Fewer bytes than were asked for move the next transfer up.
    let (machine, action) = machine.step(Event::Received { buf, outcome: Ok(60) });
    let buf = match action {
        Action::Receive { buf, offset, len, .. } => {
            assert_eq!((offset, len, buf.len()), (60, 100, 200));
            buf
        }
        other => panic!("unexpected action {:?}", other),
    };
    let (machine, action) = machine.step(Event::Received { buf, outcome: Ok(100) });
    let buf = match action {
        Action::Receive { buf, offset, len, .. } => {
            assert_eq!((offset, len, buf.len()), (0, TRAILER_SIZE, TRAILER_SIZE));
            buf
        }
        other => panic!("unexpected action {:?}", other),
    };
    let (_, action) = machine.step(Event::Received { buf, outcome: Ok(TRAILER_SIZE) });
    // The trailer buffer holds no trailer: the codec's error is offered.
    assert_eq!(
        action,
        Action::Emit(Err(StreamError::InvalidPacket("invalid prefix magic".to_string())))
    );

    // More bytes than were asked for leave no room for the next transfer.
    let params = stream_params(100, 2, 0, 0);
    let (machine, _) = StreamingLoop::start(params);
    let (machine, _) = machine.step(Event::Cancellation(CancelPoll::Pending));
    let (machine, action) = machine.step(Event::Recycled(None));
    let buf = match action {
        Action::Receive { mut buf, .. } => {
            buf.copy_from_slice(&leader_bytes(1, 0x4000));
            buf
        }
        other => panic!("unexpected action {:?}", other),
    };
    let (machine, action) = machine.step(Event::Received { buf, outcome: Ok(LEADER_SIZE) });
    let buf = match action {
        Action::Receive { buf, .. } => buf,
        other => panic!("unexpected action {:?}", other),
    };
    let (machine, action) = machine.step(Event::Received { buf, outcome: Ok(101) });
    assert_eq!(action, Action::Emit(Err(StreamError::BufferTooSmall)));
    let (_, action) = machine.step(Event::Emitted);
    assert_eq!(action, Action::PollCancellation);
}

fn seed(len: usize) -> Payload {
    Payload {
        id: 0,
        payload_type: PayloadType::Chunk,
        image_info: None,
        payload: vec![0xEE; len],
        valid_payload_size: 0,
        timestamp: 0,
    }
}

#[test]
fn one_seed_buffer_serves_every_frame() {
    for (seed_len, resized) in [(3600usize, 0usize), (100, 1), (5000, 1)] {
        let params = stream_params(1024, 3, 512, 16);
        let max = params.maximum_payload_size();
        let mut driver = Driver::new();
        driver.gives_back = true;
        driver.recycled.push_back(seed(seed_len));
        let frames = 6u64;
        for id in 0..frames {
            driver.frame(
                leader_bytes(id, 0x0001),
                payload_bytes(id, max),
                trailer_bytes(id, 0, max as u64),
                &params,
            );
            driver.polls.push_back(CancelPoll::Pending);
        }
        driver.run(params);
        let ids: Vec<u64> = driver.emitted.iter().map(|r| r.as_ref().unwrap().id()).collect();
        assert_eq!(ids, vec![0, 1, 2, 3, 4, 5]);
        for (id, result) in driver.emitted.iter().enumerate() {
            assert_eq!(result.as_ref().unwrap().payload(), &payload_bytes(id as u64, max)[..]);
        }
        assert_eq!(driver.fresh, 0);
        assert_eq!(driver.resized, resized);
    }
}

#[test]
fn without_a_seed_one_fresh_buffer_serves_every_frame() {
    let params = stream_params(0, 7, 0, 64);
    let mut driver = Driver::new();
    driver.gives_back = true;
    for id in 0..4u64 {
        driver.frame(leader_bytes(id, 0x4000), payload_bytes(id, 64), trailer_bytes(id, 0, 64), &params);
        driver.polls.push_back(CancelPoll::Pending);
    }
    driver.run(params);
    assert_eq!(driver.emitted.len(), 4);
    assert!(driver.emitted.iter().all(|r| r.is_ok()));
    assert_eq!(driver.fresh, 1);
    assert_eq!(driver.resized, 0);
    assert_eq!(driver.takes, 4);
}
