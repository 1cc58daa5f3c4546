use byteorder::{WriteBytesExt, LE};
use cameleon::error::StreamError;
use cameleon::leader::PayloadType;
use cameleon::params::StreamParams;
use cameleon::trailer::PayloadStatus;
use cameleon::transfer::{
    plan_recv, read_leader, read_trailer, received, PayloadRead, PayloadStep, ReadPosition,
    RecvPlan,
};
use std::time::Duration;

#[test]
fn a_read_of_no_bytes_needs_nothing() {
    assert_eq!(plan_recv(0, 0, 0), Ok(RecvPlan::Nothing));
    assert_eq!(plan_recv(10, 10, 0), Ok(RecvPlan::Nothing));
    assert_eq!(plan_recv(10, 20, 0), Ok(RecvPlan::Nothing));
}

#[test]
fn a_read_needs_room_in_the_buffer() {
    assert_eq!(plan_recv(52, 0, 52), Ok(RecvPlan::Receive { offset: 0, len: 52 }));
    assert_eq!(plan_recv(64, 0, 52), Ok(RecvPlan::Receive { offset: 0, len: 52 }));
    assert_eq!(plan_recv(64, 12, 52), Ok(RecvPlan::Receive { offset: 12, len: 52 }));
    assert_eq!(plan_recv(51, 0, 52), Err(StreamError::BufferTooSmall));
    assert_eq!(plan_recv(64, 13, 52), Err(StreamError::BufferTooSmall));
    assert_eq!(plan_recv(64, 65, 1), Err(StreamError::BufferTooSmall));
    assert_eq!(plan_recv(usize::MAX, usize::MAX, 1), Err(StreamError::BufferTooSmall));
    assert_eq!(plan_recv(usize::MAX, 1, usize::MAX), Err(StreamError::BufferTooSmall));
}

#[test]
fn the_answer_of_the_transport_becomes_a_count_or_a_device_error() {
    // Every count is handed on as the transport reports it.
    assert_eq!(received(Ok(52)), Ok(52));
    assert_eq!(received(Ok(0)), Ok(0));
    assert_eq!(received(Ok(3)), Ok(3));
    assert_eq!(received(Ok(5)), Ok(5));
    assert_eq!(received(Ok(usize::MAX)), Ok(usize::MAX));
    assert_eq!(
        received(Err("operation timed out".to_string())),
        Err(StreamError::Device("operation timed out".to_string()))
    );
    assert_eq!(received(Err(String::new())), Err(StreamError::Device(String::new())));
}

#[test]
fn read_leader_hands_the_error_of_the_codec_on() {
    let mut buf = vec![];
    buf.write_u32::<LE>(0x4C563355).unwrap();
    buf.write_u16::<LE>(0).unwrap();
    buf.write_u16::<LE>(20).unwrap();
    buf.write_u64::<LE>(51).unwrap();
    buf.write_u16::<LE>(0).unwrap();
    buf.write_u16::<LE>(0x4000).unwrap();
    let leader = read_leader(&buf).unwrap();
    assert_eq!(leader.block_id(), 51);
    assert_eq!(leader.payload_type(), PayloadType::Chunk);

    buf[0] = 0;
    match read_leader(&buf) {
        Err(e) => assert_eq!(e, StreamError::InvalidPacket("invalid prefix magic".to_string())),
        Ok(_) => panic!("a broken leader was read"),
    }
    match read_leader(&buf[..10]) {
        Err(e) => assert_eq!(e, StreamError::InvalidPacket("short read".to_string())),
        Ok(_) => panic!("a short leader was read"),
    }
    buf[0] = 0x55;
    buf[18] = 2;
    buf[19] = 0;
    match read_leader(&buf) {
        Err(e) => assert_eq!(
            e,
            StreamError::InvalidPacket("invalid value for leader payload type: 2".to_string())
        ),
        Ok(_) => panic!("a leader with an unknown payload type was read"),
    }
}

#[test]
fn read_trailer_hands_the_error_of_the_codec_on() {
    let mut buf = vec![];
    buf.write_u32::<LE>(0x54563355).unwrap();
    buf.write_u16::<LE>(0).unwrap();
    buf.write_u16::<LE>(28).unwrap();
    buf.write_u64::<LE>(51).unwrap();
    buf.write_u16::<LE>(0).unwrap();
    buf.write_u16::<LE>(0).unwrap();
    buf.write_u64::<LE>(77).unwrap();
    let trailer = read_trailer(&buf).unwrap();
    assert_eq!(trailer.valid_payload_size(), 77);
    assert_eq!(trailer.payload_status(), PayloadStatus::Success);

    buf[1] = 0;
    match read_trailer(&buf) {
        Err(e) => assert_eq!(e, StreamError::InvalidPacket("invalid prefix magic".to_string())),
        Ok(_) => panic!("a broken trailer was read"),
    }
    match read_trailer(&buf[..27]) {
        Err(e) => assert_eq!(e, StreamError::InvalidPacket("short read".to_string())),
        Ok(_) => panic!("a short trailer was read"),
    }
}

fn params(size: usize, count: usize, final1: usize, final2: usize) -> StreamParams {
    StreamParams::new(52, 36, size, count, final1, final2, Duration::from_millis(10))
}

/// Runs a whole read in which every transfer brings what it asks for, and
/// gives the transfers made and the count at the end.
fn full_read(params: &StreamParams, buf_len: usize) -> Result<(Vec<(usize, usize)>, usize), StreamError> {
    let mut read = PayloadRead::new();
    let mut transfers = vec![];
    loop {
        match read.next(params, buf_len)? {
            PayloadStep::Receive { offset, len } => {
                transfers.push((offset, len));
                assert_eq!(read.receive(params, Ok(len)), Ok(len));
            }
            PayloadStep::Done(read_len) => return Ok((transfers, read_len)),
        }
    }
}

#[test]
fn the_transfers_of_a_payload_follow_one_another() {
    let p = params(1024, 3, 512, 16);
    let (transfers, read_len) = full_read(&p, p.maximum_payload_size()).unwrap();
    assert_eq!(
        transfers,
        vec![(0, 1024), (1024, 1024), (2048, 1024), (3072, 512), (3584, 16)]
    );
    assert_eq!(read_len, 3600);
    assert_eq!(read_len, p.maximum_payload_size());
}

#[test]
fn transfers_of_no_bytes_are_passed_over() {
    let p = params(1024, 2, 0, 16);
    assert_eq!(full_read(&p, 4096).unwrap(), (vec![(0, 1024), (1024, 1024), (2048, 16)], 2064));

    let p = params(0, 1000, 8, 0);
    assert_eq!(full_read(&p, 8).unwrap(), (vec![(0, 8)], 8));

    let p = params(1024, 0, 0, 0);
    assert_eq!(full_read(&p, 0).unwrap(), (vec![], 0));

    let p = params(0, 0, 0, 5);
    assert_eq!(full_read(&p, 5).unwrap(), (vec![(0, 5)], 5));

    let p = params(3, usize::MAX, 0, 0);
    let mut read = PayloadRead::new();
    assert_eq!(read.next(&p, 9), Ok(PayloadStep::Receive { offset: 0, len: 3 }));
}

#[test]
fn a_payload_buffer_that_is_too_small_fails_where_it_ends() {
    let p = params(1024, 3, 512, 16);
    assert_eq!(full_read(&p, 3599), Err(StreamError::BufferTooSmall));
    assert_eq!(full_read(&p, 0), Err(StreamError::BufferTooSmall));

    let mut read = PayloadRead::new();
    assert_eq!(read.next(&p, 2048), Ok(PayloadStep::Receive { offset: 0, len: 1024 }));
    assert_eq!(read.receive(&p, Ok(1024)), Ok(1024));
    assert_eq!(read.next(&p, 2048), Ok(PayloadStep::Receive { offset: 1024, len: 1024 }));
    assert_eq!(read.receive(&p, Ok(1024)), Ok(1024));
    assert_eq!(read.next(&p, 2048), Err(StreamError::BufferTooSmall));
}

#[test]
fn a_transfer_that_brings_less_moves_the_next_one_up() {
    let p = params(100, 2, 10, 0);
    let mut read = PayloadRead::new();
    assert_eq!(read.next(&p, 210), Ok(PayloadStep::Receive { offset: 0, len: 100 }));
    assert_eq!(read.receive(&p, Ok(60)), Ok(60));
    assert_eq!(read.next(&p, 210), Ok(PayloadStep::Receive { offset: 60, len: 100 }));
    assert_eq!(read.receive(&p, Ok(100)), Ok(100));
    assert_eq!(read.next(&p, 210), Ok(PayloadStep::Receive { offset: 160, len: 10 }));
    assert_eq!(read.receive(&p, Ok(10)), Ok(10));
    assert_eq!(read.next(&p, 210), Ok(PayloadStep::Done(170)));
    assert_eq!(read.position, ReadPosition::Done);
    // After the end nothing moves.
    assert_eq!(read.receive(&p, Ok(0)), Ok(0));
    assert_eq!(read.next(&p, 210), Ok(PayloadStep::Done(170)));
}

#[test]
fn a_failed_transfer_leaves_the_read_where_it_is() {
    let p = params(100, 2, 10, 0);
    let mut read = PayloadRead::new();
    assert_eq!(read.pending_len(&p), 100);
    assert_eq!(read.next(&p, 210), Ok(PayloadStep::Receive { offset: 0, len: 100 }));
    assert_eq!(
        read.receive(&p, Err("pipe error".to_string())),
        Err(StreamError::Device("pipe error".to_string()))
    );
    assert_eq!(read, PayloadRead::new());
    assert_eq!(read.receive(&p, Ok(100)), Ok(100));
    assert_eq!(read.receive(&p, Ok(100)), Ok(100));
    assert_eq!(read.pending_len(&p), 10);
    assert_eq!(read.position, ReadPosition::Transfer(2));
    assert_eq!(read.next(&p, 210), Ok(PayloadStep::Receive { offset: 200, len: 10 }));
    assert_eq!(read.position, ReadPosition::Final1);
}

#[test]
fn a_count_is_taken_as_the_transport_reports_it() {
    // More bytes than were asked for move the next transfer up by as many;
    // the buffer then is too small for it.
    let p = params(100, 2, 10, 0);
    let mut read = PayloadRead::new();
    assert_eq!(read.next(&p, 210), Ok(PayloadStep::Receive { offset: 0, len: 100 }));
    assert_eq!(read.receive(&p, Ok(101)), Ok(101));
    assert_eq!(read.read_len, 101);
    assert_eq!(read.next(&p, 210), Ok(PayloadStep::Receive { offset: 101, len: 100 }));
    assert_eq!(read.receive(&p, Ok(100)), Ok(100));
    assert_eq!(read.next(&p, 210), Err(StreamError::BufferTooSmall));

    // The largest count that can be counted.
    let p = params(usize::MAX, 1, 0, 0);
    let mut read = PayloadRead::new();
    assert_eq!(read.receive(&p, Ok(usize::MAX)), Ok(usize::MAX));
    assert_eq!(read.read_len, usize::MAX);
    assert_eq!(read.next(&p, 5), Ok(PayloadStep::Done(usize::MAX)));
}
