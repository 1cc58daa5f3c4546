use byteorder::{WriteBytesExt, BE, LE};
use cameleon::error::StreamError;
use cameleon::leader::{Leader, PayloadType};
use cameleon::payload::{ImageInfo, Payload};
use cameleon::payload_builder::{image_size, PayloadBuilder};
use cameleon::pixel_format::PixelFormat;
use cameleon::trailer::Trailer;
use std::time::Duration;

fn leader_bytes(payload_type: u16, timestamp: u64) -> Vec<u8> {
    let mut buf = vec![];
    buf.write_u32::<LE>(0x4C563355).unwrap();
    buf.write_u16::<LE>(0).unwrap();
    buf.write_u16::<LE>(52).unwrap();
    buf.write_u64::<LE>(51).unwrap();
    buf.write_u16::<LE>(0).unwrap();
    buf.write_u16::<LE>(payload_type).unwrap();
    buf.write_u64::<LE>(timestamp).unwrap();
    buf.write_u32::<LE>(PixelFormat::mono8s().into()).unwrap();
    buf.write_u32::<LE>(3840).unwrap();
    buf.write_u32::<LE>(2160).unwrap();
    buf.write_u32::<LE>(0).unwrap();
    buf.write_u32::<LE>(0).unwrap();
    buf.write_u16::<LE>(0).unwrap();
    buf.write_u16::<LE>(0).unwrap();
    buf
}

fn trailer_bytes(status: u16, valid_payload_size: u64, actual_height: u32) -> Vec<u8> {
    let mut buf = vec![];
    buf.write_u32::<LE>(0x54563355).unwrap();
    buf.write_u16::<LE>(0).unwrap();
    buf.write_u16::<LE>(36).unwrap();
    buf.write_u64::<LE>(51).unwrap();
    buf.write_u16::<LE>(status).unwrap();
    buf.write_u16::<LE>(0).unwrap();
    buf.write_u64::<LE>(valid_payload_size).unwrap();
    buf.write_u32::<LE>(actual_height).unwrap();
    buf.write_u32::<LE>(0).unwrap();
    buf
}

fn chunk(data: &[u8], id: u32) -> Vec<u8> {
    let mut buf = data.to_vec();
    buf.write_u32::<BE>(id).unwrap();
    buf.write_u32::<BE>(data.len() as u32).unwrap();
    buf
}

fn build(leader: &[u8], payload_buf: Vec<u8>, trailer: &[u8]) -> Result<Payload, StreamError> {
    PayloadBuilder {
        leader: Leader::parse(leader).unwrap(),
        payload_buf,
        trailer: Trailer::parse(trailer).unwrap(),
    }
    .build()
}

#[test]
fn build_image_payload() {
    let leader = leader_bytes(0x0001, 100);
    let trailer = trailer_bytes(0, 8_294_400, 2160);
    let payload_buf = vec![7u8; 64];
    let payload = build(&leader, payload_buf.clone(), &trailer).unwrap();
    assert_eq!(payload.id(), 51);
    assert_eq!(payload.payload_type(), PayloadType::Image);
    assert_eq!(
        payload.image_info(),
        Some(ImageInfo {
            width: 3840,
            height: 2160,
            x_offset: 0,
            y_offset: 0,
            pixel_format: PixelFormat::mono8s(),
            image_size: 8_294_400,
        })
    );
    assert_eq!(payload.timestamp(), Duration::from_nanos(100));
    assert_eq!(payload.valid_payload_size(), 8_294_400);
    assert_eq!(payload.payload(), &payload_buf[..]);
    assert_eq!(payload.into_buffer(), payload_buf);
}

#[test]
fn image_height_comes_from_the_trailer() {
    let leader = leader_bytes(0x0001, 100);
    let trailer = trailer_bytes(0, 3840 * 1000, 1000);
    let payload = build(&leader, vec![], &trailer).unwrap();
    let info = payload.image_info().unwrap();
    assert_eq!(info.height, 1000);
    assert_eq!(info.width, 3840);
    assert_eq!(info.image_size, 3_840_000);
}

#[test]
fn non_zero_status_fails_whatever_the_leader() {
    for payload_type in [0x0001u16, 0x4001, 0x4000] {
        for status in [1u16, 0xA100, 0xA101, 0xFFFF] {
            let leader = leader_bytes(payload_type, 100);
            let trailer = trailer_bytes(status, 1032, 2160);
            let result = build(&leader, vec![0u8; 2048], &trailer);
            assert_eq!(
                result,
                Err(StreamError::InvalidPayload(format!(
                    "trailer status indicates error: Failure({})",
                    status
                )))
            );
            // A leader without its specific part changes nothing.
            let result = build(&leader[..20], vec![], &trailer);
            assert_eq!(
                result,
                Err(StreamError::InvalidPayload(format!(
                    "trailer status indicates error: Failure({})",
                    status
                )))
            );
        }
    }
}

#[test]
fn build_image_extended_chunk_payload() {
    let image = vec![0xABu8; 1024];
    let mut payload_buf = chunk(&image, 0x0001);
    assert_eq!(payload_buf.len(), 1024 + 8);
    payload_buf.resize(4096, 0xFF);
    let leader = leader_bytes(0x4001, 100);
    let trailer = trailer_bytes(0, 1024 + 8, 2160);
    let payload = build(&leader, payload_buf.clone(), &trailer).unwrap();
    assert_eq!(payload.id(), 51);
    assert_eq!(payload.payload_type(), PayloadType::ImageExtendedChunk);
    assert_eq!(
        payload.image_info(),
        Some(ImageInfo {
            width: 3840,
            height: 2160,
            x_offset: 0,
            y_offset: 0,
            pixel_format: PixelFormat::mono8s(),
            image_size: 1024,
        })
    );
    assert_eq!(payload.valid_payload_size(), 1032);
    assert_eq!(payload.timestamp(), Duration::from_nanos(100));
    assert_eq!(payload.payload(), &payload_buf[..]);
}

#[test]
fn chunk_walk_returns_the_size_of_the_first_chunk() {
    let mut buf = chunk(&[1u8; 1024], 0x0001);
    assert_eq!(image_size(&buf, 1024 + 8), Ok(1024));

    buf.extend(chunk(&[2u8; 16], 0x0002));
    buf.extend(chunk(&[], 0x0003));
    buf.extend(chunk(&[3u8; 300], 0x0004));
    let valid = buf.len() as u64;
    assert_eq!(valid, 1032 + 24 + 8 + 308);
    assert_eq!(image_size(&buf, valid), Ok(1024));

    // What follows the valid bytes does not matter.
    buf.extend([0xEEu8; 100]);
    assert_eq!(image_size(&buf, valid), Ok(1024));

    // A first chunk without data.
    let buf = chunk(&[], 0x0001);
    assert_eq!(image_size(&buf, 8), Ok(0));
}

#[test]
fn chunk_walk_fails_on_what_is_no_chunk_layout() {
    let missing = Err(StreamError::InvalidPayload(
        "failed to parse chunk data: size field missing".to_string(),
    ));
    let too_short = Err(StreamError::InvalidPayload(
        "failed to parse chunk data: chunk data size is smaller than specified size".to_string(),
    ));

    let buf = chunk(&[1u8; 1024], 0x0001);
    assert_eq!(image_size(&buf, 0), missing);
    assert_eq!(image_size(&buf, 3), missing);

    // The size field asks for more than lies before it.
    let mut long = vec![0u8; 100];
    long.write_u32::<BE>(1).unwrap();
    long.write_u32::<BE>(101).unwrap();
    assert_eq!(image_size(&long, 108), too_short);

    // The size field and the identifier alone are not enough for data.
    let mut bare = vec![];
    bare.write_u32::<BE>(1).unwrap();
    assert_eq!(image_size(&bare, 4), too_short);

    // The first chunk starts three bytes into the payload.
    let mut shifted = vec![0u8; 3];
    shifted.extend(chunk(&[1u8; 16], 1));
    assert_eq!(image_size(&shifted, 27), missing);

    // Every valid size but the right one fails on a layout of one chunk of
    // bytes that read as a huge size.
    let buf = chunk(&[0xFFu8; 64], 0xFFFF_FFFF);
    for valid in 0..72u64 {
        assert!(image_size(&buf, valid).is_err());
    }
    assert_eq!(image_size(&buf, 72), Ok(64));

    // More valid bytes than the buffer holds.
    assert_eq!(
        image_size(&buf, 73),
        Err(StreamError::InvalidPayload(
            "failed to parse chunk data: payload buffer is smaller than valid payload size"
                .to_string()
        ))
    );
}

#[test]
fn image_extended_chunk_payload_with_a_broken_layout_fails() {
    let leader = leader_bytes(0x4001, 100);
    let trailer = trailer_bytes(0, 2, 2160);
    assert_eq!(
        build(&leader, vec![0u8; 64], &trailer),
        Err(StreamError::InvalidPayload(
            "failed to parse chunk data: size field missing".to_string()
        ))
    );
}

#[test]
fn build_chunk_payload() {
    let mut leader = leader_bytes(0x4000, 0);
    leader.truncate(20);
    leader.write_u64::<LE>(123_456_789).unwrap();
    let mut trailer = trailer_bytes(0, 48, 0);
    trailer.truncate(28);
    trailer.write_u32::<LE>(9).unwrap();
    let payload_buf = vec![5u8; 48];
    let payload = build(&leader, payload_buf.clone(), &trailer).unwrap();
    assert_eq!(payload.id(), 51);
    assert_eq!(payload.payload_type(), PayloadType::Chunk);
    assert_eq!(payload.image_info(), None);
    assert_eq!(payload.valid_payload_size(), 48);
    assert_eq!(payload.timestamp(), Duration::from_nanos(123_456_789));
    assert_eq!(payload.payload(), &payload_buf[..]);
}

#[test]
fn short_specific_parts_are_invalid_payloads() {
    let short = Err(StreamError::InvalidPayload("packet is broken: short read".to_string()));
    for payload_type in [0x0001u16, 0x4001, 0x4000] {
        let leader = leader_bytes(payload_type, 100);
        let trailer = trailer_bytes(0, 8, 2160);
        // No specific leader.
        assert_eq!(build(&leader[..20], chunk(&[], 1), &trailer), short);
        // No specific trailer.
        assert_eq!(build(&leader, chunk(&[], 1), &trailer[..28]), short);
    }
    // The trailer of an image with chunks is longer than that of an image.
    let leader = leader_bytes(0x4001, 100);
    let trailer = trailer_bytes(0, 8, 2160);
    assert_eq!(build(&leader, chunk(&[], 1), &trailer[..32]), short);
    let leader = leader_bytes(0x0001, 100);
    assert!(build(&leader, chunk(&[], 1), &trailer[..32]).is_ok());
}

#[test]
fn builders_of_each_kind_can_be_called_directly() {
    let leader = leader_bytes(0x0001, 100);
    let trailer = trailer_bytes(0, 8, 2160);
    let builder = || PayloadBuilder {
        leader: Leader::parse(&leader).unwrap(),
        payload_buf: chunk(&[], 1),
        trailer: Trailer::parse(&trailer).unwrap(),
    };
    assert_eq!(builder().build_image_payload().unwrap().payload_type(), PayloadType::Image);
    let extended = builder().build_image_extended_payload().unwrap();
    assert_eq!(extended.payload_type(), PayloadType::ImageExtendedChunk);
    assert_eq!(extended.image_info().unwrap().image_size, 0);
    let chunk_payload = builder().build_chunk_payload().unwrap();
    assert_eq!(chunk_payload.payload_type(), PayloadType::Chunk);
    assert_eq!(chunk_payload.timestamp(), Duration::from_nanos(100));
}

#[test]
fn stream_error_in_words() {
    assert_eq!(
        StreamError::InvalidPayload("x".to_string()).to_string(),
        "invalid payload: x"
    );
    assert_eq!(
        StreamError::InvalidPacket("short read".to_string()).to_string(),
        "packet is broken: short read"
    );
    assert_eq!(
        StreamError::from_codec(cameleon::error::Error::InvalidPacket("short read".to_string())),
        StreamError::InvalidPacket("short read".to_string())
    );
    assert_eq!(StreamError::BufferTooSmall.to_string(), "buffer is too small");
    assert_eq!(StreamError::Device("timeout".to_string()).to_string(), "device error: timeout");
    assert_eq!(
        StreamError::InStreaming.to_string(),
        "can't communicate with the device while streaming"
    );
}
