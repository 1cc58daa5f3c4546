use byteorder::{WriteBytesExt, LE};
use cameleon::error::Error;
use cameleon::leader::{ChunkLeader, ImageExtendedChunkLeader, ImageLeader, Leader, PayloadType};
use cameleon::pixel_format::PixelFormat;
use std::time;

/// Return bytes represnts generic leader.
fn generic_leader_bytes(payload_type: PayloadType) -> Vec<u8> {
    let mut buf = vec![];
    let (payload_num, size) = match payload_type {
        PayloadType::Image => (0x0001, 50),
        PayloadType::ImageExtendedChunk => (0x4001, 50),
        PayloadType::Chunk => (0x4000, 20),
    };
    // Leader magic.
    buf.write_u32::<LE>(0x4C563355).unwrap();
    // Reserved.
    buf.write_u16::<LE>(0).unwrap();
    // Leader size.
    buf.write_u16::<LE>(size).unwrap();
    // Block_id
    buf.write_u64::<LE>(51).unwrap();
    // Reserved.
    buf.write_u16::<LE>(0).unwrap();
    // Payload type.
    buf.write_u16::<LE>(payload_num).unwrap();
    buf
}

fn image_leader_bytes(payload_type: PayloadType) -> Vec<u8> {
    let mut buf = generic_leader_bytes(payload_type);
    // Time stamp.
    buf.write_u64::<LE>(100).unwrap();
    // Pixel Format.
    buf.write_u32::<LE>(PixelFormat::mono8s().into()).unwrap();
    // Width.
    buf.write_u32::<LE>(3840).unwrap();
    // Height.
    buf.write_u32::<LE>(2160).unwrap();
    // X offset.
    buf.write_u32::<LE>(0).unwrap();
    // Y offset.
    buf.write_u32::<LE>(0).unwrap();
    // X padding.
    buf.write_u16::<LE>(0).unwrap();
    // Reserved.
    buf.write_u16::<LE>(0).unwrap();
    buf
}

#[test]
fn test_parse_generic_leader() {
    let mut buf = vec![];
    // Leader magic.
    buf.write_u32::<LE>(0x4C563355).unwrap();
    // Reserved.
    buf.write_u16::<LE>(0).unwrap();
    // Leader size.
    buf.write_u16::<LE>(20).unwrap();
    // Block ID.
    buf.write_u64::<LE>(51).unwrap();
    // Reserved.
    buf.write_u16::<LE>(0).unwrap();
    // Payload type, Image.
    buf.write_u16::<LE>(0x0001).unwrap();

    let leader = Leader::parse(&buf).unwrap();
    assert_eq!(leader.leader_size(), 20);
    assert_eq!(leader.block_id(), 51);
    assert_eq!(leader.payload_type(), PayloadType::Image);
}

#[test]
fn test_parse_image_leader() {
    let buf = image_leader_bytes(PayloadType::Image);

    let leader = Leader::parse(&buf).unwrap();
    assert_eq!(leader.payload_type(), PayloadType::Image);
    let image_leader: ImageLeader = leader.specific_leader_as().unwrap();
    assert_eq!(image_leader.timestamp(), time::Duration::from_nanos(100));
    assert_eq!(image_leader.pixel_format(), PixelFormat::mono8s());
    assert_eq!(image_leader.width(), 3840);
    assert_eq!(image_leader.height(), 2160);
    assert_eq!(image_leader.x_offset(), 0);
    assert_eq!(image_leader.y_offset(), 0);
    assert_eq!(image_leader.x_padding(), 0);
}

#[test]
fn parse_leader_from_literal_bytes() {
    let buf: [u8; 20] = [
        0x55, 0x33, 0x56, 0x4C, 0x00, 0x00, 0x14, 0x00, 0x33, 0x00, 0x00, 0x00, 0x00, 0x00, 0x00,
        0x00, 0x00, 0x00, 0x01, 0x00,
    ];
    let leader = Leader::parse(&buf).unwrap();
    assert_eq!(leader.leader_size(), 20);
    assert_eq!(leader.block_id(), 51);
    assert_eq!(leader.payload_type(), PayloadType::Image);
}

#[test]
fn bad_magic_is_rejected() {
    let buf: [u8; 20] = [
        0x56, 0x33, 0x56, 0x4C, 0x00, 0x00, 0x14, 0x00, 0x33, 0x00, 0x00, 0x00, 0x00, 0x00, 0x00,
        0x00, 0x00, 0x00, 0x01, 0x00,
    ];
    match Leader::parse(&buf) {
        Err(e) => assert_eq!(e, Error::InvalidPacket("invalid prefix magic".to_string())),
        Ok(_) => panic!("a leader with a wrong tag was accepted"),
    }
}

#[test]
fn every_single_byte_change_of_the_magic_is_rejected() {
    let good = generic_leader_bytes(PayloadType::Chunk);
    for at in 0..4 {
        for value in 0..=255u8 {
            if value == good[at] {
                continue;
            }
            let mut buf = good.clone();
            buf[at] = value;
            match Leader::parse(&buf) {
                Err(e) => assert_eq!(e, Error::InvalidPacket("invalid prefix magic".to_string())),
                Ok(_) => panic!("a leader with a wrong tag was accepted"),
            }
        }
    }
}

#[test]
fn unknown_payload_type_is_rejected() {
    let buf: [u8; 20] = [
        0x55, 0x33, 0x56, 0x4C, 0x00, 0x00, 0x14, 0x00, 0x33, 0x00, 0x00, 0x00, 0x00, 0x00, 0x00,
        0x00, 0x00, 0x00, 0x02, 0x00,
    ];
    match Leader::parse(&buf) {
        Err(e) => assert_eq!(
            e,
            Error::InvalidPacket("invalid value for leader payload type: 2".to_string())
        ),
        Ok(_) => panic!("a leader with an unknown payload type was accepted"),
    }
}

#[test]
fn exactly_three_payload_type_codes_are_accepted() {
    for code in 0..=u16::MAX {
        let parsed = PayloadType::try_from(code);
        match code {
            0x0001 => assert_eq!(parsed, Ok(PayloadType::Image)),
            0x4001 => assert_eq!(parsed, Ok(PayloadType::ImageExtendedChunk)),
            0x4000 => assert_eq!(parsed, Ok(PayloadType::Chunk)),
            _ => assert_eq!(
                parsed,
                Err(Error::InvalidPacket(format!(
                    "invalid value for leader payload type: {}",
                    code
                )))
            ),
        }
    }
}

#[test]
fn short_leader_is_a_short_read() {
    let good = generic_leader_bytes(PayloadType::Image);
    for len in 0..20 {
        match Leader::parse(&good[..len]) {
            Err(e) => assert_eq!(e, Error::InvalidPacket("short read".to_string())),
            Ok(_) => panic!("a short leader was accepted"),
        }
    }
    let short_with_bad_magic = [0u8; 19];
    match Leader::parse(&short_with_bad_magic) {
        Err(e) => assert_eq!(e, Error::InvalidPacket("short read".to_string())),
        Ok(_) => panic!("a short leader was accepted"),
    }
}

#[test]
fn short_specific_leader_is_a_short_read() {
    let buf = image_leader_bytes(PayloadType::Image);
    let leader = Leader::parse(&buf[..buf.len() - 1]).unwrap();
    let image_leader: Result<ImageLeader, Error> = leader.specific_leader_as();
    assert_eq!(image_leader, Err(Error::InvalidPacket("short read".to_string())));
    let chunk_leader: ChunkLeader = leader.specific_leader_as().unwrap();
    assert_eq!(chunk_leader.timestamp(), time::Duration::from_nanos(100));

    let leader = Leader::parse(&buf[..27]).unwrap();
    let chunk_leader: Result<ChunkLeader, Error> = leader.specific_leader_as();
    assert_eq!(chunk_leader, Err(Error::InvalidPacket("short read".to_string())));
}

#[test]
fn image_extended_chunk_leader_has_the_layout_of_an_image_leader() {
    let buf = image_leader_bytes(PayloadType::ImageExtendedChunk);
    let leader = Leader::parse(&buf).unwrap();
    assert_eq!(leader.payload_type(), PayloadType::ImageExtendedChunk);
    assert_eq!(leader.leader_size(), 50);
    let specific: ImageExtendedChunkLeader = leader.specific_leader_as().unwrap();
    assert_eq!(specific.timestamp(), time::Duration::from_nanos(100));
    assert_eq!(specific.pixel_format(), PixelFormat::mono8s());
    assert_eq!(specific.width(), 3840);
    assert_eq!(specific.height(), 2160);
    assert_eq!(specific.x_offset(), 0);
    assert_eq!(specific.y_offset(), 0);
    assert_eq!(specific.x_padding(), 0);
}

#[test]
fn leader_fields_are_little_endian() {
    let mut buf = vec![];
    buf.write_u32::<LE>(0x4C563355).unwrap();
    buf.write_u16::<LE>(0xFFFF).unwrap();
    buf.write_u16::<LE>(0x1234).unwrap();
    buf.write_u64::<LE>(0x0102_0304_0506_0708).unwrap();
    buf.write_u16::<LE>(0xABCD).unwrap();
    buf.write_u16::<LE>(0x4000).unwrap();
    buf.write_u64::<LE>(0xF1E2_D3C4_B5A6_9788).unwrap();
    let leader = Leader::parse(&buf).unwrap();
    assert_eq!(leader.leader_size(), 0x1234);
    assert_eq!(leader.block_id(), 0x0102_0304_0506_0708);
    assert_eq!(leader.payload_type(), PayloadType::Chunk);
    let chunk_leader: ChunkLeader = leader.specific_leader_as().unwrap();
    assert_eq!(chunk_leader.timestamp, 0xF1E2_D3C4_B5A6_9788);

    let mut buf = generic_leader_bytes(PayloadType::Image);
    buf.write_u64::<LE>(0x0807_0605_0403_0201).unwrap();
    buf.write_u32::<LE>(0x0218_0014).unwrap();
    buf.write_u32::<LE>(0xA1B2_C3D4).unwrap();
    buf.write_u32::<LE>(0x0000_0100).unwrap();
    buf.write_u32::<LE>(0x0001_0000).unwrap();
    buf.write_u32::<LE>(0x0100_0000).unwrap();
    buf.write_u16::<LE>(0x0102).unwrap();
    buf.write_u16::<LE>(0xFFFF).unwrap();
    let leader = Leader::parse(&buf).unwrap();
    let image_leader: ImageLeader = leader.specific_leader_as().unwrap();
    assert_eq!(image_leader.timestamp, 0x0807_0605_0403_0201);
    assert_eq!(image_leader.pixel_format(), PixelFormat::rgb8());
    assert_eq!(image_leader.width(), 0xA1B2_C3D4);
    assert_eq!(image_leader.height(), 0x100);
    assert_eq!(image_leader.x_offset(), 0x1_0000);
    assert_eq!(image_leader.y_offset(), 0x100_0000);
    assert_eq!(image_leader.x_padding(), 0x0102);
}

#[test]
fn error_in_words() {
    let e = Error::InvalidPacket("short read".to_string());
    assert_eq!(e.to_string(), "packet is broken: short read");
}
