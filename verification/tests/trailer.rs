use byteorder::{WriteBytesExt, LE};
use cameleon::error::Error;
use cameleon::trailer::{
    ChunkTrailer, ImageExtendedChunkTrailer, ImageTrailer, PayloadStatus, Trailer,
};

fn generic_trailer_bytes(status: u16, valid_payload_size: u64) -> Vec<u8> {
    let mut buf = vec![];
    // Trailer magic.
    buf.write_u32::<LE>(0x54563355).unwrap();
    // Reserved.
    buf.write_u16::<LE>(0).unwrap();
    // Trailer size.
    buf.write_u16::<LE>(32).unwrap();
    // Block ID.
    buf.write_u64::<LE>(51).unwrap();
    // Status.
    buf.write_u16::<LE>(status).unwrap();
    // Reserved.
    buf.write_u16::<LE>(0).unwrap();
    // Valid payload size.
    buf.write_u64::<LE>(valid_payload_size).unwrap();
    buf
}

#[test]
fn parse_generic_trailer() {
    let buf = generic_trailer_bytes(0, 8_294_400);
    assert_eq!(buf.len(), 28);
    let trailer = Trailer::parse(&buf).unwrap();
    assert_eq!(trailer.trailer_size(), 32);
    assert_eq!(trailer.block_id(), 51);
    assert_eq!(trailer.payload_status(), PayloadStatus::Success);
    assert_eq!(trailer.valid_payload_size(), 8_294_400);
}

#[test]
fn parse_trailer_from_literal_bytes() {
    let buf: [u8; 32] = [
        0x55, 0x33, 0x56, 0x54, 0xEE, 0xEE, 0x20, 0x00, 0x08, 0x07, 0x06, 0x05, 0x04, 0x03, 0x02,
        0x01, 0x00, 0xA1, 0xDD, 0xDD, 0x00, 0x90, 0x7E, 0x00, 0x00, 0x00, 0x00, 0x00, 0x70, 0x08,
        0x00, 0x00,
    ];
    let trailer = Trailer::parse(&buf).unwrap();
    assert_eq!(trailer.trailer_size(), 0x20);
    assert_eq!(trailer.block_id(), 0x0102_0304_0506_0708);
    assert_eq!(trailer.payload_status(), PayloadStatus::Failure(0xA100));
    assert_eq!(trailer.valid_payload_size(), 8_294_400);
    let image: ImageTrailer = trailer.specific_trailer_as().unwrap();
    assert_eq!(image.actual_height(), 2160);
}

#[test]
fn every_status_code_but_zero_is_a_failure() {
    for code in 0..=u16::MAX {
        let buf = generic_trailer_bytes(code, 0);
        let trailer = Trailer::parse(&buf).unwrap();
        if code == 0 {
            assert_eq!(trailer.payload_status(), PayloadStatus::Success);
            assert!(trailer.payload_status().is_success());
        } else {
            assert_eq!(trailer.payload_status(), PayloadStatus::Failure(code));
            assert!(!trailer.payload_status().is_success());
        }
        assert_eq!(trailer.payload_status(), PayloadStatus::from_code(code));
    }
}

#[test]
fn status_in_words() {
    assert_eq!(PayloadStatus::Success.to_string(), "Success");
    assert_eq!(PayloadStatus::Failure(0xA100).to_string(), "Failure(41216)");
    assert_eq!(PayloadStatus::Failure(7).to_string(), "Failure(7)");
}

#[test]
fn trailer_with_bad_magic_is_rejected() {
    let good = generic_trailer_bytes(0, 16);
    for at in 0..4 {
        let mut buf = good.clone();
        buf[at] ^= 0x01;
        match Trailer::parse(&buf) {
            Err(e) => assert_eq!(e, Error::InvalidPacket("invalid prefix magic".to_string())),
            Ok(_) => panic!("a trailer with a wrong tag was accepted"),
        }
    }
    // The tag of a leader is no tag of a trailer.
    let mut buf = good.clone();
    buf[3] = 0x4C;
    assert!(Trailer::parse(&buf).is_err());
}

#[test]
fn short_trailer_is_a_short_read() {
    let good = generic_trailer_bytes(0, 16);
    for len in 0..28 {
        match Trailer::parse(&good[..len]) {
            Err(e) => assert_eq!(e, Error::InvalidPacket("short read".to_string())),
            Ok(_) => panic!("a short trailer was accepted"),
        }
    }
}

#[test]
fn parse_specific_trailers() {
    let mut buf = generic_trailer_bytes(0, 1032);
    buf.write_u32::<LE>(2160).unwrap();
    buf.write_u32::<LE>(0x0A0B_0C0D).unwrap();
    let trailer = Trailer::parse(&buf).unwrap();

    let image: ImageTrailer = trailer.specific_trailer_as().unwrap();
    assert_eq!(image.actual_height(), 2160);

    let extended: ImageExtendedChunkTrailer = trailer.specific_trailer_as().unwrap();
    assert_eq!(extended.actual_height(), 2160);
    assert_eq!(extended.chunk_layout_id(), 0x0A0B_0C0D);

    let chunk: ChunkTrailer = trailer.specific_trailer_as().unwrap();
    assert_eq!(chunk.chunk_layout_id(), 2160);
}

#[test]
fn short_specific_trailer_is_a_short_read() {
    let mut buf = generic_trailer_bytes(0, 1032);
    buf.write_u32::<LE>(2160).unwrap();
    let trailer = Trailer::parse(&buf[..31]).unwrap();
    let image: Result<ImageTrailer, Error> = trailer.specific_trailer_as();
    assert_eq!(image, Err(Error::InvalidPacket("short read".to_string())));
    let chunk: Result<ChunkTrailer, Error> = trailer.specific_trailer_as();
    assert_eq!(chunk, Err(Error::InvalidPacket("short read".to_string())));

    let trailer = Trailer::parse(&buf).unwrap();
    let extended: Result<ImageExtendedChunkTrailer, Error> = trailer.specific_trailer_as();
    assert_eq!(extended, Err(Error::InvalidPacket("short read".to_string())));
}
