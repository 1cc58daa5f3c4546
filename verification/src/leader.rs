//! The leader of a stream packet: the record that precedes the payload.
//!
//! A leader is a generic part of twenty bytes, the same for every payload
//! type, followed by a specific part whose layout the payload type decides.
//! All integers are little-endian.

use crate::error::{Error, ErrorView};
use crate::pixel_format::PixelFormat;
use crate::text::{decimal_text, with_number};
use crate::time::{duration_from_nanos, duration_of_nanos};
use crate::wire::{
    lemma_u16_le_span, lemma_u32_le_round_trip, lemma_u32_le_span, lemma_u64_le_round_trip,
    lemma_u64_le_span, u16_le, u16_le_at, u16_le_bytes, u32_le, u32_le_at, u32_le_bytes, u64_le,
    u64_le_at, u64_le_bytes,
};
use std::time::Duration;
use vstd::prelude::*;
use vstd::slice::slice_subrange;
use vstd::std_specs::convert::TryFromSpecImpl;

verus! {

/// The tag that opens every leader, read as a little-endian integer.
pub const LEADER_MAGIC: u32 = 0x4C56_3355;

/// The number of bytes of the generic leader.
pub const GENERIC_LEADER_LEN: usize = 20;

/// The number of bytes of the specific leader of an image.
pub const IMAGE_LEADER_LEN: usize = 32;

/// The number of bytes of the specific leader of chunk data.
pub const CHUNK_LEADER_LEN: usize = 8;

/// The kind of payload that follows a leader.
#[derive(Debug, Clone, Copy, PartialEq, Eq, Structural)]
pub enum PayloadType {
    /// Uncompressed image data.
    Image,
    /// Uncompressed image data followed by chunk data.
    ImageExtendedChunk,
    /// Chunk data.
    Chunk,
}

impl PayloadType {
    /// The payload type that a code on the wire names, if it names one.
    pub open spec fn of_code(code: int) -> Option<PayloadType> {
        if code == 0x0001 {
            Some(PayloadType::Image)
        } else if code == 0x4001 {
            Some(PayloadType::ImageExtendedChunk)
        } else if code == 0x4000 {
            Some(PayloadType::Chunk)
        } else {
            None
        }
    }

    /// The code that names the payload type on the wire.
    pub open spec fn code(self) -> u16 {
        match self {
            PayloadType::Image => 0x0001,
            PayloadType::ImageExtendedChunk => 0x4001,
            PayloadType::Chunk => 0x4000,
        }
    }

    /// The text of the error for a code that names no payload type.
    pub open spec fn unknown_code_text(code: int) -> Seq<char> {
        "invalid value for leader payload type: "@ + decimal_text(code as nat)
    }
}

impl TryFrom<u16> for PayloadType {
    type Error = Error;

    /// Decodes a payload type. The codes `0x0001`, `0x4001` and `0x4000`
    /// are accepted; every other one is an `InvalidPacket` error that names
    /// the code.
    fn try_from(val: u16) -> (r: Result<PayloadType, Error>)
        ensures
            match r {
                Ok(payload_type) => PayloadType::of_code(val as int) == Some(payload_type),
                Err(e) => PayloadType::of_code(val as int).is_none() && e@
                    == ErrorView::InvalidPacket(PayloadType::unknown_code_text(val as int)),
            },
    {
        if val == 0x0001 {
            Ok(PayloadType::Image)
        } else if val == 0x4001 {
            Ok(PayloadType::ImageExtendedChunk)
        } else if val == 0x4000 {
            Ok(PayloadType::Chunk)
        } else {
            Err(
                Error::InvalidPacket(
                    with_number("invalid value for leader payload type: ", val as u64),
                ),
            )
        }
    }
}

impl TryFromSpecImpl<u16> for PayloadType {
    open spec fn obeys_try_from_spec() -> bool {
        false
    }

    open spec fn try_from_spec(val: u16) -> Result<PayloadType, Error> {
        arbitrary()
    }
}

/// The generic leader, which every specific leader follows.
#[derive(Debug, Clone, Copy, PartialEq, Eq, Structural)]
pub struct GenericLeader {
    /// Total size of the leader in bytes, the specific part included.
    pub leader_size: u16,
    /// Identifier of the block that the leader opens.
    pub block_id: u64,
    /// The kind of payload that follows.
    pub payload_type: PayloadType,
}

/// What the first twenty bytes of `s` decode to as a generic leader.
///
/// Fewer than twenty bytes are a short read. Then the tag is checked, and
/// last the payload type; the two reserved fields may hold anything.
pub open spec fn generic_leader_of(s: Seq<u8>) -> Result<GenericLeader, ErrorView> {
    if s.len() < GENERIC_LEADER_LEN {
        Err(ErrorView::InvalidPacket("short read"@))
    } else if u32_le_at(s, 0) != LEADER_MAGIC {
        Err(ErrorView::InvalidPacket("invalid prefix magic"@))
    } else {
        match PayloadType::of_code(u16_le_at(s, 18)) {
            Some(payload_type) => Ok(
                GenericLeader {
                    leader_size: u16_le_at(s, 6) as u16,
                    block_id: u64_le_at(s, 8) as u64,
                    payload_type,
                },
            ),
            None => Err(ErrorView::InvalidPacket(PayloadType::unknown_code_text(u16_le_at(s, 18)))),
        }
    }
}

impl GenericLeader {
    /// The twenty bytes that encode the generic leader, with the given
    /// contents of its two reserved fields.
    pub open spec fn encoding(self, reserved0: u16, reserved1: u16) -> Seq<u8> {
        u32_le_bytes(LEADER_MAGIC) + u16_le_bytes(reserved0) + u16_le_bytes(self.leader_size)
            + u64_le_bytes(self.block_id) + u16_le_bytes(reserved1) + u16_le_bytes(
            self.payload_type.code(),
        )
    }

    /// Checks the tag that opens a leader: the first four bytes of `buf`.
    /// Fewer than four bytes are a short read.
    pub fn parse_prefix(buf: &[u8]) -> (r: Result<(), Error>)
        ensures
            r is Ok <==> buf@.len() >= 4 && u32_le_at(buf@, 0) == LEADER_MAGIC,
            r matches Err(e) ==> e@ == ErrorView::InvalidPacket(
                if buf@.len() < 4 {
                    "short read"@
                } else {
                    "invalid prefix magic"@
                },
            ),
    {
        if buf.len() < 4 {
            return Err(Error::invalid_packet("short read"));
        }
        let magic: u32 = u32_le(buf, 0);
        if magic == LEADER_MAGIC {
            Ok(())
        } else {
            Err(Error::invalid_packet("invalid prefix magic"))
        }
    }

    /// Decodes the generic leader at the start of `buf`.
    pub fn parse(buf: &[u8]) -> (r: Result<GenericLeader, Error>)
        ensures
            match r {
                Ok(leader) => generic_leader_of(buf@) == Ok::<GenericLeader, ErrorView>(leader),
                Err(e) => generic_leader_of(buf@) == Err::<GenericLeader, ErrorView>(e@),
            },
    {
        if buf.len() < GENERIC_LEADER_LEN {
            return Err(Error::invalid_packet("short read"));
        }
        match Self::parse_prefix(buf) {
            Err(e) => {
                return Err(e);
            },
            Ok(()) => {},
        }
        let _reserved0: u16 = u16_le(buf, 4);
        let leader_size: u16 = u16_le(buf, 6);
        let block_id: u64 = u64_le(buf, 8);
        let _reserved1: u16 = u16_le(buf, 16);
        match PayloadType::try_from(u16_le(buf, 18)) {
            Ok(payload_type) => Ok(GenericLeader { leader_size, block_id, payload_type }),
            Err(e) => Err(e),
        }
    }
}

/// A leader as contracts see it: the generic part, decoded, and the bytes
/// of the specific part.
pub struct LeaderView {
    pub generic: GenericLeader,
    pub specific: Seq<u8>,
}

/// What the bytes `s` decode to as a leader: the generic leader of the
/// first twenty bytes, and the rest kept for the specific leader.
pub open spec fn leader_of(s: Seq<u8>) -> Result<LeaderView, ErrorView> {
    match generic_leader_of(s) {
        Ok(generic) => Ok(LeaderView { generic, specific: s.skip(GENERIC_LEADER_LEN as int) }),
        Err(e) => Err(e),
    }
}

/// Leader of a stream packet: a view over the caller's bytes.
pub struct Leader<'a> {
    generic_leader: GenericLeader,
    raw_specific_leader: &'a [u8],
}

impl<'a> View for Leader<'a> {
    type V = LeaderView;

    closed spec fn view(&self) -> LeaderView {
        LeaderView { generic: self.generic_leader, specific: self.raw_specific_leader@ }
    }
}

impl<'a> Leader<'a> {
    /// Decodes the leader that `buf` starts with. The bytes after the
    /// generic leader are kept, not copied, for the specific leader.
    pub fn parse(buf: &'a [u8]) -> (r: Result<Leader<'a>, Error>)
        ensures
            match r {
                Ok(leader) => leader_of(buf@) == Ok::<LeaderView, ErrorView>(leader@),
                Err(e) => leader_of(buf@) == Err::<LeaderView, ErrorView>(e@),
            },
    {
        match GenericLeader::parse(buf) {
            Ok(generic_leader) => {
                let raw_specific_leader = slice_subrange(buf, GENERIC_LEADER_LEN, buf.len());
                assert(raw_specific_leader@ =~= buf@.skip(GENERIC_LEADER_LEN as int));
                Ok(Leader { generic_leader, raw_specific_leader })
            },
            Err(e) => Err(e),
        }
    }

    /// Decodes the specific leader as a `T`.
    ///
    /// Which `T` fits is the caller's choice: the payload type is not
    /// consulted.
    pub fn specific_leader_as<T: SpecificLeader>(&self) -> (r: Result<T, Error>)
        ensures
            match r {
                Ok(specific) => T::decode(self@.specific) == Ok::<T, ErrorView>(specific),
                Err(e) => T::decode(self@.specific) == Err::<T, ErrorView>(e@),
            },
    {
        T::from_bytes(self.raw_specific_leader)
    }

    /// Total size of the leader in bytes, the specific leader included.
    pub fn leader_size(&self) -> (size: u16)
        ensures
            size == self@.generic.leader_size,
    {
        self.generic_leader.leader_size
    }

    /// The kind of payload that follows the leader.
    pub fn payload_type(&self) -> (payload_type: PayloadType)
        ensures
            payload_type == self@.generic.payload_type,
    {
        self.generic_leader.payload_type
    }

    /// Identifier of the block.
    pub fn block_id(&self) -> (id: u64)
        ensures
            id == self@.generic.block_id,
    {
        self.generic_leader.block_id
    }
}

/// A specific leader: what follows the generic leader for one payload type.
pub trait SpecificLeader: Sized {
    /// What the bytes of a specific leader decode to.
    spec fn decode(bytes: Seq<u8>) -> Result<Self, ErrorView>;

    /// Decodes the specific leader at the start of `buf`.
    fn from_bytes(buf: &[u8]) -> (r: Result<Self, Error>)
        ensures
            match r {
                Ok(specific) => Self::decode(buf@) == Ok::<Self, ErrorView>(specific),
                Err(e) => Self::decode(buf@) == Err::<Self, ErrorView>(e@),
            },
    ;
}

/// The specific leader of an image.
#[derive(Debug, Clone, Copy, PartialEq, Eq, Structural)]
pub struct ImageLeader {
    /// Nanoseconds from the start of the device to the capture.
    pub timestamp: u64,
    /// Pixel format of the image.
    pub pixel_format: PixelFormat,
    /// Width of the image in pixels.
    pub width: u32,
    /// Height of the image in pixels.
    pub height: u32,
    /// Offset of the image from the origin along the x axis.
    pub x_offset: u32,
    /// Offset of the image from the origin along the y axis.
    pub y_offset: u32,
    /// Number of padding bytes at the end of each line.
    pub x_padding: u16,
}

impl ImageLeader {
    /// The thirty-two bytes that encode the image leader, with the given
    /// contents of its reserved field.
    pub open spec fn encoding(self, reserved: u16) -> Seq<u8> {
        u64_le_bytes(self.timestamp) + u32_le_bytes(self.pixel_format.code) + u32_le_bytes(
            self.width,
        ) + u32_le_bytes(self.height) + u32_le_bytes(self.x_offset) + u32_le_bytes(self.y_offset)
            + u16_le_bytes(self.x_padding) + u16_le_bytes(reserved)
    }

    /// Time of the capture, counted from the start of the device.
    pub fn timestamp(&self) -> (t: Duration)
        ensures
            t == duration_of_nanos(self.timestamp),
    {
        duration_from_nanos(self.timestamp)
    }

    /// Pixel format of the image.
    pub fn pixel_format(&self) -> (format: PixelFormat)
        ensures
            format == self.pixel_format,
    {
        self.pixel_format
    }

    /// Width of the image in pixels.
    pub fn width(&self) -> (width: u32)
        ensures
            width == self.width,
    {
        self.width
    }

    /// Height of the image in pixels.
    pub fn height(&self) -> (height: u32)
        ensures
            height == self.height,
    {
        self.height
    }

    /// Offset of the image from the origin along the x axis.
    pub fn x_offset(&self) -> (x_offset: u32)
        ensures
            x_offset == self.x_offset,
    {
        self.x_offset
    }

    /// Offset of the image from the origin along the y axis.
    pub fn y_offset(&self) -> (y_offset: u32)
        ensures
            y_offset == self.y_offset,
    {
        self.y_offset
    }

    /// Number of padding bytes at the end of each line.
    pub fn x_padding(&self) -> (x_padding: u16)
        ensures
            x_padding == self.x_padding,
    {
        self.x_padding
    }
}

/// What the first thirty-two bytes of `s` decode to as the specific leader
/// of an image; fewer bytes are a short read.
pub open spec fn image_leader_of(s: Seq<u8>) -> Result<ImageLeader, ErrorView> {
    if s.len() < IMAGE_LEADER_LEN {
        Err(ErrorView::InvalidPacket("short read"@))
    } else {
        Ok(
            ImageLeader {
                timestamp: u64_le_at(s, 0) as u64,
                pixel_format: PixelFormat { code: u32_le_at(s, 8) as u32 },
                width: u32_le_at(s, 12) as u32,
                height: u32_le_at(s, 16) as u32,
                x_offset: u32_le_at(s, 20) as u32,
                y_offset: u32_le_at(s, 24) as u32,
                x_padding: u16_le_at(s, 28) as u16,
            },
        )
    }
}

impl SpecificLeader for ImageLeader {
    open spec fn decode(bytes: Seq<u8>) -> Result<ImageLeader, ErrorView> {
        image_leader_of(bytes)
    }

    fn from_bytes(buf: &[u8]) -> (r: Result<ImageLeader, Error>) {
        if buf.len() < IMAGE_LEADER_LEN {
            return Err(Error::invalid_packet("short read"));
        }
        let timestamp: u64 = u64_le(buf, 0);
        let pixel_format = PixelFormat::new(u32_le(buf, 8));
        let width: u32 = u32_le(buf, 12);
        let height: u32 = u32_le(buf, 16);
        let x_offset: u32 = u32_le(buf, 20);
        let y_offset: u32 = u32_le(buf, 24);
        let x_padding: u16 = u16_le(buf, 28);
        let _reserved: u16 = u16_le(buf, 30);
        Ok(ImageLeader { timestamp, pixel_format, width, height, x_offset, y_offset, x_padding })
    }
}

/// The specific leader of an image that chunk data follows. Its layout is
/// that of [`ImageLeader`].
#[derive(Debug, Clone, Copy, PartialEq, Eq, Structural)]
pub struct ImageExtendedChunkLeader {
    /// The fields, which are those of an image leader.
    pub image: ImageLeader,
}

impl ImageExtendedChunkLeader {
    /// Time of the capture, counted from the start of the device.
    pub fn timestamp(&self) -> (t: Duration)
        ensures
            t == duration_of_nanos(self.image.timestamp),
    {
        duration_from_nanos(self.image.timestamp)
    }

    /// Pixel format of the image.
    pub fn pixel_format(&self) -> (format: PixelFormat)
        ensures
            format == self.image.pixel_format,
    {
        self.image.pixel_format
    }

    /// Width of the image in pixels.
    pub fn width(&self) -> (width: u32)
        ensures
            width == self.image.width,
    {
        self.image.width
    }

    /// Height of the image in pixels.
    pub fn height(&self) -> (height: u32)
        ensures
            height == self.image.height,
    {
        self.image.height
    }

    /// Offset of the image from the origin along the x axis.
    pub fn x_offset(&self) -> (x_offset: u32)
        ensures
            x_offset == self.image.x_offset,
    {
        self.image.x_offset
    }

    /// Offset of the image from the origin along the y axis.
    pub fn y_offset(&self) -> (y_offset: u32)
        ensures
            y_offset == self.image.y_offset,
    {
        self.image.y_offset
    }

    /// Number of padding bytes at the end of each line.
    pub fn x_padding(&self) -> (x_padding: u16)
        ensures
            x_padding == self.image.x_padding,
    {
        self.image.x_padding
    }
}

impl SpecificLeader for ImageExtendedChunkLeader {
    open spec fn decode(bytes: Seq<u8>) -> Result<ImageExtendedChunkLeader, ErrorView> {
        match image_leader_of(bytes) {
            Ok(image) => Ok(ImageExtendedChunkLeader { image }),
            Err(e) => Err(e),
        }
    }

    fn from_bytes(buf: &[u8]) -> (r: Result<ImageExtendedChunkLeader, Error>) {
        match ImageLeader::from_bytes(buf) {
            Ok(image) => Ok(ImageExtendedChunkLeader { image }),
            Err(e) => Err(e),
        }
    }
}

/// The specific leader of chunk data.
#[derive(Debug, Clone, Copy, PartialEq, Eq, Structural)]
pub struct ChunkLeader {
    /// Nanoseconds from the start of the device to the capture.
    pub timestamp: u64,
}

impl ChunkLeader {
    /// Time of the capture, counted from the start of the device.
    pub fn timestamp(&self) -> (t: Duration)
        ensures
            t == duration_of_nanos(self.timestamp),
    {
        duration_from_nanos(self.timestamp)
    }
}

impl SpecificLeader for ChunkLeader {
    open spec fn decode(bytes: Seq<u8>) -> Result<ChunkLeader, ErrorView> {
        if bytes.len() < CHUNK_LEADER_LEN {
            Err(ErrorView::InvalidPacket("short read"@))
        } else {
            Ok(ChunkLeader { timestamp: u64_le_at(bytes, 0) as u64 })
        }
    }

    fn from_bytes(buf: &[u8]) -> (r: Result<ChunkLeader, Error>) {
        if buf.len() < CHUNK_LEADER_LEN {
            return Err(Error::invalid_packet("short read"));
        }
        let timestamp: u64 = u64_le(buf, 0);
        Ok(ChunkLeader { timestamp })
    }
}

/// Decoding the encoding of a generic leader gives the leader back,
/// whatever the reserved fields hold, and keeps what follows the twenty
/// bytes as the specific part.
pub proof fn lemma_leader_round_trip(
    leader: GenericLeader,
    reserved0: u16,
    reserved1: u16,
    rest: Seq<u8>,
)
    ensures
        leader.encoding(reserved0, reserved1).len() == GENERIC_LEADER_LEN,
        leader_of(leader.encoding(reserved0, reserved1) + rest) == Ok::<LeaderView, ErrorView>(
            LeaderView { generic: leader, specific: rest },
        ),
{
    let s = leader.encoding(reserved0, reserved1) + rest;
    lemma_u32_le_round_trip(Seq::empty(), 0, Seq::empty());
    lemma_u64_le_round_trip(Seq::empty(), 0, Seq::empty());
    assert(leader.encoding(reserved0, reserved1).len() == 20);
    assert(u32_le_at(s, 0) == LEADER_MAGIC) by {
        assert(s.subrange(0, 4) =~= u32_le_bytes(LEADER_MAGIC));
        lemma_u32_le_span(s, 0, LEADER_MAGIC);
    }
    assert(u16_le_at(s, 6) == leader.leader_size) by {
        assert(s.subrange(6, 8) =~= u16_le_bytes(leader.leader_size));
        lemma_u16_le_span(s, 6, leader.leader_size);
    }
    assert(u64_le_at(s, 8) == leader.block_id) by {
        assert(s.subrange(8, 16) =~= u64_le_bytes(leader.block_id));
        lemma_u64_le_span(s, 8, leader.block_id);
    }
    assert(u16_le_at(s, 18) == leader.payload_type.code()) by {
        assert(s.subrange(18, 20) =~= u16_le_bytes(leader.payload_type.code()));
        lemma_u16_le_span(s, 18, leader.payload_type.code());
    }
    assert(s.skip(GENERIC_LEADER_LEN as int) =~= rest);
}

/// Changing any one byte of the tag of a well-formed leader makes the
/// leader fail to decode, with the error for a wrong tag.
pub proof fn lemma_magic_mutation(s: Seq<u8>, i: int, b: u8)
    requires
        leader_of(s) is Ok,
        0 <= i < 4,
        b != s[i],
    ensures
        leader_of(s.update(i, b)) == Err::<LeaderView, ErrorView>(
            ErrorView::InvalidPacket("invalid prefix magic"@),
        ),
{
}

/// A leader of twenty bytes or more with the right tag decodes exactly when
/// its payload type code is `0x0001`, `0x4001` or `0x4000`; with any other
/// code it is an `InvalidPacket` error that names the code.
pub proof fn lemma_payload_type_coverage(s: Seq<u8>)
    requires
        s.len() >= GENERIC_LEADER_LEN,
        u32_le_at(s, 0) == LEADER_MAGIC,
    ensures
        leader_of(s) is Ok <==> u16_le_at(s, 18) == 0x0001 || u16_le_at(s, 18) == 0x4001
            || u16_le_at(s, 18) == 0x4000,
        leader_of(s) is Err ==> leader_of(s) == Err::<LeaderView, ErrorView>(
            ErrorView::InvalidPacket(PayloadType::unknown_code_text(u16_le_at(s, 18))),
        ),
{
}

/// The code of each payload type decodes to that payload type.
pub proof fn lemma_payload_type_code_round_trip(payload_type: PayloadType)
    ensures
        PayloadType::of_code(payload_type.code() as int) == Some(payload_type),
{
}

/// Decoding the encoding of an image leader gives the leader back, whatever
/// its reserved field holds and whatever follows.
#[verifier::rlimit(30)]
pub proof fn lemma_image_leader_round_trip(leader: ImageLeader, reserved: u16, rest: Seq<u8>)
    ensures
        leader.encoding(reserved).len() == IMAGE_LEADER_LEN,
        image_leader_of(leader.encoding(reserved) + rest) == Ok::<ImageLeader, ErrorView>(leader),
{
    let s = leader.encoding(reserved) + rest;
    lemma_u32_le_round_trip(Seq::empty(), 0, Seq::empty());
    lemma_u64_le_round_trip(Seq::empty(), 0, Seq::empty());
    assert(leader.encoding(reserved).len() == 32);
    assert(u64_le_at(s, 0) == leader.timestamp) by {
        assert(s.subrange(0, 8) =~= u64_le_bytes(leader.timestamp));
        lemma_u64_le_span(s, 0, leader.timestamp);
    }
    assert(u32_le_at(s, 8) == leader.pixel_format.code) by {
        assert(s.subrange(8, 12) =~= u32_le_bytes(leader.pixel_format.code));
        lemma_u32_le_span(s, 8, leader.pixel_format.code);
    }
    assert(u32_le_at(s, 12) == leader.width) by {
        assert(s.subrange(12, 16) =~= u32_le_bytes(leader.width));
        lemma_u32_le_span(s, 12, leader.width);
    }
    assert(u32_le_at(s, 16) == leader.height) by {
        assert(s.subrange(16, 20) =~= u32_le_bytes(leader.height));
        lemma_u32_le_span(s, 16, leader.height);
    }
    assert(u32_le_at(s, 20) == leader.x_offset) by {
        assert(s.subrange(20, 24) =~= u32_le_bytes(leader.x_offset));
        lemma_u32_le_span(s, 20, leader.x_offset);
    }
    assert(u32_le_at(s, 24) == leader.y_offset) by {
        assert(s.subrange(24, 28) =~= u32_le_bytes(leader.y_offset));
        lemma_u32_le_span(s, 24, leader.y_offset);
    }
    assert(u16_le_at(s, 28) == leader.x_padding) by {
        assert(s.subrange(28, 30) =~= u16_le_bytes(leader.x_padding));
        lemma_u16_le_span(s, 28, leader.x_padding);
    }
}

/// Decoding the little-endian encoding of a timestamp as a chunk leader
/// gives a leader with that timestamp, whatever follows.
pub proof fn lemma_chunk_leader_round_trip(leader: ChunkLeader, rest: Seq<u8>)
    ensures
        ChunkLeader::decode(u64_le_bytes(leader.timestamp) + rest) == Ok::<ChunkLeader, ErrorView>(
            leader,
        ),
{
    let empty = Seq::<u8>::empty();
    lemma_u64_le_round_trip(empty, leader.timestamp, rest);
    assert(u64_le_bytes(leader.timestamp) + rest =~= empty + u64_le_bytes(leader.timestamp) + rest);
}

} // verus!
