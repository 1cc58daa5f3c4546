//! The trailer of a stream packet: the record that follows the payload.
//!
//! A trailer mirrors the leader: a generic part of twenty-eight bytes with
//! its own tag, which carries the status of the payload and the number of
//! its valid bytes, followed by a specific part whose layout the payload
//! type decides. All integers are little-endian.

use crate::error::{Error, ErrorView};
use crate::text::{decimal, decimal_text};
use crate::wire::{
    lemma_u16_le_span, lemma_u32_le_round_trip, lemma_u32_le_span, lemma_u64_le_round_trip,
    lemma_u64_le_span, u16_le, u16_le_at, u16_le_bytes, u32_le, u32_le_at, u32_le_bytes, u64_le,
    u64_le_at, u64_le_bytes,
};
use vstd::prelude::*;
use vstd::slice::slice_subrange;
use vstd::string::*;

verus! {

/// The tag that opens every trailer, read as a little-endian integer.
pub const TRAILER_MAGIC: u32 = 0x5456_3355;

/// The number of bytes of the generic trailer.
pub const GENERIC_TRAILER_LEN: usize = 28;

/// The number of bytes of the specific trailer of an image.
pub const IMAGE_TRAILER_LEN: usize = 4;

/// The number of bytes of the specific trailer of an image with chunk data.
pub const IMAGE_EXTENDED_CHUNK_TRAILER_LEN: usize = 8;

/// The number of bytes of the specific trailer of chunk data.
pub const CHUNK_TRAILER_LEN: usize = 4;

/// The status of a payload, as its trailer reports it.
#[derive(Debug, Clone, Copy, PartialEq, Eq, Structural)]
pub enum PayloadStatus {
    /// The payload is whole: code `0x0000`.
    Success,
    /// The device reports an error; the code is the one it gave, never zero
    /// in a decoded trailer.
    Failure(u16),
}

impl PayloadStatus {
    /// The status that a code on the wire stands for.
    pub open spec fn of_code(code: int) -> PayloadStatus {
        if code == 0 {
            PayloadStatus::Success
        } else {
            PayloadStatus::Failure(code as u16)
        }
    }

    /// The code that stands for the status on the wire.
    pub open spec fn code(self) -> u16 {
        match self {
            PayloadStatus::Success => 0,
            PayloadStatus::Failure(code) => code,
        }
    }

    /// The status written out, as error texts name it.
    pub open spec fn text(self) -> Seq<char> {
        match self {
            PayloadStatus::Success => "Success"@,
            PayloadStatus::Failure(code) => "Failure("@ + decimal_text(code as nat) + ")"@,
        }
    }

    /// Decodes a status code.
    pub fn from_code(code: u16) -> (status: PayloadStatus)
        ensures
            status == PayloadStatus::of_code(code as int),
    {
        if code == 0 {
            PayloadStatus::Success
        } else {
            PayloadStatus::Failure(code)
        }
    }

    /// Whether the status is `Success`.
    pub fn is_success(&self) -> (b: bool)
        ensures
            b == (*self == PayloadStatus::Success),
    {
        match self {
            PayloadStatus::Success => true,
            PayloadStatus::Failure(_) => false,
        }
    }

    /// Writes the status out.
    pub fn to_string(&self) -> (s: String)
        ensures
            s@ == self.text(),
    {
        match self {
            PayloadStatus::Success => String::from_str("Success"),
            PayloadStatus::Failure(code) => {
                let mut s = String::from_str("Failure(");
                let digits = decimal(*code as u64);
                s.append(digits.as_str());
                s.append(")");
                s
            },
        }
    }
}

/// The generic trailer, which every specific trailer follows.
#[derive(Debug, Clone, Copy, PartialEq, Eq, Structural)]
pub struct GenericTrailer {
    /// Total size of the trailer in bytes, the specific part included.
    pub trailer_size: u16,
    /// Identifier of the block that the trailer closes.
    pub block_id: u64,
    /// Status of the payload.
    pub payload_status: PayloadStatus,
    /// Number of bytes of the payload that hold data.
    pub valid_payload_size: u64,
}

/// What the first twenty-eight bytes of `s` decode to as a generic trailer.
///
/// Fewer than twenty-eight bytes are a short read; then the tag is checked.
/// Every status code decodes; the reserved fields may hold anything.
pub open spec fn generic_trailer_of(s: Seq<u8>) -> Result<GenericTrailer, ErrorView> {
    if s.len() < GENERIC_TRAILER_LEN {
        Err(ErrorView::InvalidPacket("short read"@))
    } else if u32_le_at(s, 0) != TRAILER_MAGIC {
        Err(ErrorView::InvalidPacket("invalid prefix magic"@))
    } else {
        Ok(
            GenericTrailer {
                trailer_size: u16_le_at(s, 6) as u16,
                block_id: u64_le_at(s, 8) as u64,
                payload_status: PayloadStatus::of_code(u16_le_at(s, 16)),
                valid_payload_size: u64_le_at(s, 20) as u64,
            },
        )
    }
}

impl GenericTrailer {
    /// The twenty-eight bytes that encode the generic trailer, with the
    /// given contents of its two reserved fields.
    pub open spec fn encoding(self, reserved0: u16, reserved1: u16) -> Seq<u8> {
        u32_le_bytes(TRAILER_MAGIC) + u16_le_bytes(reserved0) + u16_le_bytes(self.trailer_size)
            + u64_le_bytes(self.block_id) + u16_le_bytes(self.payload_status.code())
            + u16_le_bytes(reserved1) + u64_le_bytes(self.valid_payload_size)
    }

    /// Checks the tag that opens a trailer: the first four bytes of `buf`.
    /// Fewer than four bytes are a short read.
    pub fn parse_prefix(buf: &[u8]) -> (r: Result<(), Error>)
        ensures
            r is Ok <==> buf@.len() >= 4 && u32_le_at(buf@, 0) == TRAILER_MAGIC,
            r matches Err(e) ==> e@ == ErrorView::InvalidPacket(
                if buf@.len() < 4 {
                    "short read"@
                } else {
                    "invalid prefix magic"@
                },
            ),
    {
        if buf.len() < 4 {
            return Err(Error::invalid_packet("short read"));
        }
        let magic: u32 = u32_le(buf, 0);
        if magic == TRAILER_MAGIC {
            Ok(())
        } else {
            Err(Error::invalid_packet("invalid prefix magic"))
        }
    }

    /// Decodes the generic trailer at the start of `buf`.
    pub fn parse(buf: &[u8]) -> (r: Result<GenericTrailer, Error>)
        ensures
            match r {
                Ok(trailer) => generic_trailer_of(buf@) == Ok::<GenericTrailer, ErrorView>(trailer),
                Err(e) => generic_trailer_of(buf@) == Err::<GenericTrailer, ErrorView>(e@),
            },
    {
        if buf.len() < GENERIC_TRAILER_LEN {
            return Err(Error::invalid_packet("short read"));
        }
        match Self::parse_prefix(buf) {
            Err(e) => {
                return Err(e);
            },
            Ok(()) => {},
        }
        let _reserved0: u16 = u16_le(buf, 4);
        let trailer_size: u16 = u16_le(buf, 6);
        let block_id: u64 = u64_le(buf, 8);
        let payload_status = PayloadStatus::from_code(u16_le(buf, 16));
        let _reserved1: u16 = u16_le(buf, 18);
        let valid_payload_size: u64 = u64_le(buf, 20);
        Ok(GenericTrailer { trailer_size, block_id, payload_status, valid_payload_size })
    }
}

/// A trailer as contracts see it: the generic part, decoded, and the bytes
/// of the specific part.
pub struct TrailerView {
    pub generic: GenericTrailer,
    pub specific: Seq<u8>,
}

/// What the bytes `s` decode to as a trailer: the generic trailer of the
/// first twenty-eight bytes, and the rest kept for the specific trailer.
pub open spec fn trailer_of(s: Seq<u8>) -> Result<TrailerView, ErrorView> {
    match generic_trailer_of(s) {
        Ok(generic) => Ok(TrailerView { generic, specific: s.skip(GENERIC_TRAILER_LEN as int) }),
        Err(e) => Err(e),
    }
}

/// Trailer of a stream packet: a view over the caller's bytes.
pub struct Trailer<'a> {
    generic_trailer: GenericTrailer,
    raw_specific_trailer: &'a [u8],
}

impl<'a> View for Trailer<'a> {
    type V = TrailerView;

    closed spec fn view(&self) -> TrailerView {
        TrailerView { generic: self.generic_trailer, specific: self.raw_specific_trailer@ }
    }
}

impl<'a> Trailer<'a> {
    /// Decodes the trailer that `buf` starts with. The bytes after the
    /// generic trailer are kept, not copied, for the specific trailer.
    pub fn parse(buf: &'a [u8]) -> (r: Result<Trailer<'a>, Error>)
        ensures
            match r {
                Ok(trailer) => trailer_of(buf@) == Ok::<TrailerView, ErrorView>(trailer@),
                Err(e) => trailer_of(buf@) == Err::<TrailerView, ErrorView>(e@),
            },
    {
        match GenericTrailer::parse(buf) {
            Ok(generic_trailer) => {
                let raw_specific_trailer = slice_subrange(buf, GENERIC_TRAILER_LEN, buf.len());
                assert(raw_specific_trailer@ =~= buf@.skip(GENERIC_TRAILER_LEN as int));
                Ok(Trailer { generic_trailer, raw_specific_trailer })
            },
            Err(e) => Err(e),
        }
    }

    /// Decodes the specific trailer as a `T`.
    ///
    /// Which `T` fits is the caller's choice: the payload type of the
    /// leader is not known here.
    pub fn specific_trailer_as<T: SpecificTrailer>(&self) -> (r: Result<T, Error>)
        ensures
            match r {
                Ok(specific) => T::decode(self@.specific) == Ok::<T, ErrorView>(specific),
                Err(e) => T::decode(self@.specific) == Err::<T, ErrorView>(e@),
            },
    {
        T::from_bytes(self.raw_specific_trailer)
    }

    /// Total size of the trailer in bytes, the specific trailer included.
    pub fn trailer_size(&self) -> (size: u16)
        ensures
            size == self@.generic.trailer_size,
    {
        self.generic_trailer.trailer_size
    }

    /// Identifier of the block.
    pub fn block_id(&self) -> (id: u64)
        ensures
            id == self@.generic.block_id,
    {
        self.generic_trailer.block_id
    }

    /// Status of the payload.
    pub fn payload_status(&self) -> (status: PayloadStatus)
        ensures
            status == self@.generic.payload_status,
    {
        self.generic_trailer.payload_status
    }

    /// Number of bytes of the payload that hold data.
    pub fn valid_payload_size(&self) -> (size: u64)
        ensures
            size == self@.generic.valid_payload_size,
    {
        self.generic_trailer.valid_payload_size
    }
}

/// A specific trailer: what follows the generic trailer for one payload
/// type.
pub trait SpecificTrailer: Sized {
    /// What the bytes of a specific trailer decode to.
    spec fn decode(bytes: Seq<u8>) -> Result<Self, ErrorView>;

    /// Decodes the specific trailer at the start of `buf`.
    fn from_bytes(buf: &[u8]) -> (r: Result<Self, Error>)
        ensures
            match r {
                Ok(specific) => Self::decode(buf@) == Ok::<Self, ErrorView>(specific),
                Err(e) => Self::decode(buf@) == Err::<Self, ErrorView>(e@),
            },
    ;
}

/// The specific trailer of an image.
#[derive(Debug, Clone, Copy, PartialEq, Eq, Structural)]
pub struct ImageTrailer {
    /// Height of the image that was sent, which may differ from the height
    /// that the leader announced.
    pub actual_height: u32,
}

impl ImageTrailer {
    /// Height of the image that was sent.
    pub fn actual_height(&self) -> (height: u32)
        ensures
            height == self.actual_height,
    {
        self.actual_height
    }
}

impl SpecificTrailer for ImageTrailer {
    open spec fn decode(bytes: Seq<u8>) -> Result<ImageTrailer, ErrorView> {
        if bytes.len() < IMAGE_TRAILER_LEN {
            Err(ErrorView::InvalidPacket("short read"@))
        } else {
            Ok(ImageTrailer { actual_height: u32_le_at(bytes, 0) as u32 })
        }
    }

    fn from_bytes(buf: &[u8]) -> (r: Result<ImageTrailer, Error>) {
        if buf.len() < IMAGE_TRAILER_LEN {
            return Err(Error::invalid_packet("short read"));
        }
        let actual_height: u32 = u32_le(buf, 0);
        Ok(ImageTrailer { actual_height })
    }
}

/// The specific trailer of an image that chunk data follows.
#[derive(Debug, Clone, Copy, PartialEq, Eq, Structural)]
pub struct ImageExtendedChunkTrailer {
    /// Height of the image that was sent.
    pub actual_height: u32,
    /// Identifier of the layout of the chunk data.
    pub chunk_layout_id: u32,
}

impl ImageExtendedChunkTrailer {
    /// Height of the image that was sent.
    pub fn actual_height(&self) -> (height: u32)
        ensures
            height == self.actual_height,
    {
        self.actual_height
    }

    /// Identifier of the layout of the chunk data.
    pub fn chunk_layout_id(&self) -> (id: u32)
        ensures
            id == self.chunk_layout_id,
    {
        self.chunk_layout_id
    }
}

impl SpecificTrailer for ImageExtendedChunkTrailer {
    open spec fn decode(bytes: Seq<u8>) -> Result<ImageExtendedChunkTrailer, ErrorView> {
        if bytes.len() < IMAGE_EXTENDED_CHUNK_TRAILER_LEN {
            Err(ErrorView::InvalidPacket("short read"@))
        } else {
            Ok(
                ImageExtendedChunkTrailer {
                    actual_height: u32_le_at(bytes, 0) as u32,
                    chunk_layout_id: u32_le_at(bytes, 4) as u32,
                },
            )
        }
    }

    fn from_bytes(buf: &[u8]) -> (r: Result<ImageExtendedChunkTrailer, Error>) {
        if buf.len() < IMAGE_EXTENDED_CHUNK_TRAILER_LEN {
            return Err(Error::invalid_packet("short read"));
        }
        let actual_height: u32 = u32_le(buf, 0);
        let chunk_layout_id: u32 = u32_le(buf, 4);
        Ok(ImageExtendedChunkTrailer { actual_height, chunk_layout_id })
    }
}

/// The specific trailer of chunk data.
#[derive(Debug, Clone, Copy, PartialEq, Eq, Structural)]
pub struct ChunkTrailer {
    /// Identifier of the layout of the chunk data.
    pub chunk_layout_id: u32,
}

impl ChunkTrailer {
    /// Identifier of the layout of the chunk data.
    pub fn chunk_layout_id(&self) -> (id: u32)
        ensures
            id == self.chunk_layout_id,
    {
        self.chunk_layout_id
    }
}

impl SpecificTrailer for ChunkTrailer {
    open spec fn decode(bytes: Seq<u8>) -> Result<ChunkTrailer, ErrorView> {
        if bytes.len() < CHUNK_TRAILER_LEN {
            Err(ErrorView::InvalidPacket("short read"@))
        } else {
            Ok(ChunkTrailer { chunk_layout_id: u32_le_at(bytes, 0) as u32 })
        }
    }

    fn from_bytes(buf: &[u8]) -> (r: Result<ChunkTrailer, Error>) {
        if buf.len() < CHUNK_TRAILER_LEN {
            return Err(Error::invalid_packet("short read"));
        }
        let chunk_layout_id: u32 = u32_le(buf, 0);
        Ok(ChunkTrailer { chunk_layout_id })
    }
}

/// A status decoded from a code is `Success` exactly for the code zero, and
/// encodes back to the code.
pub proof fn lemma_status_code_round_trip(code: u16)
    ensures
        PayloadStatus::of_code(code as int) == PayloadStatus::Success <==> code == 0,
        PayloadStatus::of_code(code as int).code() == code,
{
}

/// Decoding the encoding of a generic trailer gives the trailer back,
/// whatever the reserved fields hold, and keeps what follows the
/// twenty-eight bytes as the specific part. A `Failure` must carry a code
/// other than zero, as every decoded one does.
pub proof fn lemma_trailer_round_trip(
    trailer: GenericTrailer,
    reserved0: u16,
    reserved1: u16,
    rest: Seq<u8>,
)
    requires
        trailer.payload_status != PayloadStatus::Failure(0),
    ensures
        trailer.encoding(reserved0, reserved1).len() == GENERIC_TRAILER_LEN,
        trailer_of(trailer.encoding(reserved0, reserved1) + rest) == Ok::<TrailerView, ErrorView>(
            TrailerView { generic: trailer, specific: rest },
        ),
{
    let s = trailer.encoding(reserved0, reserved1) + rest;
    lemma_u32_le_round_trip(Seq::empty(), 0, Seq::empty());
    lemma_u64_le_round_trip(Seq::empty(), 0, Seq::empty());
    assert(trailer.encoding(reserved0, reserved1).len() == 28);
    assert(u32_le_at(s, 0) == TRAILER_MAGIC) by {
        assert(s.subrange(0, 4) =~= u32_le_bytes(TRAILER_MAGIC));
        lemma_u32_le_span(s, 0, TRAILER_MAGIC);
    }
    assert(u16_le_at(s, 6) == trailer.trailer_size) by {
        assert(s.subrange(6, 8) =~= u16_le_bytes(trailer.trailer_size));
        lemma_u16_le_span(s, 6, trailer.trailer_size);
    }
    assert(u64_le_at(s, 8) == trailer.block_id) by {
        assert(s.subrange(8, 16) =~= u64_le_bytes(trailer.block_id));
        lemma_u64_le_span(s, 8, trailer.block_id);
    }
    assert(u16_le_at(s, 16) == trailer.payload_status.code()) by {
        assert(s.subrange(16, 18) =~= u16_le_bytes(trailer.payload_status.code()));
        lemma_u16_le_span(s, 16, trailer.payload_status.code());
    }
    assert(u64_le_at(s, 20) == trailer.valid_payload_size) by {
        assert(s.subrange(20, 28) =~= u64_le_bytes(trailer.valid_payload_size));
        lemma_u64_le_span(s, 20, trailer.valid_payload_size);
    }
    assert(s.skip(GENERIC_TRAILER_LEN as int) =~= rest);
}

/// Changing any one byte of the tag of a well-formed trailer makes the
/// trailer fail to decode, with the error for a wrong tag.
pub proof fn lemma_magic_mutation(s: Seq<u8>, i: int, b: u8)
    requires
        trailer_of(s) is Ok,
        0 <= i < 4,
        b != s[i],
    ensures
        trailer_of(s.update(i, b)) == Err::<TrailerView, ErrorView>(
            ErrorView::InvalidPacket("invalid prefix magic"@),
        ),
{
}

/// The bytes of a leader are no trailer, and the bytes of a trailer are no
/// leader: the two tags differ.
pub proof fn lemma_leader_is_no_trailer(s: Seq<u8>)
    ensures
        !(crate::leader::leader_of(s) is Ok && trailer_of(s) is Ok),
{
}

} // verus!
