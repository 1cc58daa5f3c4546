//! Building a payload from a leader, the payload bytes and a trailer.

use crate::error::{ErrorView, StreamError, StreamErrorView};
use crate::leader::{
    ChunkLeader, ImageExtendedChunkLeader, ImageLeader, Leader, LeaderView, PayloadType,
    SpecificLeader,
};
use crate::payload::{ImageInfo, Payload, PayloadView};
use crate::trailer::{
    ChunkTrailer, ImageExtendedChunkTrailer, ImageTrailer, PayloadStatus, SpecificTrailer,
    Trailer, TrailerView,
};
use crate::wire::{lemma_u32_be_round_trip, lemma_u32_be_span, u32_be, u32_be_at, u32_be_bytes};
use vstd::prelude::*;
use vstd::string::*;

verus! {

/// The number of bytes of the identifier that follows the data of a chunk.
pub const CHUNK_ID_LEN: usize = 4;

/// The number of bytes of the size field that closes a chunk.
pub const CHUNK_SIZE_LEN: usize = 4;

/// What the walk over the chunks found wrong.
pub enum ChunkFault {
    /// The payload buffer holds fewer bytes than the trailer calls valid.
    BufferTooShort,
    /// Fewer than four bytes are left where a size field must stand.
    SizeFieldMissing,
    /// A size field asks for more bytes than lie before it.
    DataTooShort,
}

impl ChunkFault {
    /// The text of the error for the fault.
    pub open spec fn text(self) -> Seq<char> {
        match self {
            ChunkFault::BufferTooShort =>
                "failed to parse chunk data: payload buffer is smaller than valid payload size"@,
            ChunkFault::SizeFieldMissing => "failed to parse chunk data: size field missing"@,
            ChunkFault::DataTooShort =>
                "failed to parse chunk data: chunk data size is smaller than specified size"@,
        }
    }
}

/// Walks the chunks of `buf` backwards from `offset` and gives the data
/// size of the chunk that starts at offset zero.
///
/// A chunk is its data, then four bytes of identifier, then the size of the
/// data as four big-endian bytes. The walk reads the size field that ends
/// at `offset` and steps over that chunk; it is done when it stands at
/// zero, and fails when the bytes before it cannot hold what a size field
/// asks for.
pub open spec fn chunk_walk(buf: Seq<u8>, offset: int) -> Result<u32, ChunkFault>
    decreases offset,
{
    if offset < CHUNK_SIZE_LEN {
        Err(ChunkFault::SizeFieldMissing)
    } else {
        let size = u32_be_at(buf, offset - CHUNK_SIZE_LEN);
        let start = offset - CHUNK_SIZE_LEN - CHUNK_ID_LEN - size;
        if start < 0 {
            Err(ChunkFault::DataTooShort)
        } else if start == 0 {
            Ok(size as u32)
        } else {
            chunk_walk(buf, start)
        }
    }
}

/// The size of the image data in a payload of image and chunks: the data
/// size of the first chunk of the `valid_payload_size` bytes that `buf`
/// starts with.
pub open spec fn image_size_of(buf: Seq<u8>, valid_payload_size: u64) -> Result<u32, ChunkFault> {
    if valid_payload_size > buf.len() {
        Err(ChunkFault::BufferTooShort)
    } else {
        chunk_walk(buf, valid_payload_size as int)
    }
}

/// The error that stands for a codec error met while building a payload.
pub open spec fn invalid_payload_from(e: ErrorView) -> StreamErrorView {
    StreamErrorView::InvalidPayload(e.text())
}

/// The payload of an image: the image is described by the leader, but for
/// its height and size, which the trailer gives.
pub open spec fn image_payload_of(leader: LeaderView, buf: Seq<u8>, trailer: TrailerView) -> Result<
    PayloadView,
    StreamErrorView,
> {
    match ImageLeader::decode(leader.specific) {
        Err(e) => Err(invalid_payload_from(e)),
        Ok(image_leader) => match ImageTrailer::decode(trailer.specific) {
            Err(e) => Err(invalid_payload_from(e)),
            Ok(image_trailer) => Ok(
                PayloadView {
                    id: leader.generic.block_id,
                    payload_type: PayloadType::Image,
                    image_info: Some(
                        ImageInfo {
                            width: image_leader.width,
                            height: image_trailer.actual_height,
                            x_offset: image_leader.x_offset,
                            y_offset: image_leader.y_offset,
                            pixel_format: image_leader.pixel_format,
                            image_size: trailer.generic.valid_payload_size,
                        },
                    ),
                    payload: buf,
                    valid_payload_size: trailer.generic.valid_payload_size,
                    timestamp: image_leader.timestamp,
                },
            ),
        },
    }
}

/// The payload of an image with chunk data: as for an image, but the size
/// of the image is the data size of the first chunk.
pub open spec fn image_extended_payload_of(
    leader: LeaderView,
    buf: Seq<u8>,
    trailer: TrailerView,
) -> Result<PayloadView, StreamErrorView> {
    match ImageExtendedChunkLeader::decode(leader.specific) {
        Err(e) => Err(invalid_payload_from(e)),
        Ok(image_leader) => match ImageExtendedChunkTrailer::decode(trailer.specific) {
            Err(e) => Err(invalid_payload_from(e)),
            Ok(image_trailer) => match image_size_of(buf, trailer.generic.valid_payload_size) {
                Err(fault) => Err(StreamErrorView::InvalidPayload(fault.text())),
                Ok(image_size) => Ok(
                    PayloadView {
                        id: leader.generic.block_id,
                        payload_type: PayloadType::ImageExtendedChunk,
                        image_info: Some(
                            ImageInfo {
                                width: image_leader.image.width,
                                height: image_trailer.actual_height,
                                x_offset: image_leader.image.x_offset,
                                y_offset: image_leader.image.y_offset,
                                pixel_format: image_leader.image.pixel_format,
                                image_size: image_size as u64,
                            },
                        ),
                        payload: buf,
                        valid_payload_size: trailer.generic.valid_payload_size,
                        timestamp: image_leader.image.timestamp,
                    },
                ),
            },
        },
    }
}

/// The payload of chunk data alone: no image is described.
pub open spec fn chunk_payload_of(leader: LeaderView, buf: Seq<u8>, trailer: TrailerView) -> Result<
    PayloadView,
    StreamErrorView,
> {
    match ChunkLeader::decode(leader.specific) {
        Err(e) => Err(invalid_payload_from(e)),
        Ok(chunk_leader) => match ChunkTrailer::decode(trailer.specific) {
            Err(e) => Err(invalid_payload_from(e)),
            Ok(_) => Ok(
                PayloadView {
                    id: leader.generic.block_id,
                    payload_type: PayloadType::Chunk,
                    image_info: None,
                    payload: buf,
                    valid_payload_size: trailer.generic.valid_payload_size,
                    timestamp: chunk_leader.timestamp,
                },
            ),
        },
    }
}

/// The text of the error for a trailer whose status is not `Success`.
pub open spec fn status_error_text(status: PayloadStatus) -> Seq<char> {
    "trailer status indicates error: "@ + status.text()
}

/// The payload that a leader, the payload bytes and a trailer make.
///
/// A trailer whose status is not `Success` makes none, whatever the leader
/// holds. Otherwise the payload type of the leader decides how the specific
/// leader and trailer are read.
pub open spec fn payload_of(leader: LeaderView, buf: Seq<u8>, trailer: TrailerView) -> Result<
    PayloadView,
    StreamErrorView,
> {
    if trailer.generic.payload_status != PayloadStatus::Success {
        Err(StreamErrorView::InvalidPayload(status_error_text(trailer.generic.payload_status)))
    } else {
        match leader.generic.payload_type {
            PayloadType::Image => image_payload_of(leader, buf, trailer),
            PayloadType::ImageExtendedChunk => image_extended_payload_of(leader, buf, trailer),
            PayloadType::Chunk => chunk_payload_of(leader, buf, trailer),
        }
    }
}

/// The size of the image data in `buf`, found by walking its chunks
/// backwards from `valid_payload_size`.
pub fn image_size(buf: &[u8], valid_payload_size: u64) -> (r: Result<u32, StreamError>)
    ensures
        match r {
            Ok(size) => image_size_of(buf@, valid_payload_size) == Ok::<u32, ChunkFault>(size),
            Err(e) => image_size_of(buf@, valid_payload_size) is Err && e@
                == StreamErrorView::InvalidPayload(
                image_size_of(buf@, valid_payload_size)->Err_0.text(),
            ),
        },
{
    if valid_payload_size > buf.len() as u64 {
        return Err(
            StreamError::invalid_payload(
                "failed to parse chunk data: payload buffer is smaller than valid payload size",
            ),
        );
    }
    let mut current_offset: usize = valid_payload_size as usize;
    loop
        invariant
            current_offset <= buf@.len(),
            valid_payload_size <= buf@.len(),
            chunk_walk(buf@, current_offset as int) == chunk_walk(buf@, valid_payload_size as int),
        decreases current_offset,
    {
        if current_offset < CHUNK_SIZE_LEN {
            return Err(
                StreamError::invalid_payload("failed to parse chunk data: size field missing"),
            );
        }
        current_offset = current_offset - CHUNK_SIZE_LEN;
        let data_size: u32 = u32_be(buf, current_offset);
        let chunk_len: u64 = data_size as u64 + CHUNK_ID_LEN as u64;
        if (current_offset as u64) < chunk_len {
            return Err(
                StreamError::invalid_payload(
                    "failed to parse chunk data: chunk data size is smaller than specified size",
                ),
            );
        }
        current_offset = current_offset - chunk_len as usize;
        if current_offset == 0 {
            return Ok(data_size);
        }
    }
}

/// Builds a [`Payload`] from the leader and the trailer of a block and the
/// bytes between them.
pub struct PayloadBuilder<'a> {
    /// The leader of the block.
    pub leader: Leader<'a>,
    /// The bytes of the payload, which the payload will own.
    pub payload_buf: Vec<u8>,
    /// The trailer of the block.
    pub trailer: Trailer<'a>,
}

impl<'a> PayloadBuilder<'a> {
    /// Builds the payload, or says why the block holds none.
    pub fn build(self) -> (r: Result<Payload, StreamError>)
        ensures
            match r {
                Ok(payload) => payload_of(self.leader@, self.payload_buf@, self.trailer@) == Ok::<
                    PayloadView,
                    StreamErrorView,
                >(payload@),
                Err(e) => payload_of(self.leader@, self.payload_buf@, self.trailer@) == Err::<
                    PayloadView,
                    StreamErrorView,
                >(e@),
            },
    {
        let payload_status = self.trailer.payload_status();
        if !payload_status.is_success() {
            let mut text = String::from_str("trailer status indicates error: ");
            let status = payload_status.to_string();
            text.append(status.as_str());
            return Err(StreamError::InvalidPayload(text));
        }
        match self.leader.payload_type() {
            PayloadType::Image => self.build_image_payload(),
            PayloadType::ImageExtendedChunk => self.build_image_extended_payload(),
            PayloadType::Chunk => self.build_chunk_payload(),
        }
    }

    /// Builds the payload of an image.
    pub fn build_image_payload(self) -> (r: Result<Payload, StreamError>)
        ensures
            match r {
                Ok(payload) => image_payload_of(self.leader@, self.payload_buf@, self.trailer@)
                    == Ok::<PayloadView, StreamErrorView>(payload@),
                Err(e) => image_payload_of(self.leader@, self.payload_buf@, self.trailer@) == Err::<
                    PayloadView,
                    StreamErrorView,
                >(e@),
            },
    {
        let leader: ImageLeader = match self.specific_leader_as() {
            Ok(leader) => leader,
            Err(e) => {
                return Err(e);
            },
        };
        let trailer: ImageTrailer = match self.specific_trailer_as() {
            Ok(trailer) => trailer,
            Err(e) => {
                return Err(e);
            },
        };
        let id: u64 = self.leader.block_id();
        let valid_payload_size: u64 = self.trailer.valid_payload_size();
        let image_info = Some(
            ImageInfo {
                width: leader.width(),
                height: trailer.actual_height(),
                x_offset: leader.x_offset(),
                y_offset: leader.y_offset(),
                pixel_format: leader.pixel_format(),
                image_size: valid_payload_size,
            },
        );
        Ok(
            Payload {
                id,
                payload_type: PayloadType::Image,
                image_info,
                payload: self.payload_buf,
                valid_payload_size,
                timestamp: leader.timestamp,
            },
        )
    }

    /// Builds the payload of an image with chunk data. The size of the
    /// image is the data size of the first chunk of the payload.
    pub fn build_image_extended_payload(self) -> (r: Result<Payload, StreamError>)
        ensures
            match r {
                Ok(payload) => image_extended_payload_of(
                    self.leader@,
                    self.payload_buf@,
                    self.trailer@,
                ) == Ok::<PayloadView, StreamErrorView>(payload@),
                Err(e) => image_extended_payload_of(self.leader@, self.payload_buf@, self.trailer@)
                    == Err::<PayloadView, StreamErrorView>(e@),
            },
    {
        let leader: ImageExtendedChunkLeader = match self.specific_leader_as() {
            Ok(leader) => leader,
            Err(e) => {
                return Err(e);
            },
        };
        let trailer: ImageExtendedChunkTrailer = match self.specific_trailer_as() {
            Ok(trailer) => trailer,
            Err(e) => {
                return Err(e);
            },
        };
        let id: u64 = self.leader.block_id();
        let valid_payload_size: u64 = self.trailer.valid_payload_size();
        let image_size: u32 = match image_size(self.payload_buf.as_slice(), valid_payload_size) {
            Ok(size) => size,
            Err(e) => {
                return Err(e);
            },
        };
        let image_info = Some(
            ImageInfo {
                width: leader.width(),
                height: trailer.actual_height(),
                x_offset: leader.x_offset(),
                y_offset: leader.y_offset(),
                pixel_format: leader.pixel_format(),
                image_size: image_size as u64,
            },
        );
        Ok(
            Payload {
                id,
                payload_type: PayloadType::ImageExtendedChunk,
                image_info,
                payload: self.payload_buf,
                valid_payload_size,
                timestamp: leader.image.timestamp,
            },
        )
    }

    /// Builds the payload of chunk data alone.
    pub fn build_chunk_payload(self) -> (r: Result<Payload, StreamError>)
        ensures
            match r {
                Ok(payload) => chunk_payload_of(self.leader@, self.payload_buf@, self.trailer@)
                    == Ok::<PayloadView, StreamErrorView>(payload@),
                Err(e) => chunk_payload_of(self.leader@, self.payload_buf@, self.trailer@) == Err::<
                    PayloadView,
                    StreamErrorView,
                >(e@),
            },
    {
        let leader: ChunkLeader = match self.specific_leader_as() {
            Ok(leader) => leader,
            Err(e) => {
                return Err(e);
            },
        };
        let _trailer: ChunkTrailer = match self.specific_trailer_as() {
            Ok(trailer) => trailer,
            Err(e) => {
                return Err(e);
            },
        };
        let id: u64 = self.leader.block_id();
        let valid_payload_size: u64 = self.trailer.valid_payload_size();
        Ok(
            Payload {
                id,
                payload_type: PayloadType::Chunk,
                image_info: None,
                payload: self.payload_buf,
                valid_payload_size,
                timestamp: leader.timestamp,
            },
        )
    }

    /// Decodes the specific leader as a `T`; a failure is an
    /// `InvalidPayload` error with the text of the codec's error.
    pub fn specific_leader_as<T: SpecificLeader>(&self) -> (r: Result<T, StreamError>)
        ensures
            match r {
                Ok(specific) => T::decode(self.leader@.specific) == Ok::<T, ErrorView>(specific),
                Err(e) => T::decode(self.leader@.specific) is Err && e@ == invalid_payload_from(
                    T::decode(self.leader@.specific)->Err_0,
                ),
            },
    {
        match self.leader.specific_leader_as::<T>() {
            Ok(specific) => Ok(specific),
            Err(e) => Err(StreamError::InvalidPayload(e.to_string())),
        }
    }

    /// Decodes the specific trailer as a `T`; a failure is an
    /// `InvalidPayload` error with the text of the codec's error.
    pub fn specific_trailer_as<T: SpecificTrailer>(&self) -> (r: Result<T, StreamError>)
        ensures
            match r {
                Ok(specific) => T::decode(self.trailer@.specific) == Ok::<T, ErrorView>(specific),
                Err(e) => T::decode(self.trailer@.specific) is Err && e@ == invalid_payload_from(
                    T::decode(self.trailer@.specific)->Err_0,
                ),
            },
    {
        match self.trailer.specific_trailer_as::<T>() {
            Ok(specific) => Ok(specific),
            Err(e) => Err(StreamError::InvalidPayload(e.to_string())),
        }
    }
}

/// A trailer that reports anything but success yields no payload, whatever
/// the leader and the payload bytes hold: building fails with an
/// `InvalidPayload` error that names the status.
pub proof fn lemma_trailer_status_gates(leader: LeaderView, buf: Seq<u8>, trailer: TrailerView)
    requires
        trailer.generic.payload_status != PayloadStatus::Success,
    ensures
        payload_of(leader, buf, trailer) == Err::<PayloadView, StreamErrorView>(
            StreamErrorView::InvalidPayload(status_error_text(trailer.generic.payload_status)),
        ),
{
}

/// A payload that is built came with a trailer that reports success.
pub proof fn lemma_payload_implies_success(leader: LeaderView, buf: Seq<u8>, trailer: TrailerView)
    requires
        payload_of(leader, buf, trailer) is Ok,
    ensures
        trailer.generic.payload_status == PayloadStatus::Success,
{
}

/// Whatever goes wrong while a payload is built, the error is an
/// `InvalidPayload`.
pub proof fn lemma_build_fails_as_invalid_payload(
    leader: LeaderView,
    buf: Seq<u8>,
    trailer: TrailerView,
)
    requires
        payload_of(leader, buf, trailer) is Err,
    ensures
        payload_of(leader, buf, trailer)->Err_0 is InvalidPayload,
{
}

/// One chunk, as it lies in a payload.
pub struct ChunkRecord {
    /// The data of the chunk.
    pub data: Seq<u8>,
    /// The identifier of the chunk.
    pub id: u32,
}

impl ChunkRecord {
    /// The bytes of the chunk: the data, the identifier, then the size of
    /// the data, both as four big-endian bytes.
    pub open spec fn bytes(self) -> Seq<u8> {
        self.data + u32_be_bytes(self.id) + u32_be_bytes(self.data.len() as u32)
    }
}

/// The bytes of a run of chunks, one after the other.
pub open spec fn chunk_layout(chunks: Seq<ChunkRecord>) -> Seq<u8>
    decreases chunks.len(),
{
    if chunks.len() == 0 {
        Seq::empty()
    } else {
        chunk_layout(chunks.drop_last()) + chunks.last().bytes()
    }
}

/// Where a buffer starts with the layout of one or more chunks, the walk
/// from the end of that layout gives the data size of the first chunk,
/// whatever follows the layout in the buffer.
pub proof fn lemma_chunk_walk_finds_first(chunks: Seq<ChunkRecord>, rest: Seq<u8>)
    requires
        chunks.len() > 0,
        forall|i: int| 0 <= i < chunks.len() ==> (#[trigger] chunks[i]).data.len() <= u32::MAX,
    ensures
        chunk_walk(chunk_layout(chunks) + rest, chunk_layout(chunks).len() as int) == Ok::<
            u32,
            ChunkFault,
        >(chunks[0].data.len() as u32),
    decreases chunks.len(),
{
    let init = chunks.drop_last();
    let last = chunks.last();
    let size = last.data.len() as u32;
    let buf = chunk_layout(chunks) + rest;
    let end = chunk_layout(chunks).len() as int;
    let before = chunk_layout(init) + last.data + u32_be_bytes(last.id);
    lemma_u32_be_round_trip(before, size, rest);
    assert(buf =~= before + u32_be_bytes(size) + rest);
    assert(before.len() == end - CHUNK_SIZE_LEN);
    assert(u32_be_at(buf, end - CHUNK_SIZE_LEN) == size);
    let start = end - CHUNK_SIZE_LEN - CHUNK_ID_LEN - size;
    assert(start == chunk_layout(init).len());
    if init.len() == 0 {
        assert(chunks[0] == last);
    } else {
        lemma_chunk_walk_finds_first(init, last.bytes() + rest);
        assert(buf =~= chunk_layout(init) + (last.bytes() + rest));
        assert(chunk_layout(init).len() > 0) by {
            assert(chunk_layout(init) == chunk_layout(init.drop_last()) + init.last().bytes());
        }
        assert(init[0] == chunks[0]);
    }
}

/// The chunks that the walk from `offset` steps over, first chunk first.
pub open spec fn chunks_before(buf: Seq<u8>, offset: int) -> Seq<ChunkRecord>
    decreases offset,
{
    if offset < CHUNK_SIZE_LEN {
        Seq::empty()
    } else {
        let size = u32_be_at(buf, offset - CHUNK_SIZE_LEN);
        let start = offset - CHUNK_SIZE_LEN - CHUNK_ID_LEN - size;
        let record = ChunkRecord {
            data: buf.subrange(start, start + size),
            id: u32_be_at(buf, offset - CHUNK_SIZE_LEN - CHUNK_ID_LEN) as u32,
        };
        if start < 0 {
            Seq::empty()
        } else if start == 0 {
            seq![record]
        } else {
            chunks_before(buf, start).push(record)
        }
    }
}

/// The walk succeeds only on the layout of chunks: where it gives a size,
/// the bytes before `offset` are the layout of the chunks it stepped over,
/// and the size is the data size of the first of them. So bytes that are
/// no such layout make the walk fail.
pub proof fn lemma_chunk_walk_only_on_layout(buf: Seq<u8>, offset: int)
    requires
        0 <= offset <= buf.len(),
        chunk_walk(buf, offset) is Ok,
    ensures
        chunks_before(buf, offset).len() > 0,
        chunk_layout(chunks_before(buf, offset)) == buf.subrange(0, offset),
        chunks_before(buf, offset)[0].data.len() == chunk_walk(buf, offset)->Ok_0,
    decreases offset,
{
    let size = u32_be_at(buf, offset - CHUNK_SIZE_LEN);
    let start = offset - CHUNK_SIZE_LEN - CHUNK_ID_LEN - size;
    let chunks = chunks_before(buf, offset);
    let record = chunks.last();
    lemma_u32_be_span(buf, offset - CHUNK_SIZE_LEN);
    lemma_u32_be_span(buf, offset - CHUNK_SIZE_LEN - CHUNK_ID_LEN);
    assert(record.bytes() =~= buf.subrange(start, offset)) by {
        assert(record.data == buf.subrange(start, start + size));
        assert(u32_be_bytes(record.id) == buf.subrange(start + size, start + size + 4));
        assert(u32_be_bytes(record.data.len() as u32) == buf.subrange(
            start + size + 4,
            start + size + 8,
        ));
    }
    assert(chunk_layout(chunks) == chunk_layout(chunks.drop_last()) + record.bytes());
    if start == 0 {
        assert(chunks.drop_last() =~= Seq::<ChunkRecord>::empty());
        assert(chunk_layout(chunks.drop_last()) =~= Seq::<u8>::empty());
        assert(chunk_layout(chunks) =~= buf.subrange(0, offset));
    } else {
        lemma_chunk_walk_only_on_layout(buf, start);
        assert(chunks.drop_last() =~= chunks_before(buf, start));
        assert(chunk_layout(chunks.drop_last()) == buf.subrange(0, start));
        assert(chunk_layout(chunks) =~= buf.subrange(0, offset));
        assert(chunks[0] == chunks_before(buf, start)[0]);
    }
}

} // verus!
