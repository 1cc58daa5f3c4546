//! The payload that the stream hands to its consumer.

use crate::leader::PayloadType;
use crate::pixel_format::PixelFormat;
use crate::time::{duration_from_nanos, duration_of_nanos};
use std::time::Duration;
use vstd::prelude::*;

verus! {

/// What is known of the image in a payload.
#[derive(Debug, Clone, Copy, PartialEq, Eq, Structural)]
pub struct ImageInfo {
    /// Width of the image in pixels.
    pub width: u32,
    /// Height of the image in pixels, as the trailer reports it.
    pub height: u32,
    /// Offset of the image from the origin along the x axis.
    pub x_offset: u32,
    /// Offset of the image from the origin along the y axis.
    pub y_offset: u32,
    /// Pixel format of the image.
    pub pixel_format: PixelFormat,
    /// Number of bytes of the image data.
    pub image_size: u64,
}

/// One block of the stream, rebuilt from its leader, payload bytes and
/// trailer.
#[derive(Debug, Clone, PartialEq, Eq)]
pub struct Payload {
    /// Identifier of the block, as the device gave it.
    pub id: u64,
    /// The kind of payload.
    pub payload_type: PayloadType,
    /// The image in the payload; `None` for chunk data alone.
    pub image_info: Option<ImageInfo>,
    /// The bytes of the payload. The buffer may be longer than the data:
    /// see `valid_payload_size`.
    pub payload: Vec<u8>,
    /// Number of bytes of `payload` that hold data.
    pub valid_payload_size: u64,
    /// Nanoseconds from the start of the device to the capture.
    pub timestamp: u64,
}

/// A [`Payload`] as contracts see it.
pub struct PayloadView {
    pub id: u64,
    pub payload_type: PayloadType,
    pub image_info: Option<ImageInfo>,
    pub payload: Seq<u8>,
    pub valid_payload_size: u64,
    pub timestamp: u64,
}

impl View for Payload {
    type V = PayloadView;

    open spec fn view(&self) -> PayloadView {
        PayloadView {
            id: self.id,
            payload_type: self.payload_type,
            image_info: self.image_info,
            payload: self.payload@,
            valid_payload_size: self.valid_payload_size,
            timestamp: self.timestamp,
        }
    }
}

impl Payload {
    /// Identifier of the block.
    pub fn id(&self) -> (id: u64)
        ensures
            id == self.id,
    {
        self.id
    }

    /// The kind of payload.
    pub fn payload_type(&self) -> (payload_type: PayloadType)
        ensures
            payload_type == self.payload_type,
    {
        self.payload_type
    }

    /// The image in the payload, if it holds one.
    pub fn image_info(&self) -> (info: Option<ImageInfo>)
        ensures
            info == self.image_info,
    {
        self.image_info
    }

    /// The bytes of the payload.
    pub fn payload(&self) -> (bytes: &[u8])
        ensures
            bytes@ == self.payload@,
    {
        self.payload.as_slice()
    }

    /// Number of bytes of the payload that hold data.
    pub fn valid_payload_size(&self) -> (size: u64)
        ensures
            size == self.valid_payload_size,
    {
        self.valid_payload_size
    }

    /// Time of the capture, counted from the start of the device.
    pub fn timestamp(&self) -> (t: Duration)
        ensures
            t == duration_of_nanos(self.timestamp),
    {
        duration_from_nanos(self.timestamp)
    }

    /// Gives up the payload for its buffer, to be filled again.
    pub fn into_buffer(self) -> (buffer: Vec<u8>)
        ensures
            buffer@ == self.payload@,
    {
        self.payload
    }
}

} // verus!
