//! The pixel format of an image payload.

use vstd::prelude::*;
use vstd::std_specs::convert::FromSpecImpl;

verus! {

/// Identifier of a pixel format, as the leader of an image carries it.
///
/// The stream layer passes the identifier through unchanged; which
/// identifiers name a known format is for the consumer to decide.
#[derive(Debug, Clone, Copy, PartialEq, Eq, Structural, Hash)]
pub struct PixelFormat {
    /// The identifier on the wire.
    pub code: u32,
}

impl PixelFormat {
    /// Monochrome, 8 bits per pixel, unsigned.
    pub fn mono8() -> (format: PixelFormat)
        ensures
            format.code == 0x0108_0001,
    {
        PixelFormat { code: 0x0108_0001 }
    }

    /// Monochrome, 8 bits per pixel, signed.
    pub fn mono8s() -> (format: PixelFormat)
        ensures
            format.code == 0x0108_0002,
    {
        PixelFormat { code: 0x0108_0002 }
    }

    /// Monochrome, 16 bits per pixel, unsigned.
    pub fn mono16() -> (format: PixelFormat)
        ensures
            format.code == 0x0110_0007,
    {
        PixelFormat { code: 0x0110_0007 }
    }

    /// Red, green, blue, 8 bits each.
    pub fn rgb8() -> (format: PixelFormat)
        ensures
            format.code == 0x0218_0014,
    {
        PixelFormat { code: 0x0218_0014 }
    }

    /// The format with the given identifier.
    pub fn new(code: u32) -> (format: PixelFormat)
        ensures
            format.code == code,
    {
        PixelFormat { code }
    }

    /// The identifier of the format.
    pub fn code(&self) -> (code: u32)
        ensures
            code == self.code,
    {
        self.code
    }
}

impl From<u32> for PixelFormat {
    fn from(code: u32) -> (format: PixelFormat) {
        PixelFormat { code }
    }
}

impl FromSpecImpl<u32> for PixelFormat {
    open spec fn obeys_from_spec() -> bool {
        true
    }

    open spec fn from_spec(code: u32) -> PixelFormat {
        PixelFormat { code }
    }
}

impl From<PixelFormat> for u32 {
    fn from(format: PixelFormat) -> (code: u32) {
        format.code
    }
}

impl FromSpecImpl<PixelFormat> for u32 {
    open spec fn obeys_from_spec() -> bool {
        true
    }

    open spec fn from_spec(format: PixelFormat) -> u32 {
        format.code
    }
}

} // verus!
