//! The errors of the packet codec and of the stream.

use vstd::prelude::*;
use vstd::string::*;

verus! {

/// Why a leader or a trailer could not be decoded.
#[derive(Debug, Clone, PartialEq, Eq)]
pub enum Error {
    /// The bytes are no well-formed packet; the text says what is wrong.
    InvalidPacket(String),
}

/// An [`Error`] as contracts see it: its text as a sequence of characters.
pub enum ErrorView {
    InvalidPacket(Seq<char>),
}

impl View for Error {
    type V = ErrorView;

    open spec fn view(&self) -> ErrorView {
        match self {
            Error::InvalidPacket(text) => ErrorView::InvalidPacket(text@),
        }
    }
}

impl ErrorView {
    /// What [`Error::to_string`] writes for an error with this view.
    pub open spec fn text(self) -> Seq<char> {
        match self {
            ErrorView::InvalidPacket(text) => "packet is broken: "@ + text,
        }
    }
}

impl Error {
    /// An `InvalidPacket` error with the given text.
    pub fn invalid_packet(text: &str) -> (e: Error)
        ensures
            e@ == ErrorView::InvalidPacket(text@),
    {
        Error::InvalidPacket(String::from_str(text))
    }

    /// The error in words.
    pub fn to_string(&self) -> (s: String)
        ensures
            s@ == self@.text(),
    {
        match self {
            Error::InvalidPacket(text) => {
                let mut s = String::from_str("packet is broken: ");
                s.append(text.as_str());
                s
            },
        }
    }
}

/// Why a stream operation failed.
#[derive(Debug, Clone, PartialEq, Eq)]
pub enum StreamError {
    /// The bytes of a leader or a trailer are no well-formed packet; the
    /// text is that of the codec's error.
    InvalidPacket(String),
    /// The packet could be read but describes no valid payload.
    InvalidPayload(String),
    /// The buffer handed in is shorter than the transfer asks for.
    BufferTooSmall,
    /// The transport failed: an I/O error, a timeout, a poisoned lock.
    Device(String),
    /// The operation is not allowed while the streaming worker runs.
    InStreaming,
}

/// A [`StreamError`] as contracts see it.
pub enum StreamErrorView {
    InvalidPacket(Seq<char>),
    InvalidPayload(Seq<char>),
    BufferTooSmall,
    Device(Seq<char>),
    InStreaming,
}

impl View for StreamError {
    type V = StreamErrorView;

    open spec fn view(&self) -> StreamErrorView {
        match self {
            StreamError::InvalidPacket(text) => StreamErrorView::InvalidPacket(text@),
            StreamError::InvalidPayload(text) => StreamErrorView::InvalidPayload(text@),
            StreamError::BufferTooSmall => StreamErrorView::BufferTooSmall,
            StreamError::Device(text) => StreamErrorView::Device(text@),
            StreamError::InStreaming => StreamErrorView::InStreaming,
        }
    }
}

impl StreamErrorView {
    /// What [`StreamError::to_string`] writes for an error with this view.
    pub open spec fn text(self) -> Seq<char> {
        match self {
            StreamErrorView::InvalidPacket(text) => "packet is broken: "@ + text,
            StreamErrorView::InvalidPayload(text) => "invalid payload: "@ + text,
            StreamErrorView::BufferTooSmall => "buffer is too small"@,
            StreamErrorView::Device(text) => "device error: "@ + text,
            StreamErrorView::InStreaming => "can't communicate with the device while streaming"@,
        }
    }
}

impl ErrorView {
    /// The stream error that stands for the codec's error: the same kind
    /// with the same text.
    pub open spec fn stream_error(self) -> StreamErrorView {
        match self {
            ErrorView::InvalidPacket(text) => StreamErrorView::InvalidPacket(text),
        }
    }
}

impl StreamError {
    /// The codec's error as a stream error, kind and text as they are.
    pub fn from_codec(e: Error) -> (r: StreamError)
        ensures
            r@ == e@.stream_error(),
    {
        match e {
            Error::InvalidPacket(text) => StreamError::InvalidPacket(text),
        }
    }

    /// An `InvalidPayload` error with the given text.
    pub fn invalid_payload(text: &str) -> (e: StreamError)
        ensures
            e@ == StreamErrorView::InvalidPayload(text@),
    {
        StreamError::InvalidPayload(String::from_str(text))
    }

    /// The error in words.
    pub fn to_string(&self) -> (s: String)
        ensures
            s@ == self@.text(),
    {
        match self {
            StreamError::InvalidPacket(text) => {
                let mut s = String::from_str("packet is broken: ");
                s.append(text.as_str());
                s
            },
            StreamError::InvalidPayload(text) => {
                let mut s = String::from_str("invalid payload: ");
                s.append(text.as_str());
                s
            },
            StreamError::BufferTooSmall => String::from_str("buffer is too small"),
            StreamError::Device(text) => {
                let mut s = String::from_str("device error: ");
                s.append(text.as_str());
                s
            },
            StreamError::InStreaming => String::from_str(
                "can't communicate with the device while streaming",
            ),
        }
    }
}

} // verus!
