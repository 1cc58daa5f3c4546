//! Host-side runtime for cameras that stream over a bulk-transfer channel.
//!
//! The crate holds the rules of the stream and proves them:
//!
//! - the packet codec: [`leader`] and [`trailer`] decode the records that
//!   bracket a payload, over the integers of [`wire`];
//! - [`payload_builder`], which makes a [`payload::Payload`] of a leader,
//!   the payload bytes and a trailer, and finds the image among chunks;
//! - [`params`] and [`transfer`], which say by what sized reads a packet
//!   is received;
//! - [`streaming`], the worker that receives block after block, written as
//!   a machine that is told what happened and says what to do next, and
//!   [`streaming_run`], which proves what whole runs of it bring about;
//! - [`handle`], which keeps a channel and lets either a caller or a
//!   worker read from it, never both;
//! - [`genapi`], the stores behind a description of a device's features;
//! - [`emulator`], parts of an emulated device.
//!
//! Nothing here reads from a device or waits for anything: a caller
//! performs the reads and hands in what they brought.

pub mod emulator;
pub mod error;
pub mod genapi;
pub mod handle;
pub mod leader;
pub mod params;
pub mod payload;
pub mod payload_builder;
pub mod pixel_format;
pub mod streaming;
pub mod streaming_run;
pub mod text;
pub mod time;
pub mod trailer;
pub mod transfer;
pub mod wire;
