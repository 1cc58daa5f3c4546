//! Parts of the emulated device: the packets of its fake transport, the
//! queue between its host side and its device side, and the signals
//! between its modules.

pub mod fake_protocol;
pub mod shared_queue;
pub mod signal;
