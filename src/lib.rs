//! Host-side automotive diagnostics: CAN frames, a pending-send registry for
//! loopback matching, ISO 15765-2 (ISO-TP) segmentation and reassembly,
//! ISO 14229 (UDS) request and response handling, bit timing calculation,
//! and the packet codecs of the panda and SocketCAN adapters.
//!
//! The library decides and computes; it performs no I/O. Its callers send
//! the frames it builds, wait where it says to wait, and feed it what they
//! receive.
pub mod bitrate;
pub mod can;
pub mod dispatch;
pub mod error;
pub mod isotp;
pub mod panda;
pub mod socketcan;
pub mod time;
pub mod uds;
pub mod vector;

pub use error::Error;
