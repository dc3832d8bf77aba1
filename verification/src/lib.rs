//! Host-side discovery of a CMSIS-DAP debug probe on USB and the transfer
//! channel to it.
//!
//! The crate holds the decisions of the driver and none of its I/O: which
//! device to bind to, which interface and endpoints to use, what to ask of
//! the bus next and how to report what came back. The caller performs the
//! USB operations that the library asks for and hands back what they gave.
//!
//! * [`matcher`]: the search through the enumerated devices for the first
//!   probe, one request to the bus at a time.
//! * [`product`]: the product string that tells a probe from other devices.
//! * [`descriptor`]: the descriptor tree of a configuration and the walker
//!   that picks the interface and its two endpoints.
//! * [`channel`]: the handle of a discovered probe, the claim of its
//!   interface, the transfers on its endpoints and their reports.
//! * [`error`]: the failures of the bus and their descriptions.
//! * [`frame`]: the 64-byte frame and the lines of hexadecimal bytes that
//!   fill it.

pub mod channel;
pub mod descriptor;
pub mod error;
pub mod frame;
pub mod matcher;
pub mod product;
