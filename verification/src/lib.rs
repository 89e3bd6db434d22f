//! Core engine of a live-camera streaming robot: a shared frame source is
//! multiplexed into per-viewer encode-and-send pipelines whose lifecycle is
//! driven by connection-state commands. The negotiation layer, the transport
//! engine and the actuation hardware are external collaborators; the driver
//! around this library performs their I/O and hands plain values in and out.

pub mod bus;
pub mod command;
pub mod encoder;
pub mod engine;
pub mod frame;
pub mod motor;
pub mod session;
pub mod source;
pub mod supervisor;
