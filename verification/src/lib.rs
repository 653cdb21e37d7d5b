//! Client-side core of a disk-image mounting protocol.
//!
//! The library models the structured documents exchanged with the device,
//! builds each request document, interprets each response document, and
//! drives the multi-phase image upload as an explicit state machine.
//! Channel I/O (connecting, sending and reading documents or raw bytes)
//! is left to the host application, which hands every received document
//! to the functions here and sends whatever they produce.

pub mod error;
pub mod mounter;
pub mod protocol;
pub mod requests;
pub mod upload;
pub mod value;

pub use error::MounterError;
pub use mounter::ImageMounter;
pub use value::Doc;
pub use value::Value;
