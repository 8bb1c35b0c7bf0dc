//! A game controller that speaks the XInput USB protocol: its descriptors,
//! the wire format of its reports, the rules by which its endpoints are
//! read and written, and the scanning of its key matrix.
//!
//! Nothing here performs a transfer or reads a pin. Each part takes what was
//! read as plain values and says what is to be done next, so the firmware's
//! tasks only carry out what they are told.

pub mod channel;
pub mod config;
pub mod descriptor;
pub mod endpoint;
pub mod keymatrix;
pub mod mapper;
pub mod report;
pub mod request;
pub mod status;
pub mod usb;
