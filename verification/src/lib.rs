//! Encoders for the X-Plane UDP control protocol.
//!
//! The simulator accepts fixed-length little-endian datagrams: a command
//! invocation (`CMND`), a dataref write (`DREF`), and a dataref subscription
//! (`RREF`). This crate builds those byte buffers and proves their exact
//! layout; sending them over a socket is left to the caller.

pub mod packet;
