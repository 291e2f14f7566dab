//! Host-side client library for the Pixy2 smart vision sensor.
//!
//! The library implements the Pixy2 wire protocol: the checksummed frame
//! codec, the catalog of request/response messages, and the synchronous
//! transaction engine that drives a byte channel (normally a USB bulk
//! endpoint pair) with retries, resynchronization, and version-handshake
//! gating.  The byte channel itself is abstract: any transport that can
//! write and read raw bytes can carry the protocol.

use vstd::prelude::*;

pub mod catalog;
pub mod codec;
pub mod engine;
pub mod mock;

verus! {

/// USB vendor ID of a Pixy2 in normal operation.
pub const PIXY_VENDOR_ID: u16 = 0xb1ac;
/// USB product ID of a Pixy2 in normal operation.  Bootloader (firmware
/// update) mode answers under a different identity and is not recognized.
pub const PIXY_PRODUCT_ID: u16 = 0xf000;

/// Whether a USB device identity belongs to a Pixy2 in normal operation.
/// Device discovery matches each enumerated device against this predicate
/// and opens the first that satisfies it.
pub fn is_pixy2_device(vendor_id: u16, product_id: u16) -> (r: bool)
    ensures
        r <==> (vendor_id == PIXY_VENDOR_ID && product_id == PIXY_PRODUCT_ID),
{
    vendor_id == PIXY_VENDOR_ID && product_id == PIXY_PRODUCT_ID
}

/// The failure modes of a transaction, each its own variant, so callers
/// can distinguish transient conditions (`Timeout`) from fatal ones
/// (`ChannelError`) and from device-reported failures (`DeviceError`).
#[derive(Clone, Copy, PartialEq, Eq, Structural, Debug)]
pub enum ErrorKind {
    /// The underlying byte channel failed on a read or write.
    ChannelError,
    /// The transaction deadline elapsed without a complete response frame.
    Timeout,
    /// Persistent checksum corruption: the retry budget was exhausted.
    FrameCorruption,
    /// A frame was decoded, but its type code was not the expected one.
    UnexpectedReply(u8),
    /// The device answered with a negative return code.
    DeviceError(i32),
    /// A command argument failed a bounds check before any I/O.
    InvalidArgument,
    /// The engine has not completed a successful version handshake.
    NotReady,
}

/// An error reported by the engine or the typed command API.  Its
/// discriminant is the error kind.
#[derive(Clone, Copy, PartialEq, Eq, Structural, Debug)]
pub struct PixyError {
    /// Which failure mode occurred.
    pub kind: ErrorKind,
}

impl PixyError {
    /// A short user-facing description of the error.
    pub fn describe(&self) -> (r: String)
        ensures
            self.kind == ErrorKind::ChannelError ==> r@ == "the byte channel failed"@,
            self.kind == ErrorKind::Timeout ==> r@
                == "no complete response frame before the deadline"@,
            self.kind == ErrorKind::FrameCorruption ==> r@
                == "persistent frame corruption after retries"@,
            self.kind matches ErrorKind::UnexpectedReply(_) ==> r@
                == "a reply of an unexpected type"@,
            self.kind matches ErrorKind::DeviceError(_) ==> r@
                == "the device reported an error code"@,
            self.kind == ErrorKind::InvalidArgument ==> r@ == "an argument is out of range"@,
            self.kind == ErrorKind::NotReady ==> r@ == "the engine is not ready"@,
    {
        match self.kind {
            ErrorKind::ChannelError => "the byte channel failed".to_owned(),
            ErrorKind::Timeout => "no complete response frame before the deadline".to_owned(),
            ErrorKind::FrameCorruption => "persistent frame corruption after retries".to_owned(),
            ErrorKind::UnexpectedReply(_) => "a reply of an unexpected type".to_owned(),
            ErrorKind::DeviceError(_) => "the device reported an error code".to_owned(),
            ErrorKind::InvalidArgument => "an argument is out of range".to_owned(),
            ErrorKind::NotReady => "the engine is not ready".to_owned(),
        }
    }
}

} // verus!
