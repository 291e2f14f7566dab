//! The synchronous transaction engine.
//!
//! The engine owns a byte channel and drives one request/response
//! transaction at a time across it: it serializes the request through the
//! codec, completes partial writes, reads until the decoder produces a
//! complete frame, retries on checksum corruption, and validates the
//! response type.  Before the first command it performs the `get_version`
//! handshake; a failed handshake makes the engine unusable until it is
//! explicitly reset.

use vstd::prelude::*;

use crate::{ErrorKind, PixyError};
use crate::catalog::{
    Request, Version, Block, Feature, version_request, resolution_request, brightness_request,
    servos_request, led_request, lamp_request, fps_request, blocks_request, main_features_request,
    parse_version, parse_resolution, parse_result, parse_blocks, parse_main_features,
};
use crate::codec::{Decoder, DecodeStep, Frame, encode_frame};

verus! {

/// Transaction deadline for ordinary commands, in milliseconds.
pub const TIMEOUT_COMMAND_MS: u32 = 500;
/// Transaction deadline for block-list commands, in milliseconds.
pub const TIMEOUT_BLOCKS_MS: u32 = 2000;
/// How many bytes one channel read may deliver at most.
pub const READ_CHUNK: usize = 64;
/// Ceiling on channel reads within one transaction, a guard against a
/// channel that trickles bytes without ever completing a frame.  The engine
/// has no clock of its own: it hands each read the transaction deadline and
/// relies on the channel to enforce it, so a transport adapter that wants
/// the deadline to cover the whole transaction should pass the remaining
/// budget on each read.
pub const MAX_READS_PER_TRANSACTION: u32 = 1024;
/// How many times a transaction is retried after checksum corruption.
pub const MAX_CORRUPTION_RETRIES: u8 = 2;
/// Largest servo position `set_servos` accepts.
pub const SERVO_POSITION_MAX: u16 = 1000;

/// Lifecycle state of an engine.
#[derive(Clone, Copy, PartialEq, Eq, Structural, Debug)]
pub enum EngineState {
    /// Opened, version handshake not yet attempted.
    Fresh,
    /// Handshake done; commands are accepted.
    Ready,
    /// A transaction is on the wire right now.
    InFlight,
    /// The channel failed or the handshake failed; only a reset helps.
    Unusable,
    /// Explicitly closed; terminal.
    Closed,
}

/// Outcome of one channel write.
pub enum ChannelWrite {
    /// This many bytes were accepted (possibly fewer than offered).
    Wrote(usize),
    /// The channel failed; the engine becomes unusable.
    Failed,
}

/// Outcome of one channel read.
pub enum ChannelRead {
    /// The bytes that arrived.  An empty vector counts as a timeout.
    Data(Vec<u8>),
    /// No bytes arrived within the deadline.
    TimedOut,
    /// The channel failed; the engine becomes unusable.
    Failed,
}

/// An abstract bidirectional bulk transport.
///
/// The engine depends only on this contract; the usual implementation is a
/// USB bulk endpoint pair, and tests replay scripted bytes.  Short writes
/// are allowed: the engine completes them by looping.  A read returns as
/// soon as any bytes are available, up to `max_bytes`; returning within the
/// deadline with no bytes is a timeout condition, not an error.
pub trait ByteChannel {
    /// Writes some of `data[offset..]`, returning how many bytes left.
    fn write_some(&mut self, data: &Vec<u8>, offset: usize, timeout_ms: u32) -> (r: ChannelWrite)
        requires
            offset < data@.len(),
    ;

    /// Reads up to `max_bytes`, waiting at most `timeout_ms`.
    fn read_some(&mut self, max_bytes: usize, timeout_ms: u32) -> (r: ChannelRead);
}

/// Outcome of feeding one channel read into the decoder.
enum ReadOutcome {
    Fed,
    TimedOut,
    Failed,
}

/// Why no valid frame was received.
enum RecvError {
    Corrupt,
    TimedOut,
    Failed,
}

/// The transaction engine.  One engine owns one channel; at most one
/// transaction is in flight per engine at any instant.
pub struct Engine<C> {
    channel: C,
    state: EngineState,
    version: Option<Version>,
    retry_count: u64,
    last_error: Option<PixyError>,
    offending: Option<Frame>,
    decoder: Decoder,
}

impl<C: ByteChannel> Engine<C> {
    /// Current lifecycle state.
    pub closed spec fn state_spec(&self) -> EngineState {
        self.state
    }

    /// The version cached by the handshake, if any.
    pub closed spec fn version_spec(&self) -> Option<Version> {
        self.version
    }

    /// Total corruption retries performed over the engine's lifetime.
    pub closed spec fn retry_count_spec(&self) -> u64 {
        self.retry_count
    }

    /// The most recent error recorded, if any.
    pub closed spec fn last_error_spec(&self) -> Option<PixyError> {
        self.last_error
    }

    /// The last frame that failed response-type validation, if any.
    pub closed spec fn offending_frame_spec(&self) -> Option<Frame> {
        self.offending
    }

    /// Engine well-formedness: a ready engine has a cached version, and
    /// between public calls no transaction is in flight.
    pub closed spec fn inv(&self) -> bool {
        &&& self.state == EngineState::Ready ==> self.version is Some
        &&& self.state != EngineState::InFlight
    }

    /// Opens an engine over a channel.  The engine starts fresh: the
    /// version handshake runs before the first command.
    pub fn open(channel: C) -> (e: Engine<C>)
        ensures
            e.inv(),
            e.state_spec() == EngineState::Fresh,
            e.version_spec() is None,
            e.retry_count_spec() == 0,
            e.last_error_spec() is None,
    {
        Engine {
            channel,
            state: EngineState::Fresh,
            version: None,
            retry_count: 0,
            last_error: None,
            offending: None,
            decoder: Decoder::new(),
        }
    }

    /// The current lifecycle state.
    pub fn state(&self) -> (s: EngineState)
        ensures
            s == self.state_spec(),
    {
        self.state
    }

    /// Total corruption retries performed so far.
    pub fn retry_count(&self) -> (n: u64)
        ensures
            n == self.retry_count_spec(),
    {
        self.retry_count
    }

    /// The most recent error recorded, if any.
    pub fn last_error(&self) -> (e: Option<PixyError>)
        ensures
            e == self.last_error_spec(),
    {
        self.last_error
    }

    /// The last frame whose type code failed validation, kept whole as the
    /// programmer-facing diagnostic behind `UnexpectedReply`.
    pub fn offending_frame(&self) -> (r: &Option<Frame>)
        ensures
            *r == self.offending_frame_spec(),
    {
        &self.offending
    }

    /// Borrows the channel, e.g. to inspect a test double.
    pub fn channel(&self) -> &C {
        &self.channel
    }

    /// Writes all of `bytes`, completing partial writes; `false` on a
    /// channel failure or when the channel stops accepting bytes.
    fn write_all(&mut self, bytes: &Vec<u8>, timeout_ms: u32) -> (ok: bool)
        ensures
            final(self).state == old(self).state,
            final(self).version == old(self).version,
            final(self).retry_count == old(self).retry_count,
            final(self).last_error == old(self).last_error,
            final(self).decoder == old(self).decoder,
    {
        let total = bytes.len();
        let mut offset: usize = 0;
        while offset < total
            invariant
                total == bytes@.len(),
                0 <= offset <= total,
                self.state == old(self).state,
                self.version == old(self).version,
                self.retry_count == old(self).retry_count,
                self.last_error == old(self).last_error,
                self.decoder == old(self).decoder,
            decreases total - offset,
        {
            match self.channel.write_some(bytes, offset, timeout_ms) {
                ChannelWrite::Wrote(n) => {
                    if n == 0 {
                        return false;
                    }
                    let remaining = total - offset;
                    let step = if n < remaining {
                        n
                    } else {
                        remaining
                    };
                    offset = offset + step;
                },
                ChannelWrite::Failed => {
                    return false;
                },
            }
        }
        true
    }

    /// Performs one channel read and feeds any bytes to the decoder.  An
    /// empty read within the deadline counts as a timeout.
    fn read_once(&mut self, timeout_ms: u32) -> (r: ReadOutcome)
        ensures
            final(self).state == old(self).state,
            final(self).version == old(self).version,
            final(self).retry_count == old(self).retry_count,
            final(self).last_error == old(self).last_error,
    {
        match self.channel.read_some(READ_CHUNK, timeout_ms) {
            ChannelRead::Data(bytes) => {
                if bytes.len() == 0 {
                    ReadOutcome::TimedOut
                } else {
                    self.decoder.feed(&bytes);
                    ReadOutcome::Fed
                }
            },
            ChannelRead::TimedOut => ReadOutcome::TimedOut,
            ChannelRead::Failed => ReadOutcome::Failed,
        }
    }

    /// Reads until the decoder yields a complete frame, a corruption event,
    /// a timeout, or a channel failure.
    fn receive_frame(&mut self, timeout_ms: u32) -> (r: Result<Frame, RecvError>)
        ensures
            final(self).state == old(self).state,
            final(self).version == old(self).version,
            final(self).retry_count == old(self).retry_count,
            final(self).last_error == old(self).last_error,
            r matches Ok(f) ==> f.payload@.len() <= 255,
    {
        let mut reads: u32 = 0;
        loop
            invariant
                reads <= MAX_READS_PER_TRANSACTION,
                self.state == old(self).state,
                self.version == old(self).version,
                self.retry_count == old(self).retry_count,
                self.last_error == old(self).last_error,
            decreases MAX_READS_PER_TRANSACTION - reads,
        {
            match self.decoder.poll() {
                DecodeStep::Got(f) => {
                    return Ok(f);
                },
                DecodeStep::Corrupt => {
                    return Err(RecvError::Corrupt);
                },
                DecodeStep::NeedMore => {
                    if reads == MAX_READS_PER_TRANSACTION {
                        return Err(RecvError::TimedOut);
                    }
                    reads = reads + 1;
                    match self.read_once(timeout_ms) {
                        ReadOutcome::Fed => {},
                        ReadOutcome::TimedOut => {
                            return Err(RecvError::TimedOut);
                        },
                        ReadOutcome::Failed => {
                            return Err(RecvError::Failed);
                        },
                    }
                },
            }
        }
    }

    /// Runs one raw transaction: send the request, receive a frame,
    /// retrying up to [`MAX_CORRUPTION_RETRIES`] times after checksum
    /// corruption, and validate the response type.  Leaves the lifecycle
    /// state to the caller.
    fn transact(&mut self, req: &Request, timeout_ms: u32) -> (r: Result<Vec<u8>, PixyError>)
        requires
            req.payload@.len() <= 255,
        ensures
            final(self).state == old(self).state,
            final(self).version == old(self).version,
            final(self).last_error == old(self).last_error,
            old(self).retry_count <= final(self).retry_count,
            final(self).retry_count as int <= old(self).retry_count as int
                + MAX_CORRUPTION_RETRIES as int,
            r matches Ok(p) ==> p@.len() <= 255,
            r matches Err(e) ==> (e.kind == ErrorKind::Timeout || e.kind
                == ErrorKind::ChannelError || e.kind == ErrorKind::FrameCorruption || e.kind
                matches ErrorKind::UnexpectedReply(_)),
    {
        let bytes = encode_frame(req.req_type, &req.payload, req.checksummed);
        self.decoder.clear();
        let mut retries: u8 = 0;
        loop
            invariant
                retries <= MAX_CORRUPTION_RETRIES,
                self.state == old(self).state,
                self.version == old(self).version,
                self.last_error == old(self).last_error,
                old(self).retry_count <= self.retry_count,
                self.retry_count as int <= old(self).retry_count as int + retries as int,
            decreases MAX_CORRUPTION_RETRIES - retries,
        {
            if !self.write_all(&bytes, timeout_ms) {
                return Err(PixyError { kind: ErrorKind::ChannelError });
            }
            match self.receive_frame(timeout_ms) {
                Ok(f) => {
                    if f.frame_type == req.response_type {
                        return Ok(f.payload);
                    }
                    let t = f.frame_type;
                    self.offending = Some(f);
                    return Err(PixyError { kind: ErrorKind::UnexpectedReply(t) });
                },
                Err(RecvError::Corrupt) => {
                    if retries == MAX_CORRUPTION_RETRIES {
                        return Err(PixyError { kind: ErrorKind::FrameCorruption });
                    }
                    retries = retries + 1;
                    if self.retry_count < u64::MAX {
                        self.retry_count = self.retry_count + 1;
                    }
                },
                Err(RecvError::TimedOut) => {
                    return Err(PixyError { kind: ErrorKind::Timeout });
                },
                Err(RecvError::Failed) => {
                    return Err(PixyError { kind: ErrorKind::ChannelError });
                },
            }
        }
    }

    /// Promotes a fresh engine to ready by performing the `get_version`
    /// handshake; rejects an unusable or closed engine.  Calls made before
    /// a successful handshake fail with `NotReady`.
    fn ensure_ready(&mut self) -> (r: Result<(), PixyError>)
        requires
            old(self).inv(),
        ensures
            final(self).inv(),
            r is Ok ==> final(self).state == EngineState::Ready && final(self).version is Some,
            r matches Err(e) ==> e.kind == ErrorKind::NotReady,
            r is Err ==> (final(self).state == EngineState::Unusable || final(self).state
                == EngineState::Closed),
            old(self).state == EngineState::Ready ==> r is Ok && final(self).state
                == EngineState::Ready && final(self).version == old(self).version
                && final(self).retry_count == old(self).retry_count,
            old(self).state != EngineState::Ready && old(self).state != EngineState::Fresh ==> (
            r is Err && final(self).state == old(self).state
                && final(self).retry_count == old(self).retry_count),
            old(self).state == EngineState::Fresh && r is Err ==> final(self).state
                == EngineState::Unusable,
            old(self).retry_count <= final(self).retry_count,
            final(self).retry_count as int <= old(self).retry_count as int
                + MAX_CORRUPTION_RETRIES as int,
    {
        match self.state {
            EngineState::Ready => Ok(()),
            EngineState::Fresh => {
                let vreq = version_request();
                match self.transact(&vreq, TIMEOUT_COMMAND_MS) {
                    Ok(payload) => {
                        match parse_version(&payload) {
                            Ok(v) => {
                                self.version = Some(v);
                                self.state = EngineState::Ready;
                                Ok(())
                            },
                            Err(e) => {
                                self.last_error = Some(e);
                                self.state = EngineState::Unusable;
                                Err(PixyError { kind: ErrorKind::NotReady })
                            },
                        }
                    },
                    Err(e) => {
                        self.last_error = Some(e);
                        self.state = EngineState::Unusable;
                        Err(PixyError { kind: ErrorKind::NotReady })
                    },
                }
            },
            _ => Err(PixyError { kind: ErrorKind::NotReady }),
        }
    }

    /// Runs one command end to end: handshake gating, request on the wire,
    /// response frame back, and the lifecycle transition that the outcome
    /// dictates.  A channel failure makes the engine unusable; a timeout,
    /// corruption, or an unexpected reply leaves it ready for the next
    /// transaction.
    fn run_command(&mut self, req: &Request, timeout_ms: u32) -> (r: Result<Vec<u8>, PixyError>)
        requires
            old(self).inv(),
            req.payload@.len() <= 255,
        ensures
            final(self).inv(),
            old(self).state != EngineState::Ready && old(self).state != EngineState::Fresh ==> (r
                matches Err(e) && e.kind == ErrorKind::NotReady && final(self).state == old(
                self).state),
            r is Ok ==> final(self).state == EngineState::Ready,
            r matches Ok(p) ==> p@.len() <= 255,
            (r matches Err(e) && e.kind == ErrorKind::Timeout) ==> final(self).state
                == EngineState::Ready,
            (r matches Err(e) && e.kind == ErrorKind::ChannelError) ==> final(self).state
                == EngineState::Unusable,
            (r matches Err(e) && e.kind == ErrorKind::FrameCorruption) ==> final(self).state
                == EngineState::Ready,
            (r matches Err(e) && e.kind matches ErrorKind::UnexpectedReply(_)) ==> final(
                self).state == EngineState::Ready,
            (r matches Err(e) && e.kind == ErrorKind::NotReady) ==> (final(self).state
                == EngineState::Unusable || final(self).state == EngineState::Closed),
            old(self).state == EngineState::Ready && final(self).state == EngineState::Unusable
                ==> (r matches Err(e) && e.kind == ErrorKind::ChannelError),
            r matches Err(e) ==> (e.kind == ErrorKind::Timeout || e.kind
                == ErrorKind::ChannelError || e.kind == ErrorKind::FrameCorruption || e.kind
                matches ErrorKind::UnexpectedReply(_) || e.kind == ErrorKind::NotReady),
            old(self).retry_count <= final(self).retry_count,
            final(self).retry_count as int <= old(self).retry_count as int + 2
                * MAX_CORRUPTION_RETRIES as int,
            old(self).state == EngineState::Ready ==> final(self).retry_count as int <= old(
                self).retry_count as int + MAX_CORRUPTION_RETRIES as int,
    {
        match self.ensure_ready() {
            Ok(()) => {},
            Err(e) => {
                return Err(e);
            },
        }
        self.state = EngineState::InFlight;
        let out = self.transact(req, timeout_ms);
        match out {
            Ok(payload) => {
                self.state = EngineState::Ready;
                Ok(payload)
            },
            Err(e) => {
                self.last_error = Some(e);
                if e.kind == ErrorKind::ChannelError {
                    self.state = EngineState::Unusable;
                } else {
                    self.state = EngineState::Ready;
                }
                Err(e)
            },
        }
    }

    /// Returns the firmware/hardware version, performing the handshake
    /// first if the engine is still fresh.  The value equals the one the
    /// handshake cached.
    pub fn version(&mut self) -> (r: Result<Version, PixyError>)
        requires
            old(self).inv(),
        ensures
            final(self).inv(),
            old(self).state_spec() != EngineState::Ready && old(self).state_spec()
                != EngineState::Fresh ==> (r matches Err(e) && e.kind == ErrorKind::NotReady),
            r is Ok ==> final(self).state_spec() == EngineState::Ready,
            r matches Ok(v) ==> final(self).version_spec() matches Some(w) && v.fw_major
                == w.fw_major && v.fw_minor == w.fw_minor && v.fw_build == w.fw_build && v.fw_type@
                == w.fw_type@ && v.hw == w.hw,
            r matches Err(e) ==> e.kind == ErrorKind::NotReady,
            old(self).state_spec() == EngineState::Ready ==> r is Ok && final(self).version_spec()
                == old(self).version_spec() && final(self).state_spec() == EngineState::Ready
                && final(self).retry_count_spec() == old(self).retry_count_spec(),
            r is Err ==> (final(self).state_spec() == EngineState::Unusable || final(
                self).state_spec() == EngineState::Closed),
            old(self).state_spec() != EngineState::Ready && old(self).state_spec()
                != EngineState::Fresh ==> final(self).state_spec() == old(self).state_spec(),
            old(self).retry_count_spec() <= final(self).retry_count_spec(),
            final(self).retry_count_spec() as int <= old(self).retry_count_spec() as int
                + MAX_CORRUPTION_RETRIES as int,
    {
        match self.ensure_ready() {
            Ok(()) => {},
            Err(e) => {
                return Err(e);
            },
        }
        match &self.version {
            Some(v) => Ok(v.clone()),
            None => {
                assert(false);
                Err(PixyError { kind: ErrorKind::NotReady })
            },
        }
    }

    /// Returns the camera's frame width and height in pixels.
    pub fn resolution(&mut self) -> (r: Result<(u16, u16), PixyError>)
        requires
            old(self).inv(),
        ensures
            final(self).inv(),
            old(self).state_spec() != EngineState::Ready && old(self).state_spec()
                != EngineState::Fresh ==> (r matches Err(e) && e.kind == ErrorKind::NotReady),
            r is Ok ==> final(self).state_spec() == EngineState::Ready,
            (r matches Err(e) && e.kind == ErrorKind::Timeout) ==> final(self).state_spec()
                == EngineState::Ready,
            (r matches Err(e) && e.kind == ErrorKind::ChannelError) ==> final(self).state_spec()
                == EngineState::Unusable,
            old(self).retry_count_spec() <= final(self).retry_count_spec(),
            final(self).retry_count_spec() as int <= old(self).retry_count_spec() as int + 2
                * MAX_CORRUPTION_RETRIES as int,
            old(self).state_spec() == EngineState::Ready ==> final(self).retry_count_spec() as int
                <= old(self).retry_count_spec() as int + MAX_CORRUPTION_RETRIES as int,
            (r matches Err(e) && e.kind == ErrorKind::FrameCorruption) ==> final(self).state_spec()
                == EngineState::Ready,
            (r matches Err(e) && e.kind matches ErrorKind::UnexpectedReply(_)) ==> final(
                self).state_spec() == EngineState::Ready,
            (r matches Err(e) && e.kind == ErrorKind::NotReady) ==> (final(self).state_spec()
                == EngineState::Unusable || final(self).state_spec() == EngineState::Closed),
            old(self).state_spec() != EngineState::Ready && old(self).state_spec()
                != EngineState::Fresh ==> final(self).state_spec() == old(self).state_spec(),
            old(self).state_spec() == EngineState::Ready && final(self).state_spec()
                == EngineState::Unusable ==> (r matches Err(e) && e.kind
                == ErrorKind::ChannelError),
            r matches Err(e) ==> (e.kind == ErrorKind::Timeout || e.kind
                == ErrorKind::ChannelError || e.kind == ErrorKind::FrameCorruption || e.kind
                matches ErrorKind::UnexpectedReply(_) || e.kind == ErrorKind::NotReady),
    {
        let req = resolution_request();
        let payload = match self.run_command(&req, TIMEOUT_COMMAND_MS) {
            Ok(p) => p,
            Err(e) => {
                return Err(e);
            },
        };
        match parse_resolution(&payload) {
            Ok(wh) => Ok(wh),
            Err(e) => {
                self.last_error = Some(e);
                Err(e)
            },
        }
    }

    /// Sets the camera brightness (exposure) value.
    pub fn set_camera_brightness(&mut self, brightness: u8) -> (r: Result<(), PixyError>)
        requires
            old(self).inv(),
        ensures
            final(self).inv(),
            old(self).state_spec() != EngineState::Ready && old(self).state_spec()
                != EngineState::Fresh ==> (r matches Err(e) && e.kind == ErrorKind::NotReady),
            r is Ok ==> final(self).state_spec() == EngineState::Ready,
            (r matches Err(e) && e.kind == ErrorKind::Timeout) ==> final(self).state_spec()
                == EngineState::Ready,
            (r matches Err(e) && e.kind == ErrorKind::ChannelError) ==> final(self).state_spec()
                == EngineState::Unusable,
            r matches Err(e) ==> (e.kind matches ErrorKind::DeviceError(c) ==> (c < 0 && final(
                self).state_spec() == EngineState::Ready)),
            old(self).retry_count_spec() <= final(self).retry_count_spec(),
            final(self).retry_count_spec() as int <= old(self).retry_count_spec() as int + 2
                * MAX_CORRUPTION_RETRIES as int,
            old(self).state_spec() == EngineState::Ready ==> final(self).retry_count_spec() as int
                <= old(self).retry_count_spec() as int + MAX_CORRUPTION_RETRIES as int,
            (r matches Err(e) && e.kind == ErrorKind::FrameCorruption) ==> final(self).state_spec()
                == EngineState::Ready,
            (r matches Err(e) && e.kind matches ErrorKind::UnexpectedReply(_)) ==> final(
                self).state_spec() == EngineState::Ready,
            (r matches Err(e) && e.kind == ErrorKind::NotReady) ==> (final(self).state_spec()
                == EngineState::Unusable || final(self).state_spec() == EngineState::Closed),
            old(self).state_spec() != EngineState::Ready && old(self).state_spec()
                != EngineState::Fresh ==> final(self).state_spec() == old(self).state_spec(),
            old(self).state_spec() == EngineState::Ready && final(self).state_spec()
                == EngineState::Unusable ==> (r matches Err(e) && e.kind
                == ErrorKind::ChannelError),
            r matches Err(e) ==> (e.kind == ErrorKind::Timeout || e.kind
                == ErrorKind::ChannelError || e.kind == ErrorKind::FrameCorruption || e.kind
                matches ErrorKind::UnexpectedReply(_) || e.kind == ErrorKind::NotReady || e.kind
                matches ErrorKind::DeviceError(_)),
    {
        let req = brightness_request(brightness);
        self.run_generic(&req, TIMEOUT_COMMAND_MS)
    }

    /// Moves the pan and tilt servos.  Each position must lie in
    /// `0..=SERVO_POSITION_MAX`; a position out of range is rejected with
    /// `InvalidArgument` before anything reaches the wire.
    pub fn set_servos(&mut self, s0: u16, s1: u16) -> (r: Result<(), PixyError>)
        requires
            old(self).inv(),
        ensures
            final(self).inv(),
            s0 > SERVO_POSITION_MAX || s1 > SERVO_POSITION_MAX ==> (r matches Err(e) && e.kind
                == ErrorKind::InvalidArgument && final(self).state_spec() == old(
                self).state_spec() && final(self).retry_count_spec() == old(
                self).retry_count_spec()),
            (r matches Err(e) && e.kind == ErrorKind::InvalidArgument) ==> s0 > SERVO_POSITION_MAX
                || s1 > SERVO_POSITION_MAX,
            s0 <= SERVO_POSITION_MAX && s1 <= SERVO_POSITION_MAX && old(self).state_spec()
                != EngineState::Ready && old(self).state_spec() != EngineState::Fresh ==> (
            r matches Err(e) && e.kind == ErrorKind::NotReady),
            r is Ok ==> final(self).state_spec() == EngineState::Ready,
            (r matches Err(e) && e.kind == ErrorKind::Timeout) ==> final(self).state_spec()
                == EngineState::Ready,
            (r matches Err(e) && e.kind == ErrorKind::ChannelError) ==> final(self).state_spec()
                == EngineState::Unusable,
            r matches Err(e) ==> (e.kind matches ErrorKind::DeviceError(c) ==> (c < 0 && final(
                self).state_spec() == EngineState::Ready)),
            old(self).retry_count_spec() <= final(self).retry_count_spec(),
            final(self).retry_count_spec() as int <= old(self).retry_count_spec() as int + 2
                * MAX_CORRUPTION_RETRIES as int,
            old(self).state_spec() == EngineState::Ready ==> final(self).retry_count_spec() as int
                <= old(self).retry_count_spec() as int + MAX_CORRUPTION_RETRIES as int,
            (r matches Err(e) && e.kind == ErrorKind::FrameCorruption) ==> final(self).state_spec()
                == EngineState::Ready,
            (r matches Err(e) && e.kind matches ErrorKind::UnexpectedReply(_)) ==> final(
                self).state_spec() == EngineState::Ready,
            (r matches Err(e) && e.kind == ErrorKind::NotReady) ==> (final(self).state_spec()
                == EngineState::Unusable || final(self).state_spec() == EngineState::Closed),
            old(self).state_spec() != EngineState::Ready && old(self).state_spec()
                != EngineState::Fresh ==> final(self).state_spec() == old(self).state_spec(),
            old(self).state_spec() == EngineState::Ready && final(self).state_spec()
                == EngineState::Unusable ==> (r matches Err(e) && e.kind
                == ErrorKind::ChannelError),
            r matches Err(e) ==> (e.kind == ErrorKind::Timeout || e.kind
                == ErrorKind::ChannelError || e.kind == ErrorKind::FrameCorruption || e.kind
                matches ErrorKind::UnexpectedReply(_) || e.kind == ErrorKind::NotReady || e.kind
                matches ErrorKind::DeviceError(_) || e.kind == ErrorKind::InvalidArgument),
    {
        if s0 > SERVO_POSITION_MAX || s1 > SERVO_POSITION_MAX {
            return Err(PixyError { kind: ErrorKind::InvalidArgument });
        }
        let req = servos_request(s0, s1);
        self.run_generic(&req, TIMEOUT_COMMAND_MS)
    }

    /// Sets the RGB LED color.
    pub fn set_led(&mut self, red: u8, green: u8, blue: u8) -> (r: Result<(), PixyError>)
        requires
            old(self).inv(),
        ensures
            final(self).inv(),
            old(self).state_spec() != EngineState::Ready && old(self).state_spec()
                != EngineState::Fresh ==> (r matches Err(e) && e.kind == ErrorKind::NotReady),
            r is Ok ==> final(self).state_spec() == EngineState::Ready,
            (r matches Err(e) && e.kind == ErrorKind::Timeout) ==> final(self).state_spec()
                == EngineState::Ready,
            (r matches Err(e) && e.kind == ErrorKind::ChannelError) ==> final(self).state_spec()
                == EngineState::Unusable,
            r matches Err(e) ==> (e.kind matches ErrorKind::DeviceError(c) ==> (c < 0 && final(
                self).state_spec() == EngineState::Ready)),
            old(self).retry_count_spec() <= final(self).retry_count_spec(),
            final(self).retry_count_spec() as int <= old(self).retry_count_spec() as int + 2
                * MAX_CORRUPTION_RETRIES as int,
            old(self).state_spec() == EngineState::Ready ==> final(self).retry_count_spec() as int
                <= old(self).retry_count_spec() as int + MAX_CORRUPTION_RETRIES as int,
            (r matches Err(e) && e.kind == ErrorKind::FrameCorruption) ==> final(self).state_spec()
                == EngineState::Ready,
            (r matches Err(e) && e.kind matches ErrorKind::UnexpectedReply(_)) ==> final(
                self).state_spec() == EngineState::Ready,
            (r matches Err(e) && e.kind == ErrorKind::NotReady) ==> (final(self).state_spec()
                == EngineState::Unusable || final(self).state_spec() == EngineState::Closed),
            old(self).state_spec() != EngineState::Ready && old(self).state_spec()
                != EngineState::Fresh ==> final(self).state_spec() == old(self).state_spec(),
            old(self).state_spec() == EngineState::Ready && final(self).state_spec()
                == EngineState::Unusable ==> (r matches Err(e) && e.kind
                == ErrorKind::ChannelError),
            r matches Err(e) ==> (e.kind == ErrorKind::Timeout || e.kind
                == ErrorKind::ChannelError || e.kind == ErrorKind::FrameCorruption || e.kind
                matches ErrorKind::UnexpectedReply(_) || e.kind == ErrorKind::NotReady || e.kind
                matches ErrorKind::DeviceError(_)),
    {
        let req = led_request(red, green, blue);
        self.run_generic(&req, TIMEOUT_COMMAND_MS)
    }

    /// Switches the upper and lower lamps on or off.
    pub fn set_lamp(&mut self, upper: u8, lower: u8) -> (r: Result<(), PixyError>)
        requires
            old(self).inv(),
        ensures
            final(self).inv(),
            old(self).state_spec() != EngineState::Ready && old(self).state_spec()
                != EngineState::Fresh ==> (r matches Err(e) && e.kind == ErrorKind::NotReady),
            r is Ok ==> final(self).state_spec() == EngineState::Ready,
            (r matches Err(e) && e.kind == ErrorKind::Timeout) ==> final(self).state_spec()
                == EngineState::Ready,
            (r matches Err(e) && e.kind == ErrorKind::ChannelError) ==> final(self).state_spec()
                == EngineState::Unusable,
            r matches Err(e) ==> (e.kind matches ErrorKind::DeviceError(c) ==> (c < 0 && final(
                self).state_spec() == EngineState::Ready)),
            old(self).retry_count_spec() <= final(self).retry_count_spec(),
            final(self).retry_count_spec() as int <= old(self).retry_count_spec() as int + 2
                * MAX_CORRUPTION_RETRIES as int,
            old(self).state_spec() == EngineState::Ready ==> final(self).retry_count_spec() as int
                <= old(self).retry_count_spec() as int + MAX_CORRUPTION_RETRIES as int,
            (r matches Err(e) && e.kind == ErrorKind::FrameCorruption) ==> final(self).state_spec()
                == EngineState::Ready,
            (r matches Err(e) && e.kind matches ErrorKind::UnexpectedReply(_)) ==> final(
                self).state_spec() == EngineState::Ready,
            (r matches Err(e) && e.kind == ErrorKind::NotReady) ==> (final(self).state_spec()
                == EngineState::Unusable || final(self).state_spec() == EngineState::Closed),
            old(self).state_spec() != EngineState::Ready && old(self).state_spec()
                != EngineState::Fresh ==> final(self).state_spec() == old(self).state_spec(),
            old(self).state_spec() == EngineState::Ready && final(self).state_spec()
                == EngineState::Unusable ==> (r matches Err(e) && e.kind
                == ErrorKind::ChannelError),
            r matches Err(e) ==> (e.kind == ErrorKind::Timeout || e.kind
                == ErrorKind::ChannelError || e.kind == ErrorKind::FrameCorruption || e.kind
                matches ErrorKind::UnexpectedReply(_) || e.kind == ErrorKind::NotReady || e.kind
                matches ErrorKind::DeviceError(_)),
    {
        let req = lamp_request(upper, lower);
        self.run_generic(&req, TIMEOUT_COMMAND_MS)
    }

    /// Returns the camera's current frame rate.  The device reports it as
    /// the non-negative return value of a generic response.
    pub fn get_fps(&mut self) -> (r: Result<i32, PixyError>)
        requires
            old(self).inv(),
        ensures
            final(self).inv(),
            old(self).state_spec() != EngineState::Ready && old(self).state_spec()
                != EngineState::Fresh ==> (r matches Err(e) && e.kind == ErrorKind::NotReady),
            r matches Ok(v) ==> v >= 0 && final(self).state_spec() == EngineState::Ready,
            (r matches Err(e) && e.kind == ErrorKind::Timeout) ==> final(self).state_spec()
                == EngineState::Ready,
            (r matches Err(e) && e.kind == ErrorKind::ChannelError) ==> final(self).state_spec()
                == EngineState::Unusable,
            r matches Err(e) ==> (e.kind matches ErrorKind::DeviceError(c) ==> (c < 0 && final(
                self).state_spec() == EngineState::Ready)),
            old(self).retry_count_spec() <= final(self).retry_count_spec(),
            final(self).retry_count_spec() as int <= old(self).retry_count_spec() as int + 2
                * MAX_CORRUPTION_RETRIES as int,
            old(self).state_spec() == EngineState::Ready ==> final(self).retry_count_spec() as int
                <= old(self).retry_count_spec() as int + MAX_CORRUPTION_RETRIES as int,
            (r matches Err(e) && e.kind == ErrorKind::FrameCorruption) ==> final(self).state_spec()
                == EngineState::Ready,
            (r matches Err(e) && e.kind matches ErrorKind::UnexpectedReply(_)) ==> final(
                self).state_spec() == EngineState::Ready,
            (r matches Err(e) && e.kind == ErrorKind::NotReady) ==> (final(self).state_spec()
                == EngineState::Unusable || final(self).state_spec() == EngineState::Closed),
            old(self).state_spec() != EngineState::Ready && old(self).state_spec()
                != EngineState::Fresh ==> final(self).state_spec() == old(self).state_spec(),
            old(self).state_spec() == EngineState::Ready && final(self).state_spec()
                == EngineState::Unusable ==> (r matches Err(e) && e.kind
                == ErrorKind::ChannelError),
            r matches Err(e) ==> (e.kind == ErrorKind::Timeout || e.kind
                == ErrorKind::ChannelError || e.kind == ErrorKind::FrameCorruption || e.kind
                matches ErrorKind::UnexpectedReply(_) || e.kind == ErrorKind::NotReady || e.kind
                matches ErrorKind::DeviceError(_)),
    {
        let req = fps_request();
        let payload = match self.run_command(&req, TIMEOUT_COMMAND_MS) {
            Ok(p) => p,
            Err(e) => {
                return Err(e);
            },
        };
        match parse_result(&payload) {
            Ok(v) => Ok(v),
            Err(e) => {
                self.last_error = Some(e);
                Err(e)
            },
        }
    }

    /// Returns the blocks the device currently tracks, filtered by the
    /// signature map; at most `max_blocks` of them are kept.
    pub fn get_blocks(&mut self, sigmap: u8, max_blocks: u8) -> (r: Result<Vec<Block>, PixyError>)
        requires
            old(self).inv(),
        ensures
            final(self).inv(),
            old(self).state_spec() != EngineState::Ready && old(self).state_spec()
                != EngineState::Fresh ==> (r matches Err(e) && e.kind == ErrorKind::NotReady),
            r matches Ok(v) ==> v@.len() <= max_blocks as int && v@.len() <= 18 && final(
                self).state_spec() == EngineState::Ready,
            (r matches Err(e) && e.kind == ErrorKind::Timeout) ==> final(self).state_spec()
                == EngineState::Ready,
            (r matches Err(e) && e.kind == ErrorKind::ChannelError) ==> final(self).state_spec()
                == EngineState::Unusable,
            old(self).retry_count_spec() <= final(self).retry_count_spec(),
            final(self).retry_count_spec() as int <= old(self).retry_count_spec() as int + 2
                * MAX_CORRUPTION_RETRIES as int,
            old(self).state_spec() == EngineState::Ready ==> final(self).retry_count_spec() as int
                <= old(self).retry_count_spec() as int + MAX_CORRUPTION_RETRIES as int,
            (r matches Err(e) && e.kind == ErrorKind::FrameCorruption) ==> final(self).state_spec()
                == EngineState::Ready,
            (r matches Err(e) && e.kind matches ErrorKind::UnexpectedReply(_)) ==> final(
                self).state_spec() == EngineState::Ready,
            (r matches Err(e) && e.kind == ErrorKind::NotReady) ==> (final(self).state_spec()
                == EngineState::Unusable || final(self).state_spec() == EngineState::Closed),
            old(self).state_spec() != EngineState::Ready && old(self).state_spec()
                != EngineState::Fresh ==> final(self).state_spec() == old(self).state_spec(),
            old(self).state_spec() == EngineState::Ready && final(self).state_spec()
                == EngineState::Unusable ==> (r matches Err(e) && e.kind
                == ErrorKind::ChannelError),
            r matches Err(e) ==> (e.kind == ErrorKind::Timeout || e.kind
                == ErrorKind::ChannelError || e.kind == ErrorKind::FrameCorruption || e.kind
                matches ErrorKind::UnexpectedReply(_) || e.kind == ErrorKind::NotReady),
    {
        let req = blocks_request(sigmap, max_blocks);
        let payload = match self.run_command(&req, TIMEOUT_BLOCKS_MS) {
            Ok(p) => p,
            Err(e) => {
                return Err(e);
            },
        };
        let mut blocks = parse_blocks(&payload);
        if blocks.len() > max_blocks as usize {
            blocks.truncate(max_blocks as usize);
        }
        Ok(blocks)
    }

    /// Returns the line-follower features the device currently reports.
    pub fn get_main_features(&mut self, request: u8, features: u8) -> (r: Result<
        Vec<Feature>,
        PixyError,
    >)
        requires
            old(self).inv(),
        ensures
            final(self).inv(),
            old(self).state_spec() != EngineState::Ready && old(self).state_spec()
                != EngineState::Fresh ==> (r matches Err(e) && e.kind == ErrorKind::NotReady),
            r is Ok ==> final(self).state_spec() == EngineState::Ready,
            (r matches Err(e) && e.kind == ErrorKind::Timeout) ==> final(self).state_spec()
                == EngineState::Ready,
            (r matches Err(e) && e.kind == ErrorKind::ChannelError) ==> final(self).state_spec()
                == EngineState::Unusable,
            old(self).retry_count_spec() <= final(self).retry_count_spec(),
            final(self).retry_count_spec() as int <= old(self).retry_count_spec() as int + 2
                * MAX_CORRUPTION_RETRIES as int,
            old(self).state_spec() == EngineState::Ready ==> final(self).retry_count_spec() as int
                <= old(self).retry_count_spec() as int + MAX_CORRUPTION_RETRIES as int,
            (r matches Err(e) && e.kind == ErrorKind::FrameCorruption) ==> final(self).state_spec()
                == EngineState::Ready,
            (r matches Err(e) && e.kind matches ErrorKind::UnexpectedReply(_)) ==> final(
                self).state_spec() == EngineState::Ready,
            (r matches Err(e) && e.kind == ErrorKind::NotReady) ==> (final(self).state_spec()
                == EngineState::Unusable || final(self).state_spec() == EngineState::Closed),
            old(self).state_spec() != EngineState::Ready && old(self).state_spec()
                != EngineState::Fresh ==> final(self).state_spec() == old(self).state_spec(),
            old(self).state_spec() == EngineState::Ready && final(self).state_spec()
                == EngineState::Unusable ==> (r matches Err(e) && e.kind
                == ErrorKind::ChannelError),
            r matches Err(e) ==> (e.kind == ErrorKind::Timeout || e.kind
                == ErrorKind::ChannelError || e.kind == ErrorKind::FrameCorruption || e.kind
                matches ErrorKind::UnexpectedReply(_) || e.kind == ErrorKind::NotReady),
    {
        let req = main_features_request(request, features);
        let payload = match self.run_command(&req, TIMEOUT_BLOCKS_MS) {
            Ok(p) => p,
            Err(e) => {
                return Err(e);
            },
        };
        match parse_main_features(&payload) {
            Ok(v) => Ok(v),
            Err(e) => {
                self.last_error = Some(e);
                Err(e)
            },
        }
    }

    /// Closes the engine.  Terminal: every later call fails `NotReady`,
    /// and a reset does not revive a closed engine.
    pub fn close(&mut self)
        requires
            old(self).inv(),
        ensures
            final(self).inv(),
            final(self).state_spec() == EngineState::Closed,
    {
        self.state = EngineState::Closed;
    }

    /// Returns an unusable (or fresh or ready) engine to the fresh state,
    /// dropping the cached version and buffered bytes, so that the next
    /// call attempts the handshake again.  A closed engine stays closed.
    pub fn reset(&mut self)
        requires
            old(self).inv(),
        ensures
            final(self).inv(),
            old(self).state_spec() == EngineState::Closed ==> final(self).state_spec()
                == EngineState::Closed,
            old(self).state_spec() != EngineState::Closed ==> final(self).state_spec()
                == EngineState::Fresh && final(self).version_spec() is None && final(
                self).offending_frame_spec() is None,
    {
        if self.state != EngineState::Closed {
            self.state = EngineState::Fresh;
            self.version = None;
            self.last_error = None;
            self.offending = None;
            self.decoder.clear();
        }
    }

    /// Shared tail of the commands whose response is the generic return
    /// code: a negative return surfaces as `DeviceError`, anything else is
    /// success.
    fn run_generic(&mut self, req: &Request, timeout_ms: u32) -> (r: Result<(), PixyError>)
        requires
            old(self).inv(),
            req.payload@.len() <= 255,
        ensures
            final(self).inv(),
            old(self).state != EngineState::Ready && old(self).state != EngineState::Fresh ==> (
            r matches Err(e) && e.kind == ErrorKind::NotReady),
            r is Ok ==> final(self).state == EngineState::Ready,
            (r matches Err(e) && e.kind == ErrorKind::Timeout) ==> final(self).state
                == EngineState::Ready,
            (r matches Err(e) && e.kind == ErrorKind::ChannelError) ==> final(self).state
                == EngineState::Unusable,
            r matches Err(e) ==> (e.kind matches ErrorKind::DeviceError(c) ==> (c < 0 && final(
                self).state == EngineState::Ready)),
            r matches Err(e) ==> (e.kind == ErrorKind::Timeout || e.kind
                == ErrorKind::ChannelError || e.kind == ErrorKind::FrameCorruption || e.kind
                matches ErrorKind::UnexpectedReply(_) || e.kind == ErrorKind::NotReady || e.kind
                matches ErrorKind::DeviceError(_)),
            old(self).retry_count <= final(self).retry_count,
            final(self).retry_count as int <= old(self).retry_count as int + 2
                * MAX_CORRUPTION_RETRIES as int,
            old(self).state == EngineState::Ready ==> final(self).retry_count as int <= old(
                self).retry_count as int + MAX_CORRUPTION_RETRIES as int,
            (r matches Err(e) && e.kind == ErrorKind::FrameCorruption) ==> final(self).state
                == EngineState::Ready,
            (r matches Err(e) && e.kind matches ErrorKind::UnexpectedReply(_)) ==> final(
                self).state == EngineState::Ready,
            (r matches Err(e) && e.kind == ErrorKind::NotReady) ==> (final(self).state
                == EngineState::Unusable || final(self).state == EngineState::Closed),
            old(self).state != EngineState::Ready && old(self).state != EngineState::Fresh ==>
                final(self).state == old(self).state,
            old(self).state == EngineState::Ready && final(self).state == EngineState::Unusable
                ==> (r matches Err(e) && e.kind == ErrorKind::ChannelError),
    {
        let payload = match self.run_command(req, timeout_ms) {
            Ok(p) => p,
            Err(e) => {
                return Err(e);
            },
        };
        match parse_result(&payload) {
            Ok(_) => Ok(()),
            Err(e) => {
                self.last_error = Some(e);
                Err(e)
            },
        }
    }
}

} // verus!
