//! A scripted byte channel.
//!
//! [`ScriptedChannel`] implements [`ByteChannel`] without any device: it
//! records every byte written to it on a `wire` log and answers successive
//! reads from a fixed script.  It exercises the engine end to end — partial
//! writes, garbage bytes, corrupt frames, timeouts, and channel failures
//! are all a matter of what the script holds.

use vstd::prelude::*;

use crate::codec::copy_range;
use crate::engine::{ByteChannel, ChannelRead, ChannelWrite};

verus! {

/// One scripted answer to a channel read.
pub enum ScriptStep {
    /// Deliver these bytes.
    Give(Vec<u8>),
    /// Deliver nothing within the deadline: a timeout.
    Quiet,
    /// Fail the read, as a broken transport would.
    Fail,
}

/// A byte channel that records writes and replays a script of reads.
pub struct ScriptedChannel {
    wire: Vec<u8>,
    script: Vec<ScriptStep>,
    pos: usize,
    write_limit: usize,
    fail_writes: bool,
}

impl ScriptedChannel {
    /// The bytes written to the channel so far.
    pub closed spec fn wire_spec(&self) -> Seq<u8> {
        self.wire@
    }

    /// A channel that answers reads from `script` and accepts at most
    /// `write_limit` bytes per write (short writes exercise the engine's
    /// write loop).  Reads past the end of the script time out.
    pub fn new(script: Vec<ScriptStep>, write_limit: usize) -> (c: ScriptedChannel)
        requires
            write_limit >= 1,
        ensures
            c.wire_spec() == Seq::<u8>::empty(),
    {
        ScriptedChannel { wire: Vec::new(), script, pos: 0, write_limit, fail_writes: false }
    }

    /// A channel whose writes fail outright.
    pub fn failing_writes() -> (c: ScriptedChannel)
        ensures
            c.wire_spec() == Seq::<u8>::empty(),
    {
        ScriptedChannel {
            wire: Vec::new(),
            script: Vec::new(),
            pos: 0,
            write_limit: 1,
            fail_writes: true,
        }
    }

    /// Borrows the wire log: everything written so far, in order.
    pub fn wire(&self) -> (r: &Vec<u8>)
        ensures
            r@ == self.wire_spec(),
    {
        &self.wire
    }
}

impl ByteChannel for ScriptedChannel {
    fn write_some(&mut self, data: &Vec<u8>, offset: usize, _timeout_ms: u32) -> (r: ChannelWrite)
    {
        if self.fail_writes {
            return ChannelWrite::Failed;
        }
        let remaining = data.len() - offset;
        let k = if self.write_limit < remaining {
            self.write_limit
        } else {
            remaining
        };
        let mut chunk = copy_range(data, offset, offset + k);
        self.wire.append(&mut chunk);
        ChannelWrite::Wrote(k)
    }

    fn read_some(&mut self, _max_bytes: usize, _timeout_ms: u32) -> (r: ChannelRead) {
        if self.pos < self.script.len() {
            let idx = self.pos;
            self.pos = self.pos + 1;
            match &self.script[idx] {
                ScriptStep::Give(bytes) => ChannelRead::Data(copy_range(bytes, 0, bytes.len())),
                ScriptStep::Quiet => ChannelRead::TimedOut,
                ScriptStep::Fail => ChannelRead::Failed,
            }
        } else {
            ChannelRead::TimedOut
        }
    }
}

} // verus!
