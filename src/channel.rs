//! Framing of self-delimited messages over a byte stream.
//!
//! A message schema decides how long the message at the front of the buffered
//! bytes is, or that it is invalid; the reader and writer here decide what to
//! do with that verdict.
use vstd::prelude::*;

verus! {

/// Why reading a message failed.
#[derive(Clone, Copy, Debug, PartialEq, Eq, Structural)]
pub enum MsgReadError {
    /// The stream ended cleanly at a message boundary.
    Eof,
    /// The stream ended in the middle of a message.
    Truncated,
    /// The bytes at the front do not form a valid message, or one too large.
    Invalid,
    /// The underlying stream failed.
    Io,
}

/// The schema's verdict on the buffered bytes.
#[derive(Clone, Copy, Debug, PartialEq, Eq, Structural)]
pub enum FrameProbe {
    /// A valid message of this many bytes stands at the front.
    Complete(usize),
    /// More bytes are needed to tell.
    Incomplete,
    /// The bytes at the front cannot start a valid message.
    Invalid,
}

/// What the reader does next.
pub enum FrameStep {
    /// A whole message, removed from the buffer.
    Frame(Vec<u8>),
    /// Read more bytes from the stream, then probe again.
    NeedMore,
    /// Reading stops with an error.
    Failed(MsgReadError),
}

/// The message at the front of `buffered` and the bytes after it.
pub open spec fn split_frame(buffered: Seq<u8>, n: int) -> (Seq<u8>, Seq<u8>) {
    (buffered.subrange(0, n), buffered.subrange(n, buffered.len() as int))
}

/// What the reader decides on a verdict, given the buffered bytes.
pub open spec fn frame_outcome(
    buffered: Seq<u8>,
    max_msg_size: usize,
    eof: bool,
    probe: FrameProbe,
) -> Option<MsgReadError> {
    match probe {
        FrameProbe::Complete(n) => if 0 < n <= buffered.len() && n <= max_msg_size {
            None
        } else {
            Some(MsgReadError::Invalid)
        },
        FrameProbe::Incomplete => if buffered.len() >= max_msg_size {
            Some(MsgReadError::Invalid)
        } else if eof && buffered.len() == 0 {
            Some(MsgReadError::Eof)
        } else if eof {
            Some(MsgReadError::Truncated)
        } else {
            None
        },
        FrameProbe::Invalid => Some(MsgReadError::Invalid),
    }
}

/// Reader side: a growable staging buffer in front of a byte stream.
pub struct MsgReader {
    buffer: Vec<u8>,
    max_msg_size: usize,
    eof: bool,
}

impl MsgReader {
    /// Bytes received and not yet handed out.
    pub closed spec fn buffered(&self) -> Seq<u8> {
        self.buffer@
    }

    pub closed spec fn spec_max_msg_size(&self) -> usize {
        self.max_msg_size
    }

    /// The stream has ended.
    pub closed spec fn at_eof(&self) -> bool {
        self.eof
    }

    pub fn new(max_msg_size: usize) -> (r: MsgReader)
        ensures
            r.buffered() == Seq::<u8>::empty(),
            r.spec_max_msg_size() == max_msg_size,
            !r.at_eof(),
    {
        MsgReader { buffer: Vec::new(), max_msg_size, eof: false }
    }

    pub fn max_msg_size(&self) -> (r: usize)
        ensures
            r == self.spec_max_msg_size(),
    {
        self.max_msg_size
    }

    /// The bytes waiting to be probed.
    pub fn buffer(&self) -> (r: &Vec<u8>)
        ensures
            r@ == self.buffered(),
    {
        &self.buffer
    }

    /// Appends bytes read from the stream.
    pub fn push_bytes(&mut self, bytes: &[u8])
        ensures
            final(self).buffered() == old(self).buffered() + bytes@,
            final(self).spec_max_msg_size() == old(self).spec_max_msg_size(),
            final(self).at_eof() == old(self).at_eof(),
    {
        let mut i: usize = 0;
        while i < bytes.len()
            invariant
                0 <= i <= bytes@.len(),
                self.buffer@ == old(self).buffer@ + bytes@.subrange(0, i as int),
                self.max_msg_size == old(self).max_msg_size,
                self.eof == old(self).eof,
            decreases bytes@.len() - i,
        {
            self.buffer.push(bytes[i]);
            i = i + 1;
            assert(self.buffer@ =~= old(self).buffer@ + bytes@.subrange(0, i as int));
        }
        assert(bytes@.subrange(0, bytes@.len() as int) =~= bytes@);
    }

    /// Records that the stream has ended.
    pub fn set_eof(&mut self)
        ensures
            final(self).buffered() == old(self).buffered(),
            final(self).spec_max_msg_size() == old(self).spec_max_msg_size(),
            final(self).at_eof(),
    {
        self.eof = true;
    }

    /// Acts on the schema's verdict about the buffered bytes.
    pub fn next_frame(&mut self, probe: FrameProbe) -> (r: FrameStep)
        ensures
            final(self).spec_max_msg_size() == old(self).spec_max_msg_size(),
            final(self).at_eof() == old(self).at_eof(),
            match frame_outcome(old(self).buffered(), old(self).spec_max_msg_size(), old(self).at_eof(), probe) {
                Some(e) => r == FrameStep::Failed(e) && final(self).buffered() == old(self).buffered(),
                None => match probe {
                    FrameProbe::Complete(n) => {
                        let (msg, rest) = split_frame(old(self).buffered(), n as int);
                        &&& r matches FrameStep::Frame(m) && m@ == msg
                        &&& final(self).buffered() == rest
                    },
                    _ => r is NeedMore && final(self).buffered() == old(self).buffered(),
                },
            },
    {
        match probe {
            FrameProbe::Complete(n) => {
                if n == 0 || n > self.buffer.len() || n > self.max_msg_size {
                    return FrameStep::Failed(MsgReadError::Invalid);
                }
                let mut msg: Vec<u8> = Vec::new();
                let mut rest: Vec<u8> = Vec::new();
                let len = self.buffer.len();
                let mut i: usize = 0;
                while i < len
                    invariant
                        0 <= i <= len,
                        0 < n <= len,
                        len == self.buffer@.len(),
                        self.buffer@ == old(self).buffer@,
                        i <= n ==> msg@ == self.buffer@.subrange(0, i as int) && rest@.len() == 0,
                        i > n ==> msg@ == self.buffer@.subrange(0, n as int) && rest@
                            == self.buffer@.subrange(n as int, i as int),
                    decreases len - i,
                {
                    if i < n {
                        msg.push(self.buffer[i]);
                    } else {
                        rest.push(self.buffer[i]);
                    }
                    i = i + 1;
                    assert(i <= n ==> msg@ =~= self.buffer@.subrange(0, i as int));
                    assert(i > n ==> msg@ =~= self.buffer@.subrange(0, n as int));
                    assert(i > n ==> rest@ =~= self.buffer@.subrange(n as int, i as int));
                }
                if n == len {
                    assert(rest@ =~= self.buffer@.subrange(n as int, len as int));
                }
                self.buffer = rest;
                FrameStep::Frame(msg)
            },
            FrameProbe::Incomplete => {
                if self.buffer.len() >= self.max_msg_size {
                    FrameStep::Failed(MsgReadError::Invalid)
                } else if self.eof && self.buffer.len() == 0 {
                    FrameStep::Failed(MsgReadError::Eof)
                } else if self.eof {
                    FrameStep::Failed(MsgReadError::Truncated)
                } else {
                    FrameStep::NeedMore
                }
            },
            FrameProbe::Invalid => FrameStep::Failed(MsgReadError::Invalid),
        }
    }
}

/// Writer side: a fixed-size scratch buffer in which one message is laid out at a time.
pub struct MsgWriter {
    buffer: Vec<u8>,
}

impl MsgWriter {
    pub closed spec fn scratch(&self) -> Seq<u8> {
        self.buffer@
    }

    pub fn new(max_msg_size: usize) -> (r: MsgWriter)
        ensures
            r.scratch().len() == max_msg_size,
            forall|i: int| 0 <= i < max_msg_size ==> r.scratch()[i] == 0,
    {
        MsgWriter { buffer: vec![0u8; max_msg_size] }
    }

    /// A writer with a scratch buffer of its own, of the same size.
    pub fn clone_writer(&self) -> (r: MsgWriter)
        ensures
            r.scratch().len() == self.scratch().len(),
    {
        MsgWriter { buffer: vec![0u8; self.buffer.len()] }
    }

    pub fn max_msg_size(&self) -> (r: usize)
        ensures
            r == self.scratch().len(),
    {
        self.buffer.len()
    }

    /// The scratch buffer, for the schema to lay a message out in.
    pub fn buffer_mut(&mut self) -> (r: &mut Vec<u8>)
        ensures
            r@ == old(self).scratch(),
            final(self).scratch() == final(r)@,
    {
        &mut self.buffer
    }

    /// The bytes of the laid-out message of `size` bytes, ready to be sent whole.
    pub fn frame(&self, size: usize) -> (r: Option<Vec<u8>>)
        ensures
            r is Some <==> 0 < size <= self.scratch().len(),
            r matches Some(bytes) ==> bytes@ == self.scratch().subrange(0, size as int),
    {
        if size == 0 || size > self.buffer.len() {
            return None;
        }
        let mut out: Vec<u8> = Vec::new();
        let mut i: usize = 0;
        while i < size
            invariant
                0 <= i <= size,
                size <= self.buffer@.len(),
                out@ == self.buffer@.subrange(0, i as int),
            decreases size - i,
        {
            out.push(self.buffer[i]);
            i = i + 1;
            assert(out@ =~= self.buffer@.subrange(0, i as int));
        }
        Some(out)
    }
}

/// Messages written one after another come back one by one: when the schema
/// reports the length of the message at the front, the reader hands out exactly
/// its bytes and keeps the rest.
pub proof fn lemma_frame_round_trip(msg: Seq<u8>, rest: Seq<u8>, max_msg_size: usize, eof: bool)
    requires
        0 < msg.len() <= max_msg_size,
    ensures
        frame_outcome(msg + rest, max_msg_size, eof, FrameProbe::Complete(msg.len() as usize))
            is None,
        split_frame(msg + rest, msg.len() as int) == (msg, rest),
{
    assert((msg + rest).subrange(0, msg.len() as int) =~= msg);
    assert((msg + rest).subrange(msg.len() as int, (msg + rest).len() as int) =~= rest);
}

/// A stream that ends at a message boundary ends cleanly; one that ends inside a message is truncated.
pub proof fn lemma_end_of_stream(buffered: Seq<u8>, max_msg_size: usize)
    requires
        buffered.len() < max_msg_size,
    ensures
        buffered.len() == 0 ==> frame_outcome(buffered, max_msg_size, true, FrameProbe::Incomplete)
            == Some(MsgReadError::Eof),
        buffered.len() > 0 ==> frame_outcome(buffered, max_msg_size, true, FrameProbe::Incomplete)
            == Some(MsgReadError::Truncated),
{
}

} // verus!
