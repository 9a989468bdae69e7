use vstd::prelude::*;

use vstd::bytes::{spec_u32_from_le_bytes, u32_from_le_bytes};

verus! {

/// A well-shaped stream frame: a four-byte little-endian length prefix
/// followed by exactly the number of envelope bytes it announces.
pub open spec fn wire_frame_of(w: Seq<u8>) -> bool {
    w.len() >= 4 && w.len() == 4 + spec_u32_from_le_bytes(w.subrange(0, 4))
}

/// The phases of one connection's read direction.
#[derive(Clone, Copy, Debug, PartialEq, Eq, Structural)]
pub enum ReadState {
    Idle,
    ReadingLength,
    ReadingBody,
    EnvelopeReady,
    Closed,
}

/// The read half of a connection: envelopes are cut out of the byte stream
/// one frame at a time, by first collecting the four-byte length prefix and
/// then exactly that many envelope bytes. Stream failure or EOF moves the
/// machine to `Closed` from every phase.
pub struct Deframer {
    pub state: ReadState,
    pub buf: Vec<u8>,
    pub need: usize,
}

impl Deframer {
    /// Each phase holds exactly the bytes it is still collecting.
    pub open spec fn wf(self) -> bool {
        match self.state {
            ReadState::Idle => self.buf@.len() == 0,
            ReadState::ReadingLength => self.buf@.len() < 4,
            ReadState::ReadingBody => self.buf@.len() < self.need,
            ReadState::EnvelopeReady => self.buf@.len() == self.need,
            ReadState::Closed => true,
        }
    }

    pub fn new() -> (d: Deframer)
        ensures
            d.wf(),
            d.state is Idle,
    {
        Deframer { state: ReadState::Idle, buf: Vec::new(), need: 0 }
    }

    /// Idle to Reading-Length: the next frame's length prefix is awaited.
    pub fn begin(&mut self)
        requires
            old(self).wf(),
            old(self).state is Idle,
        ensures
            final(self).wf(),
            final(self).state is ReadingLength,
            final(self).buf@.len() == 0,
    {
        self.state = ReadState::ReadingLength;
    }

    /// One byte arrives from the stream. While the length prefix is short it
    /// joins the prefix; the fourth prefix byte fixes how many envelope bytes
    /// follow; a body byte joins the envelope, which is ready exactly when
    /// the announced length is reached.
    pub fn feed(&mut self, byte: u8)
        requires
            old(self).wf(),
            old(self).state is ReadingLength || old(self).state is ReadingBody,
        ensures
            final(self).wf(),
            old(self).state is ReadingLength && old(self).buf@.len() < 3 ==> final(self).state
                is ReadingLength && final(self).buf@ == old(self).buf@.push(byte),
            old(self).state is ReadingLength && old(self).buf@.len() == 3 ==> {
                &&& final(self).need == spec_u32_from_le_bytes(old(self).buf@.push(byte)) as usize
                &&& final(self).buf@.len() == 0
                &&& (final(self).state is ReadingBody <==> final(self).need > 0)
                &&& (final(self).state is EnvelopeReady <==> final(self).need == 0)
            },
            old(self).state is ReadingBody ==> {
                &&& final(self).buf@ == old(self).buf@.push(byte)
                &&& final(self).need == old(self).need
                &&& (final(self).state is EnvelopeReady <==> old(self).buf@.len() + 1 == old(
                    self,
                ).need)
                &&& (final(self).state is ReadingBody <==> old(self).buf@.len() + 1 < old(
                    self,
                ).need)
            },
    {
        match self.state {
            ReadState::ReadingLength => {
                self.buf.push(byte);
                if self.buf.len() == 4 {
                    let n = u32_from_le_bytes(self.buf.as_slice());
                    self.need = n as usize;
                    self.buf.clear();
                    if self.need == 0 {
                        self.state = ReadState::EnvelopeReady;
                    } else {
                        self.state = ReadState::ReadingBody;
                    }
                }
            },
            ReadState::ReadingBody => {
                self.buf.push(byte);
                if self.buf.len() == self.need {
                    self.state = ReadState::EnvelopeReady;
                }
            },
            _ => {
                proof {
                    assert(false);
                }
            },
        }
    }

    /// Envelope-Ready back to Idle: the completed envelope's bytes — exactly
    /// as many as the frame's prefix announced — are handed out.
    pub fn take_envelope(&mut self) -> (env: Vec<u8>)
        requires
            old(self).wf(),
            old(self).state is EnvelopeReady,
        ensures
            final(self).wf(),
            final(self).state is Idle,
            env@ == old(self).buf@,
            env@.len() == old(self).need,
    {
        self.state = ReadState::Idle;
        self.need = 0;
        let mut env: Vec<u8> = Vec::new();
        core::mem::swap(&mut env, &mut self.buf);
        env
    }

    /// Reads one whole stream frame from `wire`: exactly when `wire` is one
    /// well-shaped frame — a four-byte length prefix followed by that many
    /// bytes — the machine runs Idle, Reading-Length, Reading-Body,
    /// Envelope-Ready and hands back precisely the envelope bytes behind the
    /// prefix; anything short, long or inconsistent yields nothing.
    pub fn read_wire(&mut self, wire: &[u8]) -> (out: Option<Vec<u8>>)
        requires
            old(self).wf(),
            old(self).state is Idle,
        ensures
            final(self).wf(),
            if wire_frame_of(wire@) {
                out matches Some(env) && env@ == wire@.skip(4)
            } else {
                out is None
            },
    {
        self.begin();
        let mut i: usize = 0;
        while i < wire.len() && self.state != ReadState::EnvelopeReady
            invariant
                self.wf(),
                i <= wire@.len(),
                self.state is ReadingLength || self.state is ReadingBody || self.state
                    is EnvelopeReady,
                self.state is ReadingLength ==> i < 4 && i as int == self.buf@.len()
                    && self.buf@ == wire@.subrange(0, i as int),
                self.state is ReadingBody || self.state is EnvelopeReady ==> {
                    &&& i >= 4
                    &&& wire@.len() >= 4
                    &&& self.need == spec_u32_from_le_bytes(wire@.subrange(0, 4))
                    &&& self.buf@ == wire@.subrange(4, i as int)
                    &&& (self.state is EnvelopeReady <==> self.buf@.len() == self.need)
                },
            decreases wire@.len() - i,
        {
            let ghost pre = *self;
            let b = *vstd::slice::slice_index_get(wire, i);
            self.feed(b);
            proof {
                if pre.state is ReadingLength {
                    assert(pre.buf@.push(b) =~= wire@.subrange(0, i as int + 1));
                    if pre.buf@.len() == 3 {
                        assert(self.buf@ =~= wire@.subrange(4, 4));
                    }
                } else {
                    assert(pre.buf@.push(b) =~= wire@.subrange(4, i as int + 1));
                }
            }
            i += 1;
        }
        if self.state == ReadState::EnvelopeReady && i == wire.len() {
            let env = self.take_envelope();
            proof {
                assert(wire@.subrange(4, wire@.len() as int) =~= wire@.skip(4));
            }
            Some(env)
        } else {
            None
        }
    }

    /// Stream error or EOF: every phase reaches Closed.
    pub fn close(&mut self)
        ensures
            final(self).wf(),
            final(self).state is Closed,
    {
        self.state = ReadState::Closed;
    }
}

} // verus!
