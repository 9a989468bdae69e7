use vstd::prelude::*;

use crate::codec::{
    decode_envelope, encode_envelope, frame_wire, lemma_frame_round_trip, payload_encodable,
    spec_decode, spec_encode, HEADER_LEN,
};
use crate::deframer::wire_frame_of;
use crate::error::MuxError;
use crate::frame::{Frame, FrameView, Tagged, TaggedView};
use crate::tagger::Tagger;

verus! {

/// How one call ends: with the matching response payload, or with the
/// connection-failure signal handed to every caller when the stream dies.
pub enum CallOutcome {
    Response(Frame),
    Failed(MuxError),
}

/// The resolution of one outstanding call, handed back to the caller that
/// issued the request stored here.
pub struct Completion {
    pub tag: u32,
    pub request: Frame,
    pub outcome: CallOutcome,
}

/// The client half of the multiplex transport for one connection: it owns
/// the tag allocator and the outstanding-request table (a dense slot array
/// indexed by tag), stamps a fresh tag on each outgoing request, and routes
/// each arriving response to the caller whose request carries that tag.
///
/// Concurrency is unbounded: the transport accepts a new call whenever the
/// connection is open and the tag space is not exhausted.
pub struct MuxClient {
    pub tagger: Tagger,
    pub pending: Vec<Option<Frame>>,
    pub closed: bool,
}

impl MuxClient {
    /// The outstanding-request table as a map from tag to the model of the
    /// request awaiting its response.
    pub open spec fn pending_map(self) -> Map<u32, FrameView> {
        Map::new(
            |t: u32| t < self.pending@.len() && self.pending@[t as int] is Some,
            |t: u32| self.pending@[t as int]->0@,
        )
    }

    /// The set of tags currently outstanding.
    pub open spec fn tags(self) -> Set<nat> {
        self.tagger@
    }

    pub open spec fn is_closed(self) -> bool {
        self.closed
    }

    /// While this holds, a new call is owed a fresh tag.
    pub open spec fn can_accept(self) -> bool {
        self.tagger.space_ok()
    }

    /// Well-formedness: the slot array and the allocator agree — a slot is
    /// filled exactly when its index is an allocated tag — and every tag fits
    /// the tag width.
    pub open spec fn wf(self) -> bool {
        &&& forall|i: int|
            0 <= i < self.pending@.len() ==> (#[trigger] self.pending@[i] is Some
                <==> self.tagger@.contains(i as nat))
        &&& forall|t: nat| #[trigger] self.tagger@.contains(t) ==> t < self.pending@.len()
        &&& self.pending@.len() <= u32::MAX as nat + 1
    }

    pub fn new() -> (c: MuxClient)
        ensures
            c.wf(),
            !c.is_closed(),
            c.can_accept(),
            c.pending_map() == Map::<u32, FrameView>::empty(),
            c.tags() == Set::<nat>::empty(),
    {
        let c = MuxClient { tagger: Tagger::new(), pending: Vec::new(), closed: false };
        proof {
            assert(c.pending_map() =~= Map::<u32, FrameView>::empty());
        }
        c
    }

    /// Readiness: the dispatcher submits a call only while the connection is
    /// open.
    pub fn ready(&self) -> (b: bool)
        ensures
            b == !self.is_closed(),
    {
        !self.closed
    }

    /// One call enters the transport: a fresh tag — one no simultaneously
    /// outstanding request carries — is allocated, the request is recorded in
    /// the outstanding table under that tag, and the envelope to write to the
    /// stream is returned. Fails only on tag exhaustion, leaving the
    /// transport unchanged.
    pub fn begin_call(&mut self, req: Frame) -> (r: Result<Tagged<Frame>, MuxError>)
        requires
            old(self).wf(),
            !old(self).is_closed(),
        ensures
            final(self).wf(),
            final(self).is_closed() == old(self).is_closed(),
            match r {
                Ok(env) => env.v == req && !old(self).pending_map().dom().contains(env.tag)
                    && final(self).pending_map() == old(self).pending_map().insert(env.tag, req@)
                    && final(self).tags() == old(self).tags().insert(env.tag as nat),
                Err(e) => e == MuxError::Exhausted
                    && final(self).pending_map() == old(self).pending_map()
                    && final(self).tags() == old(self).tags(),
            },
            old(self).can_accept() ==> r is Ok,
    {
        let tag = match self.tagger.allocate() {
            Ok(tag) => tag,
            Err(e) => {
                proof {
                    assert(self.pending_map() =~= old(self).pending_map());
                }
                return Err(e);
            },
        };
        let copy = req.duplicate();
        let ghost mid = *self;
        while self.pending.len() <= tag as usize
            invariant
                self.tagger == mid.tagger,
                self.closed == mid.closed,
                mid.pending@.len() <= self.pending@.len(),
                self.pending@.len() <= mid.pending@.len() || self.pending@.len() <= tag as nat + 1,
                forall|i: int|
                    0 <= i < mid.pending@.len() ==> self.pending@[i] == mid.pending@[i],
                forall|i: int|
                    mid.pending@.len() <= i < self.pending@.len() ==> self.pending@[i] is None,
            decreases tag as int + 1 - self.pending@.len(),
        {
            self.pending.push(None);
        }
        self.pending.set(tag as usize, Some(copy));
        proof {
            assert(self.pending_map() =~= old(self).pending_map().insert(tag, req@));
            assert(!old(self).pending_map().dom().contains(tag));
        }
        Ok(Tagged { tag, v: req })
    }

    /// One response leaves the transport: if its tag matches an outstanding
    /// request — and `Ok` is returned exactly then — that request's entry is
    /// removed, its tag released for reuse, and the completion pairs the
    /// stored request with this response's payload. A tag with no matching
    /// entry is a protocol violation reported as `UnknownTag`; it leaves the
    /// transport — including every other outstanding exchange — untouched.
    pub fn on_response(&mut self, env: &Tagged<Frame>) -> (r: Result<Completion, MuxError>)
        requires
            old(self).wf(),
        ensures
            final(self).wf(),
            final(self).is_closed() == old(self).is_closed(),
            match r {
                Ok(c) => old(self).pending_map().dom().contains(env.tag)
                    && c.tag == env.tag
                    && c.request@ == old(self).pending_map()[env.tag]
                    && c.outcome is Response
                    && (c.outcome matches CallOutcome::Response(p) ==> p@ == env.v@)
                    && final(self).pending_map() == old(self).pending_map().remove(env.tag)
                    && final(self).tags() == old(self).tags().remove(env.tag as nat),
                Err(e) => e == MuxError::UnknownTag
                    && !old(self).pending_map().dom().contains(env.tag)
                    && *final(self) == *old(self),
            },
    {
        let t = env.tag as usize;
        if t < self.pending.len() {
            let known = match &self.pending[t] {
                Some(stored) => Some(stored.duplicate()),
                None => None,
            };
            match known {
                Some(request) => {
                    self.pending.set(t, None);
                    let released = self.tagger.release(env.tag);
                    proof {
                        assert(released is Ok);
                        assert(self.pending_map() =~= old(self).pending_map().remove(env.tag));
                    }
                    Ok(
                        Completion {
                            tag: env.tag,
                            request,
                            outcome: CallOutcome::Response(env.v.duplicate()),
                        },
                    )
                },
                None => Err(MuxError::UnknownTag),
            }
        } else {
            Err(MuxError::UnknownTag)
        }
    }

    /// The whole send path of one call: a fresh tag is allocated, the
    /// request is recorded under it for the caller, and the tagged envelope
    /// leaves as one length-prefixed stream frame, ready to be written.
    /// Writes stay serialized because the transport is the stream's single
    /// writer and each call yields one whole frame. Fails — leaving the
    /// transport unchanged — exactly on tag exhaustion or on a payload whose
    /// content overflows the wire layout's length fields.
    pub fn send(&mut self, req: Frame) -> (r: Result<(u32, Vec<u8>), MuxError>)
        requires
            old(self).wf(),
            !old(self).is_closed(),
        ensures
            final(self).wf(),
            final(self).is_closed() == old(self).is_closed(),
            match r {
                Ok((tag, wire)) => {
                    &&& !old(self).pending_map().dom().contains(tag)
                    &&& final(self).pending_map() == old(self).pending_map().insert(tag, req@)
                    &&& final(self).tags() == old(self).tags().insert(tag as nat)
                    &&& wire_frame_of(wire@)
                    &&& wire@.skip(4) == spec_encode(TaggedView { tag, v: req@ })
                },
                Err(e) => {
                    &&& final(self).pending_map() == old(self).pending_map()
                    &&& final(self).tags() == old(self).tags()
                    &&& (e == MuxError::Oversize <==> !payload_encodable(req@))
                    &&& (e == MuxError::Oversize || e == MuxError::Exhausted)
                },
            },
            old(self).can_accept() && payload_encodable(req@) ==> r is Ok,
    {
        if req.content.as_str().as_bytes().len() > (u32::MAX as usize) - HEADER_LEN {
            return Err(MuxError::Oversize);
        }
        let env = match self.begin_call(req) {
            Ok(env) => env,
            Err(e) => {
                return Err(e);
            },
        };
        let envelope = match encode_envelope(&env) {
            Some(bytes) => bytes,
            None => {
                proof {
                    assert(false);
                }
                vstd::pervasive::unreached()
            },
        };
        proof {
            vstd::bytes::lemma_auto_spec_u32_to_from_le_bytes();
        }
        let wire = match frame_wire(envelope.as_slice()) {
            Some(wire) => wire,
            None => {
                proof {
                    assert(false);
                }
                vstd::pervasive::unreached()
            },
        };
        proof {
            lemma_frame_round_trip(envelope@);
        }
        Ok((env.tag, wire))
    }

    /// The body of the receive loop, for one arrived envelope's bytes: a
    /// well-formed envelope is routed by its tag exactly as `on_response`
    /// routes it; bytes that are no envelope are a protocol violation,
    /// reported without crashing the loop and — like an unknown tag — with
    /// every outstanding exchange left untouched.
    pub fn receive(&mut self, envelope: &[u8]) -> (r: Result<Completion, MuxError>)
        requires
            old(self).wf(),
        ensures
            final(self).wf(),
            final(self).is_closed() == old(self).is_closed(),
            match r {
                Ok(c) => {
                    &&& spec_decode(envelope@) is Some
                    &&& {
                        let ev = spec_decode(envelope@)->0;
                        &&& old(self).pending_map().dom().contains(ev.tag)
                        &&& c.tag == ev.tag
                        &&& c.request@ == old(self).pending_map()[ev.tag]
                        &&& (c.outcome matches CallOutcome::Response(p) && p@ == ev.v)
                        &&& final(self).pending_map() == old(self).pending_map().remove(ev.tag)
                        &&& final(self).tags() == old(self).tags().remove(ev.tag as nat)
                    }
                },
                Err(e) => {
                    &&& *final(self) == *old(self)
                    &&& (e == MuxError::Malformed <==> spec_decode(envelope@) is None)
                    &&& (e == MuxError::UnknownTag <==> (spec_decode(envelope@) matches Some(ev)
                        && !old(self).pending_map().dom().contains(ev.tag)))
                    &&& (e == MuxError::Malformed || e == MuxError::UnknownTag)
                },
            },
    {
        match decode_envelope(envelope) {
            Some(env) => self.on_response(&env),
            None => Err(MuxError::Malformed),
        }
    }

    /// The connection has failed: every still-outstanding call — each one,
    /// within this single pass — is resolved with the connection-failure
    /// signal, so no caller waits forever; the transport ends closed and
    /// empty.
    pub fn fail_all(&mut self) -> (out: Vec<Completion>)
        requires
            old(self).wf(),
        ensures
            final(self).wf(),
            final(self).is_closed(),
            final(self).pending_map() == Map::<u32, FrameView>::empty(),
            final(self).tags() == Set::<nat>::empty(),
            forall|i: int|
                0 <= i < out@.len() ==> {
                    let c = #[trigger] out@[i];
                    &&& c.outcome matches CallOutcome::Failed(e) && e == MuxError::Transport
                    &&& old(self).pending_map().dom().contains(c.tag)
                    &&& c.request@ == old(self).pending_map()[c.tag]
                },
            forall|t: u32| #[trigger]
                old(self).pending_map().dom().contains(t) ==> resolved_in(out@, t),
            forall|i: int, j: int| 0 <= i < j < out@.len() ==> out@[i].tag != out@[j].tag,
    {
        let mut out: Vec<Completion> = Vec::new();
        let mut idx: usize = 0;
        let n = self.pending.len();
        while idx < n
            invariant
                *self == *old(self),
                old(self).wf(),
                n == self.pending@.len(),
                idx <= n,
                forall|i: int|
                    0 <= i < out@.len() ==> {
                        let c = #[trigger] out@[i];
                        &&& c.outcome matches CallOutcome::Failed(e) && e == MuxError::Transport
                        &&& c.tag < idx
                        &&& old(self).pending_map().dom().contains(c.tag)
                        &&& c.request@ == old(self).pending_map()[c.tag]
                    },
                forall|t: u32|
                    t < idx && #[trigger] old(self).pending_map().dom().contains(t)
                        ==> resolved_in(out@, t),
                forall|i: int, j: int| 0 <= i < j < out@.len() ==> out@[i].tag < out@[j].tag,
            decreases n - idx,
        {
            let failed = match &self.pending[idx] {
                Some(stored) => Some(stored.duplicate()),
                None => None,
            };
            let ghost prev = out@;
            match failed {
                Some(request) => {
                    let c = Completion {
                        tag: idx as u32,
                        request,
                        outcome: CallOutcome::Failed(MuxError::Transport),
                    };
                    out.push(c);
                },
                None => {},
            }
            proof {
                assert forall|t: u32|
                    t < idx + 1 && #[trigger] old(self).pending_map().dom().contains(
                        t,
                    ) implies resolved_in(out@, t) by {
                    if t < idx {
                        let i = choose|i: int| 0 <= i < prev.len() && (#[trigger] prev[i]).tag == t;
                        assert((out@[i]).tag == t);
                    } else {
                        assert(self.pending@[t as int] is Some);
                        assert((out@[out@.len() - 1]).tag == t);
                    }
                }
            }
            idx += 1;
        }
        self.pending = Vec::new();
        self.tagger = Tagger::new();
        self.closed = true;
        proof {
            assert(self.pending_map() =~= Map::<u32, FrameView>::empty());
        }
        out
    }
}

/// True when some completion in `out` resolves the call outstanding under
/// tag `t`.
pub open spec fn resolved_in(out: Seq<Completion>, t: u32) -> bool {
    exists|i: int| 0 <= i < out.len() && (#[trigger] out[i]).tag == t
}

/// Correlation under reordering: with requests `r1` and `r2` outstanding
/// under distinct tags `t1` and `t2`, the entry looked up for each tag is
/// that tag's own request, whichever of the two responses arrives first and
/// regardless of the lookup the other response already removed.
pub proof fn lemma_correlation_under_reordering(
    m: Map<u32, FrameView>,
    t1: u32,
    r1: FrameView,
    t2: u32,
    r2: FrameView,
)
    requires
        t1 != t2,
    ensures
        ({
            let outstanding = m.insert(t1, r1).insert(t2, r2);
            &&& outstanding[t1] == r1
            &&& outstanding[t2] == r2
            &&& outstanding.remove(t2)[t1] == r1
            &&& outstanding.remove(t1)[t2] == r2
        }),
{
}

/// Correlation correctness, generally: however many other outstanding
/// exchanges complete first — any set of them not containing `t` — the entry
/// the transport looks up for tag `t` is still the request recorded under
/// `t`, so each call resolves with the response to its own request.
pub proof fn lemma_correlation(m: Map<u32, FrameView>, t: u32, r: FrameView, others: Set<u32>)
    requires
        !others.contains(t),
    ensures
        m.insert(t, r).remove_keys(others).dom().contains(t),
        m.insert(t, r).remove_keys(others)[t] == r,
{
    assert(m.insert(t, r).remove_keys(others).dom().contains(t));
}

} // verus!
