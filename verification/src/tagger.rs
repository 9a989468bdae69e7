use vstd::prelude::*;

use crate::error::MuxError;
use crate::frame::Tagged;

verus! {

#[verifier::external_type_specification]
#[verifier::external_body]
#[verifier::reject_recursive_types(T)]
pub struct ExSlab<T>(slab::Slab<T>);

/// The set of keys currently occupied in a slab.
pub uninterp spec fn slab_keys(s: slab::Slab<()>) -> Set<nat>;

/// The number of slots the slab has ever handed out (occupied or vacant):
/// every key it returns lies at or below this extent.
pub uninterp spec fn slab_extent(s: slab::Slab<()>) -> nat;

/// Relies on slab::Slab::new: a new slab holds no entries and no slots.
#[verifier::external_body]
fn slab_new() -> (s: slab::Slab<()>)
    ensures
        slab_keys(s) == Set::<nat>::empty(),
        slab_extent(s) == 0nat,
{
    slab::Slab::new()
}

/// Relies on slab::Slab::insert: the returned key was vacant and is occupied
/// afterwards; a slot beyond the extent is taken only by appending one slot.
#[verifier::external_body]
fn slab_insert(s: &mut slab::Slab<()>) -> (k: usize)
    ensures
        !slab_keys(*old(s)).contains(k as nat),
        slab_keys(*final(s)) == slab_keys(*old(s)).insert(k as nat),
        k as nat <= slab_extent(*old(s)),
        slab_extent(*final(s)) <= slab_extent(*old(s)) + 1,
{
    s.insert(())
}

/// Relies on slab::Slab::try_remove: Some exactly when the key is occupied;
/// the key is then vacated and every other entry is kept.
#[verifier::external_body]
fn slab_try_remove(s: &mut slab::Slab<()>, k: usize) -> (r: Option<()>)
    ensures
        r is Some <==> slab_keys(*old(s)).contains(k as nat),
        slab_keys(*final(s)) == (if slab_keys(*old(s)).contains(k as nat) {
            slab_keys(*old(s)).remove(k as nat)
        } else {
            slab_keys(*old(s))
        }),
        slab_extent(*final(s)) == slab_extent(*old(s)),
{
    s.try_remove(k)
}

/// The tag allocator of one connection: it owns the set of tags of the
/// currently-outstanding exchanges. Tags are recycled through a slab's
/// free list, so values stay small and the outstanding table stays dense.
#[derive(Debug)]
pub struct Tagger(pub slab::Slab<()>);

impl View for Tagger {
    type V = Set<nat>;

    open spec fn view(&self) -> Set<nat> {
        slab_keys(self.0)
    }
}

impl Tagger {
    /// How far the tag space has been touched so far.
    pub open spec fn extent(self) -> nat {
        slab_extent(self.0)
    }

    /// While this holds, the allocator still owes a fresh tag on request.
    pub open spec fn space_ok(self) -> bool {
        slab_extent(self.0) <= u32::MAX as nat
    }

    pub fn new() -> (t: Tagger)
        ensures
            t@ == Set::<nat>::empty(),
            t.extent() == 0nat,
    {
        Tagger(slab_new())
    }

    /// Draws a tag not currently in use; never blocks; fails only when the
    /// tag space is exhausted, leaving the outstanding set unchanged.
    pub fn allocate(&mut self) -> (r: Result<u32, MuxError>)
        ensures
            match r {
                Ok(tag) => !old(self)@.contains(tag as nat) && final(self)@ == old(self)@.insert(
                    tag as nat,
                ),
                Err(e) => e == MuxError::Exhausted && final(self)@ == old(self)@,
            },
            old(self).space_ok() ==> r is Ok,
            final(self).extent() <= old(self).extent() + 1,
    {
        let k = slab_insert(&mut self.0);
        if k <= u32::MAX as usize {
            Ok(k as u32)
        } else {
            let _ = slab_try_remove(&mut self.0, k);
            proof {
                assert(slab_keys(self.0) =~= slab_keys(old(self).0));
            }
            Err(MuxError::Exhausted)
        }
    }

    /// Marks a tag free for reuse. Releasing a tag that is not outstanding is
    /// a logic error, reported as such and otherwise without effect.
    pub fn release(&mut self, tag: u32) -> (r: Result<(), MuxError>)
        ensures
            match r {
                Ok(u) => old(self)@.contains(tag as nat) && final(self)@ == old(self)@.remove(
                    tag as nat,
                ),
                Err(e) => e == MuxError::DuplicateRelease && !old(self)@.contains(tag as nat)
                    && final(self)@ == old(self)@,
            },
            final(self).extent() == old(self).extent(),
    {
        match slab_try_remove(&mut self.0, tag as usize) {
            Some(u) => Ok(u),
            None => Err(MuxError::DuplicateRelease),
        }
    }

    /// Stamps a fresh tag onto an outgoing request envelope, as the transport
    /// does on send; the payload is untouched.
    pub fn assign_tag<T>(&mut self, r: &mut Tagged<T>) -> (res: Result<u32, MuxError>)
        ensures
            match res {
                Ok(tag) => final(r).tag == tag && final(r).v == old(r).v && !old(self)@.contains(
                    tag as nat,
                ) && final(self)@ == old(self)@.insert(tag as nat),
                Err(e) => e == MuxError::Exhausted && final(self)@ == old(self)@ && *final(r)
                    == *old(r),
            },
            old(self).space_ok() ==> res is Ok,
    {
        match self.allocate() {
            Ok(tag) => {
                r.tag = tag;
                Ok(tag)
            },
            Err(e) => Err(e),
        }
    }

    /// Reads the tag off an arrived response envelope and releases it, as the
    /// transport does on receive; an unknown tag is a duplicate completion.
    pub fn finish_tag<T>(&mut self, r: &Tagged<T>) -> (res: Result<u32, MuxError>)
        ensures
            match res {
                Ok(tag) => tag == r.tag && old(self)@.contains(r.tag as nat) && final(self)@
                    == old(self)@.remove(r.tag as nat),
                Err(e) => e == MuxError::DuplicateRelease && !old(self)@.contains(r.tag as nat)
                    && final(self)@ == old(self)@,
            },
    {
        match self.release(r.tag) {
            Ok(u) => Ok(r.tag),
            Err(e) => Err(e),
        }
    }
}

impl Default for Tagger {
    fn default() -> (t: Tagger)
        ensures
            t@ == Set::<nat>::empty(),
    {
        Tagger::new()
    }
}

/// No two simultaneously outstanding requests share a tag: if `t1` is drawn
/// fresh and still outstanding when `t2` is drawn fresh in turn, the two
/// differ, however the draws interleave with completions of other tags.
pub proof fn lemma_no_shared_tag(s0: Set<nat>, t1: nat, t2: nat)
    requires
        !s0.contains(t1),
        !s0.insert(t1).contains(t2),
    ensures
        t1 != t2,
{
}

/// A tag is reusable only strictly after its owning exchange completes: while
/// `t` is outstanding every freshly drawn tag avoids it, and `t` leaves the
/// outstanding set only by the release that completes its own exchange.
pub proof fn lemma_no_premature_reuse(s: Set<nat>, t: nat, fresh: nat)
    requires
        s.contains(t),
        !s.contains(fresh),
    ensures
        fresh != t,
        !s.remove(t).contains(t),
{
}

} // verus!
