//! The device-session model: buffer allocation handles, the per-session
//! shape-metadata cache, and the per-session monotone counters that issue
//! tensor identities and buffer indices. The session object performing real
//! device work consumes the handles this module issues; every handle records
//! the capacity and usage flags its allocation was requested with, which is
//! what the addressing proofs are about.

use crate::kind::BUFFER_USAGE_UNIFORM;
use crate::shape::Shape;
use vstd::prelude::*;

verus! {

/// Byte size of one shape-metadata buffer: four 32-bit words.
pub const SHAPE_BUFFER_SIZE: u64 = 16;

/// A handle to one accelerator buffer allocation of a session. Its identity
/// is the pair of session and allocation index; the capacity and the usage
/// flags it was requested with are recorded so that derived views can be
/// checked against them.
#[derive(Clone, Copy, Debug, PartialEq, Eq, Hash, Structural)]
pub struct BufferHandle {
    session: u64,
    index: u64,
    size: u64,
    usages: u32,
}

impl BufferHandle {
    /// The session this allocation belongs to.
    pub closed spec fn spec_session(self) -> u64 {
        self.session
    }

    /// The allocation index within its session.
    pub closed spec fn spec_index(self) -> u64 {
        self.index
    }

    /// The capacity in bytes the allocation was requested with.
    pub closed spec fn spec_size(self) -> u64 {
        self.size
    }

    /// The usage flags the allocation was requested with.
    pub closed spec fn spec_usages(self) -> u32 {
        self.usages
    }

    pub fn session(&self) -> (r: u64)
        ensures
            r == self.spec_session(),
    {
        self.session
    }

    pub fn index(&self) -> (r: u64)
        ensures
            r == self.spec_index(),
    {
        self.index
    }

    pub fn size(&self) -> (r: u64)
        ensures
            r == self.spec_size(),
    {
        self.size
    }

    pub fn usages(&self) -> (r: u32)
        ensures
            r == self.spec_usages(),
    {
        self.usages
    }
}

/// Deduplicates shape-metadata buffers: one entry per distinct shape,
/// created lazily on first request and reused by every later tensor of the
/// same session with an identical shape. Entries are never evicted; the
/// owning session's lifetime bounds the cache's.
pub struct ShapeCache {
    entries: Vec<(Shape, BufferHandle)>,
}

impl ShapeCache {
    /// The cache's entries, in insertion order.
    pub closed spec fn spec_entries(self) -> Seq<(Shape, BufferHandle)> {
        self.entries@
    }

    /// Each shape appears in at most one entry.
    pub open spec fn wf(self) -> bool {
        forall|i: int, j: int|
            0 <= i < j < self.spec_entries().len() ==> (#[trigger] self.spec_entries()[i]).0 != (
            #[trigger] self.spec_entries()[j]).0
    }

    /// `shape` is cached with handle `h`.
    pub open spec fn spec_cached(self, shape: Shape, h: BufferHandle) -> bool {
        exists|i: int|
            0 <= i < self.spec_entries().len() && (#[trigger] self.spec_entries()[i]).0 == shape
                && self.spec_entries()[i].1 == h
    }

    /// Some handle is cached for `shape`.
    pub open spec fn spec_contains(self, shape: Shape) -> bool {
        exists|i: int|
            0 <= i < self.spec_entries().len() && (#[trigger] self.spec_entries()[i]).0 == shape
    }

    /// Looks `shape` up; returns its cached handle, if any.
    pub fn lookup(&self, shape: Shape) -> (r: Option<BufferHandle>)
        ensures
            match r {
                Some(h) => self.spec_cached(shape, h),
                None => !self.spec_contains(shape),
            },
    {
        let n = self.entries.len();
        let mut i: usize = 0;
        while i < n
            invariant
                i <= n,
                n == self.spec_entries().len(),
                forall|j: int| 0 <= j < i ==> (#[trigger] self.spec_entries()[j]).0 != shape,
            decreases n - i,
        {
            let e = self.entries[i];
            if e.0 == shape {
                return Some(e.1);
            }
            i = i + 1;
        }
        None
    }
}

/// One device session: the identity under which buffers are allocated, the
/// monotone counters issuing tensor identities and buffer indices, and the
/// session's shape-metadata cache.
pub struct Context {
    session: u64,
    next_tensor: u64,
    next_buffer: u64,
    cache: ShapeCache,
}

impl Context {
    /// The session identity; distinct sessions must be created with
    /// distinct values.
    pub closed spec fn spec_session(self) -> u64 {
        self.session
    }

    /// The identity value the next constructed tensor receives.
    pub closed spec fn spec_next_tensor(self) -> u64 {
        self.next_tensor
    }

    /// The allocation index the next buffer receives.
    pub closed spec fn spec_next_buffer(self) -> u64 {
        self.next_buffer
    }

    /// The session's shape-metadata cache.
    pub closed spec fn spec_cache(self) -> ShapeCache {
        self.cache
    }

    /// `shape` is cached with handle `h` in this session.
    pub open spec fn spec_cached(self, shape: Shape, h: BufferHandle) -> bool {
        self.spec_cache().spec_cached(shape, h)
    }

    /// Some handle is cached for `shape` in this session.
    pub open spec fn spec_contains(self, shape: Shape) -> bool {
        self.spec_cache().spec_contains(shape)
    }

    /// Cache keys are unique, and every cached handle is a uniform buffer
    /// of the fixed metadata size that this session allocated.
    pub open spec fn wf(self) -> bool {
        &&& self.spec_cache().wf()
        &&& forall|i: int|
            0 <= i < self.spec_cache().spec_entries().len() ==> {
                let h = (#[trigger] self.spec_cache().spec_entries()[i]).1;
                &&& h.spec_session() == self.spec_session()
                &&& h.spec_usages() == BUFFER_USAGE_UNIFORM
                &&& h.spec_size() == SHAPE_BUFFER_SIZE
                &&& h.spec_index() < self.spec_next_buffer()
            }
    }

    /// The session identity this context was created with.
    pub fn session(&self) -> (r: u64)
        ensures
            r == self.spec_session(),
    {
        self.session
    }

    /// The number of tensor identities this session has issued so far.
    pub fn tensor_count(&self) -> (r: u64)
        ensures
            r == self.spec_next_tensor(),
    {
        self.next_tensor
    }

    /// The number of buffer allocations this session has recorded so far.
    pub fn buffer_count(&self) -> (r: u64)
        ensures
            r == self.spec_next_buffer(),
    {
        self.next_buffer
    }

    pub fn new(session: u64) -> (r: Context)
        ensures
            r.wf(),
            r.spec_session() == session,
            r.spec_next_tensor() == 0,
            r.spec_next_buffer() == 0,
            r.spec_cache().spec_entries().len() == 0,
    {
        Context { session, next_tensor: 0, next_buffer: 0, cache: ShapeCache { entries: Vec::new() } }
    }

    /// Issues the next tensor-identity value and advances the counter.
    pub(crate) fn bump_tensor_counter(&mut self) -> (r: u64)
        requires
            old(self).wf(),
            old(self).spec_next_tensor() < u64::MAX,
        ensures
            final(self).wf(),
            r == old(self).spec_next_tensor(),
            final(self).spec_next_tensor() == old(self).spec_next_tensor() + 1,
            final(self).spec_session() == old(self).spec_session(),
            final(self).spec_next_buffer() == old(self).spec_next_buffer(),
            final(self).spec_cache() == old(self).spec_cache(),
    {
        let r = self.next_tensor;
        self.next_tensor = self.next_tensor + 1;
        r
    }

    /// Records one buffer allocation of `size` bytes with the given usage
    /// flags and hands out its handle. Accelerator buffers are never
    /// requested with zero usage flags.
    pub fn allocate_buffer(&mut self, size: u64, usages: u32) -> (r: BufferHandle)
        requires
            old(self).wf(),
            usages != 0,
            old(self).spec_next_buffer() < u64::MAX,
        ensures
            final(self).wf(),
            r.spec_session() == old(self).spec_session(),
            r.spec_index() == old(self).spec_next_buffer(),
            r.spec_size() == size,
            r.spec_usages() == usages,
            final(self).spec_next_buffer() == old(self).spec_next_buffer() + 1,
            final(self).spec_session() == old(self).spec_session(),
            final(self).spec_next_tensor() == old(self).spec_next_tensor(),
            final(self).spec_cache() == old(self).spec_cache(),
    {
        let r = BufferHandle {
            session: self.session,
            index: self.next_buffer,
            size,
            usages,
        };
        self.next_buffer = self.next_buffer + 1;
        r
    }

    /// Returns the shape-metadata buffer for `shape`: the cached handle on
    /// a hit, a freshly allocated uniform buffer, recorded in the cache, on
    /// a miss.
    pub fn request_shape_buffer(&mut self, shape: Shape) -> (r: BufferHandle)
        requires
            old(self).wf(),
            old(self).spec_next_buffer() < u64::MAX,
        ensures
            final(self).wf(),
            r.spec_session() == old(self).spec_session(),
            r.spec_usages() == BUFFER_USAGE_UNIFORM,
            r.spec_size() == SHAPE_BUFFER_SIZE,
            final(self).spec_cached(shape, r),
            old(self).spec_contains(shape) ==> old(self).spec_cached(shape, r)
                && final(self).spec_cache() == old(self).spec_cache()
                && final(self).spec_next_buffer() == old(self).spec_next_buffer(),
            !old(self).spec_contains(shape) ==> r.spec_index() == old(self).spec_next_buffer()
                && final(self).spec_next_buffer() == old(self).spec_next_buffer() + 1,
            forall|s: Shape, h: BufferHandle|
                old(self).spec_cached(s, h) ==> #[trigger] final(self).spec_cached(s, h),
            forall|s: Shape, h: BufferHandle| #[trigger]
                final(self).spec_cached(s, h) ==> old(self).spec_cached(s, h) || (s == shape && h
                    == r),
            final(self).spec_session() == old(self).spec_session(),
            final(self).spec_next_tensor() == old(self).spec_next_tensor(),
    {
        let found = self.cache.lookup(shape);
        match found {
            Some(h) => h,
            None => {
                let h = self.allocate_buffer(SHAPE_BUFFER_SIZE, BUFFER_USAGE_UNIFORM);
                self.cache.entries.push((shape, h));
                proof {
                    let n = self.cache.spec_entries().len();
                    assert(self.cache.spec_entries()[n - 1] == (shape, h));
                    assert(self.spec_cached(shape, h));
                    assert forall|s: Shape, h2: BufferHandle|
                        old(self).spec_cached(s, h2) implies #[trigger] self.spec_cached(
                        s,
                        h2,
                    ) by {
                        let oldentries = old(self).spec_cache().spec_entries();
                        let i = choose|i: int|
                            0 <= i < oldentries.len() && (#[trigger] oldentries[i]).0 == s
                                && oldentries[i].1 == h2;
                        assert(self.cache.spec_entries()[i].0 == s);
                    }
                }
                h
            },
        }
    }
}

/// All tensors of one session with equal shapes share the identical
/// shape-metadata buffer handle: within a well-formed session a shape is
/// cached with at most one handle.
pub proof fn lemma_same_session_shares_shape_buffer(
    c: Context,
    shape: Shape,
    h1: BufferHandle,
    h2: BufferHandle,
)
    requires
        c.wf(),
        c.spec_cached(shape, h1),
        c.spec_cached(shape, h2),
    ensures
        h1 == h2,
{
    let entries = c.spec_cache().spec_entries();
    let i = choose|i: int|
        0 <= i < entries.len() && (#[trigger] entries[i]).0 == shape && entries[i].1 == h1;
    let j = choose|j: int|
        0 <= j < entries.len() && (#[trigger] entries[j]).0 == shape && entries[j].1 == h2;
    if i != j {
        assert(entries[i].0 != entries[j].0);
    }
}

/// A tensor never reuses another session's cache entry: handles cached by
/// sessions with distinct identities are themselves distinct.
pub proof fn lemma_distinct_sessions_never_share(
    a: Context,
    b: Context,
    sa: Shape,
    sb: Shape,
    ha: BufferHandle,
    hb: BufferHandle,
)
    requires
        a.wf(),
        b.wf(),
        a.spec_session() != b.spec_session(),
        a.spec_cached(sa, ha),
        b.spec_cached(sb, hb),
    ensures
        ha != hb,
{
    let ea = a.spec_cache().spec_entries();
    let eb = b.spec_cache().spec_entries();
    let i = choose|i: int| 0 <= i < ea.len() && (#[trigger] ea[i]).0 == sa && ea[i].1 == ha;
    let j = choose|j: int| 0 <= j < eb.len() && (#[trigger] eb[j]).0 == sb && eb[j].1 == hb;
    assert(ha.spec_session() == a.spec_session());
    assert(hb.spec_session() == b.spec_session());
}

} // verus!
