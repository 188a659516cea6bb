//! The tensor entity: identity, shape, and device-resident data, with the
//! host and accelerator representations, construction, conversion, slicing,
//! and the binding descriptors handed to the compute-dispatch layer.

use crate::context::{BufferHandle, Context, SHAPE_BUFFER_SIZE};
use crate::error::TensorError;
use crate::kind::{Kind, ReadBack, BUFFER_USAGE_UNIFORM};
use crate::num::{
    decode, encode, lemma_decode_len, lemma_encode_len, spec_decode, spec_encode, Scalar,
};
use crate::shape::{Shape, TensorSlice};
use core::marker::PhantomData;
use vstd::arithmetic::div_mod::lemma_mod_multiples_basic;
use vstd::prelude::*;
use vstd::slice::slice_to_vec;

verus! {

/// The opaque unique identity of a tensor, assigned at construction and
/// never reused; the dispatch layer keys compiled binding caches by it. It
/// names the issuing session together with that session's monotone sequence
/// number, so identities of distinct sessions never collide, and within a
/// session they strictly increase.
#[derive(Clone, Copy, Debug, PartialEq, Eq, Hash, Structural)]
pub struct TensorId {
    session: u64,
    index: u64,
}

impl TensorId {
    /// The session that issued this identity.
    pub closed spec fn spec_session(self) -> u64 {
        self.session
    }

    /// The identity's sequence number within its session.
    pub closed spec fn spec_index(self) -> u64 {
        self.index
    }

    pub fn session(&self) -> (r: u64)
        ensures
            r == self.spec_session(),
    {
        self.session
    }

    pub fn index(&self) -> (r: u64)
        ensures
            r == self.spec_index(),
    {
        self.index
    }

    /// The identity was issued by this session, in its present state or an
    /// earlier one: it names the session and lies below the session's
    /// counter. Every tensor a session hands out satisfies this of that
    /// session.
    pub open spec fn spec_issued_by(self, c: Context) -> bool {
        self.spec_session() == c.spec_session() && self.spec_index() < c.spec_next_tensor()
    }

    /// Issues a fresh identity from the session's monotone counter. Each
    /// tensor construction, slices and conversions included, consumes
    /// exactly one value.
    pub fn new(context: &mut Context) -> (r: TensorId)
        requires
            old(context).wf(),
            old(context).spec_next_tensor() < u64::MAX,
        ensures
            final(context).wf(),
            r.spec_session() == old(context).spec_session(),
            r.spec_index() == old(context).spec_next_tensor(),
            r.spec_issued_by(*final(context)),
            final(context).spec_next_tensor() == old(context).spec_next_tensor() + 1,
            final(context).spec_session() == old(context).spec_session(),
            final(context).spec_next_buffer() == old(context).spec_next_buffer(),
            final(context).spec_cache() == old(context).spec_cache(),
    {
        let session = context.session();
        let index = context.bump_tensor_counter();
        TensorId { session, index }
    }
}

/// One identity issuance: a construction step that takes the issuing
/// session from `pre` to `post` stamps its tensor with `id`. Every
/// constructor of this crate ensures exactly this of the identity it hands
/// out.
pub open spec fn spec_issues(pre: Context, post: Context, id: TensorId) -> bool {
    &&& id.spec_session() == pre.spec_session()
    &&& id.spec_index() == pre.spec_next_tensor()
    &&& post.spec_next_tensor() > pre.spec_next_tensor()
}

/// Tensor identities strictly increase within a session: a tensor
/// constructed later through the same session carries a strictly greater
/// sequence number than every tensor constructed before it, whatever other
/// operations ran in between, since no operation ever decreases the
/// session's counter.
pub proof fn lemma_tensor_ids_strictly_increase(
    c0: Context,
    c1: Context,
    c2: Context,
    c3: Context,
    first: TensorId,
    second: TensorId,
)
    requires
        spec_issues(c0, c1, first),
        c1.spec_next_tensor() <= c2.spec_next_tensor(),
        spec_issues(c2, c3, second),
    ensures
        second.spec_index() > first.spec_index(),
        second != first,
{
}

/// An identity is never reused: a freshly issued identity differs from
/// that of every tensor the session issued before.
pub proof fn lemma_fresh_id_is_new(c0: Context, c1: Context, issued: TensorId, prior: TensorId)
    requires
        spec_issues(c0, c1, issued),
        prior.spec_issued_by(c0),
    ensures
        issued != prior,
{
}

/// Sessions created with distinct identities never issue the same tensor
/// identity: together with the per-session laws above, no two tensors of
/// the process share an identity.
pub proof fn lemma_distinct_sessions_distinct_ids(
    a: TensorId,
    b: TensorId,
    ca: Context,
    cb: Context,
)
    requires
        a.spec_issued_by(ca),
        b.spec_issued_by(cb),
        ca.spec_session() != cb.spec_session(),
    ensures
        a != b,
{
}

/// The accelerator representation of a tensor: a shared handle to the
/// backing allocation, the byte offset of the view into it, and the shared
/// shape-metadata buffer.
#[derive(Clone, Copy, Debug, PartialEq, Eq, Structural)]
pub struct TensorBuffer {
    /// The shared shape-metadata buffer for the tensor's shape.
    pub shape_buffer: BufferHandle,
    /// The backing allocation; several views may share it.
    pub buffer: BufferHandle,
    /// The byte offset of this view into the backing allocation.
    pub offset: u64,
}

/// The binding descriptor for one resource: what the dispatch layer
/// attaches when it issues a compute program.
#[derive(Clone, Copy, Debug, PartialEq, Eq, Structural)]
pub struct BindingView {
    /// The buffer to bind.
    pub buffer: BufferHandle,
    /// The byte offset of the bound range.
    pub offset: u64,
    /// The byte length of the bound range.
    pub size: u64,
}

/// A host-resident tensor: an owned contiguous array of scalar elements.
pub struct TensorCpu<T: Scalar, K: Kind> {
    id: TensorId,
    context: u64,
    shape: Shape,
    data: Vec<T>,
    marker: PhantomData<K>,
}

/// An accelerator-resident tensor: a view of a device buffer.
pub struct TensorGpu<T: Scalar, K: Kind> {
    id: TensorId,
    context: u64,
    shape: Shape,
    data: TensorBuffer,
    marker: PhantomData<(T, K)>,
}

impl<T: Scalar, K: Kind> Clone for TensorCpu<T, K> {
    /// A clone keeps the identity, session, shape and elements of the
    /// original.
    fn clone(&self) -> (r: Self)
        ensures
            r.spec_id() == self.spec_id(),
            r.spec_context() == self.spec_context(),
            r.spec_shape() == self.spec_shape(),
            r.spec_data() == self.spec_data(),
    {
        let n = self.data.len();
        let mut data: Vec<T> = Vec::new();
        let mut i: usize = 0;
        while i < n
            invariant
                i <= n,
                n == self.data@.len(),
                data@ == self.data@.take(i as int),
            decreases n - i,
        {
            data.push(self.data[i]);
            proof {
                assert(self.data@.take(i + 1) =~= self.data@.take(i as int).push(
                    self.data@[i as int],
                ));
            }
            i = i + 1;
        }
        proof {
            assert(self.data@.take(n as int) =~= self.data@);
        }
        TensorCpu { id: self.id, context: self.context, shape: self.shape, data, marker: PhantomData }
    }
}

impl<T: Scalar, K: Kind> Clone for TensorGpu<T, K> {
    /// A clone keeps the identity, session, shape and buffer view of the
    /// original.
    fn clone(&self) -> (r: Self)
        ensures
            r.spec_id() == self.spec_id(),
            r.spec_context() == self.spec_context(),
            r.spec_shape() == self.spec_shape(),
            r.spec_data() == self.spec_data(),
    {
        TensorGpu {
            id: self.id,
            context: self.context,
            shape: self.shape,
            data: self.data,
            marker: PhantomData,
        }
    }
}

impl<T: Scalar, K: Kind> TensorCpu<T, K> {
    /// The tensor's identity.
    pub closed spec fn spec_id(self) -> TensorId {
        self.id
    }

    /// The session the tensor belongs to.
    pub closed spec fn spec_context(self) -> u64 {
        self.context
    }

    /// The tensor's extent.
    pub closed spec fn spec_shape(self) -> Shape {
        self.shape
    }

    /// The tensor's elements.
    pub closed spec fn spec_data(self) -> Seq<T> {
        self.data@
    }

    /// The element count matches the shape, and the byte size fits a
    /// `usize`.
    pub open spec fn wf(self) -> bool {
        &&& self.spec_shape().wf()
        &&& self.spec_data().len() == self.spec_shape().spec_len()
        &&& self.spec_shape().spec_len() * T::spec_size() <= usize::MAX as int
    }

    /// The element count.
    pub fn len(&self) -> (r: usize)
        requires
            self.wf(),
        ensures
            r as int == self.spec_shape().spec_len(),
    {
        self.shape.len()
    }

    /// Whether the tensor holds no elements.
    pub fn is_empty(&self) -> (r: bool)
        requires
            self.wf(),
        ensures
            r == (self.spec_shape().spec_len() == 0),
    {
        self.shape.is_empty()
    }

    /// Size of the tensor in bytes.
    pub fn size(&self) -> (r: usize)
        requires
            self.wf(),
        ensures
            r as int == self.spec_shape().spec_len() * T::spec_size(),
    {
        self.len() * T::size()
    }

    /// The offset in bytes for a linear element index.
    pub fn offset(index: usize) -> (r: usize)
        requires
            index * T::spec_size() <= usize::MAX as int,
        ensures
            r as int == index * T::spec_size(),
    {
        index * T::size()
    }

    pub fn id(&self) -> (r: TensorId)
        ensures
            r == self.spec_id(),
    {
        self.id
    }

    /// The identity of the owning session.
    pub fn context(&self) -> (r: u64)
        ensures
            r == self.spec_context(),
    {
        self.context
    }

    pub fn shape(&self) -> (r: Shape)
        ensures
            r == self.spec_shape(),
    {
        self.shape
    }

    pub fn data(&self) -> (r: &Vec<T>)
        ensures
            r@ == self.spec_data(),
    {
        &self.data
    }

    /// Surrenders the tensor's elements.
    pub fn into_vec(self) -> (r: Vec<T>)
        ensures
            r@ == self.spec_data(),
    {
        self.data
    }

    /// Wraps caller data of exactly the shape's element count; fails with
    /// the size-mismatch error, naming both counts, on any other length.
    pub fn from_data(context: &mut Context, shape: Shape, data: Vec<T>) -> (r: Result<
        Self,
        TensorError,
    >)
        requires
            old(context).wf(),
            shape.wf(),
            shape.spec_len() * T::spec_size() <= usize::MAX as int,
            old(context).spec_next_tensor() < u64::MAX,
        ensures
            final(context).wf(),
            final(context).spec_session() == old(context).spec_session(),
            final(context).spec_next_buffer() == old(context).spec_next_buffer(),
            final(context).spec_cache() == old(context).spec_cache(),
            match r {
                Ok(t) => {
                    &&& shape.spec_len() == data@.len()
                    &&& t.wf()
                    &&& t.spec_shape() == shape
                    &&& t.spec_data() == data@
                    &&& t.spec_context() == old(context).spec_session()
                    &&& spec_issues(*old(context), *final(context), t.spec_id())
                    &&& t.spec_id().spec_issued_by(*final(context))
                    &&& t.spec_id().spec_issued_by(*final(context))
                    &&& final(context).spec_next_tensor() == old(context).spec_next_tensor() + 1
                },
                Err(e) => {
                    &&& shape.spec_len() != data@.len()
                    &&& e == TensorError::Size(shape.spec_len() as usize, data@.len() as usize)
                    &&& *final(context) == *old(context)
                },
            },
    {
        let shape_len = shape.len();
        if shape_len != data.len() {
            return Err(TensorError::Size(shape_len, data.len()));
        }
        let id = TensorId::new(context);
        Ok(TensorCpu { id, context: context.session(), shape, data, marker: PhantomData })
    }

    /// Wraps borrowed caller data by copying it; the same size check as
    /// `from_data`.
    pub fn from_slice(context: &mut Context, shape: Shape, data: &[T]) -> (r: Result<
        Self,
        TensorError,
    >)
        requires
            old(context).wf(),
            shape.wf(),
            shape.spec_len() * T::spec_size() <= usize::MAX as int,
            old(context).spec_next_tensor() < u64::MAX,
        ensures
            final(context).wf(),
            final(context).spec_session() == old(context).spec_session(),
            final(context).spec_next_buffer() == old(context).spec_next_buffer(),
            final(context).spec_cache() == old(context).spec_cache(),
            match r {
                Ok(t) => {
                    &&& shape.spec_len() == data@.len()
                    &&& t.wf()
                    &&& t.spec_shape() == shape
                    &&& t.spec_data() == data@
                    &&& t.spec_context() == old(context).spec_session()
                    &&& spec_issues(*old(context), *final(context), t.spec_id())
                    &&& t.spec_id().spec_issued_by(*final(context))
                    &&& final(context).spec_next_tensor() == old(context).spec_next_tensor() + 1
                },
                Err(e) => {
                    &&& shape.spec_len() != data@.len()
                    &&& e == TensorError::Size(shape.spec_len() as usize, data@.len() as usize)
                    &&& *final(context) == *old(context)
                },
            },
    {
        let copied = slice_to_vec(data);
        Self::from_data(context, shape, copied)
    }

    /// A zero-filled tensor of the given shape.
    pub fn init(context: &mut Context, shape: Shape) -> (r: Self)
        requires
            old(context).wf(),
            shape.wf(),
            shape.spec_len() * T::spec_size() <= usize::MAX as int,
            old(context).spec_next_tensor() < u64::MAX,
        ensures
            final(context).wf(),
            final(context).spec_session() == old(context).spec_session(),
            final(context).spec_next_buffer() == old(context).spec_next_buffer(),
            final(context).spec_cache() == old(context).spec_cache(),
            final(context).spec_next_tensor() == old(context).spec_next_tensor() + 1,
            r.wf(),
            r.spec_shape() == shape,
            r.spec_data() == Seq::new(shape.spec_len() as nat, |i: int| T::spec_zero()),
            r.spec_context() == old(context).spec_session(),
            spec_issues(*old(context), *final(context), r.spec_id()),
            r.spec_id().spec_issued_by(*final(context)),
    {
        context.zeros(shape)
    }

    /// An owned copy of the selected contiguous range: validates the three
    /// axis ranges, then copies the run they select. The range checks come
    /// first, in axis order, then the contiguity check, then the session
    /// check.
    pub fn into_slice(self, context: &mut Context, x: TensorSlice, y: TensorSlice, z: TensorSlice) -> (r:
        Result<Self, TensorError>)
        requires
            self.wf(),
            old(context).wf(),
            old(context).spec_next_tensor() < u64::MAX,
        ensures
            final(context).wf(),
            final(context).spec_session() == old(context).spec_session(),
            final(context).spec_next_buffer() == old(context).spec_next_buffer(),
            final(context).spec_cache() == old(context).spec_cache(),
            match r {
                Ok(t) => {
                    &&& self.spec_shape().spec_check_slice(x, y, z) is Ok
                    &&& old(context).spec_session() == self.spec_context()
                    &&& t.wf()
                    &&& t.spec_shape() == self.spec_shape().spec_slice_shape(x, y, z)
                    &&& t.spec_data() == self.spec_data().subrange(
                        self.spec_shape().spec_slice_start(x, y, z),
                        self.spec_shape().spec_slice_start(x, y, z) + self.spec_shape(
                        ).spec_slice_shape(x, y, z).spec_len(),
                    )
                    &&& t.spec_context() == self.spec_context()
                    &&& spec_issues(*old(context), *final(context), t.spec_id())
                    &&& t.spec_id().spec_issued_by(*final(context))
                    &&& self.spec_id().spec_issued_by(*old(context)) ==> t.spec_id()
                        != self.spec_id()
                    &&& final(context).spec_next_tensor() == old(context).spec_next_tensor() + 1
                },
                Err(e) => {
                    &&& *final(context) == *old(context)
                    &&& match self.spec_shape().spec_check_slice(x, y, z) {
                        Err(c) => e == c,
                        Ok(()) => e == TensorError::DeviceError && old(context).spec_session()
                            != self.spec_context(),
                    }
                },
            },
    {
        let shape = self.shape;
        match shape.check_slice(x, y, z) {
            Err(e) => Err(e),
            Ok(()) => {
                if context.session() != self.context {
                    return Err(TensorError::DeviceError);
                }
                proof {
                    shape.lemma_contiguous_slice_bounds(x, y, z);
                    assert(self.spec_shape().spec_slice_shape(x, y, z).spec_len() * T::spec_size()
                        <= self.spec_shape().spec_len() * T::spec_size()) by (nonlinear_arith)
                        requires
                            0 <= self.spec_shape().spec_slice_shape(x, y, z).spec_len()
                                <= self.spec_shape().spec_len(),
                            0 <= T::spec_size(),
                    ;
                }
                let start = shape.slice_start(x, y, z);
                let sub = shape.slice_shape(x, y, z);
                let sub_len = sub.len();
                let end = start + sub_len;
                let mut out: Vec<T> = Vec::new();
                let mut i: usize = start;
                while i < end
                    invariant
                        start <= i <= end,
                        end <= self.spec_data().len(),
                        out@ == self.spec_data().subrange(start as int, i as int),
                    decreases end - i,
                {
                    out.push(self.data[i]);
                    proof {
                        assert(self.spec_data().subrange(start as int, i + 1) =~= self.spec_data(
                        ).subrange(start as int, i as int).push(self.spec_data()[i as int]));
                    }
                    i = i + 1;
                }
                let id = TensorId::new(context);
                Ok(TensorCpu {
                    id,
                    context: self.context,
                    shape: sub,
                    data: out,
                    marker: PhantomData,
                })
            },
        }
    }
}

impl<T: Scalar> TensorCpu<T, ReadBack> {
    /// Builds the host copy of a downloaded read-back tensor from the bytes
    /// the device mapping produced. The byte count must be exactly the
    /// tensor's byte size; the elements are decoded from the canonical
    /// little-endian run.
    pub fn from_readback(context: &mut Context, gpu: &TensorGpu<T, ReadBack>, bytes: Vec<u8>) -> (r:
        Result<Self, TensorError>)
        requires
            old(context).wf(),
            gpu.wf(),
            old(context).spec_next_tensor() < u64::MAX,
        ensures
            final(context).wf(),
            final(context).spec_session() == old(context).spec_session(),
            final(context).spec_next_buffer() == old(context).spec_next_buffer(),
            final(context).spec_cache() == old(context).spec_cache(),
            match r {
                Ok(t) => {
                    &&& old(context).spec_session() == gpu.spec_context()
                    &&& bytes@.len() == gpu.spec_shape().spec_len() * T::spec_size()
                    &&& t.wf()
                    &&& t.spec_shape() == gpu.spec_shape()
                    &&& t.spec_data() == spec_decode::<T>(bytes@)
                    &&& t.spec_context() == gpu.spec_context()
                    &&& spec_issues(*old(context), *final(context), t.spec_id())
                    &&& t.spec_id().spec_issued_by(*final(context))
                    &&& gpu.spec_id().spec_issued_by(*old(context)) ==> t.spec_id()
                        != gpu.spec_id()
                    &&& final(context).spec_next_tensor() == old(context).spec_next_tensor() + 1
                },
                Err(e) => {
                    &&& *final(context) == *old(context)
                    &&& if old(context).spec_session() != gpu.spec_context() {
                        e == TensorError::DeviceError
                    } else {
                        bytes@.len() != gpu.spec_shape().spec_len() * T::spec_size() && e
                            == TensorError::Size(
                            (gpu.spec_shape().spec_len() * T::spec_size()) as usize,
                            bytes@.len() as usize,
                        )
                    }
                },
            },
    {
        if context.session() != gpu.context {
            return Err(TensorError::DeviceError);
        }
        let expected = gpu.size();
        if bytes.len() != expected {
            return Err(TensorError::Size(expected, bytes.len()));
        }
        proof {
            T::lemma_size_bounds();
            lemma_mod_multiples_basic(
                gpu.spec_shape().spec_len() as int,
                T::spec_size() as int,
            );
            lemma_decode_len::<T>(bytes@, gpu.spec_shape().spec_len() as nat);
        }
        let data = decode::<T>(bytes.as_slice());
        let id = TensorId::new(context);
        Ok(TensorCpu { id, context: gpu.context, shape: gpu.shape, data, marker: PhantomData })
    }
}

impl<T: Scalar, K: Kind> TensorGpu<T, K> {
    /// The tensor's identity.
    pub closed spec fn spec_id(self) -> TensorId {
        self.id
    }

    /// The session the tensor belongs to.
    pub closed spec fn spec_context(self) -> u64 {
        self.context
    }

    /// The tensor's extent.
    pub closed spec fn spec_shape(self) -> Shape {
        self.shape
    }

    /// The tensor's accelerator view.
    pub closed spec fn spec_data(self) -> TensorBuffer {
        self.data
    }

    /// The view's byte range lies within its backing allocation, the
    /// allocation carries this kind's usage flags, and both buffers belong
    /// to the tensor's session.
    pub open spec fn wf(self) -> bool {
        &&& self.spec_shape().wf()
        &&& self.spec_shape().spec_len() * T::spec_size() <= usize::MAX as int
        &&& self.spec_data().offset + self.spec_shape().spec_len() * T::spec_size()
            <= self.spec_data().buffer.spec_size()
        &&& self.spec_data().buffer.spec_session() == self.spec_context()
        &&& self.spec_data().buffer.spec_usages() == K::spec_usages()
        &&& self.spec_data().shape_buffer.spec_session() == self.spec_context()
        &&& self.spec_data().shape_buffer.spec_size() == SHAPE_BUFFER_SIZE
        &&& self.spec_data().shape_buffer.spec_usages() == BUFFER_USAGE_UNIFORM
    }

    /// The element count.
    pub fn len(&self) -> (r: usize)
        requires
            self.wf(),
        ensures
            r as int == self.spec_shape().spec_len(),
    {
        self.shape.len()
    }

    /// Whether the tensor holds no elements.
    pub fn is_empty(&self) -> (r: bool)
        requires
            self.wf(),
        ensures
            r == (self.spec_shape().spec_len() == 0),
    {
        self.shape.is_empty()
    }

    /// Size of the tensor in bytes.
    pub fn size(&self) -> (r: usize)
        requires
            self.wf(),
        ensures
            r as int == self.spec_shape().spec_len() * T::spec_size(),
    {
        self.len() * T::size()
    }

    /// The offset in bytes for a linear element index.
    pub fn offset(index: usize) -> (r: usize)
        requires
            index * T::spec_size() <= usize::MAX as int,
        ensures
            r as int == index * T::spec_size(),
    {
        index * T::size()
    }

    pub fn id(&self) -> (r: TensorId)
        ensures
            r == self.spec_id(),
    {
        self.id
    }

    /// The identity of the owning session.
    pub fn context(&self) -> (r: u64)
        ensures
            r == self.spec_context(),
    {
        self.context
    }

    pub fn shape(&self) -> (r: Shape)
        ensures
            r == self.spec_shape(),
    {
        self.shape
    }

    pub fn data(&self) -> (r: &TensorBuffer)
        ensures
            r == self.spec_data(),
    {
        &self.data
    }

    /// Allocates a fresh device buffer of exactly the shape's byte size
    /// with this kind's usage flags, attaches the session's cached (or
    /// freshly created) shape-metadata buffer, and returns the tensor
    /// viewing the whole allocation. The device zero-fills fresh
    /// allocations; what this layer guarantees is the allocation's exact
    /// byte size.
    pub fn init(context: &mut Context, shape: Shape) -> (r: Self)
        requires
            old(context).wf(),
            shape.wf(),
            shape.spec_len() * T::spec_size() <= usize::MAX as int,
            old(context).spec_next_tensor() < u64::MAX,
            old(context).spec_next_buffer() < u64::MAX - 1,
        ensures
            final(context).wf(),
            final(context).spec_session() == old(context).spec_session(),
            r.wf(),
            r.spec_shape() == shape,
            r.spec_context() == old(context).spec_session(),
            r.spec_data().offset == 0,
            r.spec_data().buffer.spec_size() == shape.spec_len() * T::spec_size(),
            r.spec_data().buffer.spec_usages() == K::spec_usages(),
            r.spec_data().buffer.spec_session() == old(context).spec_session(),
            spec_issues(*old(context), *final(context), r.spec_id()),
            r.spec_id().spec_issued_by(*final(context)),
            final(context).spec_next_tensor() == old(context).spec_next_tensor() + 1,
            final(context).spec_cached(shape, r.spec_data().shape_buffer),
            old(context).spec_contains(shape) ==> old(context).spec_cached(
                shape,
                r.spec_data().shape_buffer,
            ),
            old(context).spec_contains(shape) ==> final(context).spec_next_buffer() == old(
                context,
            ).spec_next_buffer() + 1,
            !old(context).spec_contains(shape) ==> final(context).spec_next_buffer() == old(
                context,
            ).spec_next_buffer() + 2,
            forall|s: Shape, h: BufferHandle|
                old(context).spec_cached(s, h) ==> #[trigger] final(context).spec_cached(s, h),
    {
        proof {
            K::lemma_usages_nonzero();
        }
        let size_bytes = (shape.len() * T::size()) as u64;
        let buffer = context.allocate_buffer(size_bytes, K::buffer_usages());
        let ghost mid = *context;
        let shape_buffer = context.request_shape_buffer(shape);
        let ghost done = *context;
        let id = TensorId::new(context);
        proof {
            assert(mid.spec_cache() == old(context).spec_cache());
            assert(mid.spec_contains(shape) == old(context).spec_contains(shape));
            assert forall|s: Shape, h: BufferHandle|
                old(context).spec_cached(s, h) implies #[trigger] context.spec_cached(s, h) by {
                assert(mid.spec_cached(s, h));
                assert(done.spec_cached(s, h));
                assert(context.spec_cache() == done.spec_cache());
            }
            assert(context.spec_cached(shape, shape_buffer));
        }
        TensorGpu {
            id,
            context: context.session(),
            shape,
            data: TensorBuffer { shape_buffer, buffer, offset: 0 },
            marker: PhantomData,
        }
    }

    /// A zero-copy sub-view of another accelerator tensor: the new byte
    /// offset is the old one advanced by `offset` elements. The view must
    /// end strictly before the backing allocation's capacity; a view
    /// reaching the boundary exactly is rejected as an overflow, matching
    /// the boundary check this layer uses throughout.
    pub fn from_other(context: &mut Context, other: Self, shape: Shape, offset: usize) -> (r:
        Result<Self, TensorError>)
        requires
            old(context).wf(),
            other.wf(),
            shape.wf(),
            shape.spec_len() * T::spec_size() <= usize::MAX as int,
            offset * T::spec_size() + other.spec_data().offset <= u64::MAX,
            old(context).spec_next_tensor() < u64::MAX,
            old(context).spec_next_buffer() < u64::MAX,
        ensures
            final(context).wf(),
            final(context).spec_session() == old(context).spec_session(),
            match r {
                Ok(t) => {
                    &&& old(context).spec_session() == other.spec_context()
                    &&& other.spec_data().offset + offset * T::spec_size() + shape.spec_len()
                        * T::spec_size() < other.spec_data().buffer.spec_size()
                    &&& t.wf()
                    &&& t.spec_shape() == shape
                    &&& t.spec_data().buffer == other.spec_data().buffer
                    &&& t.spec_data().offset == other.spec_data().offset + offset * T::spec_size()
                    &&& t.spec_context() == other.spec_context()
                    &&& spec_issues(*old(context), *final(context), t.spec_id())
                    &&& t.spec_id().spec_issued_by(*final(context))
                    &&& other.spec_id().spec_issued_by(*old(context)) ==> t.spec_id()
                        != other.spec_id()
                    &&& final(context).spec_next_tensor() == old(context).spec_next_tensor() + 1
                    &&& old(context).spec_contains(shape) ==> final(context).spec_next_buffer()
                        == old(context).spec_next_buffer()
                    &&& !old(context).spec_contains(shape) ==> final(context).spec_next_buffer()
                        == old(context).spec_next_buffer() + 1
                    &&& final(context).spec_cached(shape, t.spec_data().shape_buffer)
                    &&& forall|s: Shape, h: BufferHandle|
                        old(context).spec_cached(s, h) ==> #[trigger] final(context).spec_cached(
                            s,
                            h,
                        )
                },
                Err(e) => {
                    &&& *final(context) == *old(context)
                    &&& if old(context).spec_session() != other.spec_context() {
                        e == TensorError::DeviceError
                    } else {
                        &&& other.spec_data().offset + offset * T::spec_size() + shape.spec_len()
                            * T::spec_size() >= other.spec_data().buffer.spec_size()
                        &&& e == (TensorError::Overflow {
                            buffer: other.spec_data().buffer.spec_size(),
                            offset: (other.spec_data().offset + offset * T::spec_size()) as u64,
                            size: (shape.spec_len() * T::spec_size()) as u64,
                        })
                    }
                },
            },
    {
        if context.session() != other.context {
            return Err(TensorError::DeviceError);
        }
        let t_size = T::size();
        let size = (shape.len() * t_size) as u64;
        let new_offset = (offset as u64) * (t_size as u64) + other.data.offset;
        let cap = other.data.buffer.size();
        if size >= cap || new_offset >= cap - size {
            return Err(TensorError::Overflow { buffer: cap, offset: new_offset, size });
        }
        let shape_buffer = context.request_shape_buffer(shape);
        let ghost done = *context;
        let id = TensorId::new(context);
        proof {
            assert forall|s: Shape, h: BufferHandle|
                old(context).spec_cached(s, h) implies #[trigger] context.spec_cached(s, h) by {
                assert(done.spec_cached(s, h));
                assert(context.spec_cache() == done.spec_cache());
            }
            assert(context.spec_cached(shape, shape_buffer));
        }
        Ok(TensorGpu {
            id,
            context: other.context,
            shape,
            data: TensorBuffer { shape_buffer, buffer: other.data.buffer, offset: new_offset },
            marker: PhantomData,
        })
    }

    /// A zero-copy sub-view selected by three axis ranges: validates them
    /// as the host slicing does, then derives the view through
    /// `from_other`.
    pub fn into_slice(self, context: &mut Context, x: TensorSlice, y: TensorSlice, z: TensorSlice) -> (r:
        Result<Self, TensorError>)
        requires
            self.wf(),
            old(context).wf(),
            old(context).spec_next_tensor() < u64::MAX,
            old(context).spec_next_buffer() < u64::MAX,
        ensures
            final(context).wf(),
            final(context).spec_session() == old(context).spec_session(),
            match r {
                Ok(t) => {
                    &&& self.spec_shape().spec_check_slice(x, y, z) is Ok
                    &&& old(context).spec_session() == self.spec_context()
                    &&& t.wf()
                    &&& t.spec_shape() == self.spec_shape().spec_slice_shape(x, y, z)
                    &&& t.spec_data().buffer == self.spec_data().buffer
                    &&& t.spec_data().offset == self.spec_data().offset + self.spec_shape(
                    ).spec_slice_start(x, y, z) * T::spec_size()
                    &&& t.spec_context() == self.spec_context()
                    &&& spec_issues(*old(context), *final(context), t.spec_id())
                    &&& t.spec_id().spec_issued_by(*final(context))
                    &&& self.spec_id().spec_issued_by(*old(context)) ==> t.spec_id()
                        != self.spec_id()
                    &&& final(context).spec_next_tensor() == old(context).spec_next_tensor() + 1
                    &&& old(context).spec_contains(self.spec_shape().spec_slice_shape(x, y, z))
                        ==> final(context).spec_next_buffer() == old(context).spec_next_buffer()
                    &&& !old(context).spec_contains(self.spec_shape().spec_slice_shape(x, y, z))
                        ==> final(context).spec_next_buffer() == old(context).spec_next_buffer()
                        + 1
                },
                Err(e) => {
                    &&& *final(context) == *old(context)
                    &&& match self.spec_shape().spec_check_slice(x, y, z) {
                        Err(c) => e == c,
                        Ok(()) => if old(context).spec_session() != self.spec_context() {
                            e == TensorError::DeviceError
                        } else {
                            &&& self.spec_data().offset + self.spec_shape().spec_slice_start(
                                x,
                                y,
                                z,
                            ) * T::spec_size() + self.spec_shape().spec_slice_shape(
                                x,
                                y,
                                z,
                            ).spec_len() * T::spec_size() >= self.spec_data().buffer.spec_size()
                            &&& e == (TensorError::Overflow {
                                buffer: self.spec_data().buffer.spec_size(),
                                offset: (self.spec_data().offset + self.spec_shape(
                                ).spec_slice_start(x, y, z) * T::spec_size()) as u64,
                                size: (self.spec_shape().spec_slice_shape(x, y, z).spec_len()
                                    * T::spec_size()) as u64,
                            })
                        },
                    }
                },
            },
    {
        let shape = self.shape;
        match shape.check_slice(x, y, z) {
            Err(e) => Err(e),
            Ok(()) => {
                proof {
                    shape.lemma_contiguous_slice_bounds(x, y, z);
                    assert(self.spec_shape().spec_slice_shape(x, y, z).spec_len() * T::spec_size()
                        <= self.spec_shape().spec_len() * T::spec_size() && self.spec_shape(
                    ).spec_slice_start(x, y, z) * T::spec_size() <= self.spec_shape().spec_len()
                        * T::spec_size()) by (nonlinear_arith)
                        requires
                            0 <= self.spec_shape().spec_slice_shape(x, y, z).spec_len(),
                            0 <= self.spec_shape().spec_slice_start(x, y, z),
                            self.spec_shape().spec_slice_start(x, y, z) + self.spec_shape(
                            ).spec_slice_shape(x, y, z).spec_len() <= self.spec_shape().spec_len(),
                            0 <= T::spec_size(),
                    ;
                }
                let start = shape.slice_start(x, y, z);
                let sub = shape.slice_shape(x, y, z);
                Self::from_other(context, self, sub, start)
            },
        }
    }

    /// The binding descriptor of the shape-metadata buffer: the whole
    /// fixed-width buffer at offset zero.
    pub fn shape_binding(&self) -> (r: BindingView)
        requires
            self.wf(),
        ensures
            r == (BindingView {
                buffer: self.spec_data().shape_buffer,
                offset: 0u64,
                size: SHAPE_BUFFER_SIZE,
            }),
    {
        BindingView { buffer: self.data.shape_buffer, offset: 0, size: SHAPE_BUFFER_SIZE }
    }

    /// The binding descriptor of the tensor's data: its byte range within
    /// the backing allocation.
    pub fn binding(&self) -> (r: BindingView)
        requires
            self.wf(),
        ensures
            r.buffer == self.spec_data().buffer,
            r.offset == self.spec_data().offset,
            r.size == self.spec_shape().spec_len() * T::spec_size(),
    {
        BindingView {
            buffer: self.data.buffer,
            offset: self.data.offset,
            size: self.size() as u64,
        }
    }

    /// Uploads a host tensor: allocates a fresh device buffer of exactly
    /// the host data's byte size and hands back, beside the new tensor, the
    /// canonical byte run the caller must write into that buffer.
    pub fn from_cpu(context: &mut Context, cpu: &TensorCpu<T, K>) -> (r: Result<
        (Self, Vec<u8>),
        TensorError,
    >)
        requires
            old(context).wf(),
            cpu.wf(),
            old(context).spec_next_tensor() < u64::MAX,
            old(context).spec_next_buffer() < u64::MAX - 1,
        ensures
            final(context).wf(),
            final(context).spec_session() == old(context).spec_session(),
            match r {
                Ok(p) => {
                    &&& old(context).spec_session() == cpu.spec_context()
                    &&& p.1@ == spec_encode(cpu.spec_data())
                    &&& p.0.wf()
                    &&& p.0.spec_shape() == cpu.spec_shape()
                    &&& p.0.spec_context() == cpu.spec_context()
                    &&& p.0.spec_data().offset == 0
                    &&& p.0.spec_data().buffer.spec_size() == cpu.spec_shape().spec_len()
                        * T::spec_size()
                    &&& p.0.spec_data().buffer.spec_usages() == K::spec_usages()
                    &&& spec_issues(*old(context), *final(context), p.0.spec_id())
                    &&& p.0.spec_id().spec_issued_by(*final(context))
                    &&& cpu.spec_id().spec_issued_by(*old(context)) ==> p.0.spec_id()
                        != cpu.spec_id()
                    &&& final(context).spec_next_tensor() == old(context).spec_next_tensor() + 1
                    &&& old(context).spec_contains(cpu.spec_shape())
                        ==> final(context).spec_next_buffer()
                        == old(context).spec_next_buffer() + 1
                    &&& !old(context).spec_contains(cpu.spec_shape())
                        ==> final(context).spec_next_buffer()
                        == old(context).spec_next_buffer() + 2
                    &&& final(context).spec_cached(cpu.spec_shape(), p.0.spec_data().shape_buffer)
                },
                Err(e) => {
                    &&& *final(context) == *old(context)
                    &&& e == TensorError::DeviceError
                    &&& old(context).spec_session() != cpu.spec_context()
                },
            },
    {
        if context.session() != cpu.context {
            return Err(TensorError::DeviceError);
        }
        proof {
            K::lemma_usages_nonzero();
            lemma_encode_len::<T>(cpu.spec_data());
        }
        let bytes = encode(cpu.data().as_slice());
        let size = bytes.len() as u64;
        let buffer = context.allocate_buffer(size, K::buffer_usages());
        proof {
            assert(context.spec_cache() == old(context).spec_cache());
            assert(context.spec_contains(cpu.spec_shape()) == old(context).spec_contains(
                cpu.spec_shape(),
            ));
        }
        let shape_buffer = context.request_shape_buffer(cpu.shape);
        let ghost done = *context;
        let id = TensorId::new(context);
        proof {
            assert(done.spec_cached(cpu.spec_shape(), shape_buffer));
            assert(context.spec_cache() == done.spec_cache());
            assert(context.spec_cached(cpu.spec_shape(), shape_buffer));
        }
        let tensor = TensorGpu {
            id,
            context: cpu.context,
            shape: cpu.shape,
            data: TensorBuffer { shape_buffer, buffer, offset: 0 },
            marker: PhantomData,
        };
        Ok((tensor, bytes))
    }

    /// Builds a host tensor, uploads it, and hands back the tensor with the
    /// byte run to write; fails with the size-mismatch error exactly as the
    /// host construction does.
    pub fn from_data(context: &mut Context, shape: Shape, data: Vec<T>) -> (r: Result<
        (Self, Vec<u8>),
        TensorError,
    >)
        requires
            old(context).wf(),
            shape.wf(),
            shape.spec_len() * T::spec_size() <= usize::MAX as int,
            old(context).spec_next_tensor() < u64::MAX - 1,
            old(context).spec_next_buffer() < u64::MAX - 1,
        ensures
            final(context).wf(),
            final(context).spec_session() == old(context).spec_session(),
            match r {
                Ok(p) => {
                    &&& shape.spec_len() == data@.len()
                    &&& p.1@ == spec_encode(data@)
                    &&& p.0.wf()
                    &&& p.0.spec_shape() == shape
                    &&& p.0.spec_context() == old(context).spec_session()
                    &&& p.0.spec_data().offset == 0
                    &&& p.0.spec_data().buffer.spec_size() == shape.spec_len() * T::spec_size()
                    &&& p.0.spec_data().buffer.spec_usages() == K::spec_usages()
                    &&& p.0.spec_id().spec_index() == old(context).spec_next_tensor() + 1
                    &&& p.0.spec_id().spec_issued_by(*final(context))
                    &&& final(context).spec_next_tensor() == old(context).spec_next_tensor() + 2
                    &&& old(context).spec_contains(shape) ==> final(context).spec_next_buffer()
                        == old(context).spec_next_buffer() + 1
                    &&& !old(context).spec_contains(shape) ==> final(context).spec_next_buffer()
                        == old(context).spec_next_buffer() + 2
                },
                Err(e) => {
                    &&& *final(context) == *old(context)
                    &&& shape.spec_len() != data@.len()
                    &&& e == TensorError::Size(shape.spec_len() as usize, data@.len() as usize)
                },
            },
    {
        match TensorCpu::<T, K>::from_data(context, shape, data) {
            Err(e) => Err(e),
            Ok(cpu) => {
                proof {
                    assert(context.spec_contains(shape) == old(context).spec_contains(shape));
                }
                Self::from_cpu(context, &cpu)
            },
        }
    }

    /// Copies borrowed host data and uploads it; the same size check as the
    /// host construction.
    pub fn from_slice(context: &mut Context, shape: Shape, data: &[T]) -> (r: Result<
        (Self, Vec<u8>),
        TensorError,
    >)
        requires
            old(context).wf(),
            shape.wf(),
            shape.spec_len() * T::spec_size() <= usize::MAX as int,
            old(context).spec_next_tensor() < u64::MAX - 1,
            old(context).spec_next_buffer() < u64::MAX - 1,
        ensures
            final(context).wf(),
            final(context).spec_session() == old(context).spec_session(),
            match r {
                Ok(p) => {
                    &&& shape.spec_len() == data@.len()
                    &&& p.1@ == spec_encode(data@)
                    &&& p.0.wf()
                    &&& p.0.spec_shape() == shape
                    &&& p.0.spec_context() == old(context).spec_session()
                    &&& p.0.spec_data().offset == 0
                    &&& p.0.spec_data().buffer.spec_size() == shape.spec_len() * T::spec_size()
                    &&& p.0.spec_data().buffer.spec_usages() == K::spec_usages()
                    &&& p.0.spec_id().spec_index() == old(context).spec_next_tensor() + 1
                    &&& p.0.spec_id().spec_issued_by(*final(context))
                    &&& final(context).spec_next_tensor() == old(context).spec_next_tensor() + 2
                    &&& old(context).spec_contains(shape) ==> final(context).spec_next_buffer()
                        == old(context).spec_next_buffer() + 1
                    &&& !old(context).spec_contains(shape) ==> final(context).spec_next_buffer()
                        == old(context).spec_next_buffer() + 2
                },
                Err(e) => {
                    &&& *final(context) == *old(context)
                    &&& shape.spec_len() != data@.len()
                    &&& e == TensorError::Size(shape.spec_len() as usize, data@.len() as usize)
                },
            },
    {
        match TensorCpu::<T, K>::from_slice(context, shape, data) {
            Err(e) => Err(e),
            Ok(cpu) => {
                proof {
                    assert(context.spec_contains(shape) == old(context).spec_contains(shape));
                }
                Self::from_cpu(context, &cpu)
            },
        }
    }
}

impl Context {
    /// A zero-filled host tensor of the given shape.
    pub fn zeros<T: Scalar, K: Kind>(&mut self, shape: Shape) -> (r: TensorCpu<T, K>)
        requires
            old(self).wf(),
            shape.wf(),
            shape.spec_len() * T::spec_size() <= usize::MAX as int,
            old(self).spec_next_tensor() < u64::MAX,
        ensures
            final(self).wf(),
            final(self).spec_session() == old(self).spec_session(),
            final(self).spec_next_buffer() == old(self).spec_next_buffer(),
            final(self).spec_cache() == old(self).spec_cache(),
            final(self).spec_next_tensor() == old(self).spec_next_tensor() + 1,
            r.wf(),
            r.spec_shape() == shape,
            r.spec_data() == Seq::new(shape.spec_len() as nat, |i: int| T::spec_zero()),
            r.spec_context() == old(self).spec_session(),
            spec_issues(*old(self), *final(self), r.spec_id()),
            r.spec_id().spec_issued_by(*final(self)),
    {
        let data = filled_vec::<T>(shape.len(), T::zero());
        let id = TensorId::new(self);
        TensorCpu { id, context: self.session(), shape, data, marker: PhantomData }
    }

    /// A one-filled host tensor of the given shape.
    pub fn ones<T: Scalar, K: Kind>(&mut self, shape: Shape) -> (r: TensorCpu<T, K>)
        requires
            old(self).wf(),
            shape.wf(),
            shape.spec_len() * T::spec_size() <= usize::MAX as int,
            old(self).spec_next_tensor() < u64::MAX,
        ensures
            final(self).wf(),
            final(self).spec_session() == old(self).spec_session(),
            final(self).spec_next_buffer() == old(self).spec_next_buffer(),
            final(self).spec_cache() == old(self).spec_cache(),
            final(self).spec_next_tensor() == old(self).spec_next_tensor() + 1,
            r.wf(),
            r.spec_shape() == shape,
            r.spec_data() == Seq::new(shape.spec_len() as nat, |i: int| T::spec_one()),
            r.spec_context() == old(self).spec_session(),
            spec_issues(*old(self), *final(self), r.spec_id()),
            r.spec_id().spec_issued_by(*final(self)),
    {
        let data = filled_vec::<T>(shape.len(), T::one());
        let id = TensorId::new(self);
        TensorCpu { id, context: self.session(), shape, data, marker: PhantomData }
    }

    /// A host tensor wrapping the given data; the size check of
    /// `TensorCpu::from_data`.
    pub fn tensor_from_data<T: Scalar, K: Kind>(&mut self, shape: Shape, data: Vec<T>) -> (r:
        Result<TensorCpu<T, K>, TensorError>)
        requires
            old(self).wf(),
            shape.wf(),
            shape.spec_len() * T::spec_size() <= usize::MAX as int,
            old(self).spec_next_tensor() < u64::MAX,
        ensures
            final(self).wf(),
            final(self).spec_session() == old(self).spec_session(),
            final(self).spec_next_buffer() == old(self).spec_next_buffer(),
            final(self).spec_cache() == old(self).spec_cache(),
            match r {
                Ok(t) => shape.spec_len() == data@.len() && t.wf() && t.spec_shape() == shape
                    && t.spec_data() == data@ && t.spec_context() == old(self).spec_session()
                    && spec_issues(*old(self), *final(self), t.spec_id())
                    && t.spec_id().spec_issued_by(*final(self)),
                Err(e) => shape.spec_len() != data@.len() && e == TensorError::Size(
                    shape.spec_len() as usize,
                    data@.len() as usize,
                ) && *final(self) == *old(self),
            },
    {
        TensorCpu::from_data(self, shape, data)
    }

    /// A host tensor copying the given slice; the size check of
    /// `TensorCpu::from_slice`.
    pub fn tensor_from_slice<T: Scalar, K: Kind>(&mut self, shape: Shape, data: &[T]) -> (r: Result<
        TensorCpu<T, K>,
        TensorError,
    >)
        requires
            old(self).wf(),
            shape.wf(),
            shape.spec_len() * T::spec_size() <= usize::MAX as int,
            old(self).spec_next_tensor() < u64::MAX,
        ensures
            final(self).wf(),
            final(self).spec_session() == old(self).spec_session(),
            final(self).spec_next_buffer() == old(self).spec_next_buffer(),
            final(self).spec_cache() == old(self).spec_cache(),
            match r {
                Ok(t) => shape.spec_len() == data@.len() && t.wf() && t.spec_shape() == shape
                    && t.spec_data() == data@ && t.spec_context() == old(self).spec_session()
                    && spec_issues(*old(self), *final(self), t.spec_id())
                    && t.spec_id().spec_issued_by(*final(self)),
                Err(e) => shape.spec_len() != data@.len() && e == TensorError::Size(
                    shape.spec_len() as usize,
                    data@.len() as usize,
                ) && *final(self) == *old(self),
            },
    {
        TensorCpu::from_slice(self, shape, data)
    }

    /// A zero-initialized host tensor of the given shape.
    pub fn init_tensor<T: Scalar, K: Kind>(&mut self, shape: Shape) -> (r: TensorCpu<T, K>)
        requires
            old(self).wf(),
            shape.wf(),
            shape.spec_len() * T::spec_size() <= usize::MAX as int,
            old(self).spec_next_tensor() < u64::MAX,
        ensures
            final(self).wf(),
            final(self).spec_session() == old(self).spec_session(),
            final(self).spec_next_buffer() == old(self).spec_next_buffer(),
            final(self).spec_cache() == old(self).spec_cache(),
            final(self).spec_next_tensor() == old(self).spec_next_tensor() + 1,
            r.wf(),
            r.spec_shape() == shape,
            r.spec_data() == Seq::new(shape.spec_len() as nat, |i: int| T::spec_zero()),
            r.spec_context() == old(self).spec_session(),
            spec_issues(*old(self), *final(self), r.spec_id()),
            r.spec_id().spec_issued_by(*final(self)),
    {
        TensorCpu::init(self, shape)
    }
}

/// A vector of `n` copies of `value`.
fn filled_vec<T: Scalar>(n: usize, value: T) -> (r: Vec<T>)
    ensures
        r@ == Seq::new(n as nat, |i: int| value),
{
    let mut out: Vec<T> = Vec::new();
    let mut i: usize = 0;
    while i < n
        invariant
            i <= n,
            out@ == Seq::new(i as nat, |j: int| value),
        decreases n - i,
    {
        out.push(value);
        proof {
            assert(Seq::new((i + 1) as nat, |j: int| value) =~= Seq::new(
                i as nat,
                |j: int| value,
            ).push(value));
        }
        i = i + 1;
    }
    out
}

} // verus!
