//! Three-dimensional extents, their linear-index arithmetic, and the
//! slicing engine that validates per-axis ranges and contiguity.

use crate::error::TensorError;
use vstd::prelude::*;

verus! {

/// A fixed-rank, three-dimensional extent under row-major ordering: `x` is
/// the fastest-varying (innermost, contiguous) dimension, `z` the
/// slowest-varying one. The element count is `x * y * z`.
#[derive(Clone, Copy, Debug, PartialEq, Eq, Hash, Structural)]
pub struct Shape {
    pub x: usize,
    pub y: usize,
    pub z: usize,
}

impl Shape {
    /// Addressability: each dimension fits the fixed-width metadata encoding,
    /// and every linear index of a coordinate bounded by this extent fits a
    /// `usize`.
    pub open spec fn wf(self) -> bool {
        &&& self.x <= u32::MAX as usize
        &&& self.y <= u32::MAX as usize
        &&& self.z <= u32::MAX as usize
        &&& self.x as int + self.x as int * self.y as int + self.x as int * self.y as int
            * self.z as int <= usize::MAX as int
    }

    /// The element count of this extent.
    pub open spec fn spec_len(self) -> int {
        self.x as int * self.y as int * self.z as int
    }

    /// The linear index of a coordinate, `x` fastest-varying.
    pub open spec fn spec_index_of(self, cx: int, cy: int, cz: int) -> int {
        cx + cy * self.x as int + cz * (self.x as int * self.y as int)
    }

    pub fn new(x: usize, y: usize, z: usize) -> (r: Shape)
        requires
            x <= u32::MAX as usize,
            y <= u32::MAX as usize,
            z <= u32::MAX as usize,
            x as int + x as int * y as int + x as int * y as int * z as int <= usize::MAX as int,
        ensures
            r == (Shape { x, y, z }),
            r.wf(),
    {
        Shape { x, y, z }
    }

    /// Product of the dimensions.
    pub fn len(&self) -> (r: usize)
        requires
            self.wf(),
        ensures
            r as int == self.spec_len(),
    {
        proof {
            lemma_products_bounded(*self);
        }
        self.x * self.y * self.z
    }

    /// Whether any dimension is zero, that is, whether `len` is zero.
    pub fn is_empty(&self) -> (r: bool)
        requires
            self.wf(),
        ensures
            r == (self.spec_len() == 0),
    {
        proof {
            assert((self.x as int * self.y as int * self.z as int == 0) <==> (self.x == 0
                || self.y == 0 || self.z == 0)) by (nonlinear_arith);
        }
        self.x == 0 || self.y == 0 || self.z == 0
    }

    /// The linear offset of `coord` under row-major ordering, the first
    /// listed dimension varying fastest.
    pub fn shape_index(&self, coord: Shape) -> (r: usize)
        requires
            self.wf(),
            coord.x <= self.x,
            coord.y <= self.y,
            coord.z <= self.z,
        ensures
            r as int == self.spec_index_of(coord.x as int, coord.y as int, coord.z as int),
    {
        proof {
            lemma_products_bounded(*self);
            lemma_index_bounded(*self, coord);
        }
        coord.x + coord.y * self.x + coord.z * (self.x * self.y)
    }

    /// The canonical fixed-width encoding of this extent: four 32-bit words,
    /// the three dimensions padded with a trailing one.
    pub fn to_u32_slice(&self) -> (r: [u32; 4])
        requires
            self.wf(),
        ensures
            r@ == seq![self.x as u32, self.y as u32, self.z as u32, 1u32],
    {
        let r = [self.x as u32, self.y as u32, self.z as u32, 1u32];
        proof {
            assert(r@ =~= seq![self.x as u32, self.y as u32, self.z as u32, 1u32]);
        }
        r
    }
}

/// Every partial product that the index arithmetic of a well-formed shape
/// forms fits a `usize`.
proof fn lemma_products_bounded(s: Shape)
    requires
        s.wf(),
    ensures
        0 <= s.x as int * s.y as int <= usize::MAX as int,
        0 <= s.x as int * s.y as int * s.z as int <= usize::MAX as int,
{
    assert(0 <= s.x as int * s.y as int && 0 <= s.x as int * s.y as int * s.z as int
        && s.x as int * s.y as int <= s.x as int + s.x as int * s.y as int + s.x as int
        * s.y as int * s.z as int && s.x as int * s.y as int * s.z as int <= s.x as int
        + s.x as int * s.y as int + s.x as int * s.y as int * s.z as int) by (nonlinear_arith)
        requires
            s.x >= 0 && s.y >= 0 && s.z >= 0,
    ;
}

/// The linear index of a coordinate bounded by a well-formed shape fits a
/// `usize`.
proof fn lemma_index_bounded(s: Shape, c: Shape)
    requires
        s.wf(),
        c.x <= s.x,
        c.y <= s.y,
        c.z <= s.z,
    ensures
        0 <= s.spec_index_of(c.x as int, c.y as int, c.z as int) <= usize::MAX as int,
{
    assert(0 <= c.x as int + c.y as int * s.x as int + c.z as int * (s.x as int * s.y as int)
        && c.x as int + c.y as int * s.x as int + c.z as int * (s.x as int * s.y as int)
        <= s.x as int + s.x as int * s.y as int + s.x as int * s.y as int * s.z as int) by (nonlinear_arith)
        requires
            0 <= c.x <= s.x && 0 <= c.y <= s.y && 0 <= c.z <= s.z,
    ;
}

/// A shape bounded dimension-wise by a well-formed shape is well-formed.
pub proof fn lemma_wf_shrink(big: Shape, small: Shape)
    requires
        big.wf(),
        small.x <= big.x,
        small.y <= big.y,
        small.z <= big.z,
    ensures
        small.wf(),
{
    assert(small.x as int + small.x as int * small.y as int + small.x as int * small.y as int
        * small.z as int <= big.x as int + big.x as int * big.y as int + big.x as int
        * big.y as int * big.z as int) by (nonlinear_arith)
        requires
            0 <= small.x <= big.x && 0 <= small.y <= big.y && 0 <= small.z <= big.z,
    ;
}

/// A per-axis range specification for slicing: either the axis's full
/// extent, or an explicit `start..end` span.
#[derive(Clone, Copy, Debug, PartialEq, Eq, Structural)]
pub enum TensorSlice {
    /// The whole extent of the axis.
    Full,
    /// The half-open range `start..end` along the axis.
    Span(usize, usize),
}

impl TensorSlice {
    /// The start of the range this specification selects on an axis of
    /// size `dim`.
    pub open spec fn spec_start(self, dim: usize) -> usize {
        match self {
            TensorSlice::Full => 0,
            TensorSlice::Span(s, _) => s,
        }
    }

    /// The end of the range this specification selects on an axis of
    /// size `dim`.
    pub open spec fn spec_end(self, dim: usize) -> usize {
        match self {
            TensorSlice::Full => dim,
            TensorSlice::Span(_, e) => e,
        }
    }

    /// Whether the selected range lies within the axis.
    pub open spec fn spec_valid(self, dim: usize) -> bool {
        self.spec_start(dim) <= self.spec_end(dim) && self.spec_end(dim) <= dim
    }

    /// Whether the selected range is the axis's full extent.
    pub open spec fn spec_full(self, dim: usize) -> bool {
        self.spec_start(dim) == 0 && self.spec_end(dim) == dim
    }

    pub fn start(&self, dim: usize) -> (r: usize)
        ensures
            r == self.spec_start(dim),
    {
        match *self {
            TensorSlice::Full => 0,
            TensorSlice::Span(s, _) => s,
        }
    }

    pub fn end(&self, dim: usize) -> (r: usize)
        ensures
            r == self.spec_end(dim),
    {
        match *self {
            TensorSlice::Full => dim,
            TensorSlice::Span(_, e) => e,
        }
    }

    pub fn valid(&self, dim: usize) -> (r: bool)
        ensures
            r == self.spec_valid(dim),
    {
        let s = self.start(dim);
        let e = self.end(dim);
        s <= e && e <= dim
    }

    pub fn is_full(&self, dim: usize) -> (r: bool)
        ensures
            r == self.spec_full(dim),
    {
        self.start(dim) == 0 && self.end(dim) == dim
    }
}

impl Shape {
    /// The outcome of validating one range per axis against this shape:
    /// each range must lie within its axis, and the combination must select
    /// a contiguous run, which under row-major ordering means that only the
    /// slowest-varying axis may be sliced to less than its full extent.
    pub open spec fn spec_check_slice(self, sx: TensorSlice, sy: TensorSlice, sz: TensorSlice) -> Result<(), TensorError> {
        if !sx.spec_valid(self.x) {
            Err(TensorError::SliceOutOfRange {
                dim: self.x,
                start: sx.spec_start(self.x),
                end: sx.spec_end(self.x),
            })
        } else if !sy.spec_valid(self.y) {
            Err(TensorError::SliceOutOfRange {
                dim: self.y,
                start: sy.spec_start(self.y),
                end: sy.spec_end(self.y),
            })
        } else if !sz.spec_valid(self.z) {
            Err(TensorError::SliceOutOfRange {
                dim: self.z,
                start: sz.spec_start(self.z),
                end: sz.spec_end(self.z),
            })
        } else if !(sx.spec_full(self.x) && sy.spec_full(self.y)) {
            Err(TensorError::SliceNotContiguous)
        } else {
            Ok(())
        }
    }

    /// The extent selected by a slice: the three range lengths.
    pub open spec fn spec_slice_shape(self, sx: TensorSlice, sy: TensorSlice, sz: TensorSlice) -> Shape {
        Shape {
            x: (sx.spec_end(self.x) - sx.spec_start(self.x)) as usize,
            y: (sy.spec_end(self.y) - sy.spec_start(self.y)) as usize,
            z: (sz.spec_end(self.z) - sz.spec_start(self.z)) as usize,
        }
    }

    /// The linear index where a slice begins: the index of the three range
    /// starts.
    pub open spec fn spec_slice_start(self, sx: TensorSlice, sy: TensorSlice, sz: TensorSlice) -> int {
        self.spec_index_of(
            sx.spec_start(self.x) as int,
            sy.spec_start(self.y) as int,
            sz.spec_start(self.z) as int,
        )
    }

    /// Validates one range per axis, reporting the first out-of-range axis
    /// in `x`, `y`, `z` order, then the contiguity of the combination.
    pub fn check_slice(&self, sx: TensorSlice, sy: TensorSlice, sz: TensorSlice) -> (r: Result<
        (),
        TensorError,
    >)
        ensures
            r == self.spec_check_slice(sx, sy, sz),
    {
        if !sx.valid(self.x) {
            Err(TensorError::SliceOutOfRange {
                dim: self.x,
                start: sx.start(self.x),
                end: sx.end(self.x),
            })
        } else if !sy.valid(self.y) {
            Err(TensorError::SliceOutOfRange {
                dim: self.y,
                start: sy.start(self.y),
                end: sy.end(self.y),
            })
        } else if !sz.valid(self.z) {
            Err(TensorError::SliceOutOfRange {
                dim: self.z,
                start: sz.start(self.z),
                end: sz.end(self.z),
            })
        } else if !(sx.is_full(self.x) && sy.is_full(self.y)) {
            Err(TensorError::SliceNotContiguous)
        } else {
            Ok(())
        }
    }

    /// The extent a validated slice selects.
    pub fn slice_shape(&self, sx: TensorSlice, sy: TensorSlice, sz: TensorSlice) -> (r: Shape)
        requires
            self.wf(),
            self.spec_check_slice(sx, sy, sz) is Ok,
        ensures
            r == self.spec_slice_shape(sx, sy, sz),
            r.wf(),
            r.x <= self.x,
            r.y <= self.y,
            r.z <= self.z,
    {
        let x = sx.end(self.x) - sx.start(self.x);
        let y = sy.end(self.y) - sy.start(self.y);
        let z = sz.end(self.z) - sz.start(self.z);
        let r = Shape { x, y, z };
        proof {
            lemma_wf_shrink(*self, r);
        }
        r
    }

    /// With both faster axes taken in full, slicing succeeds for every
    /// slowest-axis range that lies within its bound; and whenever a faster
    /// axis is sliced to less than its full extent, the combination is
    /// rejected as non-contiguous, wherever the partial range lies.
    pub proof fn lemma_outer_axis_contiguity(
        self,
        sx: TensorSlice,
        sy: TensorSlice,
        sz: TensorSlice,
    )
        requires
            sx.spec_valid(self.x),
            sy.spec_valid(self.y),
            sz.spec_valid(self.z),
        ensures
            sx.spec_full(self.x) && sy.spec_full(self.y) ==> self.spec_check_slice(sx, sy, sz) is Ok,
            !(sx.spec_full(self.x) && sy.spec_full(self.y)) ==> self.spec_check_slice(sx, sy, sz)
                == Result::<(), TensorError>::Err(TensorError::SliceNotContiguous),
    {
    }

    /// The linear indices a contiguous slice selects form one run inside
    /// the sliced extent: the run starts at a nonnegative index and ends at
    /// or before the element count.
    pub proof fn lemma_contiguous_slice_bounds(self, sx: TensorSlice, sy: TensorSlice, sz: TensorSlice)
        requires
            self.wf(),
            self.spec_check_slice(sx, sy, sz) is Ok,
        ensures
            0 <= self.spec_slice_shape(sx, sy, sz).spec_len(),
            0 <= self.spec_slice_start(sx, sy, sz),
            self.spec_slice_start(sx, sy, sz) + self.spec_slice_shape(sx, sy, sz).spec_len()
                <= self.spec_len(),
    {
        let zs = sz.spec_start(self.z) as int;
        let ze = sz.spec_end(self.z) as int;
        let xi = self.x as int;
        let yi = self.y as int;
        let zi = self.z as int;
        assert(sx.spec_full(self.x) && sy.spec_full(self.y) && sz.spec_valid(self.z));
        assert(self.spec_slice_start(sx, sy, sz) == zs * (xi * yi));
        assert(self.spec_slice_shape(sx, sy, sz).spec_len() == xi * yi * (ze - zs));
        assert(0 <= zs * (xi * yi) && 0 <= xi * yi * (ze - zs) && zs * (xi * yi) + xi * yi * (ze
            - zs) <= xi * yi * zi) by (nonlinear_arith)
            requires
                0 <= xi && 0 <= yi && 0 <= zs && zs <= ze && ze <= zi,
        ;
    }

    /// The linear index where a validated slice begins.
    pub fn slice_start(&self, sx: TensorSlice, sy: TensorSlice, sz: TensorSlice) -> (r: usize)
        requires
            self.wf(),
            self.spec_check_slice(sx, sy, sz) is Ok,
        ensures
            r as int == self.spec_slice_start(sx, sy, sz),
    {
        let coord = Shape { x: sx.start(self.x), y: sy.start(self.y), z: sz.start(self.z) };
        self.shape_index(coord)
    }
}

} // verus!
