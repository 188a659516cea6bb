//! Error values of the tensor layer. Every failure here is a recoverable
//! value returned to the immediate caller; none aborts the process.

use crate::shape::Shape;
use vstd::prelude::*;

verus! {

/// A failure of the tensor layer, or of the dispatch layer that shares this
/// taxonomy.
#[derive(Clone, Copy, Debug, PartialEq, Eq, Structural)]
pub enum TensorError {
    /// Supplied data length does not match the element count implied by a
    /// shape (expected, got).
    Size(usize, usize),
    /// Two tensors expected to share a shape for a combined operation do
    /// not; reported with both shapes by the dispatch layer.
    Shape(Shape, Shape),
    /// A requested per-axis range exceeds that axis's bound; `dim` is the
    /// dimension size, `start..end` the requested range.
    SliceOutOfRange { dim: usize, start: usize, end: usize },
    /// The requested slice combination is not representable as a single
    /// contiguous offset + length view.
    SliceNotContiguous,
    /// A derived view's byte range would reach or exceed its backing
    /// buffer's capacity.
    Overflow { buffer: u64, offset: u64, size: u64 },
    /// A compute pipeline was not found; surfaced by the dispatch layer.
    PipelineError,
    /// An operation combined tensors or resources of different sessions.
    DeviceError,
}

} // verus!
