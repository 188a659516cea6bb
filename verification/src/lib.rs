//! A typed tensor layer that unifies host-resident and accelerator-resident
//! numeric buffers: shape arithmetic, contiguous sub-views, a per-session
//! shape-metadata cache, and the binding descriptors a compute-dispatch layer
//! consumes. The device session itself (allocation, mapping, submission) is an
//! external collaborator; this crate proves the addressing math that the
//! collaborator is handed.

mod sealed;

pub mod context;
pub mod error;
pub mod kind;
pub mod num;
pub mod shape;
pub mod tensor;

pub use context::{BufferHandle, Context, ShapeCache};
pub use error::TensorError;
pub use kind::{Kind, ReadBack, ReadWrite, Uniform};
pub use num::Scalar;
pub use shape::{Shape, TensorSlice};
pub use tensor::{BindingView, TensorBuffer, TensorCpu, TensorGpu, TensorId};
