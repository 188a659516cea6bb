//! The sealing trait that closes the capability-marker hierarchy: only
//! types of this crate may implement `Kind`.

use vstd::prelude::*;

verus! {

/// Implemented only inside this crate; keeps the set of buffer-kind markers
/// closed.
pub trait Sealed {

}

} // verus!
