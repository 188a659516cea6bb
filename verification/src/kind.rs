//! Buffer-kind capability markers. The kind of a tensor is fixed at the
//! type level and determines which hardware-buffer usage flags its
//! allocation requests, and thereby which operations are legal for it.

use crate::sealed::Sealed;
use vstd::prelude::*;

verus! {

/// A buffer's usage may name the mappable-for-read capability.
pub const BUFFER_USAGE_MAP_READ: u32 = 1;

/// A buffer's usage may name the copy-destination capability.
pub const BUFFER_USAGE_COPY_DST: u32 = 8;

/// A buffer's usage may name the copy-source capability.
pub const BUFFER_USAGE_COPY_SRC: u32 = 4;

/// A buffer's usage may name the uniform-binding capability.
pub const BUFFER_USAGE_UNIFORM: u32 = 64;

/// A buffer's usage may name the storage-binding capability.
pub const BUFFER_USAGE_STORAGE: u32 = 128;

/// Usage flags of general read-write compute storage.
pub const READ_WRITE_USAGES: u32 = BUFFER_USAGE_STORAGE + BUFFER_USAGE_COPY_DST
    + BUFFER_USAGE_COPY_SRC;

/// Usage flags of host-mappable read-back storage.
pub const READ_BACK_USAGES: u32 = BUFFER_USAGE_MAP_READ + BUFFER_USAGE_COPY_DST;

/// A closed class of accelerator-buffer usages, fixed at the type level: a
/// tensor's kind never changes, and a buffer is always allocated with its
/// kind's usage flags, which are never zero.
pub trait Kind: Sealed {
    /// The usage flags a buffer of this kind is allocated with.
    spec fn spec_usages() -> u32;

    /// No kind requests an allocation with zero usage flags.
    proof fn lemma_usages_nonzero()
        ensures
            Self::spec_usages() != 0,
    ;

    fn buffer_usages() -> (r: u32)
        ensures
            r == Self::spec_usages(),
    ;
}

/// The tensor is a small read-only uniform buffer; shape-metadata buffers
/// are always this kind.
pub struct Uniform;

/// The tensor is general compute storage, copyable to and from other
/// buffers.
pub struct ReadWrite;

/// The tensor is a destination-only buffer that may additionally be mapped
/// into host-visible memory for reading results.
pub struct ReadBack;

impl Sealed for Uniform {

}

impl Sealed for ReadWrite {

}

impl Sealed for ReadBack {

}

impl Kind for Uniform {
    open spec fn spec_usages() -> u32 {
        BUFFER_USAGE_UNIFORM
    }

    proof fn lemma_usages_nonzero() {
    }

    fn buffer_usages() -> (r: u32) {
        BUFFER_USAGE_UNIFORM
    }
}

impl Kind for ReadWrite {
    open spec fn spec_usages() -> u32 {
        READ_WRITE_USAGES
    }

    proof fn lemma_usages_nonzero() {
    }

    fn buffer_usages() -> (r: u32) {
        READ_WRITE_USAGES
    }
}

impl Kind for ReadBack {
    open spec fn spec_usages() -> u32 {
        READ_BACK_USAGES
    }

    proof fn lemma_usages_nonzero() {
    }

    fn buffer_usages() -> (r: u32) {
        READ_BACK_USAGES
    }
}

} // verus!
