//! Enumeration of the shared libraries loaded into a process, and extraction
//! of each library's structural segments and identity fingerprints from its
//! in-memory executable headers.
//!
//! The header structures are decoded from an explicit byte window with every
//! offset bounds-checked, and validation is strictly layered: no field of a
//! header is read before that header's own signature check has passed.

use vstd::prelude::*;

pub mod bytes;
pub mod pe;
pub mod windows;

verus! {

/// Early-exit signal returned by an enumeration callback.
#[derive(Clone, Copy, Debug, PartialEq, Eq)]
pub enum IterationControl {
    /// Keep enumerating.
    Continue,
    /// Stop after the current module.
    Break,
}

/// A stated virtual memory address: an address as written in a header, before
/// any translation to an actual process address.
#[derive(Clone, Copy, Debug, PartialEq, Eq)]
pub struct Svma(pub usize);

/// The offset between header-stated addresses and actual process addresses,
/// used by this backend's debug-lookup path only.
#[derive(Clone, Copy, Debug, PartialEq, Eq)]
pub struct Bias(pub i64);

/// An identity fingerprint of a loaded module or of its debug information.
#[derive(Debug, PartialEq, Eq)]
pub enum SharedLibraryId {
    /// Image signature: build timestamp and image size.
    PeSignature(u32, u32),
    /// Debug signature: 16-byte unique identifier and age counter.
    PdbSignature(Vec<u8>, u32),
}

} // verus!
