//! Dumps the runtime class registry of a frozen native program.
//!
//! The crate locates a class-registry table inside a byte snapshot of a
//! process image by scanning for wildcarded byte patterns, then walks the
//! self-describing type model the table points at, producing one neutral
//! tree-shaped document per class (default property values, layout metadata,
//! container and map capability details).
//!
//! Everything the walk depends on is taken as plain data: a [`memory::Memory`]
//! snapshot stands for the target's address space, and capability tables
//! record the results their operations report in that frozen world.

use vstd::prelude::*;

pub mod doc;
pub mod memory;
pub mod meta;
pub mod meta_dump;
pub mod module_info;
pub mod scanner;

verus! {

/// The failure taxonomy of a dump run.
///
/// Every variant but `PartialRead` is fatal to the enclosing run; a partial
/// read never surfaces as an error because unreadable pages are zero-filled
/// where they are met.
#[derive(Debug, Clone, Copy, PartialEq, Eq, Structural)]
pub enum MetaError {
    /// No pattern yielded a non-null resolved address.
    PatternNotFound,
    /// A registry pointer or class reference dereferenced to null.
    RegistryNotFound,
    /// A construct or destroy hook was needed but the class lacks it.
    UnavailableOperation,
    /// An unmodeled native layout was met: a non-empty map, a composite kind
    /// nested where only scalars may stand, a missing capability or class
    /// reference, or a string that is not valid UTF-8.
    UnsupportedState,
}

} // verus!
