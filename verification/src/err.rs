//! Errors of a generation pass.
//!
//! All of these abort the pass: they are author-time limitations or policy
//! conflicts, never conditions generated code could hit at runtime.

use vstd::prelude::*;

verus! {

/// Why a generation pass was aborted.
#[derive(Clone, Copy, PartialEq, Eq, Structural, Debug)]
pub enum GenError {
    /// A core-wasm signature with more than one result: unsupported, and the
    /// function is rejected before any code is emitted for it.
    MultiValueReturn,
    /// A canonical-ABI feature this backend does not implement (futures,
    /// streams, error contexts, compact UTF-16).
    Unsupported,
    /// A name was registered twice.
    AlreadyDefined,
    /// A type identity was registered twice.
    DuplicateType,
    /// A resource was registered twice.
    DuplicateResource,
    /// Autodrop is enabled, but a borrowed handle would have to survive past
    /// the function boundary (in a list, or in a return value), where there is
    /// no valid point to drop it.
    BorrowEscapes,
    /// A lookup of a name or resource that registration should have created:
    /// the input graph was not processed in dependency order.
    MissingEntry,
    /// A type reference outside the type table.
    BadTypeIndex,
    /// Resources exported directly from a world (not through an interface)
    /// are not supported.
    WorldResourceExport,
    /// An instruction was handed the wrong number of operands or blocks, or
    /// named a type of the wrong shape.
    BadInstruction,
}

impl GenError {
    /// A short diagnostic text for this error.
    pub fn message(&self) -> (r: &'static str) {
        match self {
            GenError::MultiValueReturn => "multi-value return not supported",
            GenError::Unsupported => "unsupported canonical ABI feature",
            GenError::AlreadyDefined => "name already defined",
            GenError::DuplicateType => "type registered twice",
            GenError::DuplicateResource => "resource registered twice",
            GenError::BorrowEscapes => "unable to autodrop borrows here, please disable autodrop",
            GenError::MissingEntry => "name or resource looked up before it was defined",
            GenError::BadTypeIndex => "type reference outside the type table",
            GenError::WorldResourceExport => "resource exports from worlds are not supported",
            GenError::BadInstruction => "instruction does not fit its operands or type",
        }
    }
}

} // verus!
