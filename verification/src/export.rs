//! Export value descriptors: what one instance hands to another when a
//! table, a memory or a global is shared, and the identity tests the
//! linker applies to them.

use vstd::prelude::*;
use std::sync::Arc;
use crate::location::WpType;

verus! {

/// The type of a table: element kind and size bounds.
#[derive(Clone, Copy, Debug, PartialEq, Eq, Structural)]
pub struct TableType {
    /// The kind of element the table holds.
    pub ty: WpType,
    /// The minimum number of elements.
    pub minimum: u32,
    /// The maximum number of elements, if bounded.
    pub maximum: Option<u32>,
}

/// How a table is implemented by the runtime.
#[derive(Clone, Copy, Debug, PartialEq, Eq, Structural)]
pub enum TableStyle {
    /// Signatures are checked against the caller's expectation on entry.
    CallerChecksSignature,
}

/// The type of a linear memory: size bounds in pages, and sharedness.
#[derive(Clone, Copy, Debug, PartialEq, Eq, Structural)]
pub struct MemoryType {
    /// The minimum number of pages.
    pub minimum: u32,
    /// The maximum number of pages, if bounded.
    pub maximum: Option<u32>,
    /// Whether the memory is shared between threads.
    pub shared: bool,
}

/// How a linear memory is implemented by the runtime.
#[derive(Clone, Copy, Debug, PartialEq, Eq, Structural)]
pub enum MemoryStyle {
    /// The memory grows by moving; bounds are checked dynamically.
    Dynamic {
        /// Bytes of guard region past the mapped pages.
        offset_guard_size: u64,
    },
    /// The memory is reserved up to a static bound.
    Static {
        /// The static bound, in pages.
        bound: u32,
        /// Bytes of guard region past the mapped pages.
        offset_guard_size: u64,
    },
}

/// A table instance as the export machinery sees it.
#[derive(Clone, Copy, Debug, PartialEq, Eq, Structural)]
pub struct VmTable {
    /// The table's type.
    pub ty: TableType,
    /// The table's implementation style.
    pub style: TableStyle,
}

/// A memory instance as the export machinery sees it.
#[derive(Clone, Copy, Debug, PartialEq, Eq, Structural)]
pub struct VmMemory {
    /// The memory's type.
    pub ty: MemoryType,
    /// The memory's implementation style.
    pub style: MemoryStyle,
}

/// A global instance as the export machinery sees it.
#[derive(Clone, Copy, Debug, PartialEq, Eq, Structural)]
pub struct VmGlobal {
    /// The kind of value the global holds.
    pub ty: WpType,
    /// Whether the global may be written after instantiation.
    pub mutability: bool,
}

/// Relies on std::sync::Arc::ptr_eq: it returns true only when both
/// arguments point to one allocation, in which case they hold one value.
#[verifier::external_body]
fn arc_same<T>(a: &Arc<T>, b: &Arc<T>) -> (r: bool)
    ensures
        r ==> a == b,
{
    Arc::ptr_eq(a, b)
}

/// A table export value.
#[derive(Clone)]
pub struct ExportTable {
    /// Pointer to the containing table.
    pub from: Arc<VmTable>,
}

impl ExportTable {
    /// Get the table type for this exported table.
    pub fn ty(&self) -> (r: &TableType)
        ensures
            *r == self.from.ty,
    {
        &self.from.ty
    }

    /// Get the style for this exported table.
    pub fn style(&self) -> (r: &TableStyle)
        ensures
            *r == self.from.style,
    {
        &self.from.style
    }

    /// Whether the two exports refer to the very same table; if so, they
    /// describe one value.
    pub fn same(&self, other: &Self) -> (r: bool)
        ensures
            r ==> self.from == other.from,
    {
        arc_same(&self.from, &other.from)
    }
}

/// A memory export value.
#[derive(Clone)]
pub struct ExportMemory {
    /// Pointer to the containing memory.
    pub from: Arc<VmMemory>,
}

impl ExportMemory {
    /// Get the type for this exported memory.
    pub fn ty(&self) -> (r: &MemoryType)
        ensures
            *r == self.from.ty,
    {
        &self.from.ty
    }

    /// Get the style for this exported memory.
    pub fn style(&self) -> (r: &MemoryStyle)
        ensures
            *r == self.from.style,
    {
        &self.from.style
    }

    /// Whether the two exports refer to the very same memory; if so,
    /// they describe one value.
    pub fn same(&self, other: &Self) -> (r: bool)
        ensures
            r ==> self.from == other.from,
    {
        arc_same(&self.from, &other.from)
    }
}

/// A global export value.
#[derive(Clone)]
pub struct ExportGlobal {
    /// The global declaration, used for compatibility checking.
    pub from: Arc<VmGlobal>,
}

impl ExportGlobal {
    /// Whether the two exports refer to the very same global; if so,
    /// they describe one value.
    pub fn same(&self, other: &Self) -> (r: bool)
        ensures
            r ==> self.from == other.from,
    {
        arc_same(&self.from, &other.from)
    }
}

} // verus!
