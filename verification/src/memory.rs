//! The engine's memory statistics, as plain counters.
//!
//! The engine boundary fills this from its own accounting; the fields carry
//! sizes and counts in the engine's units (bytes for sizes).

use vstd::prelude::*;
use vstd::string::StringExecFns;
use crate::text::{spec_i64_dec, i64_to_dec};

verus! {

/// A snapshot of the engine's memory accounting.
#[derive(Debug, Clone, Copy, PartialEq, Eq, Structural)]
pub struct MemoryUsage {
    /// Bytes the allocator handed out.
    pub malloc_size: i64,
    /// The allocator's configured ceiling.
    pub malloc_limit: i64,
    /// Bytes in live use.
    pub memory_used_size: i64,
    /// Outstanding allocations.
    pub malloc_count: i64,
    /// Live allocations.
    pub memory_used_count: i64,
    /// Interned atoms.
    pub atom_count: i64,
    /// Bytes held by interned atoms.
    pub atom_size: i64,
    /// Live strings.
    pub str_count: i64,
    /// Bytes held by strings.
    pub str_size: i64,
    /// Live objects.
    pub obj_count: i64,
    /// Bytes held by objects.
    pub obj_size: i64,
    /// Live properties.
    pub prop_count: i64,
    /// Bytes held by properties.
    pub prop_size: i64,
    /// Live shapes.
    pub shape_count: i64,
    /// Bytes held by shapes.
    pub shape_size: i64,
    /// Live script functions.
    pub js_func_count: i64,
    /// Bytes held by script functions.
    pub js_func_size: i64,
    /// Bytes of compiled function code.
    pub js_func_code_size: i64,
    /// Line-number table entries.
    pub js_func_pc2line_count: i64,
    /// Bytes held by line-number tables.
    pub js_func_pc2line_size: i64,
    /// Native functions exposed to script.
    pub c_func_count: i64,
    /// Live arrays.
    pub array_count: i64,
    /// Arrays in the engine's fast representation.
    pub fast_array_count: i64,
    /// Elements held by fast arrays.
    pub fast_array_elements: i64,
    /// Live binary objects.
    pub binary_object_count: i64,
    /// Bytes held by binary objects.
    pub binary_object_size: i64,
}

/// The one-line rendering of a snapshot.
pub open spec fn spec_memory_summary(m: MemoryUsage) -> Seq<char> {
    "Memory: "@ + spec_i64_dec(m.memory_used_size) + " bytes, Objects: "@ + spec_i64_dec(
        m.obj_count,
    ) + ", Functions: "@ + spec_i64_dec(m.js_func_count) + ", Strings: "@ + spec_i64_dec(
        m.str_count,
    )
}

impl MemoryUsage {
    /// Total bytes in live use.
    pub fn total_memory(&self) -> (r: i64)
        ensures
            r == self.memory_used_size,
    {
        self.memory_used_size
    }

    /// Total outstanding allocations.
    pub fn total_allocations(&self) -> (r: i64)
        ensures
            r == self.malloc_count,
    {
        self.malloc_count
    }

    /// A one-line human-readable summary of the snapshot.
    pub fn summary(&self) -> (r: String)
        ensures
            r@ == spec_memory_summary(*self),
    {
        let mut s = String::from_str("Memory: ");
        let used = i64_to_dec(self.memory_used_size);
        s.append(used.as_str());
        s.append(" bytes, Objects: ");
        let objs = i64_to_dec(self.obj_count);
        s.append(objs.as_str());
        s.append(", Functions: ");
        let funcs = i64_to_dec(self.js_func_count);
        s.append(funcs.as_str());
        s.append(", Strings: ");
        let strs = i64_to_dec(self.str_count);
        s.append(strs.as_str());
        proof {
            assert(s@ =~= spec_memory_summary(*self));
        }
        s
    }
}

} // verus!
