//! Auxiliary public types of the binding layer.

use vstd::prelude::*;

verus! {

/// The next interpreter action requested after an interrupt or hook
/// callback ran.
pub enum VmState {
    /// Continue executing.
    Continue,
    /// Yield the current thread (where the dialect supports yielding
    /// from such a context).
    Yield,
}

/// A marker trait standing for the thread-safety requirement that a
/// thread-safe build would add; the single-threaded build places no
/// requirement, so every type satisfies it.
pub trait MaybeSend {

}

impl<T> MaybeSend for T {

}

/// Information about a function, as the interpreter's debug interface
/// reports it.
pub struct FunctionInfo {
    /// A reasonable name of the function, when one can be found.
    pub name: Option<String>,
    /// What the `name` field means; not reported by this dialect.
    pub name_what: Option<String>,
    /// Whether the function is an interpreter function, a host
    /// function, or the main part of a chunk.
    pub what: String,
    /// Source of the chunk that created the function.
    pub source: Option<String>,
    /// A printable version of `source`, for error messages.
    pub short_src: Option<String>,
    /// The line where the definition starts.
    pub line_defined: Option<usize>,
    /// The line where the definition ends; not reported by this dialect.
    pub last_line_defined: Option<usize>,
}

/// A function coverage snapshot.
pub struct CoverageInfo {
    pub function: Option<String>,
    pub line_defined: i32,
    pub depth: i32,
    pub hits: Vec<i32>,
}

} // verus!
