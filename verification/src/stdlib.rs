//! Base standard-library flags and loading.
//!
//! Which base libraries are loaded into an instance is tracked as a
//! bitflag set; loading is keyed by it, and safe mode refuses the
//! unsafe debug library.

use vstd::prelude::*;
use vstd::string::StringExecFns;
use crate::error::Error;
use crate::error::ErrorKind;
use crate::state::Lua;

verus! {

/// Flags describing a set of base standard libraries.
#[derive(Clone, Copy, PartialEq, Eq, Structural, Debug)]
pub struct StdLib(pub u32);

impl StdLib {
    /// No libraries.
    pub fn none() -> (r: StdLib)
        ensures
            r.0 == 0,
    {
        StdLib(0)
    }

    /// The coroutine library.
    pub fn coroutine() -> (r: StdLib)
        ensures
            r.0 == 1u32,
    {
        StdLib(1)
    }

    /// The table library.
    pub fn table() -> (r: StdLib)
        ensures
            r.0 == 2u32,
    {
        StdLib(2)
    }

    /// The operating-system library.
    pub fn os() -> (r: StdLib)
        ensures
            r.0 == 4u32,
    {
        StdLib(4)
    }

    /// The string library.
    pub fn string_lib() -> (r: StdLib)
        ensures
            r.0 == 8u32,
    {
        StdLib(8)
    }

    /// The UTF-8 library.
    pub fn utf8() -> (r: StdLib)
        ensures
            r.0 == 16u32,
    {
        StdLib(16)
    }

    /// The bit-manipulation library.
    pub fn bit() -> (r: StdLib)
        ensures
            r.0 == 32u32,
    {
        StdLib(32)
    }

    /// The buffer library.
    pub fn buffer() -> (r: StdLib)
        ensures
            r.0 == 64u32,
    {
        StdLib(64)
    }

    /// The vector library.
    pub fn vector() -> (r: StdLib)
        ensures
            r.0 == 128u32,
    {
        StdLib(128)
    }

    /// The math library.
    pub fn math() -> (r: StdLib)
        ensures
            r.0 == 256u32,
    {
        StdLib(256)
    }

    /// The debug library (unsafe: refused in safe mode).
    pub fn debug() -> (r: StdLib)
        ensures
            r.0 == 512u32,
    {
        StdLib(512)
    }

    /// Every library.
    pub fn all() -> (r: StdLib)
        ensures
            r.0 == u32::MAX,
    {
        StdLib(u32::MAX)
    }

    /// Whether this set overlaps the given one.
    pub fn contains(self, lib: StdLib) -> (r: bool)
        ensures
            r == ((self.0 & lib.0) != 0),
    {
        (self.0 & lib.0) != 0
    }

    /// The union of two sets.
    pub fn union(self, other: StdLib) -> (r: StdLib)
        ensures
            r.0 == (self.0 | other.0),
    {
        StdLib(self.0 | other.0)
    }
}

impl Lua {
    /// Loads the given subset of the base standard libraries into this
    /// instance. In safe mode the unsafe debug library is refused with
    /// a safety error; otherwise the loaded-library set grows by the
    /// requested flags.
    pub fn load_std_libs(&mut self, libs: StdLib) -> (r: Result<(), Error>)
        requires
            old(self).wf(),
        ensures
            final(self).wf(),
            r is Err <==> (old(self).safe && (libs.0 & 512u32) != 0),
            r matches Err(e) ==> e.spec_kind() == ErrorKind::Safety && final(self).libs == old(
                self,
            ).libs,
            r is Ok ==> final(self).libs == (old(self).libs | libs.0),
            final(self).refs_unchanged(old(self)),
            final(self).failure_unchanged(old(self)),
            final(self).threads_unchanged(old(self)),
            final(self).heap_unchanged(old(self)),
            final(self).ref_max_slots == old(self).ref_max_slots,
            final(self).memory_limit == old(self).memory_limit,
            final(self).disable_error_userdata == old(self).disable_error_userdata,
            final(self).safe == old(self).safe,
            final(self).lute == old(self).lute,
            final(self).registry_unref_list == old(self).registry_unref_list,
    {
        if self.safe && (libs.0 & 512) != 0 {
            proof {
                reveal_strlit("the unsafe debug library cannot be loaded in safe mode");
            }
            return Err(
                Error::SafetyError(
                    String::from_str("the unsafe debug library cannot be loaded in safe mode"),
                ),
            );
        }
        self.libs = self.libs | libs.0;
        Ok(())
    }
}

} // verus!
