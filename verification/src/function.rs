//! Handles to interpreter function values.

use vstd::prelude::*;
use crate::state::ValueRef;

verus! {

/// A handle to an interpreter function, pinned in the reference pool.
#[derive(Debug)]
pub struct Function(pub ValueRef);

} // verus!
