//! The faults the library reports to its callers.

use vstd::prelude::*;

verus! {

/// Why the library turned an input away.
#[derive(Debug, PartialEq, Eq)]
pub enum SvmError {
    /// A sparse vector holds an index that is neither a feature index (one or
    /// more) nor the terminator (minus one).  `position` is where the first
    /// such node stands in the input, `index` is what it holds.
    InvalidIndex { position: usize, index: i32 },
    /// The engine's validation found the parameter set unfit for the problem.
    /// `detail` is the engine's diagnostic, word for word.
    InvalidParameter { detail: String },
}

} // verus!
