//! The entries of a sparse feature vector.

use vstd::prelude::*;
use crate::double::Double;

verus! {

/// The index that marks the end of a sparse vector.
pub const SENTINEL_INDEX: i32 = -1;

/// One entry of a sparse vector: a feature index and the feature's value.
///
/// A feature index is one or more.  The index [`SENTINEL_INDEX`] marks the
/// terminator, whose value nobody reads.
#[derive(Clone, Copy, Debug, PartialEq, Eq, Structural)]
pub struct SvmNode(pub i32, pub Double);

impl SvmNode {
    /// The node is a terminator.
    pub open spec fn is_sentinel(self) -> bool {
        self.0 == SENTINEL_INDEX
    }

    /// The node carries a feature: its index is one or more.
    pub open spec fn is_feature(self) -> bool {
        self.0 >= 1
    }

    /// The node may stand in a sparse vector.
    pub open spec fn is_valid(self) -> bool {
        self.is_sentinel() || self.is_feature()
    }
}

/// The terminator that the library appends where the input brought none.
pub open spec fn sentinel() -> SvmNode {
    SvmNode(SENTINEL_INDEX, Double { bits: 0 })
}

} // verus!
