//! The version gate for builds that compile generated code and runtime from
//! one source snapshot, where the two cannot drift apart.
use vstd::prelude::*;

verus! {

/// The same operation as `version::assert_compatible_gencode_version`, for
/// builds where generated code and runtime always come from one snapshot: no
/// comparison is needed, so it accepts every version.
pub fn assert_compatible_gencode_version(_gencode_version: &'static str) {
}

} // verus!
