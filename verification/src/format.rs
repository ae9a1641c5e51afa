//! Where the recorded wire formats of the serialised types are kept.

use vstd::prelude::*;

verus! {

/// The path of the default output file, relative to the crate that records
/// the formats.
pub open spec fn spec_output_file() -> Seq<char> {
    "tests/staged/aptos.yaml"@
}

/// Default output file.
pub fn output_file() -> (path: Option<&'static str>)
    ensures
        path matches Some(p) && p@ == spec_output_file(),
{
    Some("tests/staged/aptos.yaml")
}

} // verus!
