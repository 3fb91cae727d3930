use vstd::prelude::*;

verus! {

/// Parses source files into token lines.
pub struct Parser;

} // verus!
