//! Lists of strings, as contracts see them.

use vstd::prelude::*;

verus! {

/// The texts of a list of strings.
pub open spec fn texts_of(strings: Seq<String>) -> Seq<Seq<char>> {
    strings.map_values(|string: String| string@)
}

} // verus!
