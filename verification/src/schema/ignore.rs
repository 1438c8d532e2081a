//! Which attributes are left out of a written file.

use crate::ordered_map::OrderedMap;
use vstd::prelude::*;

verus! {

/// Whether `scripts` is left out of a written file: exactly when it holds
/// no entry.
pub fn ignore_scripts(scripts: &OrderedMap<String>) -> (r: bool)
    ensures
        r == (scripts@.len() == 0),
{
    scripts.is_empty()
}

} // verus!
