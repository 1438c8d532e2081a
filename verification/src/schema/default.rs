//! The values of the attributes that have a default.

use crate::ordered_map::OrderedMap;
use vstd::prelude::*;

verus! {

/// The entry point of a package that names none.
pub fn main() -> (r: String)
    ensures
        r@ == "index.js"@,
{
    "index.js".to_owned()
}

/// The scripts of a package that names none: an empty mapping.
pub fn scripts() -> (r: OrderedMap<String>)
    ensures
        r@ == Seq::<(Seq<char>, Seq<char>)>::empty(),
{
    OrderedMap::new()
}

/// The module system of a package that names none.
pub fn type_() -> (r: String)
    ensures
        r@ == "commonjs"@,
{
    "commonjs".to_owned()
}

} // verus!
