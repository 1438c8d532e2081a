//! How a file is written.

use vstd::prelude::*;

verus! {

/// Options used for writing a file.
#[derive(Debug, Clone, Copy, PartialEq, Eq)]
pub struct WriteOptions {
    /// Whether the JSON is indented over several lines; where it is not
    /// set, the JSON is written on a single line.
    pub pretty: bool,
}

impl Default for WriteOptions {
    /// The options that write compact JSON.
    fn default() -> (r: WriteOptions)
        ensures
            !r.pretty,
    {
        WriteOptions { pretty: false }
    }
}

} // verus!
